use lightnovel_cli::error::Error;
use lightnovel_cli::resource::{
    archive_path, get_image_name_from_path, Resolution, ResourceCache,
};

fn crc32(bytes: &[u8]) -> u32 {
    let mut crc: u32 = 0xffff_ffff;
    for b in bytes {
        crc ^= *b as u32;
        for _ in 0..8 {
            crc = if crc & 1 == 1 { (crc >> 1) ^ 0xedb8_8320 } else { crc >> 1 };
        }
    }
    !crc
}

fn chunk(kind: &[u8; 4], data: &[u8]) -> Vec<u8> {
    let mut out = Vec::new();
    out.extend_from_slice(&(data.len() as u32).to_be_bytes());
    let mut body = kind.to_vec();
    body.extend_from_slice(data);
    out.extend_from_slice(&body);
    out.extend_from_slice(&crc32(&body).to_be_bytes());
    out
}

fn png(width: u32, height: u32) -> Vec<u8> {
    let mut out = vec![0x89, b'P', b'N', b'G', 0x0d, 0x0a, 0x1a, 0x0a];
    let mut header = Vec::new();
    header.extend_from_slice(&width.to_be_bytes());
    header.extend_from_slice(&height.to_be_bytes());
    header.extend_from_slice(&[8, 2, 0, 0, 0]);
    out.extend(chunk(b"IHDR", &header));
    out.extend(chunk(b"IDAT", &[0x78, 0x9c, 0x03, 0x00, 0x00, 0x00, 0x00, 0x01]));
    out.extend(chunk(b"IEND", &[]));
    out
}

#[test]
fn image_name_is_what_follows_the_last_slash() {
    assert_eq!(get_image_name_from_path(&"images/Art_P122.jpg".to_string()), "Art_P122.jpg");
    assert_eq!(get_image_name_from_path(&"a/b/c.png".to_string()), "c.png");
    assert_eq!(get_image_name_from_path(&"c.png".to_string()), "c.png");
    assert_eq!(get_image_name_from_path(&"/c.png".to_string()), "c.png");
    assert_eq!(get_image_name_from_path(&"a/b/".to_string()), "");
    assert_eq!(get_image_name_from_path(&"".to_string()), "");
    assert_eq!(get_image_name_from_path(&"画像/絵.png".to_string()), "絵.png");
}

#[test]
fn image_name_agrees_with_the_standard_library() {
    for path in ["", "/", "a", "a/", "/a", "a/b", "a//b", "a/b/c.d"] {
        let expected = path.split("/").last().unwrap().to_string();
        assert_eq!(get_image_name_from_path(&path.to_string()), expected);
    }
}

#[test]
fn archive_path_lies_under_the_content_directory() {
    assert_eq!(archive_path(&"images/a.png".to_string()), "OEBPS/images/a.png");
    assert_eq!(archive_path(&"".to_string()), "OEBPS/");
}

#[test]
fn new_cache_holds_nothing() {
    let cache = ResourceCache::new("/tmp/scratch".to_string());
    assert_eq!(cache.scratch_dir, "/tmp/scratch");
    assert!(cache.entries.is_empty());
    assert_eq!(cache.find(&"images/a.png".to_string()), None);
    assert_eq!(cache.height(&"images/a.png".to_string()), None);
}

#[test]
fn path_for_a_reference_is_its_base_name_in_the_scratch_directory() {
    let cache = ResourceCache::new("/tmp/scratch".to_string());
    assert_eq!(cache.path_for(&"images/a.png".to_string()), "/tmp/scratch/a.png");
    assert_eq!(cache.path_for(&"a.png".to_string()), "/tmp/scratch/a.png");
    assert_eq!(cache.path_for(&"x/y/".to_string()), "/tmp/scratch/");
}

#[test]
fn resolve_asks_for_one_extraction_only() {
    let mut cache = ResourceCache::new("/tmp/scratch".to_string());
    let reference = "images/a.png".to_string();
    match cache.resolve(&reference) {
        Resolution::Extract(path) => assert_eq!(path, "/tmp/scratch/a.png"),
        Resolution::Cached(_) => panic!("nothing has been extracted yet"),
    }
    assert_eq!(cache.store(&reference, Some(100)), "/tmp/scratch/a.png");
    assert_eq!(cache.entries.len(), 1);
    match cache.resolve(&reference) {
        Resolution::Cached(path) => assert_eq!(path, "/tmp/scratch/a.png"),
        Resolution::Extract(_) => panic!("the image has been extracted"),
    }
    cache.store(&"images/b.png".to_string(), None);
    match cache.resolve(&reference) {
        Resolution::Cached(path) => assert_eq!(path, "/tmp/scratch/a.png"),
        Resolution::Extract(_) => panic!("the image has been extracted"),
    }
    assert_eq!(cache.entries.len(), 2);
}

#[test]
fn store_keeps_the_first_entry_of_a_reference() {
    let mut cache = ResourceCache::new("/tmp/scratch".to_string());
    let reference = "images/a.png".to_string();
    cache.store(&reference, Some(100));
    assert_eq!(cache.store(&reference, Some(7)), "/tmp/scratch/a.png");
    assert_eq!(cache.entries.len(), 1);
    assert_eq!(cache.height(&reference), Some(100));
    assert_eq!(cache.find(&reference), Some(0));
}

#[test]
fn missing_bytes_leave_the_cache_as_it_was() {
    let mut cache = ResourceCache::new("/tmp/scratch".to_string());
    let reference = "images/a.png".to_string();
    assert_eq!(cache.extracted(&reference, None), Err(Error::ResourceMissing));
    assert!(cache.entries.is_empty());
    assert_eq!(cache.image_height(&reference), Err(Error::ResourceMissing));
    match cache.resolve(&reference) {
        Resolution::Extract(path) => assert_eq!(path, "/tmp/scratch/a.png"),
        Resolution::Cached(_) => panic!("nothing has been extracted"),
    }
}

#[test]
fn extracted_image_gets_its_height_from_its_bytes() {
    let mut cache = ResourceCache::new("/tmp/scratch".to_string());
    let reference = "images/wide.png".to_string();
    let bytes = png(400, 100);
    assert_eq!(cache.extracted(&reference, Some(&bytes)), Ok("/tmp/scratch/wide.png".to_string()));
    assert_eq!(cache.height(&reference), Some(100));
    assert_eq!(cache.image_height(&reference), Ok(100));
    let tall = "images/tall.png".to_string();
    cache.extracted(&tall, Some(&png(3, 7000))).unwrap();
    assert_eq!(cache.image_height(&tall), Ok(7000));
}

#[test]
fn bytes_that_are_no_image_give_no_height() {
    let mut cache = ResourceCache::new("/tmp/scratch".to_string());
    let reference = "images/broken.png".to_string();
    let bytes = b"this is no image".to_vec();
    assert_eq!(cache.extracted(&reference, Some(&bytes)), Ok("/tmp/scratch/broken.png".to_string()));
    assert_eq!(cache.height(&reference), None);
    assert_eq!(cache.image_height(&reference), Err(Error::UnsupportedImageFormat));
    assert_eq!(cache.entries.len(), 1);
}

#[test]
fn format_is_taken_from_the_name_of_the_file() {
    let mut cache = ResourceCache::new("/tmp/scratch".to_string());
    let reference = "images/picture.txt".to_string();
    cache.extracted(&reference, Some(&png(400, 100))).unwrap();
    assert_eq!(cache.image_height(&reference), Err(Error::UnsupportedImageFormat));
    let unnamed = "images/picture".to_string();
    cache.extracted(&unnamed, Some(&png(400, 100))).unwrap();
    assert_eq!(cache.image_height(&unnamed), Err(Error::UnsupportedImageFormat));
}
