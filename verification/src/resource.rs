//! The resource cache: which image references have been extracted to the
//! scratch directory of the session, and under which file names.

use crate::error::Error;
use vstd::prelude::*;
use vstd::string::*;

verus! {

broadcast use vstd::string::group_string_axioms;

/// The part of a path after its last slash: all of it where it has none.
pub open spec fn base_name(path: Seq<char>) -> Seq<char>
    decreases path.len(),
{
    if path.len() == 0 {
        Seq::empty()
    } else if path.last() == '/' {
        Seq::empty()
    } else {
        base_name(path.drop_last()).push(path.last())
    }
}

/// The index at which the base name of a path starts.
pub open spec fn base_start(path: Seq<char>) -> int
    decreases path.len(),
{
    if path.len() == 0 {
        0
    } else if path.last() == '/' {
        path.len() as int
    } else {
        base_start(path.drop_last())
    }
}

/// The base name is the end of the path from `base_start` on, it holds no
/// slash, and what stands before it is empty or ends in a slash.
pub proof fn lemma_base_name(path: Seq<char>)
    ensures
        0 <= base_start(path) <= path.len(),
        base_name(path) == path.subrange(base_start(path), path.len() as int),
        !base_name(path).contains('/'),
        base_start(path) > 0 ==> path[base_start(path) - 1] == '/',
    decreases path.len(),
{
    if path.len() > 0 && path.last() != '/' {
        let front = path.drop_last();
        lemma_base_name(front);
    }
}

/// The name of the file of an image: what follows the last slash of its path.
pub fn get_image_name_from_path(path: &String) -> (name: String)
    ensures
        name@ == base_name(path@),
{
    let s = path.as_str();
    let len: usize = s.unicode_len();
    let mut start: usize = 0;
    let mut n: usize = 0;
    for c in it: s.chars()
        invariant
            it.seq() == s@,
            n == it.index(),
            n <= s@.len(),
            start == base_start(s@.take(n as int)),
            start <= n,
            s@.len() == len,
    {
        proof {
            assert(s@.take(n + 1).drop_last() =~= s@.take(n as int));
        }
        n = n + 1;
        if c == '/' {
            start = n;
        }
    }
    proof {
        assert(s@.take(n as int) =~= s@);
        lemma_base_name(s@);
    }
    String::from_str(s.substring_char(start, n))
}

/// What `image` reads as the height in pixels of the image that `bytes`
/// hold, in the format that the extension of `path` names; nothing where the
/// extension names no format that it reads, or the bytes are no image of
/// that format.
pub uninterp spec fn image_height_of(bytes: Seq<u8>, path: Seq<char>) -> Option<u32>;

/// Takes the format from `image::ImageFormat::from_path` and the height from
/// `image::ImageReader::into_dimensions` of a reader of that format over the
/// bytes. The result is believed to depend on the bytes and the path alone.
#[verifier::external_body]
fn image_height(bytes: &[u8], path: &str) -> (height: Option<u32>)
    ensures
        height == image_height_of(bytes@, path@),
{
    let format = image::ImageFormat::from_path(path).ok()?;
    let reader = image::ImageReader::with_format(std::io::Cursor::new(bytes), format);
    reader.into_dimensions().ok().map(|size| size.1)
}

/// The path in the archive of a book of the image behind `reference`.
pub open spec fn archive_path_of(reference: Seq<char>) -> Seq<char> {
    "OEBPS/"@ + reference
}

/// The path in the archive of a book of the image behind `reference`.
pub fn archive_path(reference: &String) -> (path: String)
    ensures
        path@ == archive_path_of(reference@),
{
    let mut path = String::from_str("OEBPS/");
    path.append(reference.as_str());
    path
}

/// Where the image behind `reference` is kept: under its base name, in the
/// scratch directory.
pub open spec fn target_path(scratch_dir: Seq<char>, reference: Seq<char>) -> Seq<char> {
    scratch_dir + seq!['/'] + base_name(reference)
}

/// The bytes of a vector that may be missing.
pub open spec fn bytes_of(bytes: Option<&Vec<u8>>) -> Option<Seq<u8>> {
    match bytes {
        Some(b) => Some(b@),
        None => None,
    }
}

/// An image that has been extracted: its reference, its file, and its height
/// in pixels where that could be determined.
#[derive(Debug)]
pub struct CacheEntry {
    pub reference: String,
    pub path: String,
    pub height: Option<u32>,
}

/// What to do for an image reference: use the file that is there, or extract
/// the image to the file that is named.
#[derive(Debug)]
pub enum Resolution {
    Cached(String),
    Extract(String),
}

/// What to do for an image reference, as a value.
pub enum ResolutionView {
    Cached(Seq<char>),
    Extract(Seq<char>),
}

impl View for Resolution {
    type V = ResolutionView;

    open spec fn view(&self) -> ResolutionView {
        match self {
            Resolution::Cached(path) => ResolutionView::Cached(path@),
            Resolution::Extract(path) => ResolutionView::Extract(path@),
        }
    }
}

/// The images that have been extracted in this session.
#[derive(Debug)]
pub struct ResourceCache {
    pub scratch_dir: String,
    pub entries: Vec<CacheEntry>,
}

/// Whether one of `entries` is for `reference`.
pub open spec fn holds(entries: Seq<CacheEntry>, reference: Seq<char>) -> bool {
    exists|i: int| 0 <= i < entries.len() && (#[trigger] entries[i]).reference@ == reference
}

/// The index of the entry for `reference`.
pub open spec fn entry_index(entries: Seq<CacheEntry>, reference: Seq<char>) -> int {
    choose|i: int| 0 <= i < entries.len() && (#[trigger] entries[i]).reference@ == reference
}

impl ResourceCache {
    /// No reference has two entries, and each entry names the file that its
    /// reference is kept under.
    pub open spec fn wf(&self) -> bool {
        &&& forall|i: int, j: int|
            0 <= i < j < self.entries@.len() ==> (#[trigger] self.entries@[i]).reference@ != (
            #[trigger] self.entries@[j]).reference@
        &&& forall|i: int|
            0 <= i < self.entries@.len() ==> (#[trigger] self.entries@[i]).path@ == target_path(
                self.scratch_dir@,
                self.entries@[i].reference@,
            )
    }

    /// Whether the image behind `reference` has been extracted.
    pub open spec fn holds(&self, reference: Seq<char>) -> bool {
        holds(self.entries@, reference)
    }

    /// The height in pixels of the image behind `reference`, where it has been
    /// extracted and its height determined.
    pub open spec fn height_of(&self, reference: Seq<char>) -> Option<u32> {
        if self.holds(reference) {
            self.entries@[entry_index(self.entries@, reference)].height
        } else {
            None
        }
    }

    /// The file of the image behind `reference`.
    pub open spec fn target(&self, reference: Seq<char>) -> Seq<char> {
        target_path(self.scratch_dir@, reference)
    }

    /// What to do for `reference`: where its image has been extracted, to use
    /// its file; else to extract it to that file.
    pub open spec fn resolution(&self, reference: Seq<char>) -> ResolutionView {
        if self.holds(reference) {
            ResolutionView::Cached(self.target(reference))
        } else {
            ResolutionView::Extract(self.target(reference))
        }
    }

    /// A cache with nothing in it, for the scratch directory of a session.
    pub fn new(scratch_dir: String) -> (cache: ResourceCache)
        ensures
            cache.wf(),
            cache.scratch_dir@ == scratch_dir@,
            cache.entries@.len() == 0,
    {
        ResourceCache { scratch_dir, entries: Vec::new() }
    }

    /// The index of the entry for `reference`, if there is one.
    pub fn find(&self, reference: &String) -> (r: Option<usize>)
        requires
            self.wf(),
        ensures
            r is Some <==> self.holds(reference@),
            r matches Some(i) ==> i < self.entries@.len() && self.entries@[i as int].reference@
                == reference@ && i == entry_index(self.entries@, reference@),
    {
        let mut i: usize = 0;
        while i < self.entries.len()
            invariant
                self.wf(),
                i <= self.entries@.len(),
                forall|k: int| 0 <= k < i ==> (#[trigger] self.entries@[k]).reference@ != reference@,
            decreases self.entries@.len() - i,
        {
            if self.entries[i].reference == *reference {
                return Some(i);
            }
            i = i + 1;
        }
        None
    }

    /// The file that the image behind `reference` is kept under.
    pub fn path_for(&self, reference: &String) -> (path: String)
        ensures
            path@ == self.target(reference@),
    {
        let mut path = self.scratch_dir.clone();
        path.push('/');
        let name = get_image_name_from_path(reference);
        path.append(name.as_str());
        path
    }

    /// The height in pixels of the image behind `reference`, where it has been
    /// extracted and its height determined.
    pub fn height(&self, reference: &String) -> (h: Option<u32>)
        requires
            self.wf(),
        ensures
            h == self.height_of(reference@),
    {
        match self.find(reference) {
            Some(i) => self.entries[i].height,
            None => None,
        }
    }

    /// Says what to do for `reference`.
    pub fn resolve(&self, reference: &String) -> (r: Resolution)
        requires
            self.wf(),
        ensures
            r@ == self.resolution(reference@),
    {
        match self.find(reference) {
            Some(i) => Resolution::Cached(self.entries[i].path.clone()),
            None => Resolution::Extract(self.path_for(reference)),
        }
    }

    /// Whether this is the cache `before` after the extraction of the image
    /// behind `reference` which gave `bytes` and came to `r`.
    pub open spec fn extracted_from(
        &self,
        before: ResourceCache,
        reference: Seq<char>,
        bytes: Option<Seq<u8>>,
        r: Result<String, Error>,
    ) -> bool {
        &&& self.scratch_dir@ == before.scratch_dir@
        &&& match bytes {
            Some(b) => {
                &&& r matches Ok(path)
                &&& path@ == before.target(reference)
                &&& self.holds(reference)
                &&& before.holds(reference) ==> self.entries@ == before.entries@
                &&& !before.holds(reference) ==> {
                    &&& self.entries@.len() == before.entries@.len() + 1
                    &&& self.entries@.drop_last() == before.entries@
                    &&& self.entries@.last().reference@ == reference
                    &&& self.entries@.last().height == image_height_of(b, before.target(reference))
                }
            },
            None => {
                &&& r matches Err(e)
                &&& e == Error::ResourceMissing
                &&& self.entries@ == before.entries@
            },
        }
    }

    /// Records that the image behind `reference` has been extracted and is
    /// `height` pixels high, as far as that could be determined, and gives
    /// its file. An image that was there already stays as it was.
    pub fn store(&mut self, reference: &String, height: Option<u32>) -> (path: String)
        requires
            old(self).wf(),
        ensures
            final(self).wf(),
            final(self).scratch_dir@ == old(self).scratch_dir@,
            path@ == old(self).target(reference@),
            final(self).holds(reference@),
            old(self).holds(reference@) ==> final(self).entries@ == old(self).entries@,
            !old(self).holds(reference@) ==> {
                &&& final(self).entries@.len() == old(self).entries@.len() + 1
                &&& final(self).entries@.drop_last() == old(self).entries@
                &&& final(self).entries@.last().reference@ == reference@
                &&& final(self).entries@.last().height == height
            },
    {
        let path = self.path_for(reference);
        match self.find(reference) {
            Some(_) => {},
            None => {
                let entry = CacheEntry { reference: reference.clone(), path: path.clone(), height };
                self.entries.push(entry);
            },
        }
        path
    }

    /// Takes the outcome of an extraction: the bytes of the image behind
    /// `reference`, which the caller has written to the file of the
    /// reference, or nothing where they could not be had. Without the bytes
    /// the resource is missing and the cache stays as it was; with them the
    /// image is in the cache from now on, with the height that its bytes
    /// give, unless it was there already.
    pub fn extracted(&mut self, reference: &String, bytes: Option<&Vec<u8>>) -> (r: Result<
        String,
        Error,
    >)
        requires
            old(self).wf(),
        ensures
            final(self).wf(),
            final(self).extracted_from(*old(self), reference@, bytes_of(bytes), r),
    {
        match bytes {
            None => Err(Error::ResourceMissing),
            Some(b) => {
                let path = self.path_for(reference);
                let height = image_height(b.as_slice(), path.as_str());
                Ok(self.store(reference, height))
            },
        }
    }

    /// The height in pixels of the image behind `reference`: the resource is
    /// missing where the image has not been extracted, and its format is not
    /// supported where its bytes gave no height.
    pub fn image_height(&self, reference: &String) -> (r: Result<u32, Error>)
        requires
            self.wf(),
        ensures
            r == if !self.holds(reference@) {
                Err::<u32, Error>(Error::ResourceMissing)
            } else {
                match self.height_of(reference@) {
                    Some(h) => Ok::<u32, Error>(h),
                    None => Err::<u32, Error>(Error::UnsupportedImageFormat),
                }
            },
    {
        match self.find(reference) {
            None => Err(Error::ResourceMissing),
            Some(i) => match self.entries[i].height {
                Some(h) => Ok(h),
                None => Err(Error::UnsupportedImageFormat),
            },
        }
    }
}

/// Once the image behind a reference has been extracted, resolving the
/// reference again asks for no further extraction and names the same file,
/// whatever else has been extracted since: entries are never removed, and the
/// file of a reference depends on the reference and the scratch directory
/// alone.
pub proof fn lemma_resolve_is_idempotent(
    before: ResourceCache,
    after: ResourceCache,
    reference: Seq<char>,
)
    requires
        before.wf(),
        after.wf(),
        before.holds(reference),
        after.scratch_dir@ == before.scratch_dir@,
        before.entries@.len() <= after.entries@.len(),
        after.entries@.subrange(0, before.entries@.len() as int) == before.entries@,
    ensures
        after.resolution(reference) == before.resolution(reference),
        after.resolution(reference) == ResolutionView::Cached(before.target(reference)),
        after.height_of(reference) == before.height_of(reference),
{
}

/// An extraction that gave the bytes of an image leaves a cache in which the
/// reference resolves to its file without another extraction, and it adds no
/// entry where the reference had one.
pub proof fn lemma_extraction_is_remembered(
    before: ResourceCache,
    after: ResourceCache,
    reference: Seq<char>,
    bytes: Seq<u8>,
    r: Result<String, Error>,
)
    requires
        before.wf(),
        after.wf(),
        after.extracted_from(before, reference, Some(bytes), r),
    ensures
        after.resolution(reference) == ResolutionView::Cached(before.target(reference)),
        before.resolution(reference) is Cached ==> after.entries@ == before.entries@,
        before.resolution(reference) is Extract ==> after.entries@.len() == before.entries@.len()
            + 1,
{
}

} // verus!
