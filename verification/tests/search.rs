use lightnovel_cli::screen::Screen;
use lightnovel_cli::search::{
    to_result, Search, SearchHit, SearchPhase, SearchResult, SearchStep,
};

fn hit(title: &str, link: &str, label: &str) -> SearchHit {
    SearchHit {
        title: Some(title.to_string()),
        link: Some(link.to_string()),
        label: Some(label.to_string()),
    }
}

fn hits() -> Vec<SearchHit> {
    vec![
        hit("Novel One", "/novel-one/chapter-120.html", "120 Chapters"),
        hit("Novel Two", "/novel-two/chapter-7.html", "7 Chapters"),
        hit("Novel Three", "/novel-three/chapter-x.html", "many"),
    ]
}

fn fresh() -> (Screen, Search) {
    let s = Screen::new(String::new(), 80, 32);
    let search = Search {
        phase: SearchPhase::Keyword,
        y: 3,
        typed: String::new(),
        results: Vec::new(),
        max_chapter: -1,
    };
    (s, search)
}

fn offering() -> (Screen, Search) {
    let (mut s, mut search) = fresh();
    s.show_found(&mut search, &"novel".to_string(), &hits());
    (s, search)
}

fn type_text(s: &mut Screen, search: &mut Search, text: &str) {
    for b in text.bytes() {
        s.display_search_screen(search, b as i32);
    }
}

#[test]
fn hit_becomes_a_result() {
    let r = to_result(&hit("Novel One", "/novel-one/chapter-120.html", "120 Chapters"), 80);
    assert_eq!(r.title, "Novel One");
    assert_eq!(r.link, "/novel-one/chapter-120.html");
    assert_eq!(r.chapters, "120");
    let r = to_result(&SearchHit { title: None, link: None, label: None }, 80);
    assert_eq!((r.title.as_str(), r.link.as_str(), r.chapters.as_str()), ("", "", ""));
    let r = to_result(&hit("A title that is far too long", "l", " 5"), 20);
    assert_eq!(r.title, "A title tha...");
    assert_eq!(r.chapters, "");
}

#[test]
fn search_screen_without_words_prompts_for_them() {
    let (mut s, _) = fresh();
    assert!(s.make_search_screen(None, &hits()).is_none());
    assert_eq!(s.doc, vec!["\n", " Search for LightNovels: \n", "\n", " > ", "\n"]);
}

#[test]
fn search_screen_offers_what_was_found() {
    let (mut s, _) = fresh();
    let results = s.make_search_screen(Some(&"novel".to_string()), &hits()).unwrap();
    assert_eq!(results.len(), 3);
    assert_eq!(results[1].title, "Novel Two");
    assert_eq!(results[1].link, "/novel-two/chapter-7.html");
    assert_eq!(results[1].chapters, "7");
    assert_eq!(
        s.doc,
        vec![
            "\n",
            " Search for LightNovel\n",
            "\n",
            " > \n",
            "  *  Novel One\n",
            "  *  Novel Two\n",
            "  *  Novel Three\n",
        ]
    );
}

#[test]
fn search_screen_says_why_nothing_was_found() {
    let (mut s, _) = fresh();
    let results = s.make_search_screen(Some(&"ab".to_string()), &Vec::new()).unwrap();
    assert!(results.is_empty());
    assert_eq!(
        s.doc,
        vec![
            "\n",
            " Search for LightNovel\n",
            "\n",
            " > \n",
            " Please enter more than 3 charachters!",
            "\n",
            " Press (q) to go back",
        ]
    );
    s.make_search_screen(Some(&"abc".to_string()), &Vec::new());
    assert_eq!(s.doc[4], " No Light Novels Found!");
    assert_eq!(s.doc.len(), 7);
    s.make_search_screen(Some(&"é".to_string()), &Vec::new());
    assert_eq!(s.doc[4], " Please enter more than 3 charachters!");
    s.make_search_screen(Some(&"éé".to_string()), &Vec::new());
    assert_eq!(s.doc[4], " No Light Novels Found!");
}

#[test]
fn typing_fills_the_words_to_search_for() {
    let (mut s, mut search) = fresh();
    assert!(matches!(s.display_search_screen(&mut search, 'a' as i32), SearchStep::Typed('a')));
    assert!(matches!(s.display_search_screen(&mut search, ' ' as i32), SearchStep::Typed(' ')));
    assert!(matches!(s.display_search_screen(&mut search, 'b' as i32), SearchStep::Typed('b')));
    assert_eq!(search.typed, "a b");
    assert!(matches!(s.display_search_screen(&mut search, 127), SearchStep::Erased));
    assert_eq!(search.typed, "a ");
    assert!(matches!(s.display_search_screen(&mut search, 127), SearchStep::Erased));
    assert!(matches!(s.display_search_screen(&mut search, 127), SearchStep::Erased));
    assert_eq!(search.typed, "");
    assert!(matches!(s.display_search_screen(&mut search, 127), SearchStep::Wait));
    assert!(matches!(s.display_search_screen(&mut search, 258), SearchStep::Wait));
    assert!(matches!(s.display_search_screen(&mut search, -1), SearchStep::Wait));
    assert!(matches!(s.display_search_screen(&mut search, 113), SearchStep::Typed('q')));
    assert!(matches!(s.display_search_screen(&mut search, 233), SearchStep::Typed('é')));
    assert_eq!(search.typed, "qé");
    assert_eq!(search.phase, SearchPhase::Keyword);
}

#[test]
fn line_feed_asks_for_what_was_typed() {
    let (mut s, mut search) = fresh();
    type_text(&mut s, &mut search, "  solo leveling ");
    match s.display_search_screen(&mut search, 10) {
        SearchStep::Query(words) => assert_eq!(words, "solo leveling"),
        _ => panic!("the site is asked"),
    }
    assert_eq!(search.phase, SearchPhase::Keyword);
    assert_eq!(search.typed, "  solo leveling ");
}

#[test]
fn found_novels_are_offered_with_the_cursor_on_the_first() {
    let (mut s, mut search) = fresh();
    search.typed = "novel".to_string();
    let rows = s.show_found(&mut search, &"novel".to_string(), &hits());
    assert_eq!(rows.len(), 7);
    assert_eq!(search.phase, SearchPhase::Results);
    assert_eq!(search.y, 4);
    assert_eq!(search.typed, "");
    assert_eq!(search.results.len(), 3);
    assert_eq!(search.max_chapter, -1);
}

#[test]
fn cursor_moves_between_the_novels_found() {
    let (mut s, mut search) = offering();
    assert!(matches!(s.display_search_screen(&mut search, 106), SearchStep::Move));
    assert!(matches!(s.display_search_screen(&mut search, 258), SearchStep::Move));
    assert_eq!(search.y, 6);
    assert!(matches!(s.display_search_screen(&mut search, 106), SearchStep::Wait));
    assert_eq!(search.y, 6);
    for _ in 0..5 {
        assert!(matches!(s.display_search_screen(&mut search, 107), SearchStep::Move));
    }
    assert_eq!(search.y, 1);
    assert!(matches!(s.display_search_screen(&mut search, 259), SearchStep::Show(_)));
    assert_eq!(search.y, 1);
    assert!(matches!(s.display_search_screen(&mut search, 120), SearchStep::Wait));
    assert!(matches!(s.display_search_screen(&mut search, 113), SearchStep::Quit));
}

#[test]
fn cursor_below_the_grid_scrolls_down() {
    let (mut s, mut search) = offering();
    search.y = 30;
    match s.display_search_screen(&mut search, 106) {
        SearchStep::Show(rows) => assert_eq!(rows.len(), 7),
        _ => panic!("the text scrolls"),
    }
    assert_eq!(search.y, 30);
}

#[test]
fn line_feed_chooses_the_novel_under_the_cursor() {
    let (mut s, mut search) = offering();
    search.y = 5;
    match s.display_search_screen(&mut search, 10) {
        SearchStep::Prompt(prompt) => assert_eq!(prompt, " enter chapter [1 - 7]: "),
        _ => panic!("the chapter is asked for"),
    }
    assert_eq!(s.url, "https://freewebnovel.com/novel-two/chapter-7.html");
    assert_eq!(search.phase, SearchPhase::Chapter);
    assert_eq!(search.max_chapter, 7);
    assert_eq!(search.typed, "");
}

#[test]
fn novel_without_a_number_of_chapters_cannot_be_chosen() {
    let (mut s, mut search) = offering();
    search.y = 6;
    assert!(matches!(s.display_search_screen(&mut search, 10), SearchStep::Wait));
    assert_eq!(search.phase, SearchPhase::Results);
    assert_eq!(s.url, "");
    for y in [0, 1, 2, 3, 7, 50, -1] {
        search.y = y;
        assert!(matches!(s.display_search_screen(&mut search, 10), SearchStep::Wait));
        assert_eq!(s.choose_novel(&search), None);
    }
}

#[test]
fn novels_of_one_title_give_all_their_addresses() {
    let (mut s, mut search) = fresh();
    let twins = vec![hit("Twin", "/a/chapter-1.html", "1"), hit("Twin", "/b/chapter-9.html", "9")];
    s.show_found(&mut search, &"twin".to_string(), &twins);
    assert_eq!(
        s.choose_novel(&search),
        Some(("https://freewebnovel.com/a/chapter-1.html/b/chapter-9.html".to_string(), 9))
    );
}

#[test]
fn answer_opens_the_chapter_asked_for() {
    let (mut s, mut search) = offering();
    s.display_search_screen(&mut search, 10);
    assert_eq!(search.max_chapter, 120);
    type_text(&mut s, &mut search, " 45 ");
    match s.display_search_screen(&mut search, 10) {
        SearchStep::Open(url) => {
            assert_eq!(url, "https://freewebnovel.com/novel-one/chapter-45.html")
        }
        _ => panic!("the chapter is opened"),
    }
    assert_eq!(s.url, "https://freewebnovel.com/novel-one/chapter-45.html");
}

#[test]
fn answer_beyond_the_chapters_opens_the_nearest() {
    for (answer, chapter) in [("0", 1), ("-5", 1), ("1", 1), ("119", 119), ("120", 120), ("5000", 120)] {
        let (mut s, mut search) = offering();
        s.display_search_screen(&mut search, 10);
        type_text(&mut s, &mut search, answer);
        match s.display_search_screen(&mut search, 10) {
            SearchStep::Open(url) => assert_eq!(
                url,
                format!("https://freewebnovel.com/novel-one/chapter-{}.html", chapter)
            ),
            _ => panic!("the chapter is opened"),
        }
    }
}

#[test]
fn answer_that_is_no_number_is_asked_for_again() {
    let (mut s, mut search) = offering();
    s.display_search_screen(&mut search, 10);
    type_text(&mut s, &mut search, "four");
    match s.display_search_screen(&mut search, 10) {
        SearchStep::Prompt(prompt) => assert_eq!(prompt, " enter correct chapter [1 - 120]: "),
        _ => panic!("the chapter is asked for again"),
    }
    assert_eq!(search.typed, "");
    assert_eq!(search.phase, SearchPhase::Chapter);
    match s.display_search_screen(&mut search, 10) {
        SearchStep::Prompt(prompt) => assert_eq!(prompt, " enter correct chapter [1 - 120]: "),
        _ => panic!("the chapter is asked for again"),
    }
    assert!(matches!(s.display_search_screen(&mut search, '4' as i32), SearchStep::Typed('4')));
    assert!(matches!(s.display_search_screen(&mut search, 'x' as i32), SearchStep::Typed('x')));
    assert!(matches!(s.display_search_screen(&mut search, 127), SearchStep::Erased));
    assert!(matches!(s.display_search_screen(&mut search, 10), SearchStep::Open(_)));
    assert_eq!(s.url, "https://freewebnovel.com/novel-one/chapter-4.html");
}

#[test]
fn answer_for_an_address_without_a_number_opens_nothing() {
    let (mut s, mut search) = fresh();
    let odd = vec![SearchResult {
        title: "Odd".to_string(),
        link: "/odd".to_string(),
        chapters: "3".to_string(),
    }];
    search.results = odd;
    search.phase = SearchPhase::Chapter;
    search.max_chapter = 3;
    s.url = "https://freewebnovel.com/odd".to_string();
    type_text(&mut s, &mut search, "2");
    assert!(matches!(s.display_search_screen(&mut search, 10), SearchStep::Wait));
    assert_eq!(s.url, "https://freewebnovel.com/odd");
    assert_eq!(search.typed, "2");
}
