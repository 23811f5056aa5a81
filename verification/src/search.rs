//! The search for a novel: the screen that takes the words to search for,
//! the screen that offers what was found, and the prompt for the chapter to
//! open.

use crate::novels::{offer, shorten, shortened};
use crate::renderer::{row_views, Row};
use crate::screen::{chapter_url, optional_text, plain_rows, Screen};
use crate::text::{
    parse_i32, parse_number, push_signed_decimal, signed_decimal, split, split_on, texts, trim,
    trimmed,
};
use vstd::prelude::*;
use vstd::string::*;
use vstd::utf8::encode_utf8;

verus! {

broadcast use vstd::string::group_string_axioms;

/// What the page of a search says of one novel, as far as it says it: the
/// title, and the address and the label of its latest chapter.
#[derive(Debug)]
pub struct SearchHit {
    pub title: Option<String>,
    pub link: Option<String>,
    pub label: Option<String>,
}

/// What the page of a search says of one novel, as a value.
pub struct SearchHitView {
    pub title: Option<Seq<char>>,
    pub link: Option<Seq<char>>,
    pub label: Option<Seq<char>>,
}

impl View for SearchHit {
    type V = SearchHitView;

    open spec fn view(&self) -> SearchHitView {
        SearchHitView {
            title: optional_text(self.title),
            link: optional_text(self.link),
            label: optional_text(self.label),
        }
    }
}

/// The hits of a list as values.
pub open spec fn hit_views(hits: Seq<SearchHit>) -> Seq<SearchHitView> {
    hits.map_values(|h: SearchHit| h@)
}

/// A novel that a search has found: its title as it is shown, the address of
/// its latest chapter on the site, and the number of that chapter as the page
/// gives it.
#[derive(Debug)]
pub struct SearchResult {
    pub title: String,
    pub link: String,
    pub chapters: String,
}

/// A novel that a search has found, as a value.
pub struct SearchResultView {
    pub title: Seq<char>,
    pub link: Seq<char>,
    pub chapters: Seq<char>,
}

impl View for SearchResult {
    type V = SearchResultView;

    open spec fn view(&self) -> SearchResultView {
        SearchResultView { title: self.title@, link: self.link@, chapters: self.chapters@ }
    }
}

/// The novels of a list as values.
pub open spec fn result_views(results: Seq<SearchResult>) -> Seq<SearchResultView> {
    results.map_values(|r: SearchResult| r@)
}

/// The novel that a hit of a search stands for in a grid of `cols` columns:
/// its title shortened for the grid, and of the label of its chapter the
/// first word. What the page does not say stays empty.
pub open spec fn result_of(hit: SearchHitView, cols: int) -> SearchResultView {
    SearchResultView {
        title: match hit.title {
            Some(t) => shortened(t, cols),
            None => Seq::empty(),
        },
        link: match hit.link {
            Some(l) => l,
            None => Seq::empty(),
        },
        chapters: match hit.label {
            Some(l) => split(l, ' ')[0],
            None => Seq::empty(),
        },
    }
}

/// The novels that the hits of a search stand for.
pub open spec fn results_of(hits: Seq<SearchHitView>, cols: int) -> Seq<SearchResultView> {
    hits.map_values(|h: SearchHitView| result_of(h, cols))
}

/// The lines of the screen that takes the words to search for.
pub open spec fn search_prompt() -> Seq<Seq<char>> {
    seq![seq!['\n'], " Search for LightNovels: \n"@, seq!['\n'], " > "@, seq!['\n']]
}

/// The head of the screen that offers what a search has found.
pub open spec fn found_head() -> Seq<Seq<char>> {
    seq![seq!['\n'], " Search for LightNovel\n"@, seq!['\n'], " > \n"@]
}

/// The lines that offer the novels of a list.
pub open spec fn found_offers(results: Seq<SearchResultView>) -> Seq<Seq<char>> {
    results.map_values(|r: SearchResultView| offer(r.title))
}

/// The lines of the screen that offers what the search for `keyword` has
/// found: an offer for each novel, or, where there is none, the reason, which
/// for less than three bytes to search for is that they are too few.
pub open spec fn found_lines(keyword: Seq<char>, results: Seq<SearchResultView>) -> Seq<Seq<char>> {
    if results.len() >= 1 {
        found_head() + found_offers(results)
    } else if encode_utf8(keyword).len() < 3 {
        found_head() + seq![
            " Please enter more than 3 charachters!"@,
            seq!['\n'],
            " Press (q) to go back"@,
        ]
    } else {
        found_head() + seq![" No Light Novels Found!"@, seq!['\n'], " Press (q) to go back"@]
    }
}

/// The part of the search that the keys go to.
#[derive(Clone, Copy, Debug, PartialEq, Eq, Structural)]
pub enum SearchPhase {
    /// The words to search for are typed.
    Keyword,
    /// What was found is on offer.
    Results,
    /// The number of the chapter to open is typed.
    Chapter,
}

/// Where a search stands: its part, the row of the cursor, what has been
/// typed, the novels on offer, and the number of the latest chapter of the
/// novel that was chosen.
#[derive(Debug)]
pub struct Search {
    pub phase: SearchPhase,
    pub y: i32,
    pub typed: String,
    pub results: Vec<SearchResult>,
    pub max_chapter: i32,
}

/// What a key comes to in a search.
#[derive(Debug)]
pub enum SearchStep {
    /// The search is left.
    Quit,
    /// Nothing to do but to wait for the next key.
    Wait,
    /// The character was typed and is to be shown.
    Typed(char),
    /// The last character typed was taken back.
    Erased,
    /// The site is to be asked for the novels that match the words.
    Query(String),
    /// The cursor has moved.
    Move,
    /// The rows to show.
    Show(Vec<Row>),
    /// The prompt to show, for the number of a chapter.
    Prompt(String),
    /// The chapter at the address is to be fetched and shown.
    Open(String),
}

/// The site of the novels.
pub open spec fn site() -> Seq<char> {
    "https://freewebnovel.com"@
}

/// The title that a line offers: what follows its first five characters,
/// without the white space around it.
pub open spec fn offered_title(line: Seq<char>) -> Seq<char> {
    trimmed(
        line.skip(
            if line.len() < 5 {
                line.len() as int
            } else {
                5
            },
        ),
    )
}

/// The addresses, one after the other, of those of the first `n` novels that
/// have the title `title`.
pub open spec fn matching_links(results: Seq<SearchResultView>, title: Seq<char>, n: int) -> Seq<
    char,
>
    decreases n,
{
    if n <= 0 {
        Seq::empty()
    } else if results[n - 1].title == title {
        matching_links(results, title, n - 1) + results[n - 1].link
    } else {
        matching_links(results, title, n - 1)
    }
}

/// The index of the last of the first `n` novels that has the title `title`,
/// or -1 where none has.
pub open spec fn last_match(results: Seq<SearchResultView>, title: Seq<char>, n: int) -> int
    decreases n,
{
    if n <= 0 {
        -1
    } else if results[n - 1].title == title {
        n - 1
    } else {
        last_match(results, title, n - 1)
    }
}

/// The prompt for the number of a chapter of a novel of `max` chapters.
pub open spec fn chapter_prompt(max: int) -> Seq<char> {
    " enter chapter [1 - "@ + signed_decimal(max) + "]: "@
}

/// The prompt after an answer that was no number.
pub open spec fn chapter_prompt_again(max: int) -> Seq<char> {
    " enter correct chapter [1 - "@ + signed_decimal(max) + "]: "@
}

/// The number of the chapter that an answer of `wanted` asks for in a novel of
/// `max` chapters: the first for an answer below it, the last for one beyond.
pub open spec fn chosen_chapter(wanted: int, max: int) -> int {
    if wanted <= 0 {
        1
    } else if wanted >= max {
        max
    } else {
        wanted
    }
}

/// What has been typed, after one more key: the delete key takes the last
/// character back, and any other key of one byte adds its character.
pub open spec fn typed_after(typed: Seq<char>, key: int) -> Seq<char> {
    if key == 127 {
        if typed.len() > 0 {
            typed.drop_last()
        } else {
            typed
        }
    } else if 0 <= key <= 255 {
        typed.push(key as u8 as char)
    } else {
        typed
    }
}

/// Whether `step` is what typing the key `key` comes to.
pub open spec fn typing_step(typed: Seq<char>, key: int, step: SearchStep) -> bool {
    if key == 127 {
        if typed.len() > 0 {
            step is Erased
        } else {
            step is Wait
        }
    } else if 0 <= key <= 255 {
        step == SearchStep::Typed(key as u8 as char)
    } else {
        step is Wait
    }
}

/// Takes a key that types.
fn type_key(typed: &mut String, key: i32) -> (step: SearchStep)
    requires
        key != 10,
    ensures
        final(typed)@ == typed_after(old(typed)@, key as int),
        typing_step(old(typed)@, key as int, step),
{
    if key == 127 {
        let len: usize = typed.as_str().unicode_len();
        if len > 0 {
            let shorter = String::from_str(typed.as_str().substring_char(0, len - 1));
            *typed = shorter;
            SearchStep::Erased
        } else {
            SearchStep::Wait
        }
    } else if 0 <= key && key <= 255 {
        let c: char = key as u8 as char;
        typed.push(c);
        SearchStep::Typed(c)
    } else {
        SearchStep::Wait
    }
}

/// The novel that a hit of a search stands for.
pub fn to_result(hit: &SearchHit, cols: u16) -> (r: SearchResult)
    ensures
        r@ == result_of(hit@, cols as int),
{
    let title = match &hit.title {
        Some(t) => shorten(t.clone(), cols),
        None => String::new(),
    };
    let link = match &hit.link {
        Some(l) => l.clone(),
        None => String::new(),
    };
    let chapters = match &hit.label {
        Some(l) => {
            let words = split_on(l.as_str(), ' ');
            proof {
                crate::text::lemma_split_pieces(l@, ' ');
            }
            words[0].clone()
        },
        None => String::new(),
    };
    SearchResult { title, link, chapters }
}

impl Screen {
    /// Shows the screen of the search. Without words to search for, it is the
    /// screen that takes them, and nothing comes back. With them, it is the
    /// screen that offers what the search has found, as the hits of its page
    /// say, and the novels come back.
    pub fn make_search_screen(&mut self, keyword: Option<&String>, hits: &Vec<SearchHit>) -> (r:
        Option<Vec<SearchResult>>)
        requires
            old(self).wf(),
        ensures
            final(self).wf(),
            final(self).raw_doc == old(self).raw_doc,
            final(self).viewport == old(self).viewport,
            final(self).url == old(self).url,
            final(self).path == old(self).path,
            match keyword {
                None => r is None && texts(final(self).doc@) == search_prompt(),
                Some(k) => {
                    &&& r matches Some(results)
                    &&& result_views(results@) == results_of(
                        hit_views(hits@),
                        old(self).viewport@.grid_cols,
                    )
                    &&& texts(final(self).doc@) == found_lines(k@, result_views(results@))
                },
            },
    {
        let cols: u16 = self.viewport.grid_cols();
        let mut blank = String::new();
        blank.push('\n');
        match keyword {
            None => {
                let mut doc: Vec<String> = Vec::new();
                doc.push(blank.clone());
                doc.push(String::from_str(" Search for LightNovels: \n"));
                doc.push(blank.clone());
                doc.push(String::from_str(" > "));
                doc.push(blank);
                self.doc = doc;
                None
            },
            Some(k) => {
                let mut results: Vec<SearchResult> = Vec::new();
                let mut doc: Vec<String> = Vec::new();
                doc.push(blank.clone());
                doc.push(String::from_str(" Search for LightNovel\n"));
                doc.push(blank.clone());
                doc.push(String::from_str(" > \n"));
                let mut i: usize = 0;
                while i < hits.len()
                    invariant
                        i <= hits@.len(),
                        results@.len() == i,
                        forall|j: int|
                            0 <= j < i ==> (#[trigger] results@[j])@ == result_of(
                                hits@[j]@,
                                cols as int,
                            ),
                        texts(doc@) == found_head() + found_offers(result_views(results@)),
                    decreases hits@.len() - i,
                {
                    let found = to_result(&hits[i], cols);
                    let mut row = String::from_str("  *  ");
                    row.append(found.title.as_str());
                    row.push('\n');
                    assert(row@ =~= offer(found.title@));
                    let ghost before = doc@;
                    doc.push(row);
                    results.push(found);
                    assert(texts(doc@) =~= texts(before).push(offer(found.title@)));
                    i = i + 1;
                }
                if results.len() == 0 {
                    if k.as_str().as_bytes().len() < 3 {
                        doc.push(String::from_str(" Please enter more than 3 charachters!"));
                    } else {
                        doc.push(String::from_str(" No Light Novels Found!"));
                    }
                    doc.push(blank);
                    doc.push(String::from_str(" Press (q) to go back"));
                }
                self.doc = doc;
                Some(results)
            },
        }
    }

    /// Takes what the site has answered to the search for `keyword` and
    /// offers it: the cursor stands on the first offer.
    pub fn show_found(&mut self, search: &mut Search, keyword: &String, hits: &Vec<SearchHit>) -> (rows:
        Vec<Row>)
        requires
            old(self).wf(),
        ensures
            final(self).wf(),
            final(self).raw_doc == old(self).raw_doc,
            final(self).viewport == old(self).viewport,
            final(self).url == old(self).url,
            final(self).path == old(self).path,
            result_views(final(search).results@) == results_of(
                hit_views(hits@),
                old(self).viewport@.grid_cols,
            ),
            texts(final(self).doc@) == found_lines(keyword@, result_views(final(search).results@)),
            row_views(rows@) == plain_rows(final(self).doc@, final(self).viewport@),
            final(search).phase == SearchPhase::Results,
            final(search).y == 4,
            final(search).typed@.len() == 0,
            final(search).max_chapter == old(search).max_chapter,
    {
        match self.make_search_screen(Some(keyword), hits) {
            Some(results) => {
                search.results = results;
            },
            None => {},
        }
        search.phase = SearchPhase::Results;
        search.y = 4;
        search.typed = String::new();
        self.draw()
    }

    /// The address and the number of the latest chapter of the novel that the
    /// line under the cursor offers: the addresses of all novels on offer
    /// that have the title of the line, one after the other behind the site,
    /// and the number that the last of them gives. There is none where the
    /// cursor is above the grid, no line is under it, no novel has the title,
    /// or the last that has gives no number.
    pub open spec fn chosen(&self, search: Search) -> Option<(Seq<char>, i32)> {
        let line = self.viewport@.top_line + search.y;
        let results = result_views(search.results@);
        if search.y < 0 || line >= self.doc@.len() {
            None
        } else {
            let title = offered_title(self.doc@[line]@);
            let last = last_match(results, title, results.len() as int);
            if last < 0 {
                None
            } else {
                match parse_i32(results[last].chapters) {
                    Some(max) => Some(
                        (site() + matching_links(results, title, results.len() as int), max),
                    ),
                    None => None,
                }
            }
        }
    }

    /// The address and the number of the latest chapter of the novel that the
    /// line under the cursor offers.
    pub fn choose_novel(&self, search: &Search) -> (r: Option<(String, i32)>)
        requires
            self.wf(),
        ensures
            match self.chosen(*search) {
                Some(c) => r matches Some(found) && found.0@ == c.0 && found.1 == c.1,
                None => r is None,
            },
    {
        if search.y < 0 {
            return None;
        }
        let top: usize = self.viewport.top_line();
        let below: usize = search.y as usize;
        if below >= self.doc.len() || top >= self.doc.len() - below {
            return None;
        }
        let line = self.doc[top + below].as_str();
        let len: usize = line.unicode_len();
        let title = trim(
            line.substring_char(
                if len < 5 {
                    len
                } else {
                    5
                },
                len,
            ),
        );
        let ghost results = result_views(search.results@);
        let mut url = String::from_str("https://freewebnovel.com");
        let mut last: Option<usize> = None;
        let mut i: usize = 0;
        while i < search.results.len()
            invariant
                results == result_views(search.results@),
                i <= search.results@.len(),
                url@ == site() + matching_links(results, title@, i as int),
                match last {
                    Some(k) => k == last_match(results, title@, i as int) && k < i,
                    None => last_match(results, title@, i as int) == -1,
                },
            decreases search.results@.len() - i,
        {
            if search.results[i].title == title {
                url.append(search.results[i].link.as_str());
                last = Some(i);
            }
            i = i + 1;
        }
        match last {
            None => None,
            Some(k) => match parse_number(search.results[k].chapters.as_str()) {
                Some(max) => Some((url, max)),
                None => None,
            },
        }
    }

    /// Takes a key in a search.
    ///
    /// While the words to search for are typed, the line feed asks the site
    /// for what has been typed, without the white space around it, and every
    /// other key types. While the novels are on offer, `q` leaves; `j` and
    /// the down arrow move the cursor down a row, but on the row after the
    /// last of the grid the text scrolls instead, and on the row of the last
    /// offer nothing moves; `k` and the up arrow move it up a row, but on the
    /// second row the text scrolls instead; the line feed chooses the novel
    /// that the line under the cursor offers, if it offers one, and prompts
    /// for a chapter. While the number of the chapter is typed, the line feed
    /// opens the chapter that the answer asks for, or prompts again where the
    /// answer is no number, and every other key types.
    pub fn display_search_screen(&mut self, search: &mut Search, key: i32) -> (step: SearchStep)
        requires
            old(self).wf(),
        ensures
            final(self).wf(),
            final(self).raw_doc == old(self).raw_doc,
            final(self).doc == old(self).doc,
            final(self).path == old(self).path,
            final(search).results == old(search).results,
            final(self).searched(*old(self), *old(search), *final(search), key as int, step),
    {
        match search.phase {
            SearchPhase::Keyword => {
                if key == 10 {
                    SearchStep::Query(trim(search.typed.as_str()))
                } else {
                    type_key(&mut search.typed, key)
                }
            },
            SearchPhase::Results => {
                let rows: i32 = self.viewport.grid_rows() as i32;
                if key == 113 {
                    SearchStep::Quit
                } else if key == 106 || key == 258 {
                    if search.y == rows {
                        self.scroll(1);
                        SearchStep::Show(self.draw())
                    } else if (search.y >= 3 && (search.y as i64 - 3) as u64
                        == search.results.len() as u64) || search.y == i32::MAX {
                        SearchStep::Wait
                    } else {
                        search.y = search.y + 1;
                        SearchStep::Move
                    }
                } else if key == 107 || key == 259 {
                    if search.y == 1 {
                        self.scroll(-1);
                        SearchStep::Show(self.draw())
                    } else if search.y == i32::MIN {
                        SearchStep::Wait
                    } else {
                        search.y = search.y - 1;
                        SearchStep::Move
                    }
                } else if key == 10 {
                    match self.choose_novel(search) {
                        Some(found) => {
                            self.url = found.0;
                            search.max_chapter = found.1;
                            search.phase = SearchPhase::Chapter;
                            search.typed = String::new();
                            let mut prompt = String::from_str(" enter chapter [1 - ");
                            push_signed_decimal(&mut prompt, found.1 as i64);
                            prompt.append("]: ");
                            SearchStep::Prompt(prompt)
                        },
                        None => SearchStep::Wait,
                    }
                } else {
                    SearchStep::Wait
                }
            },
            SearchPhase::Chapter => {
                if key == 10 {
                    let answer = trim(search.typed.as_str());
                    match parse_number(answer.as_str()) {
                        Some(wanted) => {
                            let max: i32 = search.max_chapter;
                            let chapter: i32 = if wanted <= 0 {
                                1
                            } else if wanted >= max {
                                max
                            } else {
                                wanted
                            };
                            let offset: i64 = chapter as i64 - max as i64;
                            if offset < i32::MIN as i64 || offset > i32::MAX as i64 {
                                SearchStep::Wait
                            } else if self.change_chapter(offset as i32) {
                                SearchStep::Open(self.url.clone())
                            } else {
                                SearchStep::Wait
                            }
                        },
                        None => {
                            search.typed = String::new();
                            let mut prompt = String::from_str(" enter correct chapter [1 - ");
                            push_signed_decimal(&mut prompt, search.max_chapter as i64);
                            prompt.append("]: ");
                            SearchStep::Prompt(prompt)
                        },
                    }
                } else {
                    type_key(&mut search.typed, key)
                }
            },
        }
    }

    /// Whether this is the surface `before` after the key `key`, which came
    /// to `step` and took the search from `search` to `after`.
    pub open spec fn searched(
        &self,
        before: Screen,
        search: Search,
        after: Search,
        key: int,
        step: SearchStep,
    ) -> bool {
        let same_screen = self.url == before.url && self.viewport == before.viewport;
        let same_search = after.phase == search.phase && after.y == search.y && after.typed
            == search.typed && after.max_chapter == search.max_chapter;
        let typed = {
            &&& same_screen
            &&& after.phase == search.phase
            &&& after.y == search.y
            &&& after.max_chapter == search.max_chapter
            &&& after.typed@ == typed_after(search.typed@, key)
            &&& typing_step(search.typed@, key, step)
        };
        match search.phase {
            SearchPhase::Keyword => if key == 10 {
                &&& step matches SearchStep::Query(words)
                &&& words@ == trimmed(search.typed@)
                &&& same_screen
                &&& same_search
            } else {
                typed
            },
            SearchPhase::Results => if key == 113 {
                step is Quit && same_screen && same_search
            } else if key == 106 || key == 258 {
                if search.y == before.viewport@.grid_rows {
                    &&& step matches SearchStep::Show(rows)
                    &&& self.viewport@ == before.viewport@.scroll_by(1, before.doc@.len() as int)
                    &&& row_views(rows@) == plain_rows(self.doc@, self.viewport@)
                    &&& self.url == before.url
                    &&& same_search
                } else if search.y == 3 + search.results@.len() || search.y == i32::MAX {
                    step is Wait && same_screen && same_search
                } else {
                    &&& step is Move
                    &&& after.y == search.y + 1
                    &&& after.phase == search.phase
                    &&& after.typed == search.typed
                    &&& after.max_chapter == search.max_chapter
                    &&& same_screen
                }
            } else if key == 107 || key == 259 {
                if search.y == 1 {
                    &&& step matches SearchStep::Show(rows)
                    &&& self.viewport@ == before.viewport@.scroll_by(-1, before.doc@.len() as int)
                    &&& row_views(rows@) == plain_rows(self.doc@, self.viewport@)
                    &&& self.url == before.url
                    &&& same_search
                } else if search.y == i32::MIN {
                    step is Wait && same_screen && same_search
                } else {
                    &&& step is Move
                    &&& after.y == search.y - 1
                    &&& after.phase == search.phase
                    &&& after.typed == search.typed
                    &&& after.max_chapter == search.max_chapter
                    &&& same_screen
                }
            } else if key == 10 {
                match before.chosen(search) {
                    Some(c) => {
                        &&& step matches SearchStep::Prompt(prompt)
                        &&& prompt@ == chapter_prompt(c.1 as int)
                        &&& self.url@ == c.0
                        &&& self.viewport == before.viewport
                        &&& after.phase == SearchPhase::Chapter
                        &&& after.max_chapter == c.1
                        &&& after.typed@.len() == 0
                        &&& after.y == search.y
                    },
                    None => step is Wait && same_screen && same_search,
                }
            } else {
                step is Wait && same_screen && same_search
            },
            SearchPhase::Chapter => if key == 10 {
                match parse_i32(trimmed(search.typed@)) {
                    Some(wanted) => {
                        let offset = chosen_chapter(wanted as int, search.max_chapter as int)
                            - search.max_chapter;
                        let address = if i32::MIN <= offset <= i32::MAX {
                            chapter_url(before.url@, offset)
                        } else {
                            None
                        };
                        match address {
                            Some(url) => {
                                &&& step matches SearchStep::Open(opened)
                                &&& opened@ == url
                                &&& self.url@ == url
                                &&& self.viewport == before.viewport
                                &&& same_search
                            },
                            None => step is Wait && same_screen && same_search,
                        }
                    },
                    None => {
                        &&& step matches SearchStep::Prompt(prompt)
                        &&& prompt@ == chapter_prompt_again(search.max_chapter as int)
                        &&& same_screen
                        &&& after.phase == search.phase
                        &&& after.y == search.y
                        &&& after.max_chapter == search.max_chapter
                        &&& after.typed@.len() == 0
                    },
                }
            } else {
                typed
            },
        }
    }
}

} // verus!
