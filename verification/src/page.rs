//! What the pages of the site say: the text of a chapter and the novels that
//! a search has found, read out of their markup.

use crate::renderer::{row_views, Row};
use crate::screen::{chapter_paragraphs, laid_out, plain_rows, Screen};
use crate::search::{found_lines, result_views, results_of, Search, SearchHit, SearchPhase};
use crate::text::texts;
use vstd::prelude::*;
use vstd::string::*;

verus! {

/// The texts of the strings of a list of lists, of which some are missing.
pub open spec fn nested_texts(lists: Seq<Vec<Option<String>>>) -> Seq<Seq<Option<Seq<char>>>> {
    lists.map_values(|list: Vec<Option<String>>| crate::screen::optional_texts(list@))
}

/// The texts of what a selection gives, where it gives anything.
pub open spec fn selected_texts(found: Option<Vec<Vec<Option<String>>>>) -> Option<
    Seq<Seq<Option<Seq<char>>>>,
> {
    match found {
        Some(lists) => Some(nested_texts(lists@)),
        None => None,
    }
}

/// What `scraper` finds in the fragment of markup `html`: for each element
/// that matches the selector `scope`, and for each element within it that
/// matches the selector `field`, the first text within that element, where
/// it holds any; nothing at all where one of the selectors does not parse.
pub uninterp spec fn texts_within(html: Seq<char>, scope: Seq<char>, field: Seq<char>) -> Option<
    Seq<Seq<Option<Seq<char>>>>,
>;

/// What `scraper` finds in the fragment of markup `html`: for each element
/// that matches the selector `scope`, and for each element within it that
/// matches the selector `field`, the value of the attribute `name` of that
/// element, where it has one; nothing at all where one of the selectors does
/// not parse.
pub uninterp spec fn attributes_within(
    html: Seq<char>,
    scope: Seq<char>,
    field: Seq<char>,
    name: Seq<char>,
) -> Option<Seq<Seq<Option<Seq<char>>>>>;

/// Parses `html` with `scraper::Html::parse_fragment` and both selectors with
/// `scraper::Selector::parse`, walks the elements that match `scope` with
/// `Html::select` and, within each, those that match `field` with
/// `ElementRef::select`, and takes the first item of `ElementRef::text` of
/// each. The result is believed to depend on the three texts alone.
#[verifier::external_body]
fn select_texts(html: &str, scope: &str, field: &str) -> (found: Option<Vec<Vec<Option<String>>>>)
    ensures
        selected_texts(found) == texts_within(html@, scope@, field@),
{
    let scope = scraper::Selector::parse(scope).ok()?;
    let field = scraper::Selector::parse(field).ok()?;
    let page = scraper::Html::parse_fragment(html);
    Some(
        page.select(&scope).map(
            |e| e.select(&field).map(|f| f.text().next().map(String::from)).collect(),
        ).collect(),
    )
}

/// As `select_texts`, but takes of each element what `ElementRef::attr` gives
/// for the attribute `name`. The result is believed to depend on the four
/// texts alone.
#[verifier::external_body]
fn select_attributes(html: &str, scope: &str, field: &str, name: &str) -> (found: Option<
    Vec<Vec<Option<String>>>,
>)
    ensures
        selected_texts(found) == attributes_within(html@, scope@, field@, name@),
{
    let scope = scraper::Selector::parse(scope).ok()?;
    let field = scraper::Selector::parse(field).ok()?;
    let page = scraper::Html::parse_fragment(html);
    Some(
        page.select(&scope).map(
            |e| e.select(&field).map(|f| f.attr(name).map(String::from)).collect(),
        ).collect(),
    )
}

/// The first of what a selection gives for the element `i` of its scope, or
/// nothing where it gives none.
pub open spec fn first_within(found: Option<Seq<Seq<Option<Seq<char>>>>>, i: int) -> Option<
    Seq<char>,
> {
    match found {
        Some(lists) => if 0 <= i < lists.len() && lists[i].len() > 0 {
            lists[i][0]
        } else {
            None
        },
        None => None,
    }
}

/// All that a selection gives for the element `i` of its scope.
pub open spec fn all_within(found: Option<Seq<Seq<Option<Seq<char>>>>>, i: int) -> Seq<
    Option<Seq<char>>,
> {
    match found {
        Some(lists) => if 0 <= i < lists.len() {
            lists[i]
        } else {
            Seq::empty()
        },
        None => Seq::empty(),
    }
}

/// The number of elements in the scope of a selection.
pub open spec fn scope_len(found: Option<Seq<Seq<Option<Seq<char>>>>>) -> nat {
    match found {
        Some(lists) => lists.len(),
        None => 0,
    }
}

/// The first of what a selection gives for the element `i` of its scope.
pub fn take_first(found: &Option<Vec<Vec<Option<String>>>>, i: usize) -> (r: Option<String>)
    ensures
        crate::screen::optional_text(r) == first_within(selected_texts(*found), i as int),
{
    match found {
        Some(lists) => {
            if i < lists.len() && lists[i].len() > 0 {
                match &lists[i][0] {
                    Some(s) => Some(s.clone()),
                    None => None,
                }
            } else {
                None
            }
        },
        None => None,
    }
}

/// The selector of the element that holds the text of a chapter.
pub open spec fn chapter_scope() -> Seq<char> {
    "div[class=\"txt \"]"@
}

/// The selector of the elements that each hold a novel that a search found.
pub open spec fn novel_scope() -> Seq<char> {
    "div[class=\"txt\"]"@
}

/// Hit `i` of what three selections over the elements of the novels give:
/// the first title, the first address and the first label of element `i`.
pub open spec fn hit_from(
    titles: Option<Seq<Seq<Option<Seq<char>>>>>,
    links: Option<Seq<Seq<Option<Seq<char>>>>>,
    labels: Option<Seq<Seq<Option<Seq<char>>>>>,
    i: int,
) -> crate::search::SearchHitView {
    crate::search::SearchHitView {
        title: first_within(titles, i),
        link: first_within(links, i),
        label: first_within(labels, i),
    }
}

/// The selection of the titles that the first links in the headings of the
/// novels carry.
pub open spec fn titles_of(html: Seq<char>) -> Option<Seq<Seq<Option<Seq<char>>>>> {
    attributes_within(html, novel_scope(), "h3 a"@, "title"@)
}

/// The selection of the addresses of the links to the chapters of the novels.
pub open spec fn links_of(html: Seq<char>) -> Option<Seq<Seq<Option<Seq<char>>>>> {
    attributes_within(html, novel_scope(), "a[class=\"chapter\"]"@, "href"@)
}

/// The selection of the labels of the links to the chapters of the novels.
pub open spec fn labels_of(html: Seq<char>) -> Option<Seq<Seq<Option<Seq<char>>>>> {
    texts_within(html, novel_scope(), "a[class=\"chapter\"] span[class=\"s1\"]"@)
}

/// The hits of the page of a search, one for each novel on it: the title that
/// the first link in a heading of the novel carries, and the address and the
/// label of the first link to a chapter.
pub open spec fn hits_of(html: Seq<char>) -> Seq<crate::search::SearchHitView> {
    Seq::new(
        scope_len(titles_of(html)),
        |i: int| hit_from(titles_of(html), links_of(html), labels_of(html), i),
    )
}

/// The hits that three selections over the elements of the novels give: one
/// for each element that the selection of the titles has, with the first
/// title, the first address and the first label of the element, as far as the
/// selections give them.
pub fn hits_from(
    titles: &Option<Vec<Vec<Option<String>>>>,
    links: &Option<Vec<Vec<Option<String>>>>,
    labels: &Option<Vec<Vec<Option<String>>>>,
) -> (hits: Vec<SearchHit>)
    ensures
        hits@.len() == scope_len(selected_texts(*titles)),
        forall|i: int|
            0 <= i < hits@.len() ==> (#[trigger] hits@[i])@ == hit_from(
                selected_texts(*titles),
                selected_texts(*links),
                selected_texts(*labels),
                i,
            ),
{
    let count: usize = match titles {
        Some(lists) => lists.len(),
        None => 0,
    };
    let mut hits: Vec<SearchHit> = Vec::new();
    let mut i: usize = 0;
    while i < count
        invariant
            i <= count,
            count == scope_len(selected_texts(*titles)),
            hits@.len() == i,
            forall|j: int|
                0 <= j < i ==> (#[trigger] hits@[j])@ == hit_from(
                    selected_texts(*titles),
                    selected_texts(*links),
                    selected_texts(*labels),
                    j,
                ),
        decreases count - i,
    {
        let hit = SearchHit {
            title: take_first(titles, i),
            link: take_first(links, i),
            label: take_first(labels, i),
        };
        hits.push(hit);
        i = i + 1;
    }
    hits
}

/// The hits of the page of a search.
pub fn read_hits(html: &str) -> (hits: Vec<SearchHit>)
    ensures
        crate::search::hit_views(hits@) == hits_of(html@),
{
    let titles = select_attributes(html, "div[class=\"txt\"]", "h3 a", "title");
    let links = select_attributes(html, "div[class=\"txt\"]", "a[class=\"chapter\"]", "href");
    let labels = select_texts(html, "div[class=\"txt\"]", "a[class=\"chapter\"] span[class=\"s1\"]");
    let hits = hits_from(&titles, &links, &labels);
    assert(crate::search::hit_views(hits@) =~= hits_of(html@));
    hits
}

/// All that a selection gives for the element `i` of its scope.
pub fn take_all(found: &Option<Vec<Vec<Option<String>>>>, i: usize) -> (r: Vec<Option<String>>)
    ensures
        crate::screen::optional_texts(r@) == all_within(selected_texts(*found), i as int),
{
    let mut out: Vec<Option<String>> = Vec::new();
    match found {
        Some(lists) => {
            if i < lists.len() {
                let list = &lists[i];
                let mut k: usize = 0;
                while k < list.len()
                    invariant
                        k <= list@.len(),
                        out@.len() == k,
                        forall|j: int|
                            0 <= j < k ==> crate::screen::optional_text(#[trigger] out@[j])
                                == crate::screen::optional_text(list@[j]),
                    decreases list@.len() - k,
                {
                    out.push(
                        match &list[k] {
                            Some(s) => Some(s.clone()),
                            None => None,
                        },
                    );
                    k = k + 1;
                }
                assert(nested_texts(lists@)[i as int] == crate::screen::optional_texts(list@));
                assert(crate::screen::optional_texts(out@) =~= crate::screen::optional_texts(list@));
            } else {
                assert(crate::screen::optional_texts(out@) =~= Seq::empty());
            }
        },
        None => {
            assert(crate::screen::optional_texts(out@) =~= Seq::empty());
        },
    }
    out
}

/// The title of the chapter of a page: the first text of the first heading
/// in the element that holds the chapter.
pub open spec fn page_title(html: Seq<char>) -> Option<Seq<char>> {
    first_within(texts_within(html, chapter_scope(), "h4"@), 0)
}

/// The first texts of the paragraphs of the chapter of a page.
pub open spec fn page_paragraphs(html: Seq<char>) -> Seq<Option<Seq<char>>> {
    all_within(texts_within(html, chapter_scope(), "p"@), 0)
}

impl Screen {
    /// Takes what two selections over the page of a chapter give, the texts
    /// of its headings and of its paragraphs, and lays the text of the chapter
    /// out: the title is the first text of the first heading of the first
    /// element that holds a chapter, and the paragraphs are those of that
    /// element. A page without such an element gives an empty chapter.
    pub fn take_page(
        &mut self,
        titles: &Option<Vec<Vec<Option<String>>>>,
        paragraphs: &Option<Vec<Vec<Option<String>>>>,
    )
        requires
            old(self).wf(),
        ensures
            final(self).wf(),
            texts(final(self).raw_doc@) == chapter_paragraphs(
                first_within(selected_texts(*titles), 0),
                all_within(selected_texts(*paragraphs), 0),
            ),
            texts(final(self).doc@) == laid_out(
                texts(final(self).raw_doc@),
                old(self).viewport@.grid_cols,
            ),
            final(self).viewport == old(self).viewport,
            final(self).url == old(self).url,
            final(self).path == old(self).path,
    {
        let title = take_first(titles, 0);
        let first = take_all(paragraphs, 0);
        self.take_chapter(title, &first);
    }

    /// Takes the page of a chapter, `resp`, and lays the text of the chapter
    /// out: the title and the paragraphs that the page holds in its first
    /// element for the text of a chapter.
    pub fn get_doc(&mut self, resp: &str)
        requires
            old(self).wf(),
        ensures
            final(self).wf(),
            texts(final(self).raw_doc@) == chapter_paragraphs(
                page_title(resp@),
                page_paragraphs(resp@),
            ),
            texts(final(self).doc@) == laid_out(
                texts(final(self).raw_doc@),
                old(self).viewport@.grid_cols,
            ),
            final(self).viewport == old(self).viewport,
            final(self).url == old(self).url,
            final(self).path == old(self).path,
    {
        let titles = select_texts(resp, "div[class=\"txt \"]", "h4");
        let paragraphs = select_texts(resp, "div[class=\"txt \"]", "p");
        self.take_page(&titles, &paragraphs);
    }

    /// Takes the page that the site has answered to the search for `keyword`
    /// and offers the novels on it.
    pub fn find_novels(&mut self, search: &mut Search, keyword: &String, html: &str) -> (rows: Vec<
        Row,
    >)
        requires
            old(self).wf(),
        ensures
            final(self).wf(),
            final(self).raw_doc == old(self).raw_doc,
            final(self).viewport == old(self).viewport,
            final(self).url == old(self).url,
            final(self).path == old(self).path,
            result_views(final(search).results@) == results_of(
                hits_of(html@),
                old(self).viewport@.grid_cols,
            ),
            texts(final(self).doc@) == found_lines(keyword@, result_views(final(search).results@)),
            row_views(rows@) == plain_rows(final(self).doc@, final(self).viewport@),
            final(search).phase == SearchPhase::Results,
            final(search).y == 4,
            final(search).typed@.len() == 0,
            final(search).max_chapter == old(search).max_chapter,
    {
        let hits = read_hits(html);
        self.show_found(search, keyword, &hits)
    }
}

} // verus!
