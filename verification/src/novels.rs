//! The recently read titles: the file that lists them, a title and the
//! address of its chapter on each line, and the screen that offers them.

use crate::renderer::Row;
use crate::renderer::row_views;
use crate::screen::{plain_rows, Screen};
use crate::text::{
    join, join_with, spaces, split, split_on, texts, trim, trimmed,
};
use vstd::prelude::*;
use vstd::string::*;
use vstd::utf8::encode_utf8;

verus! {

broadcast use vstd::string::group_string_axioms;

/// A text with a space in place of each hyphen.
pub open spec fn spaced(s: Seq<char>) -> Seq<char> {
    s.map_values(
        |c: char|
            if c == '-' {
                ' '
            } else {
                c
            },
    )
}

/// The title of the novel at an address: the fourth part of the address, as
/// the parts lie between slashes, with spaces for its hyphens. An address of
/// fewer parts names no novel.
pub open spec fn novel_title(url: Seq<char>) -> Option<Seq<char>> {
    let parts = split(url, '/');
    if parts.len() > 3 {
        Some(spaced(parts[3]))
    } else {
        None
    }
}

/// The fields of each line of the list: a number sign parts the fields.
pub open spec fn entries(content: Seq<char>) -> Seq<Seq<Seq<char>>> {
    split(content, '\n').map_values(|line: Seq<char>| split(line, '#'))
}

/// The index of the first entry whose first field is `title`, or the number
/// of entries where there is none.
pub open spec fn first_titled(list: Seq<Seq<Seq<char>>>, title: Seq<char>) -> int
    decreases list.len(),
{
    if list.len() == 0 {
        0
    } else if list[0][0] == title {
        0
    } else {
        1 + first_titled(list.drop_first(), title)
    }
}

/// `first_titled` is the index of an entry whose first field is `title`, where
/// it is an index at all, and no entry before it has that first field.
pub proof fn lemma_first_titled(list: Seq<Seq<Seq<char>>>, title: Seq<char>)
    ensures
        0 <= first_titled(list, title) <= list.len(),
        first_titled(list, title) < list.len() ==> list[first_titled(list, title)][0] == title,
        forall|j: int| 0 <= j < first_titled(list, title) ==> (#[trigger] list[j])[0] != title,
    decreases list.len(),
{
    if list.len() > 0 && list[0][0] != title {
        lemma_first_titled(list.drop_first(), title);
        let k = first_titled(list.drop_first(), title);
        assert forall|j: int| 0 <= j < 1 + k implies (#[trigger] list[j])[0] != title by {
            if j > 0 {
                assert(list.drop_first()[j - 1] == list[j]);
            }
        }
    }
}

/// An entry with `url` for its address.
pub open spec fn readdressed(entry: Seq<Seq<char>>, url: Seq<char>) -> Seq<Seq<char>> {
    if entry.len() > 1 {
        entry.update(1, url)
    } else {
        entry.push(url)
    }
}

/// The list after the chapter at `url` of the novel `title` has been read:
/// the entry of the novel, with the address without the white space around
/// it, has moved to the head of the list; a novel that had no entry gets one
/// there.
pub open spec fn read_now(list: Seq<Seq<Seq<char>>>, title: Seq<char>, url: Seq<char>) -> Seq<
    Seq<Seq<char>>,
> {
    let i = first_titled(list, title);
    if i < list.len() {
        seq![readdressed(list[i], trimmed(url))] + list.remove(i)
    } else {
        seq![seq![title, url]] + list
    }
}

/// The lines of a list.
pub open spec fn lines_of(list: Seq<Seq<Seq<char>>>) -> Seq<Seq<char>> {
    list.map_values(|entry: Seq<Seq<char>>| join(entry, seq!['#']))
}

/// The content of the file after the chapter at `url` has been read.
pub open spec fn updated_novels(content: Seq<char>, url: Seq<char>) -> Option<Seq<char>> {
    match novel_title(url) {
        Some(title) => Some(
            trimmed(join(lines_of(read_now(entries(content), title, url)), seq!['\n'])),
        ),
        None => None,
    }
}

/// The directory that holds the file of the recently read titles: the one of
/// this program in the directory of the user's settings, which lies in the
/// home directory where the environment names no other.
pub open spec fn config_dir(config_home: Option<Seq<char>>, home: Seq<char>) -> Seq<char> {
    match config_home {
        Some(dir) => dir + "/lightnovel-cli"@,
        None => home + "/.config/lightnovel-cli"@,
    }
}

/// The file of the recently read titles.
pub open spec fn config_file(config_home: Option<Seq<char>>, home: Seq<char>) -> Seq<char> {
    config_dir(config_home, home) + "/novels.txt"@
}

/// The directory to create for the file of the recently read titles, and the
/// file itself, for the directory of the user's settings that the environment
/// names, if it names one, and the home directory.
pub fn create_config_dir(config_home: Option<String>, home: String) -> (r: (String, String))
    ensures
        r.0@ == config_dir(crate::screen::optional_text(config_home), home@),
        r.1@ == config_file(crate::screen::optional_text(config_home), home@),
{
    let mut dir = match config_home {
        Some(d) => {
            let mut path = d;
            path.append("/lightnovel-cli");
            path
        },
        None => {
            let mut path = home;
            path.append("/.config/lightnovel-cli");
            path
        },
    };
    let mut file = dir.clone();
    file.append("/novels.txt");
    (dir, file)
}

/// A title as it is shown in a grid of `cols` columns: one that is as long in
/// bytes as the grid is wide or longer is cut to nine characters less than
/// the width, and three full stops follow.
pub open spec fn shortened(title: Seq<char>, cols: int) -> Seq<char> {
    if encode_utf8(title).len() >= cols {
        let keep = if cols < 9 {
            0
        } else if cols - 9 < title.len() {
            cols - 9
        } else {
            title.len() as int
        };
        title.take(keep) + "..."@
    } else {
        title
    }
}

/// The line that offers a title.
pub open spec fn offer(title: Seq<char>) -> Seq<char> {
    "  *  "@ + title + seq!['\n']
}

/// Line `i` of a text whose pieces between line breaks are `pieces`, as it is
/// read from a file: with its line break, which only the last line lacks.
pub open spec fn file_line(pieces: Seq<Seq<char>>, i: int) -> Seq<char> {
    if i < pieces.len() - 1 {
        pieces[i].push('\n')
    } else {
        pieces[i]
    }
}

/// Whether piece `i` is a line of the file: what follows the last line break
/// is one only where it is not empty.
pub open spec fn is_file_line(pieces: Seq<Seq<char>>, i: int) -> bool {
    i < pieces.len() - 1 || pieces[i].len() > 0
}

/// Whether a line of the file lists a novel: it has a title and an address.
pub open spec fn lists_novel(pieces: Seq<Seq<char>>, i: int) -> bool {
    is_file_line(pieces, i) && split(file_line(pieces, i), '#').len() > 1
}

/// The lines that offer the novels which the first `n` pieces of the file
/// list: for each the title, without the white space around it and
/// shortened for the grid.
pub open spec fn offers(pieces: Seq<Seq<char>>, n: int, cols: int) -> Seq<Seq<char>>
    decreases n,
{
    if n <= 0 {
        Seq::empty()
    } else if lists_novel(pieces, n - 1) {
        offers(pieces, n - 1, cols).push(
            offer(shortened(trimmed(split(file_line(pieces, n - 1), '#')[0]), cols)),
        )
    } else {
        offers(pieces, n - 1, cols)
    }
}

/// The addresses of the novels which the first `n` pieces of the file list,
/// as they stand in the file.
pub open spec fn addresses(pieces: Seq<Seq<char>>, n: int) -> Seq<Seq<char>>
    decreases n,
{
    if n <= 0 {
        Seq::empty()
    } else if lists_novel(pieces, n - 1) {
        addresses(pieces, n - 1).push(split(file_line(pieces, n - 1), '#')[1])
    } else {
        addresses(pieces, n - 1)
    }
}

/// The head of the screen that offers the recently read novels.
pub open spec fn welcome_head() -> Seq<Seq<char>> {
    seq![seq!['\n'], " Recently Read Novels\n"@, seq!['\n']]
}

/// The lines of the screen that offers the novels which a file lists.
pub open spec fn welcome_lines(content: Seq<char>, cols: int) -> Seq<Seq<char>> {
    let pieces = split(content, '\n');
    welcome_head() + offers(pieces, pieces.len() as int, cols)
}

/// The addresses of the novels which a file lists.
pub open spec fn welcome_addresses(content: Seq<char>) -> Seq<Seq<char>> {
    let pieces = split(content, '\n');
    addresses(pieces, pieces.len() as int)
}

/// `title` as it is shown in a grid of `cols` columns.
pub fn shorten(title: String, cols: u16) -> (r: String)
    ensures
        r@ == shortened(title@, cols as int),
{
    let bytes: usize = title.as_str().as_bytes().len();
    if bytes >= cols as usize {
        let len: usize = title.as_str().unicode_len();
        let keep: usize = if cols < 9 {
            0
        } else if ((cols - 9) as usize) < len {
            (cols - 9) as usize
        } else {
            len
        };
        let mut out = String::from_str(title.as_str().substring_char(0, keep));
        out.append("...");
        out
    } else {
        title
    }
}

/// `s` with a space in place of each hyphen.
pub fn replace_hyphens(s: &str) -> (r: String)
    ensures
        r@ == spaced(s@),
{
    let mut out = String::new();
    for c in it: s.chars()
        invariant
            it.seq() == s@,
            out@ == spaced(s@.take(it.index())),
    {
        out.push(
            if c == '-' {
                ' '
            } else {
                c
            },
        );
    }
    out
}

/// Where the cursor stands on the screen that offers the recently read
/// novels, and the addresses of the novels on offer.
#[derive(Debug)]
pub struct Welcome {
    pub y: i32,
    pub urls: Vec<String>,
}

/// What a key comes to on the screen that offers the recently read novels.
#[derive(Debug)]
pub enum WelcomeStep {
    /// The program is left.
    Quit,
    /// The cursor has moved.
    Move,
    /// The rows to show.
    Show(Vec<Row>),
    /// The search is asked for.
    Search,
    /// The chapter at the address is to be fetched and shown.
    Open(String),
    /// Nothing to do but to wait for the next key.
    Wait,
}

/// The index of the first line from `from` on that reads as `wanted` does,
/// the white space around both left aside, or the number of lines where
/// there is none.
pub open spec fn first_reading(lines: Seq<String>, from: int, wanted: Seq<char>) -> int
    decreases lines.len() - from,
{
    if from >= lines.len() {
        lines.len() as int
    } else if trimmed(lines[from]@) == wanted {
        from
    } else {
        first_reading(lines, from + 1, wanted)
    }
}

impl Screen {
    /// The address that the line under the cursor offers: that of the first
    /// offer that reads as the line does. The line under the cursor is the
    /// one that stands as many lines below the first line of the viewport as
    /// the cursor stands rows below the top. There is none where the cursor
    /// is on the second row or above the grid, where there is no line under
    /// it, or where no offer reads as the line does.
    pub open spec fn offered(&self, menu: Welcome) -> Option<int> {
        let line = self.viewport@.top_line + menu.y;
        if menu.y == 1 || menu.y < 0 || line >= self.doc@.len() {
            None
        } else {
            let found = first_reading(self.doc@, 3, trimmed(self.doc@[line]@));
            if found < self.doc@.len() && found - 3 < menu.urls@.len() {
                Some(found - 3)
            } else {
                None
            }
        }
    }

    /// Shows the novels that `content`, the content of the file of the
    /// recently read titles, lists, and gives the lines of the screen and the
    /// addresses of the novels.
    pub fn make_welcome_screen(&mut self, content: &str) -> (r: (Vec<String>, Vec<String>))
        requires
            old(self).wf(),
        ensures
            final(self).wf(),
            texts(r.0@) == welcome_lines(content@, old(self).viewport@.grid_cols),
            texts(r.1@) == welcome_addresses(content@),
            texts(final(self).doc@) == texts(r.0@),
            final(self).raw_doc == old(self).raw_doc,
            final(self).viewport == old(self).viewport,
            final(self).url == old(self).url,
            final(self).path == old(self).path,
    {
        let cols: u16 = self.viewport.grid_cols();
        let pieces = split_on(content, '\n');
        let ghost all = split(content@, '\n');
        proof {
            crate::text::lemma_split_pieces(content@, '\n');
        }
        let mut result: Vec<String> = Vec::new();
        let mut shown: Vec<String> = Vec::new();
        let mut urls: Vec<String> = Vec::new();
        let mut blank = String::new();
        blank.push('\n');
        result.push(blank.clone());
        shown.push(blank.clone());
        result.push(String::from_str(" Recently Read Novels\n"));
        shown.push(String::from_str(" Recently Read Novels\n"));
        result.push(blank.clone());
        shown.push(blank);
        let mut i: usize = 0;
        while i < pieces.len()
            invariant
                all == split(content@, '\n'),
                texts(pieces@) == all,
                i <= pieces@.len(),
                texts(result@) == welcome_head() + offers(all, i as int, cols as int),
                texts(shown@) == texts(result@),
                texts(urls@) == addresses(all, i as int),
            decreases pieces@.len() - i,
        {
            let last = i + 1 == pieces.len();
            let mut line = pieces[i].clone();
            if !last {
                line.push('\n');
            }
            if !last || line.as_str().unicode_len() > 0 {
                let fields = split_on(line.as_str(), '#');
                proof {
                    crate::text::lemma_split_pieces(line@, '#');
                }
                if fields.len() > 1 {
                    let title = shorten(trim(fields[0].as_str()), cols);
                    let mut row = String::from_str("  *  ");
                    row.append(title.as_str());
                    row.push('\n');
                    assert(row@ =~= offer(title@));
                    let ghost before = result@;
                    shown.push(row.clone());
                    result.push(row);
                    urls.push(fields[1].clone());
                    assert(texts(result@) =~= texts(before).push(offer(title@)));
                }
            }
            i = i + 1;
        }
        self.doc = shown;
        (result, urls)
    }

    /// Takes a key on the screen that offers the recently read novels. `q`
    /// leaves. `j` and the down arrow move the cursor down a row: on the last
    /// row but one of the grid the text scrolls instead, and on the row of the
    /// last offer nothing moves. `k` and the up arrow move the cursor up a
    /// row: on the second row the text scrolls instead. `s` asks for the
    /// search. The line feed opens the novel that the line under the cursor
    /// offers, if it offers one. Any other key changes nothing.
    pub fn draw_welcome_screen(&mut self, menu: &mut Welcome, key: i32) -> (step: WelcomeStep)
        requires
            old(self).wf(),
        ensures
            final(self).wf(),
            final(self).raw_doc == old(self).raw_doc,
            final(self).doc == old(self).doc,
            final(self).path == old(self).path,
            final(menu).urls == old(menu).urls,
            final(self).welcomed(*old(self), *old(menu), *final(menu), key as int, step),
    {
        let rows: i32 = self.viewport.grid_rows() as i32;
        if key == 113 {
            WelcomeStep::Quit
        } else if key == 106 || key == 258 {
            if menu.y == rows - 1 {
                self.scroll(1);
                WelcomeStep::Show(self.draw())
            } else if (menu.y >= 2 && (menu.y as i64 - 2) as u64 == menu.urls.len() as u64)
                || menu.y == i32::MAX {
                WelcomeStep::Wait
            } else {
                menu.y = menu.y + 1;
                WelcomeStep::Move
            }
        } else if key == 107 || key == 259 {
            if menu.y == 1 {
                self.scroll(-1);
                WelcomeStep::Show(self.draw())
            } else if menu.y == i32::MIN {
                WelcomeStep::Wait
            } else {
                menu.y = menu.y - 1;
                WelcomeStep::Move
            }
        } else if key == 115 {
            WelcomeStep::Search
        } else if key == 10 {
            match self.pick(menu) {
                Some(i) => {
                    let address = menu.urls[i].clone();
                    self.url = menu.urls[i].clone();
                    menu.y = 3;
                    WelcomeStep::Open(address)
                },
                None => WelcomeStep::Wait,
            }
        } else {
            WelcomeStep::Wait
        }
    }

    /// Whether this is the surface `before` after the key `key`, which came
    /// to `step` and moved the cursor of `menu` to where it stands in
    /// `after`.
    pub open spec fn welcomed(
        &self,
        before: Screen,
        menu: Welcome,
        after: Welcome,
        key: int,
        step: WelcomeStep,
    ) -> bool {
        let unchanged = self.url == before.url && self.viewport == before.viewport && after.y
            == menu.y;
        if key == 113 {
            step is Quit && unchanged
        } else if key == 106 || key == 258 {
            if menu.y == before.viewport@.grid_rows - 1 {
                &&& step matches WelcomeStep::Show(rows)
                &&& self.viewport@ == before.viewport@.scroll_by(1, before.doc@.len() as int)
                &&& row_views(rows@) == plain_rows(self.doc@, self.viewport@)
                &&& self.url == before.url
                &&& after.y == menu.y
            } else if menu.y == 2 + menu.urls@.len() || menu.y == i32::MAX {
                step is Wait && unchanged
            } else {
                &&& step is Move
                &&& after.y == menu.y + 1
                &&& self.url == before.url
                &&& self.viewport == before.viewport
            }
        } else if key == 107 || key == 259 {
            if menu.y == 1 {
                &&& step matches WelcomeStep::Show(rows)
                &&& self.viewport@ == before.viewport@.scroll_by(-1, before.doc@.len() as int)
                &&& row_views(rows@) == plain_rows(self.doc@, self.viewport@)
                &&& self.url == before.url
                &&& after.y == menu.y
            } else if menu.y == i32::MIN {
                step is Wait && unchanged
            } else {
                &&& step is Move
                &&& after.y == menu.y - 1
                &&& self.url == before.url
                &&& self.viewport == before.viewport
            }
        } else if key == 115 {
            step is Search && unchanged
        } else if key == 10 {
            match before.offered(menu) {
                Some(i) => {
                    &&& step matches WelcomeStep::Open(address)
                    &&& address@ == menu.urls@[i]@
                    &&& self.url@ == menu.urls@[i]@
                    &&& self.viewport == before.viewport
                    &&& after.y == 3
                },
                None => step is Wait && unchanged,
            }
        } else {
            step is Wait && unchanged
        }
    }

    /// The index of the address that the line under the cursor offers.
    pub fn pick(&self, menu: &Welcome) -> (r: Option<usize>)
        requires
            self.wf(),
        ensures
            r is Some <==> self.offered(*menu) is Some,
            r matches Some(i) ==> self.offered(*menu) == Some(i as int) && i < menu.urls@.len(),
    {
        if menu.y == 1 || menu.y < 0 {
            return None;
        }
        let top: usize = self.viewport.top_line();
        let below: usize = menu.y as usize;
        if below >= self.doc.len() || top >= self.doc.len() - below {
            return None;
        }
        let wanted = trim(self.doc[top + below].as_str());
        let mut id: usize = 3;
        while id < self.doc.len()
            invariant
                3 <= id,
                menu.y != 1,
                menu.y >= 0,
                top + below < self.doc@.len(),
                top == self.viewport@.top_line,
                below == menu.y,
                wanted@ == trimmed(self.doc@[top + below]@),
                first_reading(self.doc@, 3, wanted@) == first_reading(
                    self.doc@,
                    id as int,
                    wanted@,
                ),
            decreases self.doc@.len() - id,
        {
            let here = trim(self.doc[id].as_str());
            if here == wanted {
                return if id - 3 < menu.urls.len() {
                    Some(id - 3)
                } else {
                    None
                };
            }
            id = id + 1;
        }
        None
    }

    /// The content of the file of the recently read titles, `content`, after
    /// the chapter that is open has been read. There is none where the
    /// address of the chapter names no novel.
    pub fn update_novels(&self, content: &str) -> (r: Option<String>)
        ensures
            match updated_novels(content@, self.url@) {
                Some(text) => r matches Some(s) && s@ == text,
                None => r is None,
            },
    {
        let parts = split_on(self.url.as_str(), '/');
        if parts.len() <= 3 {
            return None;
        }
        let title = replace_hyphens(parts[3].as_str());
        let lines = split_on(content, '\n');
        let ghost list = entries(content@);
        let mut rest: Vec<String> = Vec::new();
        let mut head: Option<String> = None;
        let mut i: usize = 0;
        proof {
            reveal_strlit("#");
            reveal_strlit("\n");
            assert("\n"@ =~= seq!['\n']);
            assert(list.skip(0) =~= list);
        }
        while i < lines.len()
            invariant
                list == entries(content@),
                texts(lines@) == split(content@, '\n'),
                "#"@ == seq!['#'],
                i <= lines@.len(),
                head is None ==> first_titled(list, title@) == i + first_titled(
                    list.skip(i as int),
                    title@,
                ),
                head is None ==> texts(rest@) == lines_of(list.take(i as int)),
                head matches Some(h) ==> {
                    let k = first_titled(list, title@);
                    &&& k < i
                    &&& h@ == join(readdressed(list[k], trimmed(self.url@)), seq!['#'])
                    &&& texts(rest@) == lines_of(list.take(i as int).remove(k))
                },
            decreases lines@.len() - i,
        {
            let mut fields = split_on(lines[i].as_str(), '#');
            proof {
                crate::text::lemma_split_pieces(lines@[i as int]@, '#');
                assert(list.skip(i as int).drop_first() =~= list.skip(i + 1));
            }
            let ghost before = rest@;
            proof {
                lemma_first_titled(list, title@);
                lemma_first_titled(list.skip(i as int), title@);
            }
            if head.is_none() && fields[0] == title {
                let address = trim(self.url.as_str());
                let ghost entry = texts(fields@);
                if fields.len() > 1 {
                    fields[1] = address;
                    assert(texts(fields@) =~= entry.update(1, trimmed(self.url@)));
                } else {
                    fields.push(address);
                    assert(texts(fields@) =~= entry.push(trimmed(self.url@)));
                }
                head = Some(join_with(&fields, "#"));
            } else {
                rest.push(join_with(&fields, "#"));
                proof {
                    assert(texts(rest@) =~= texts(before).push(join(list[i as int], seq!['#'])));
                }
            }
            i = i + 1;
        }
        let first = match head {
            Some(h) => h,
            None => {
                let mut fresh: Vec<String> = Vec::new();
                fresh.push(title);
                fresh.push(self.url.clone());
                assert(texts(fresh@) =~= seq![title@, self.url@]);
                join_with(&fresh, "#")
            },
        };
        let mut all: Vec<String> = Vec::new();
        all.push(first);
        let ghost one = all@;
        let ghost others = rest@;
        all.append(&mut rest);
        proof {
            assert(texts(all@) =~= texts(one) + texts(others));
            assert(texts(all@) =~= lines_of(read_now(list, title@, self.url@)));
        }
        let text = join_with(&all, "\n");
        Some(trim(text.as_str()))
    }
}

} // verus!
