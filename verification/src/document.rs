//! The text buffer: rows of characters, with the edits and the substring
//! search that the editing session needs.

use crate::editor::{Position, SearchDirection};
use vstd::prelude::*;

verus! {

/// The length of row `y`, and zero where the document has no such row.
pub open spec fn row_len(rows: Seq<Seq<char>>, y: int) -> int {
    if 0 <= y < rows.len() {
        rows[y].len() as int
    } else {
        0
    }
}

/// Whether the number of rows and the length of every row fit in a `usize`.
/// This holds of the rows of every [`Document`].
pub open spec fn fits(rows: Seq<Seq<char>>) -> bool {
    &&& rows.len() <= usize::MAX
    &&& forall|i: int| 0 <= i < rows.len() ==> (#[trigger] rows[i]).len() <= usize::MAX
}

/// Whether `query` stands in `row` at column `x`.
pub open spec fn occurs_at(row: Seq<char>, query: Seq<char>, x: int) -> bool {
    &&& 0 <= x
    &&& x + query.len() <= row.len()
    &&& row.subrange(x, x + query.len()) == query
}

/// Whether column `x` is a place that a search in `row` from column `at` may
/// report: a non-empty `query` stands there, and it starts at or after `at`
/// (forward) or ends at or before `at` (backward).
pub open spec fn row_hit(
    row: Seq<char>,
    query: Seq<char>,
    at: int,
    direction: SearchDirection,
    x: int,
) -> bool {
    &&& query.len() > 0
    &&& occurs_at(row, query, x)
    &&& match direction {
        SearchDirection::Forward => at <= x,
        SearchDirection::Backward => x + query.len() <= at,
    }
}

/// Whether `r` is what a search in `row` from column `at` reports: the hit
/// nearest to `at` in the direction of the search, or nothing if there is none.
pub open spec fn row_found(
    row: Seq<char>,
    query: Seq<char>,
    at: int,
    direction: SearchDirection,
    r: Option<usize>,
) -> bool {
    match r {
        Some(x) => {
            &&& row_hit(row, query, at, direction, x as int)
            &&& forall|x2: int| #[trigger]
                row_hit(row, query, at, direction, x2) ==> match direction {
                    SearchDirection::Forward => x <= x2,
                    SearchDirection::Backward => x2 <= x,
                }
        },
        None => forall|x2: int| !#[trigger] row_hit(row, query, at, direction, x2),
    }
}

/// Whether `p` comes before `q` in reading order, or is `q`.
pub open spec fn before_eq(p: Position, q: Position) -> bool {
    p.y < q.y || (p.y == q.y && p.x <= q.x)
}

/// Whether `p` is a place that a search from `at` may report: `at` lies on a
/// row of the document, a non-empty `query` stands at `p`, and the occurrence
/// starts at or after `at` (forward) or ends at or before `at` (backward), in
/// reading order.
pub open spec fn doc_hit(
    rows: Seq<Seq<char>>,
    query: Seq<char>,
    at: Position,
    direction: SearchDirection,
    p: Position,
) -> bool {
    &&& query.len() > 0
    &&& at.y < rows.len()
    &&& p.y < rows.len()
    &&& occurs_at(rows[p.y as int], query, p.x as int)
    &&& match direction {
        SearchDirection::Forward => p.y > at.y || (p.y == at.y && p.x >= at.x),
        SearchDirection::Backward => p.y < at.y || (p.y == at.y && p.x + query.len() <= at.x),
    }
}

/// Whether `r` is what a search from `at` reports: the hit nearest to `at` in
/// the direction of the search, or nothing if there is none.
pub open spec fn doc_found(
    rows: Seq<Seq<char>>,
    query: Seq<char>,
    at: Position,
    direction: SearchDirection,
    r: Option<Position>,
) -> bool {
    match r {
        Some(p) => {
            &&& doc_hit(rows, query, at, direction, p)
            &&& forall|q: Position| #[trigger]
                doc_hit(rows, query, at, direction, q) ==> match direction {
                    SearchDirection::Forward => before_eq(p, q),
                    SearchDirection::Backward => before_eq(q, p),
                }
        },
        None => forall|q: Position| !#[trigger] doc_hit(rows, query, at, direction, q),
    }
}

/// What a search from `at` reports.
pub open spec fn found(
    rows: Seq<Seq<char>>,
    query: Seq<char>,
    at: Position,
    direction: SearchDirection,
) -> Option<Position> {
    choose|r: Option<Position>| doc_found(rows, query, at, direction, r)
}

/// A search has one answer: two results that both are the nearest hit, or
/// the lack of any, are the same.
pub proof fn lemma_found_unique(
    rows: Seq<Seq<char>>,
    query: Seq<char>,
    at: Position,
    direction: SearchDirection,
    r: Option<Position>,
)
    requires
        doc_found(rows, query, at, direction, r),
    ensures
        found(rows, query, at, direction) == r,
{
    let f = found(rows, query, at, direction);
    assert(doc_found(rows, query, at, direction, f));
    match (r, f) {
        (Some(p), Some(q)) => {
            assert(doc_hit(rows, query, at, direction, p));
            assert(doc_hit(rows, query, at, direction, q));
            assert(before_eq(p, q) && before_eq(q, p));
        },
        (Some(p), None) => {
            assert(doc_hit(rows, query, at, direction, p));
        },
        (None, Some(q)) => {
            assert(doc_hit(rows, query, at, direction, q));
        },
        (None, None) => {},
    }
}

/// A forward search from a place at or before the only occurrence of a
/// query lands on that occurrence.
pub proof fn lemma_found_only_occurrence(
    rows: Seq<Seq<char>>,
    query: Seq<char>,
    at: Position,
    p: Position,
)
    requires
        query.len() > 0,
        at.y < rows.len(),
        p.y < rows.len(),
        before_eq(at, p),
        occurs_at(rows[p.y as int], query, p.x as int),
        forall|q: Position|
            q.y < rows.len() && #[trigger] occurs_at(rows[q.y as int], query, q.x as int) ==> q
                == p,
    ensures
        found(rows, query, at, SearchDirection::Forward) == Some(p),
{
    assert(doc_hit(rows, query, at, SearchDirection::Forward, p));
    assert(doc_found(rows, query, at, SearchDirection::Forward, Some(p)));
    lemma_found_unique(rows, query, at, SearchDirection::Forward, Some(p));
}

/// The rows after character `c` is put in at `at`.
///
/// A line break splits row `at.y` at the column (or opens an empty row at the
/// end of the document); any other character goes into row `at.y` at the
/// column, or at the row's end if the column lies beyond it, or into a new
/// last row. A position below the row after the last changes nothing.
pub open spec fn inserted(rows: Seq<Seq<char>>, at: Position, c: char) -> Seq<Seq<char>> {
    let y = at.y as int;
    if y > rows.len() {
        rows
    } else if y == rows.len() {
        if c == '\n' {
            rows.push(Seq::empty())
        } else {
            rows.push(seq![c])
        }
    } else {
        let k = if at.x <= rows[y].len() {
            at.x as int
        } else {
            rows[y].len() as int
        };
        if c == '\n' {
            rows.update(y, rows[y].take(k)).insert(y + 1, rows[y].skip(k))
        } else {
            rows.update(y, rows[y].insert(k, c))
        }
    }
}

/// The rows after the character at `at` is taken out.
///
/// At the end of a row that has a successor the two rows are joined; inside
/// a row the character leaves; anywhere else nothing changes.
pub open spec fn deleted(rows: Seq<Seq<char>>, at: Position) -> Seq<Seq<char>> {
    let y = at.y as int;
    let x = at.x as int;
    if y >= rows.len() {
        rows
    } else if x == rows[y].len() && y + 1 < rows.len() {
        rows.update(y, rows[y] + rows[y + 1]).remove(y + 1)
    } else if x < rows[y].len() {
        rows.update(y, rows[y].remove(x))
    } else {
        rows
    }
}

/// The part of `row` between columns `start` and `end`, both cut to the row.
pub open spec fn window(row: Seq<char>, start: int, end: int) -> Seq<char> {
    let e = if end < row.len() {
        end
    } else {
        row.len() as int
    };
    let s = if start < e {
        start
    } else {
        e
    };
    row.subrange(s, e)
}

/// The lines of a snapshot: every row, each followed by a line break.
pub open spec fn snapshot_lines(rows: Seq<Seq<char>>) -> Seq<Seq<char>> {
    Seq::new(rows.len(), |i: int| rows[i].push('\n'))
}

/// The views of the lines in `lines`.
pub open spec fn views(lines: Seq<Vec<char>>) -> Seq<Seq<char>> {
    Seq::new(lines.len(), |i: int| lines[i]@)
}

/// The name of the kind of file that `file_name` stands for.
pub open spec fn file_type_of(file_name: Option<Seq<char>>) -> Seq<char> {
    match file_name {
        Some(name) => if name.len() >= 3 && name[name.len() - 3] == '.' && name[name.len() - 2]
            == 'r' && name[name.len() - 1] == 's' {
            "Rust"@
        } else {
            "No filetype"@
        },
        None => "No filetype"@,
    }
}

/// One row of text.
#[derive(Clone, Debug, PartialEq, Eq)]
pub struct Row {
    chars: Vec<char>,
}

impl View for Row {
    type V = Seq<char>;

    closed spec fn view(&self) -> Seq<char> {
        self.chars@
    }
}

impl Row {
    /// A row that holds `chars`.
    pub fn new(chars: Vec<char>) -> (row: Row)
        ensures
            row@ == chars@,
    {
        Row { chars }
    }

    /// The number of characters in the row.
    pub fn len(&self) -> (n: usize)
        ensures
            n == self@.len(),
    {
        self.chars.len()
    }

    /// Whether the row holds no character.
    pub fn is_empty(&self) -> (b: bool)
        ensures
            b == (self@.len() == 0),
    {
        self.chars.len() == 0
    }

    /// The characters of the row.
    pub fn chars(&self) -> (chars: &Vec<char>)
        ensures
            chars@ == self@,
    {
        &self.chars
    }

    /// The characters between columns `start` and `end`, both cut to the row.
    pub fn render(&self, start: usize, end: usize) -> (out: Vec<char>)
        ensures
            out@ == window(self@, start as int, end as int),
    {
        let e: usize = if end < self.chars.len() {
            end
        } else {
            self.chars.len()
        };
        let s: usize = if start < e {
            start
        } else {
            e
        };
        let mut out: Vec<char> = Vec::new();
        let mut i: usize = s;
        while i < e
            invariant
                s <= i <= e <= self.chars@.len(),
                out@ == self.chars@.subrange(s as int, i as int),
            decreases e - i,
        {
            out.push(self.chars[i]);
            i += 1;
            assert(self.chars@.subrange(s as int, i as int) =~= self.chars@.subrange(
                s as int,
                i - 1,
            ).push(self.chars@[i - 1]));
        }
        out
    }

    /// Puts `c` in at column `at`, or at the end of the row if `at` lies
    /// beyond it.
    pub fn insert(&mut self, at: usize, c: char)
        ensures
            final(self)@ == old(self)@.insert(
                if at <= old(self)@.len() {
                    at as int
                } else {
                    old(self)@.len() as int
                },
                c,
            ),
    {
        if at >= self.chars.len() {
            self.chars.push(c);
            assert(self.chars@ =~= old(self).chars@.insert(old(self).chars@.len() as int, c));
        } else {
            self.chars.insert(at, c);
        }
    }

    /// Takes out the character at column `at`, if the row has one there.
    pub fn delete(&mut self, at: usize)
        ensures
            final(self)@ == if at < old(self)@.len() {
                old(self)@.remove(at as int)
            } else {
                old(self)@
            },
    {
        if at < self.chars.len() {
            self.chars.remove(at);
        }
    }

    /// Appends the characters of `other`.
    pub fn append(&mut self, other: &Row)
        ensures
            final(self)@ == old(self)@ + other@,
    {
        crate::text::push_all(&mut self.chars, &other.chars);
    }

    /// Cuts the row at column `at` (or at its end, if `at` lies beyond it)
    /// and returns what stood from there on.
    pub fn split(&mut self, at: usize) -> (rest: Row)
        ensures
            final(self)@ == old(self)@.take(
                if at <= old(self)@.len() {
                    at as int
                } else {
                    old(self)@.len() as int
                },
            ),
            rest@ == old(self)@.skip(
                if at <= old(self)@.len() {
                    at as int
                } else {
                    old(self)@.len() as int
                },
            ),
    {
        let k: usize = if at <= self.chars.len() {
            at
        } else {
            self.chars.len()
        };
        let rest = self.chars.split_off(k);
        Row { chars: rest }
    }

    /// Whether `query` stands in the row at column `x`.
    pub fn matches_at(&self, query: &Vec<char>, x: usize) -> (b: bool)
        ensures
            b == occurs_at(self@, query@, x as int),
    {
        let n = self.chars.len();
        let m = query.len();
        if m > n || x > n - m {
            return false;
        }
        let mut j: usize = 0;
        while j < m
            invariant
                j <= m,
                m == query@.len(),
                n == self.chars@.len(),
                x + m <= n,
                forall|k: int| 0 <= k < j ==> self.chars@[x + k] == query@[k],
            decreases m - j,
        {
            if self.chars[x + j] != query[j] {
                proof {
                    let sub = self.chars@.subrange(x as int, x + m);
                    assert(sub[j as int] != query@[j as int]);
                }
                return false;
            }
            j += 1;
        }
        assert(self.chars@.subrange(x as int, x + m) =~= query@);
        true
    }

    /// Searches the row for `query` from column `at`: forward for the first
    /// occurrence that starts at or after `at`, backward for the last one
    /// that ends at or before `at`.
    pub fn find(&self, query: &Vec<char>, at: usize, direction: SearchDirection) -> (r: Option<
        usize,
    >)
        ensures
            row_found(self@, query@, at as int, direction, r),
    {
        let n = self.chars.len();
        let m = query.len();
        if m == 0 || m > n {
            return None;
        }
        match direction {
            SearchDirection::Forward => {
                let last: usize = n - m;
                let mut x: usize = at;
                while x <= last
                    invariant
                        at <= x,
                        direction == SearchDirection::Forward,
                        last == n - m,
                        n == self@.len(),
                        m == query@.len(),
                        0 < m <= n,
                        forall|x2: int| at <= x2 < x ==> !occurs_at(self@, query@, x2),
                    decreases last + 1 - x,
                {
                    if self.matches_at(query, x) {
                        return Some(x);
                    }
                    x += 1;
                }
                None
            },
            SearchDirection::Backward => {
                let limit: usize = if at < n {
                    at
                } else {
                    n
                };
                if m > limit {
                    return None;
                }
                let mut x: usize = limit - m;
                loop
                    invariant
                        x + m <= limit,
                        direction == SearchDirection::Backward,
                        limit <= at,
                        limit <= n,
                        n == self@.len(),
                        m == query@.len(),
                        0 < m,
                        at >= n ==> limit == n,
                        forall|x2: int| x < x2 && x2 + m <= at ==> !occurs_at(self@, query@, x2),
                    decreases x,
                {
                    if self.matches_at(query, x) {
                        return Some(x);
                    }
                    if x == 0 {
                        return None;
                    }
                    x -= 1;
                }
            },
        }
    }
}

/// What a [`Document`] holds: its rows, the name of its file if it has one,
/// and whether it was changed since it was last saved.
pub struct DocumentView {
    pub rows: Seq<Seq<char>>,
    pub file_name: Option<Seq<char>>,
    pub dirty: bool,
}

/// A text document.
#[derive(Clone, Debug, PartialEq, Eq)]
pub struct Document {
    rows: Vec<Row>,
    file_name: Option<Vec<char>>,
    dirty: bool,
}

impl View for Document {
    type V = DocumentView;

    closed spec fn view(&self) -> DocumentView {
        DocumentView {
            rows: Seq::new(self.rows@.len(), |i: int| self.rows@[i]@),
            file_name: match self.file_name {
                Some(name) => Some(name@),
                None => None,
            },
            dirty: self.dirty,
        }
    }
}

impl Default for Document {
    /// An empty document without a file name.
    fn default() -> (doc: Document)
        ensures
            doc@ == (DocumentView { rows: Seq::empty(), file_name: None, dirty: false }),
    {
        let doc = Document { rows: Vec::new(), file_name: None, dirty: false };
        assert(doc@.rows =~= Seq::empty());
        doc
    }
}

impl Document {
    /// A document that holds `lines`, one row each, under the name
    /// `file_name`, and counts as saved.
    pub fn from_lines(file_name: Option<Vec<char>>, lines: Vec<Vec<char>>) -> (doc: Document)
        ensures
            doc@ == (DocumentView {
                rows: views(lines@),
                file_name: match file_name {
                    Some(name) => Some(name@),
                    None => None,
                },
                dirty: false,
            }),
    {
        let mut rows: Vec<Row> = Vec::new();
        let mut i: usize = 0;
        while i < lines.len()
            invariant
                i <= lines.len(),
                rows@.len() == i,
                forall|k: int| 0 <= k < i ==> (#[trigger] rows@[k])@ == lines@[k]@,
            decreases lines.len() - i,
        {
            rows.push(Row::new(crate::text::copy_of(&lines[i])));
            i += 1;
        }
        let doc = Document { rows, file_name, dirty: false };
        assert(doc@.rows =~= views(lines@));
        doc
    }

    /// The rows of every document fit in memory.
    pub proof fn lemma_fits(&self)
        ensures
            fits(self@.rows),
    {
        assert forall|i: int| 0 <= i < self@.rows.len() implies (#[trigger] self@.rows[i]).len()
            <= usize::MAX by {
            assert(self.rows@[i].chars.len() <= usize::MAX);
        }
        assert(self.rows.len() <= usize::MAX);
    }

    /// The number of rows.
    pub fn len(&self) -> (n: usize)
        ensures
            n == self@.rows.len(),
    {
        self.rows.len()
    }

    /// Whether the document has no row.
    pub fn is_empty(&self) -> (b: bool)
        ensures
            b == (self@.rows.len() == 0),
    {
        self.rows.len() == 0
    }

    /// Whether the document was changed since it was last saved.
    pub fn is_dirty(&self) -> (b: bool)
        ensures
            b == self@.dirty,
    {
        self.dirty
    }

    /// Row `index`, if the document has one.
    pub fn row(&self, index: usize) -> (r: Option<&Row>)
        ensures
            match r {
                Some(row) => index < self@.rows.len() && row@ == self@.rows[index as int],
                None => index >= self@.rows.len(),
            },
    {
        if index < self.rows.len() {
            Some(&self.rows[index])
        } else {
            None
        }
    }

    /// The length of row `index`, and zero where the document has no such row.
    pub fn row_len(&self, index: usize) -> (n: usize)
        ensures
            n == row_len(self@.rows, index as int),
    {
        if index < self.rows.len() {
            self.rows[index].len()
        } else {
            0
        }
    }

    /// The name of the document's file, if it has one.
    pub fn file_name(&self) -> (name: Option<&Vec<char>>)
        ensures
            match name {
                Some(n) => self@.file_name == Some(n@),
                None => self@.file_name is None,
            },
    {
        self.file_name.as_ref()
    }

    /// Gives the document the file name `name`.
    pub fn set_file_name(&mut self, name: Vec<char>)
        ensures
            final(self)@ == (DocumentView { file_name: Some(name@), ..old(self)@ }),
    {
        self.file_name = Some(name);
    }

    /// Records that the document was saved.
    pub fn mark_saved(&mut self)
        ensures
            final(self)@ == (DocumentView { dirty: false, ..old(self)@ }),
    {
        self.dirty = false;
    }

    /// The name of the kind of file that the document's name stands for.
    pub fn file_type(&self) -> (name: Vec<char>)
        ensures
            name@ == file_type_of(self@.file_name),
    {
        let rust: bool = match &self.file_name {
            Some(n) => {
                let len = n.len();
                len >= 3 && n[len - 3] == '.' && n[len - 2] == 'r' && n[len - 1] == 's'
            },
            None => false,
        };
        if rust {
            crate::text::chars_of("Rust")
        } else {
            crate::text::chars_of("No filetype")
        }
    }

    /// The lines of a snapshot of the document: every row, each followed by
    /// a line break.
    pub fn snapshot(&self) -> (lines: Vec<Vec<char>>)
        ensures
            views(lines@) == snapshot_lines(self@.rows),
    {
        let mut lines: Vec<Vec<char>> = Vec::new();
        let mut i: usize = 0;
        while i < self.rows.len()
            invariant
                i <= self.rows.len(),
                lines@.len() == i,
                forall|k: int| 0 <= k < i ==> (#[trigger] lines@[k])@ == self.rows@[k]@.push('\n'),
            decreases self.rows.len() - i,
        {
            let mut line = crate::text::copy_of(self.rows[i].chars());
            line.push('\n');
            lines.push(line);
            i += 1;
        }
        assert(views(lines@) =~= snapshot_lines(self@.rows));
        lines
    }

    /// Puts character `c` in at `at` and marks the document as changed; a
    /// position below the row after the last changes nothing.
    pub fn insert(&mut self, at: &Position, c: char)
        ensures
            final(self)@ == (DocumentView {
                rows: inserted(old(self)@.rows, *at, c),
                dirty: old(self)@.dirty || at.y <= old(self)@.rows.len(),
                ..old(self)@
            }),
    {
        let n = self.rows.len();
        if at.y > n {
            return ;
        }
        self.dirty = true;
        if at.y == n {
            let mut row = Row::new(Vec::new());
            if c != '\n' {
                row.insert(0, c);
                assert(row@ =~= seq![c]);
            }
            self.rows.push(row);
        } else if c == '\n' {
            let rest = self.rows[at.y].split(at.x);
            self.rows.insert(at.y + 1, rest);
        } else {
            self.rows[at.y].insert(at.x, c);
        }
        assert(self@.rows =~= inserted(old(self)@.rows, *at, c));
    }

    /// Takes out the character at `at` and marks the document as changed; at
    /// the end of a row that has a successor, joins the two rows. A position
    /// below the last row changes nothing.
    pub fn delete(&mut self, at: &Position)
        ensures
            final(self)@ == (DocumentView {
                rows: deleted(old(self)@.rows, *at),
                dirty: old(self)@.dirty || at.y < old(self)@.rows.len(),
                ..old(self)@
            }),
    {
        let n = self.rows.len();
        if at.y >= n {
            return ;
        }
        self.dirty = true;
        if at.x == self.rows[at.y].len() && at.y + 1 < n {
            let next = self.rows.remove(at.y + 1);
            self.rows[at.y].append(&next);
        } else {
            self.rows[at.y].delete(at.x);
        }
        assert(self@.rows =~= deleted(old(self)@.rows, *at));
    }

    /// Searches the document for `query` from `at`: forward for the first
    /// occurrence that starts at or after `at`, backward for the last one
    /// that ends at or before `at`, both in reading order. Nothing is found
    /// for an empty query, nor from a position below the last row.
    pub fn find(&self, query: &Vec<char>, at: &Position, direction: SearchDirection) -> (r: Option<
        Position,
    >)
        ensures
            doc_found(self@.rows, query@, *at, direction, r),
            r == found(self@.rows, query@, *at, direction),
    {
        let r = self.find_nearest(query, at, direction);
        proof {
            lemma_found_unique(self@.rows, query@, *at, direction, r);
        }
        r
    }

    fn find_nearest(&self, query: &Vec<char>, at: &Position, direction: SearchDirection) -> (r:
        Option<Position>)
        ensures
            doc_found(self@.rows, query@, *at, direction, r),
    {
        let n = self.rows.len();
        if at.y >= n || query.len() == 0 {
            return None;
        }
        match direction {
            SearchDirection::Forward => {
                let mut y: usize = at.y;
                let mut x: usize = at.x;
                while y < n
                    invariant
                        at.y <= y <= n,
                        n == self.rows@.len(),
                        y == at.y ==> x == at.x,
                        y > at.y ==> x == 0,
                        forall|q: Position| #[trigger]
                            doc_hit(self@.rows, query@, *at, direction, q) ==> q.y >= y,
                        direction == SearchDirection::Forward,
                    decreases n - y,
                {
                    match self.rows[y].find(query, x, SearchDirection::Forward) {
                        Some(px) => {
                            let p = Position { x: px, y };
                            assert forall|q: Position| #[trigger]
                                doc_hit(self@.rows, query@, *at, direction, q) implies before_eq(
                                p,
                                q,
                            ) by {
                                if q.y == y {
                                    assert(row_hit(
                                        self@.rows[y as int],
                                        query@,
                                        x as int,
                                        direction,
                                        q.x as int,
                                    ));
                                }
                            }
                            return Some(p);
                        },
                        None => {
                            assert forall|q: Position| #[trigger]
                                doc_hit(self@.rows, query@, *at, direction, q) implies q.y > y by {
                                if q.y == y {
                                    assert(row_hit(
                                        self@.rows[y as int],
                                        query@,
                                        x as int,
                                        direction,
                                        q.x as int,
                                    ));
                                }
                            }
                        },
                    }
                    y += 1;
                    x = 0;
                }
                None
            },
            SearchDirection::Backward => {
                let mut y: usize = at.y;
                let mut x: usize = at.x;
                loop
                    invariant
                        y <= at.y < n,
                        n == self.rows@.len(),
                        y == at.y ==> x == at.x,
                        y < at.y ==> x == self.rows@[y as int]@.len(),
                        forall|q: Position| #[trigger]
                            doc_hit(self@.rows, query@, *at, direction, q) ==> q.y <= y,
                        direction == SearchDirection::Backward,
                    decreases y,
                {
                    match self.rows[y].find(query, x, SearchDirection::Backward) {
                        Some(px) => {
                            let p = Position { x: px, y };
                            assert forall|q: Position| #[trigger]
                                doc_hit(self@.rows, query@, *at, direction, q) implies before_eq(
                                q,
                                p,
                            ) by {
                                if q.y == y {
                                    assert(row_hit(
                                        self@.rows[y as int],
                                        query@,
                                        x as int,
                                        direction,
                                        q.x as int,
                                    ));
                                }
                            }
                            return Some(p);
                        },
                        None => {
                            assert forall|q: Position| #[trigger]
                                doc_hit(self@.rows, query@, *at, direction, q) implies q.y < y by {
                                if q.y == y {
                                    assert(row_hit(
                                        self@.rows[y as int],
                                        query@,
                                        x as int,
                                        direction,
                                        q.x as int,
                                    ));
                                }
                            }
                        },
                    }
                    if y == 0 {
                        return None;
                    }
                    y -= 1;
                    x = self.rows[y].len();
                }
            },
        }
    }
}

} // verus!
