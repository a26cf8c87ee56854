//! Finding the docstrings of a Python source, line by line.

use vstd::prelude::*;
use vstd::string::*;

verus! {

/// Whether three copies of `q` start at position `i` of `s`.
pub open spec fn triple_at(s: Seq<char>, i: int, q: char) -> bool {
    0 <= i && i + 3 <= s.len() && s[i] == q && s[i + 1] == q && s[i + 2] == q
}

/// Whether `s` holds three copies of `q` in a row.
pub open spec fn has_triple(s: Seq<char>, q: char) -> bool {
    exists|i: int| #[trigger] triple_at(s, i, q)
}

/// The runs of three `q` in `s` from position `i` on, counted left to right
/// without overlap.
pub open spec fn triples_from(s: Seq<char>, q: char, i: int) -> nat
    decreases s.len() - i,
{
    if i < 0 || i + 3 > s.len() {
        0
    } else if triple_at(s, i, q) {
        1 + triples_from(s, q, i + 3)
    } else {
        triples_from(s, q, i + 1)
    }
}

/// Whether a line holds a docstring quote, `"""` or `'''`.
pub open spec fn has_quote(line: Seq<char>) -> bool {
    has_triple(line, '"') || has_triple(line, '\'')
}

/// Whether a line opens and closes a docstring by itself: it holds exactly
/// two quotes of one kind.
pub open spec fn is_one_line(line: Seq<char>) -> bool {
    triples_from(line, '"', 0) == 2 || triples_from(line, '\'', 0) == 2
}

/// The docstrings of `lines` from line `i` on, as (first line, last line,
/// text) with line numbers from 0, where `open` holds the first line and the
/// text so far of a docstring that an earlier line opened. A docstring runs
/// from a line with a quote to the next line with a quote, or is a line with
/// two quotes of one kind; one still open at the end is left out.
pub open spec fn scan_model(lines: Seq<Seq<char>>, i: int, open: Option<(nat, Seq<char>)>) -> Seq<(nat, nat, Seq<char>)>
    decreases lines.len() - i,
{
    if i < 0 || i >= lines.len() {
        seq![]
    } else {
        let line = lines[i];
        match open {
            None => if !has_quote(line) {
                scan_model(lines, i + 1, None)
            } else if is_one_line(line) {
                seq![(i as nat, i as nat, line)] + scan_model(lines, i + 1, None)
            } else {
                scan_model(lines, i + 1, Some((i as nat, line)))
            },
            Some((start, text)) => if has_quote(line) {
                seq![(start, i as nat, text + line)] + scan_model(lines, i + 1, None)
            } else {
                scan_model(lines, i + 1, Some((start, text + line)))
            },
        }
    }
}

/// The text of each line.
pub open spec fn lines_view(lines: Seq<String>) -> Seq<Seq<char>> {
    lines.map_values(|l: String| l@)
}

/// A docstring of a Python source: its first and last line, counted from 0,
/// and its lines as they stand, line ends included.
#[derive(Debug)]
pub struct Docstring {
    pub start: usize,
    pub end: usize,
    pub content: String,
}

impl View for Docstring {
    type V = (nat, nat, Seq<char>);

    open spec fn view(&self) -> (nat, nat, Seq<char>) {
        (self.start as nat, self.end as nat, self.content@)
    }
}

/// The docstrings found in a source, in order, with their number.
#[derive(Debug)]
pub struct Docstrings {
    pub count: usize,
    pub docstrings: Vec<Docstring>,
}

impl View for Docstrings {
    type V = Seq<(nat, nat, Seq<char>)>;

    open spec fn view(&self) -> Seq<(nat, nat, Seq<char>)> {
        self.docstrings@.map_values(|d: Docstring| d@)
    }
}

/// Whether `s` holds three copies of `q` in a row.
pub fn contains_triple(s: &str, q: char) -> (r: bool)
    ensures
        r == has_triple(s@, q),
{
    let n = s.unicode_len();
    let mut i: usize = 0;
    while n >= 3 && i <= n - 3
        invariant
            n == s@.len(),
            forall|j: int| 0 <= j < i ==> !triple_at(s@, j, q),
        decreases n - i,
    {
        if s.get_char(i) == q && s.get_char(i + 1) == q && s.get_char(i + 2) == q {
            assert(triple_at(s@, i as int, q));
            return true;
        }
        i = i + 1;
    }
    assert forall|j: int| !triple_at(s@, j, q) by {
        if 0 <= j < i {
        }
    }
    false
}

/// The runs of three `q` in `s`, counted left to right without overlap.
pub fn count_triples(s: &str, q: char) -> (r: usize)
    ensures
        r == triples_from(s@, q, 0),
{
    let n = s.unicode_len();
    let mut i: usize = 0;
    let mut count: usize = 0;
    while n >= 3 && i <= n - 3
        invariant
            n == s@.len(),
            count <= i,
            count + triples_from(s@, q, i as int) == triples_from(s@, q, 0),
        decreases n - i,
    {
        if s.get_char(i) == q && s.get_char(i + 1) == q && s.get_char(i + 2) == q {
            count = count + 1;
            i = i + 3;
        } else {
            i = i + 1;
        }
    }
    count
}

impl Docstrings {
    /// No docstrings.
    pub fn new() -> (r: Self)
        ensures
            r@ == Seq::<(nat, nat, Seq<char>)>::empty(),
            r.docstrings@.len() == 0,
            r.count == 0,
    {
        Self { docstrings: Vec::new(), count: 0 }
    }

    /// Appends `d`, counting it.
    pub fn add(&mut self, d: Docstring)
        requires
            old(self).count < usize::MAX,
        ensures
            final(self)@ == old(self)@.push(d@),
            final(self).docstrings@.len() == old(self).docstrings@.len() + 1,
            final(self).count == old(self).count + 1,
    {
        self.docstrings.push(d);
        self.count = self.count + 1;
        proof {
            assert(self.docstrings@.map_values(|d: Docstring| d@) =~= old(self)@.push(d@));
        }
    }

    /// The docstrings of a Python source given as its lines, each with its
    /// line end as read.
    pub fn from_lines(lines: &Vec<String>) -> (r: Self)
        ensures
            r@ == scan_model(lines_view(lines@), 0, None),
            r.count == r.docstrings@.len(),
    {
        let ghost lv = lines_view(lines@);
        let mut r = Docstrings::new();
        let mut open: Option<Docstring> = None;
        let mut i: usize = 0;
        while i < lines.len()
            invariant
                lv == lines_view(lines@),
                i <= lines.len(),
                r.count == r.docstrings@.len(),
                r.count <= i,
                r@ + scan_model(
                    lv,
                    i as int,
                    match open {
                        Some(d) => Some((d.start as nat, d.content@)),
                        None => None,
                    },
                ) == scan_model(lv, 0, None),
                match open {
                    Some(d) => d.start < i,
                    None => true,
                },
            decreases lines.len() - i,
        {
            let line = &lines[i];
            assert(lv[i as int] == line@);
            let quoted = contains_triple(line.as_str(), '"') || contains_triple(line.as_str(), '\'');
            match open {
                None => {
                    if quoted {
                        let one = count_triples(line.as_str(), '"') == 2 || count_triples(line.as_str(), '\'') == 2;
                        if one {
                            let ghost before = r@;
                            r.add(Docstring { start: i, end: i, content: line.clone() });
                            assert(r@ + scan_model(lv, i + 1, None) =~= before + scan_model(lv, i as int, None));
                        } else {
                            open = Some(Docstring { start: i, end: i, content: line.clone() });
                        }
                    }
                },
                Some(d) => {
                    let ghost text = d.content@;
                    let mut d = d;
                    d.content.append(line.as_str());
                    if quoted {
                        d.end = i;
                        let ghost before = r@;
                        r.add(d);
                        assert(r@ + scan_model(lv, i + 1, None) =~= before + scan_model(lv, i as int, Some((d.start as nat, text))));
                        open = None;
                    } else {
                        open = Some(d);
                    }
                },
            }
            i = i + 1;
        }
        r
    }
}

} // verus!
