//! The selection: which cells it covers and the text it holds.
use crate::terminal::{Character, Position, Screen, Selection};
use crate::text::push_char;
use vstd::prelude::*;

verus! {

/// A column brought into a row of `len` cells.
pub open spec fn into_row(x: int, len: int) -> int {
    if x < 0 {
        0
    } else if x > len {
        len
    } else {
        x
    }
}

/// The characters of a row from column `lo` up to but not including `hi`,
/// both brought into the row.
pub open spec fn row_text(row: Seq<Character>, lo: int, hi: int) -> Seq<char> {
    let a = into_row(lo, row.len() as int);
    let b = into_row(hi, row.len() as int);
    if a < b {
        Seq::new((b - a) as nat, |k: int| row[a + k].byte)
    } else {
        Seq::empty()
    }
}

/// The same of row `y` of a grid; nothing for a row outside the grid.
pub open spec fn line_text(grid: Seq<Seq<Character>>, y: int, lo: int, hi: int) -> Seq<char> {
    if 0 <= y < grid.len() {
        row_text(grid[y], lo, hi)
    } else {
        Seq::empty()
    }
}

/// What a selection over several rows holds of row `y`: the first row from
/// the start's column on, the last row up to the end's column, every row
/// between as a whole.
pub open spec fn part_text(grid: Seq<Seq<Character>>, start: Position, end: Position, y: int) -> Seq<
    char,
> {
    if y == start.y {
        line_text(grid, y, start.x as int, i32::MAX as int)
    } else if y == end.y {
        line_text(grid, y, 0, end.x as int)
    } else {
        line_text(grid, y, 0, i32::MAX as int)
    }
}

/// The rows from the start's up to but not including `upto`, each followed
/// by a line feed.
pub open spec fn block_text(grid: Seq<Seq<Character>>, start: Position, end: Position, upto: int) -> Seq<
    char,
>
    decreases upto - start.y,
{
    if upto <= start.y {
        Seq::empty()
    } else {
        block_text(grid, start, end, upto - 1) + part_text(grid, start, end, upto - 1) + seq![
            '\n',
        ]
    }
}

/// The text that a selection holds. Within one row it is the cells between
/// the two columns, whichever comes first, and nothing at all where they
/// are the same; over several rows it is the rows from the upper end to
/// the lower one.
pub open spec fn selected(grid: Seq<Seq<Character>>, selection: Selection) -> Option<Seq<char>> {
    let start = selection.start;
    let end = selection.end;
    if start.y == end.y {
        if start.x > end.x {
            Some(line_text(grid, start.y as int, end.x as int, start.x as int))
        } else if start.x < end.x {
            Some(line_text(grid, start.y as int, start.x as int, end.x as int))
        } else {
            None
        }
    } else if end.y < start.y {
        Some(block_text(grid, end, start, start.y + 1))
    } else {
        Some(block_text(grid, start, end, end.y + 1))
    }
}

/// A selection with its ends in order: the upper row first, and within one
/// row the left column first.
pub open spec fn ordered(selection: Selection) -> Selection {
    let start = selection.start;
    let end = selection.end;
    if end.y < start.y {
        Selection { start: end, end: start, ..selection }
    } else if start.y == end.y && start.x > end.x {
        Selection {
            start: Position { x: end.x, y: start.y },
            end: Position { x: start.x, y: end.y },
            ..selection
        }
    } else {
        selection
    }
}

/// Whether the cell in row `y` and column `x` is selected.
pub open spec fn within(selection: Selection, y: int, x: int) -> bool {
    let start = selection.start;
    let end = selection.end;
    if start == end {
        false
    } else if start.y == end.y && y == start.y {
        start.x <= x < end.x
    } else if y == start.y {
        x >= start.x
    } else if y == end.y {
        x <= end.x
    } else {
        start.y < y < end.y
    }
}

/// Puts the ends of a selection in order.
pub fn normalize(selection: Selection) -> (sorted: Selection)
    ensures
        sorted == ordered(selection),
{
    let start = selection.start;
    let end = selection.end;
    if end.y < start.y {
        Selection { start: end, end: start, selecting: selection.selecting }
    } else if start.y == end.y && start.x > end.x {
        Selection {
            start: Position { x: end.x, y: start.y },
            end: Position { x: start.x, y: end.y },
            selecting: selection.selecting,
        }
    } else {
        selection
    }
}

impl Screen {
    /// Whether the cell in row `y` and column `x` lies within `selection`.
    pub fn is_within_selection(&self, y: usize, x: usize, selection: &Selection) -> (yes: bool)
        ensures
            yes == within(*selection, y as int, x as int),
    {
        crate::terminal::render::is_within(y, x, selection)
    }

    /// Appends the cells of row `y` from column `lo` up to `hi`.
    fn push_line(&self, out: &mut String, y: i64, lo: i64, hi: i64)
        requires
            self@.framed(),
        ensures
            final(out)@ == old(out)@ + line_text(self@.grid, y as int, lo as int, hi as int),
    {
        proof {
            self.lemma_buffers();
        }
        if 0 <= y && y < self.buf.len() as i64 {
            let row = &self.buf[y as usize];
            assert(self@.grid[y as int] == row@);
            let len: usize = row.len();
            let a: usize = if lo < 0 {
                0
            } else if lo > len as i64 {
                len
            } else {
                lo as usize
            };
            let b: usize = if hi < 0 {
                0
            } else if hi > len as i64 {
                len
            } else {
                hi as usize
            };
            let mut k: usize = a;
            while k < b
                invariant
                    a <= k,
                    b <= len,
                    len == row@.len(),
                    a < b ==> k <= b,
                    a >= b ==> k == a,
                    out@ == old(out)@ + Seq::new(
                        (k - a) as nat,
                        |t: int| row@[a + t].byte,
                    ),
                decreases b - k,
            {
                push_char(out, row[k].byte);
                k += 1;
                assert(out@ =~= old(out)@ + Seq::new((k - a) as nat, |t: int| row@[a + t].byte));
            }
            let ghost found = Seq::new((k - a) as nat, |t: int| row@[a + t].byte);
            let ghost wanted = line_text(self@.grid, y as int, lo as int, hi as int);
            assert(wanted == row_text(row@, lo as int, hi as int));
            assert(into_row(lo as int, len as int) == a);
            assert(into_row(hi as int, len as int) == b);
            assert(found =~= wanted);
        } else {
            assert(out@ =~= old(out)@ + line_text(self@.grid, y as int, lo as int, hi as int));
        }
    }

    /// The text of row `start.y` from column `start.x` up to column `end.x`.
    pub fn get_line(&self, start: Position, end: Position) -> (text: String)
        requires
            self@.framed(),
        ensures
            text@ == line_text(self@.grid, start.y as int, start.x as int, end.x as int),
    {
        let mut text = String::new();
        self.push_line(&mut text, start.y as i64, start.x as i64, end.x as i64);
        assert(text@ =~= line_text(self@.grid, start.y as int, start.x as int, end.x as int));
        text
    }

    /// The text that the selection holds, if it holds any.
    pub fn get_selection(&self) -> (text: Option<String>)
        requires
            self@.framed(),
        ensures
            match text {
                Some(t) => selected(self@.grid, self@.selection) == Some(t@),
                None => selected(self@.grid, self@.selection) is None,
            },
    {
        let mut start = self.selection.start;
        let mut end = self.selection.end;
        if start.y == end.y {
            if start.x > end.x {
                Some(self.get_line(end, start))
            } else if start.x < end.x {
                Some(self.get_line(start, end))
            } else {
                None
            }
        } else {
            if end.y < start.y {
                let upper = end;
                end = start;
                start = upper;
            }
            let mut content = String::new();
            let mut y: i64 = start.y as i64;
            while y <= end.y as i64
                invariant
                    self@.framed(),
                    start.y <= y <= end.y + 1,
                    content@ == block_text(self@.grid, start, end, y as int),
                decreases end.y + 1 - y,
            {
                let ghost before = content@;
                if y == start.y as i64 {
                    self.push_line(&mut content, y, start.x as i64, i32::MAX as i64);
                } else if y == end.y as i64 {
                    self.push_line(&mut content, y, 0, end.x as i64);
                } else {
                    self.push_line(&mut content, y, 0, i32::MAX as i64);
                }
                push_char(&mut content, '\n');
                assert(content@ =~= before + part_text(self@.grid, start, end, y as int) + seq![
                    '\n',
                ]);
                y += 1;
            }
            Some(content)
        }
    }
}

} // verus!
