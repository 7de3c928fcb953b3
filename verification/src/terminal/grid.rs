//! The primitive operations on the grid.
use crate::terminal::model::{
    cells, cols_of, delete_row, fill_dirty, fill_grid, in_span, insert_row, mark_from, reach,
    rows_of, shaped, shift_rows, uniform,
};
use crate::terminal::{Character, Screen, CELL_HEIGHT, CELL_WIDTH};
use vstd::prelude::*;

verus! {

/// The number of rows of a window `height` pixels high.
pub fn rows_for(height: u32) -> (rows: usize)
    ensures
        rows == rows_of(height),
{
    if height / CELL_HEIGHT == 0 {
        1
    } else {
        (height / CELL_HEIGHT) as usize
    }
}

/// The number of columns of a window `width` pixels wide.
pub fn cols_for(width: u32) -> (cols: usize)
    ensures
        cols == cols_of(width),
{
    if width / CELL_WIDTH == 0 {
        1
    } else {
        (width / CELL_WIDTH) as usize
    }
}

/// A row of `cols` cells, each holding `ch`.
pub fn row_of<T: Copy>(ch: T, cols: usize) -> (row: Vec<T>)
    ensures
        row@ == Seq::new(cols as nat, |j: int| ch),
{
    let mut row: Vec<T> = Vec::new();
    while row.len() < cols
        invariant
            row.len() <= cols,
            forall|j: int| 0 <= j < row.len() ==> row[j] == ch,
        decreases cols - row.len(),
    {
        row.push(ch);
    }
    assert(row@ =~= Seq::new(cols as nat, |j: int| ch));
    row
}

/// A buffer of `rows` rows of `cols` cells, each holding `ch`.
pub fn filled<T: Copy>(ch: T, rows: usize, cols: usize) -> (buf: Vec<Vec<T>>)
    ensures
        cells(buf@) == uniform(ch, rows as int, cols as int),
{
    let mut buf: Vec<Vec<T>> = Vec::new();
    while buf.len() < rows
        invariant
            buf.len() <= rows,
            forall|i: int| 0 <= i < buf.len() ==> buf[i]@ == Seq::new(cols as nat, |j: int| ch),
        decreases rows - buf.len(),
    {
        buf.push(row_of(ch, cols));
    }
    assert(cells(buf@) =~~= uniform(ch, rows as int, cols as int));
    buf
}

/// Fills the span from `(y0, x0)` up to but not including `(y1, x1)` with
/// `ch`, and marks each cell that changes.
pub fn fill_span(
    buf: &mut Vec<Vec<Character>>,
    dirty: &mut Vec<Vec<bool>>,
    y0: usize,
    x0: usize,
    y1: usize,
    x1: usize,
    ch: Character,
)
    requires
        old(buf).len() > 0,
        shaped(cells(old(buf)@), old(buf).len() as int, old(buf)[0].len() as int),
        shaped(cells(old(dirty)@), old(buf).len() as int, old(buf)[0].len() as int),
        x0 <= old(buf)[0].len(),
        x1 <= old(buf)[0].len(),
    ensures
        cells(final(buf)@) == fill_grid(
            cells(old(buf)@),
            y0 as int,
            x0 as int,
            y1 as int,
            x1 as int,
            ch,
        ),
        cells(final(dirty)@) == fill_dirty(
            cells(old(buf)@),
            cells(old(dirty)@),
            y0 as int,
            x0 as int,
            y1 as int,
            x1 as int,
            ch,
        ),
{
    let ghost grid = cells(buf@);
    let ghost marks = cells(dirty@);
    let rows: usize = buf.len();
    assert(grid[0] == buf[0]@);
    let cols: usize = buf[0].len();
    assert forall|r: int| 0 <= r < rows implies (#[trigger] buf[r]).len() == cols by {
        assert(grid[r] == buf[r]@);
    }
    assert forall|r: int| 0 <= r < rows implies (#[trigger] dirty[r]).len() == cols by {
        assert(marks[r] == dirty[r]@);
    }
    let mut i: usize = y0;
    while i < rows && i <= y1
        invariant
            y0 <= i,
            rows == grid.len(),
            buf.len() == rows,
            dirty.len() == rows,
            shaped(grid, rows as int, cols as int),
            shaped(marks, rows as int, cols as int),
            x0 <= cols,
            x1 <= cols,
            forall|r: int| 0 <= r < rows ==> (#[trigger] buf[r]).len() == cols,
            forall|r: int| 0 <= r < rows ==> (#[trigger] dirty[r]).len() == cols,
            forall|r: int, c: int|
                0 <= r < rows && 0 <= c < cols ==> (#[trigger] buf[r][c]) == (if r < i && in_span(
                    r,
                    c,
                    y0 as int,
                    x0 as int,
                    y1 as int,
                    x1 as int,
                ) {
                    ch
                } else {
                    grid[r][c]
                }),
            forall|r: int, c: int|
                0 <= r < rows && 0 <= c < cols ==> (#[trigger] dirty[r][c]) == (marks[r][c] || (r
                    < i && in_span(r, c, y0 as int, x0 as int, y1 as int, x1 as int) && grid[r][c]
                    != ch)),
        decreases rows - i,
    {
        let start: usize = if i == y0 {
            x0
        } else {
            0
        };
        let end: usize = if i == y1 {
            x1
        } else {
            cols
        };
        let mut j: usize = start;
        while j < end
            invariant
                start <= j,
                end <= cols,
                y0 <= i < rows,
                i <= y1,
                start == (if i == y0 {
                    x0
                } else {
                    0
                }),
                end == (if i == y1 {
                    x1
                } else {
                    cols
                }),
                rows == grid.len(),
                buf.len() == rows,
                dirty.len() == rows,
                shaped(grid, rows as int, cols as int),
                shaped(marks, rows as int, cols as int),
                forall|r: int| 0 <= r < rows ==> (#[trigger] buf[r]).len() == cols,
                forall|r: int| 0 <= r < rows ==> (#[trigger] dirty[r]).len() == cols,
                forall|r: int, c: int|
                    0 <= r < rows && 0 <= c < cols ==> (#[trigger] buf[r][c]) == (if (r < i || (r
                        == i && c < j)) && in_span(
                        r,
                        c,
                        y0 as int,
                        x0 as int,
                        y1 as int,
                        x1 as int,
                    ) {
                        ch
                    } else {
                        grid[r][c]
                    }),
                forall|r: int, c: int|
                    0 <= r < rows && 0 <= c < cols ==> (#[trigger] dirty[r][c]) == (marks[r][c] || (
                    (r < i || (r == i && c < j)) && in_span(
                        r,
                        c,
                        y0 as int,
                        x0 as int,
                        y1 as int,
                        x1 as int,
                    ) && grid[r][c] != ch)),
            decreases end - j,
        {
            if buf[i][j] != ch {
                buf[i][j] = ch;
                dirty[i][j] = true;
            }
            j += 1;
        }
        i += 1;
    }
    assert(cells(buf@) =~~= fill_grid(grid, y0 as int, x0 as int, y1 as int, x1 as int, ch));
    assert(cells(dirty@) =~~= fill_dirty(
        grid,
        marks,
        y0 as int,
        x0 as int,
        y1 as int,
        x1 as int,
        ch,
    ));
}

/// Inserts `n` copies of `ch` at column `x` of row `y` and marks the row
/// dirty from there on.
pub fn insert_cells(
    buf: &mut Vec<Vec<Character>>,
    dirty: &mut Vec<Vec<bool>>,
    y: usize,
    x: usize,
    ch: Character,
    n: usize,
)
    requires
        y < old(buf).len(),
        old(dirty).len() == old(buf).len(),
        old(dirty)[y as int].len() == old(buf)[y as int].len(),
        x <= old(buf)[y as int].len(),
    ensures
        cells(final(buf)@) == cells(old(buf)@).update(
            y as int,
            insert_row(old(buf)[y as int]@, x as int, ch, n as int),
        ),
        cells(final(dirty)@) == cells(old(dirty)@).update(
            y as int,
            mark_from(old(dirty)[y as int]@, x as int),
        ),
{
    let ghost row = buf[y as int]@;
    let ghost marks = dirty[y as int]@;
    let cols: usize = buf[y].len();
    let k: usize = if n < cols - x {
        n
    } else {
        cols - x
    };
    let mut t: usize = 0;
    while t < k
        invariant
            t <= k,
            k == reach(cols as int, x as int, n as int),
            x <= cols,
            cols == row.len(),
            buf.len() == old(buf).len(),
            y < buf.len(),
            forall|r: int| 0 <= r < buf.len() && r != y ==> buf[r] == old(buf)[r],
            buf[y as int]@ == row.take(x as int) + Seq::new(t as nat, |u: int| ch) + row.subrange(
                x as int,
                cols - t,
            ),
        decreases k - t,
    {
        buf[y].insert(x, ch);
        buf[y].pop();
        t += 1;
        assert(buf[y as int]@ =~= row.take(x as int) + Seq::new(t as nat, |u: int| ch)
            + row.subrange(x as int, cols - t));
    }
    let mut j: usize = x;
    while j < cols
        invariant
            x <= j <= cols,
            cols == marks.len(),
            dirty.len() == old(dirty).len(),
            y < dirty.len(),
            forall|r: int| 0 <= r < dirty.len() && r != y ==> dirty[r] == old(dirty)[r],
            dirty[y as int].len() == cols,
            forall|c: int| 0 <= c < cols ==> (#[trigger] dirty[y as int][c]) == ((x <= c < j)
                || marks[c]),
        decreases cols - j,
    {
        dirty[y][j] = true;
        j += 1;
    }
    assert(cells(buf@) =~~= cells(old(buf)@).update(
        y as int,
        insert_row(row, x as int, ch, n as int),
    ));
    assert(cells(dirty@) =~~= cells(old(dirty)@).update(y as int, mark_from(marks, x as int)));
}

/// Deletes `n` cells at column `x` of row `y`, fills the end of the row
/// with `ch`, and marks the row dirty from `x` on.
pub fn delete_cells(
    buf: &mut Vec<Vec<Character>>,
    dirty: &mut Vec<Vec<bool>>,
    y: usize,
    x: usize,
    ch: Character,
    n: usize,
)
    requires
        y < old(buf).len(),
        old(dirty).len() == old(buf).len(),
        old(dirty)[y as int].len() == old(buf)[y as int].len(),
        x <= old(buf)[y as int].len(),
    ensures
        cells(final(buf)@) == cells(old(buf)@).update(
            y as int,
            delete_row(old(buf)[y as int]@, x as int, ch, n as int),
        ),
        cells(final(dirty)@) == cells(old(dirty)@).update(
            y as int,
            mark_from(old(dirty)[y as int]@, x as int),
        ),
{
    let ghost row = buf[y as int]@;
    let ghost marks = dirty[y as int]@;
    let cols: usize = buf[y].len();
    let k: usize = if n < cols - x {
        n
    } else {
        cols - x
    };
    let mut t: usize = 0;
    while t < k
        invariant
            t <= k,
            k == reach(cols as int, x as int, n as int),
            x <= cols,
            cols == row.len(),
            buf.len() == old(buf).len(),
            y < buf.len(),
            forall|r: int| 0 <= r < buf.len() && r != y ==> buf[r] == old(buf)[r],
            buf[y as int]@ == row.take(x as int) + row.subrange(x + t, cols as int) + Seq::new(
                t as nat,
                |u: int| ch,
            ),
        decreases k - t,
    {
        buf[y].remove(x);
        buf[y].push(ch);
        t += 1;
        assert(buf[y as int]@ =~= row.take(x as int) + row.subrange(x + t, cols as int)
            + Seq::new(t as nat, |u: int| ch));
    }
    let mut j: usize = x;
    while j < cols
        invariant
            x <= j <= cols,
            cols == marks.len(),
            dirty.len() == old(dirty).len(),
            y < dirty.len(),
            forall|r: int| 0 <= r < dirty.len() && r != y ==> dirty[r] == old(dirty)[r],
            dirty[y as int].len() == cols,
            forall|c: int| 0 <= c < cols ==> (#[trigger] dirty[y as int][c]) == ((x <= c < j)
                || marks[c]),
        decreases cols - j,
    {
        dirty[y][j] = true;
        j += 1;
    }
    assert(cells(buf@) =~~= cells(old(buf)@).update(
        y as int,
        delete_row(row, x as int, ch, n as int),
    ));
    assert(cells(dirty@) =~~= cells(old(dirty)@).update(y as int, mark_from(marks, x as int)));
}

/// Takes row `from` out and puts a row of `cols` cells holding `ch` in at
/// `to`.
pub fn shift(buf: &mut Vec<Vec<Character>>, from: usize, to: usize, ch: Character, cols: usize)
    requires
        from < old(buf).len(),
        to < old(buf).len(),
    ensures
        cells(final(buf)@) == shift_rows(cells(old(buf)@), from as int, to as int, ch, cols as int),
{
    buf.remove(from);
    buf.insert(to, row_of(ch, cols));
    assert(cells(buf@) =~~= shift_rows(
        cells(old(buf)@),
        from as int,
        to as int,
        ch,
        cols as int,
    ));
}

impl Screen {
    /// Overwrites one cell. Writing what the cell already holds changes
    /// nothing, and marks nothing dirty.
    pub fn set_char(&mut self, y: usize, x: usize, character: Character)
        requires
            old(self)@.wf(),
            y < old(self)@.rows(),
            x < old(self)@.cols(),
        ensures
            final(self)@ == old(self)@.put(y as int, x as int, character),
            final(self)@.wf(),
    {
        assert(self@.grid[y as int] == self.buf[y as int]@);
        assert(self@.dirty[y as int] == self.dirty[y as int]@);
        if self.buf[y][x] != character {
            self.buf[y][x] = character;
            self.dirty[y][x] = true;
            assert(self@.grid =~~= old(self)@.grid.update(
                y as int,
                old(self)@.grid[y as int].update(x as int, character),
            ));
            assert(self@.dirty =~~= old(self)@.dirty.update(
                y as int,
                old(self)@.dirty[y as int].update(x as int, true),
            ));
        }
    }
}

} // verus!
