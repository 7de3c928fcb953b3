//! The dispatcher: what printable characters, C0 controls, control
//! sequences and escape sequences do to the screen.
use crate::terminal::grid::{delete_cells, fill_span, filled, insert_cells, shift};
use crate::terminal::model::{next_stop, uniform, Model, Outcome};
use crate::terminal::{Character, Effect, Point, Screen};
use vstd::prelude::*;

verus! {

impl Screen {
    /// The buffers have the lengths that the model's shape gives.
    pub(super) proof fn lemma_buffers(&self)
        requires
            self@.framed(),
        ensures
            self.buf.len() == self@.rows(),
            self.dirty.len() == self@.rows(),
            self.alt.buf.len() == self@.rows(),
            self.tabs.len() > self@.cols(),
            1 <= self@.rows() <= u32::MAX / 20,
            1 <= self@.cols() <= u32::MAX / 10,
            forall|r: int| 0 <= r < self@.rows() ==> (#[trigger] self.buf[r]).len() == self@.cols(),
            forall|r: int|
                0 <= r < self@.rows() ==> (#[trigger] self.dirty[r]).len() == self@.cols(),
            forall|r: int|
                0 <= r < self@.rows() ==> (#[trigger] self.alt.buf[r]).len() == self@.cols(),
    {
        assert forall|r: int| 0 <= r < self@.rows() implies (#[trigger] self.buf[r]).len()
            == self@.cols() by {
            assert(self@.grid[r] == self.buf[r]@);
        }
        assert forall|r: int| 0 <= r < self@.rows() implies (#[trigger] self.dirty[r]).len()
            == self@.cols() by {
            assert(self@.dirty[r] == self.dirty[r]@);
        }
        assert forall|r: int| 0 <= r < self@.rows() implies (#[trigger] self.alt.buf[r]).len()
            == self@.cols() by {
            assert(self@.alt.grid[r] == self.alt.buf[r]@);
        }
    }

    /// The number of rows of the grid.
    pub fn rows(&self) -> (rows: usize)
        requires
            self@.framed(),
        ensures
            rows == self@.rows(),
    {
        proof {
            self.lemma_buffers();
        }
        self.buf.len()
    }

    /// The number of columns of the grid.
    pub fn cols(&self) -> (cols: usize)
        requires
            self@.framed(),
        ensures
            cols == self@.cols(),
    {
        proof {
            self.lemma_buffers();
        }
        self.buf[0].len()
    }

    /// Moves the cursor to the place nearest to `(x, y)` that it may take
    /// and asks for a redraw.
    pub fn place(&mut self, x: usize, y: usize)
        requires
            old(self)@.framed(),
        ensures
            final(self)@ == old(self)@.place(x as int, y as int),
            final(self)@.wf(),
    {
        let rows: usize = self.rows();
        let cols: usize = self.cols();
        let column: usize = if x < cols {
            x
        } else {
            cols
        };
        let row: usize = if self.mode.decom {
            if y < self.scrolling_region.top {
                self.scrolling_region.top
            } else if y > self.scrolling_region.bottom {
                self.scrolling_region.bottom
            } else {
                y
            }
        } else if y < rows {
            y
        } else {
            rows - 1
        };
        self.cursor.position = Point { x: column, y: row };
        self.refresh = true;
    }

    /// The bookkeeping at the end of a dispatch.
    pub fn settle(&mut self)
        requires
            old(self)@.framed(),
        ensures
            final(self)@ == old(self)@.settle(),
            final(self)@.wf(),
    {
        self.place(self.cursor.position.x, self.cursor.position.y);
    }

    /// Marks every cell dirty.
    pub fn full_dirt(&mut self)
        requires
            old(self)@.wf(),
        ensures
            final(self)@ == (Model {
                dirty: uniform(true, old(self)@.rows(), old(self)@.cols()),
                ..old(self)@
            }),
            final(self)@.wf(),
    {
        let rows: usize = self.rows();
        let cols: usize = self.cols();
        self.dirty = filled(true, rows, cols);
    }

    /// Fills the span from `(y0, x0)` up to but not including `(y1, x1)`
    /// with `ch`.
    pub fn fill(&mut self, y0: usize, x0: usize, y1: usize, x1: usize, ch: Character)
        requires
            old(self)@.wf(),
            x0 <= old(self)@.cols(),
            x1 <= old(self)@.cols(),
        ensures
            final(self)@ == old(self)@.fill(y0 as int, x0 as int, y1 as int, x1 as int, ch),
            final(self)@.wf(),
    {
        proof {
            self.lemma_buffers();
        }
        fill_span(&mut self.buf, &mut self.dirty, y0, x0, y1, x1, ch);
    }

    /// Inserts `character` at column `x` of row `y`; the last cell of the
    /// row is lost.
    pub fn insert_char(&mut self, y: usize, x: usize, character: Character)
        requires
            old(self)@.wf(),
            y < old(self)@.rows(),
            x <= old(self)@.cols(),
        ensures
            final(self)@ == old(self)@.insert(y as int, x as int, character, 1),
            final(self)@.wf(),
    {
        self.insert_chars(y, x, character, 1);
    }

    /// Inserts `n` copies of `character` at column `x` of row `y`.
    pub fn insert_chars(&mut self, y: usize, x: usize, character: Character, n: usize)
        requires
            old(self)@.wf(),
            y < old(self)@.rows(),
            x <= old(self)@.cols(),
        ensures
            final(self)@ == old(self)@.insert(y as int, x as int, character, n as int),
            final(self)@.wf(),
    {
        proof {
            self.lemma_buffers();
            assert(self@.grid[y as int] == self.buf[y as int]@);
            assert(self@.dirty[y as int] == self.dirty[y as int]@);
        }
        insert_cells(&mut self.buf, &mut self.dirty, y, x, character, n);
    }

    /// Deletes `n` cells at column `x` of row `y`; blanks in the current
    /// attribute fill the end of the row.
    pub fn delete_chars(&mut self, y: usize, x: usize, n: usize)
        requires
            old(self)@.wf(),
            y < old(self)@.rows(),
            x <= old(self)@.cols(),
        ensures
            final(self)@ == old(self)@.delete(y as int, x as int, n as int),
            final(self)@.wf(),
    {
        proof {
            self.lemma_buffers();
            assert(self@.grid[y as int] == self.buf[y as int]@);
            assert(self@.dirty[y as int] == self.dirty[y as int]@);
        }
        let blank = Character { attr: self.attr, byte: ' ' };
        delete_cells(&mut self.buf, &mut self.dirty, y, x, blank, n);
    }

    /// Takes the top row of the scrolling region out and puts a blank row
    /// in at `y`.
    pub fn scroll_down(&mut self, y: usize)
        requires
            old(self)@.wf(),
            y < old(self)@.rows(),
        ensures
            final(self)@ == old(self)@.scroll_down(y as int),
            final(self)@.wf(),
    {
        proof {
            self.lemma_buffers();
        }
        let cols: usize = self.cols();
        let blank = Character { attr: self.attr, byte: ' ' };
        shift(&mut self.buf, self.scrolling_region.top, y, blank, cols);
        assert(self@.wf());
        self.full_dirt();
    }

    /// Takes the bottom row of the scrolling region out and puts a blank
    /// row in at `y`.
    pub fn scroll_up(&mut self, y: usize)
        requires
            old(self)@.wf(),
            y < old(self)@.rows(),
        ensures
            final(self)@ == old(self)@.scroll_up(y as int),
            final(self)@.wf(),
    {
        proof {
            self.lemma_buffers();
        }
        let cols: usize = self.cols();
        let blank = Character { attr: self.attr, byte: ' ' };
        shift(&mut self.buf, self.scrolling_region.bottom, y, blank, cols);
        assert(self@.wf());
        self.full_dirt();
    }

    /// `scroll_down` at `y`, `n` times over.
    pub fn scroll_down_by(&mut self, y: usize, n: usize)
        requires
            old(self)@.wf(),
            y < old(self)@.rows(),
        ensures
            final(self)@ == old(self)@.scroll_down_by(y as int, n as nat),
            final(self)@.wf(),
    {
        let ghost before = self@;
        let mut i: usize = 0;
        while i < n
            invariant
                i <= n,
                self@ == before.scroll_down_by(y as int, i as nat),
                self@.wf(),
                self@.window == before.window,
                y < before.rows(),
            decreases n - i,
        {
            self.scroll_down(y);
            i += 1;
        }
    }

    /// `scroll_up` at `y`, `n` times over.
    pub fn scroll_up_by(&mut self, y: usize, n: usize)
        requires
            old(self)@.wf(),
            y < old(self)@.rows(),
        ensures
            final(self)@ == old(self)@.scroll_up_by(y as int, n as nat),
            final(self)@.wf(),
    {
        let ghost before = self@;
        let mut i: usize = 0;
        while i < n
            invariant
                i <= n,
                self@ == before.scroll_up_by(y as int, i as nat),
                self@.wf(),
                self@.window == before.window,
                y < before.rows(),
            decreases n - i,
        {
            self.scroll_up(y);
            i += 1;
        }
    }

    /// Writes a printable character at the cursor and moves the cursor on.
    pub fn print(&mut self, c: char)
        requires
            old(self)@.wf(),
        ensures
            final(self)@ == old(self)@.print(c),
            final(self)@.wf(),
    {
        let cols: usize = self.cols();
        let x: usize = self.cursor.position.x;
        let y: usize = self.cursor.position.y;
        let at: usize = if x < cols {
            x
        } else {
            cols - 1
        };
        let character = Character { attr: self.attr, byte: c };
        if !self.mode.decim {
            self.set_char(y, at, character);
        } else {
            self.insert_char(y, at, character);
        }
        self.place(
            if x < cols {
                x + 1
            } else {
                x
            },
            y,
        );
    }

    /// Carries out a C0 control. The bell is the host's to ring.
    pub fn execute(&mut self, byte: u8) -> (effect: Effect)
        requires
            old(self)@.wf(),
        ensures
            final(self)@ == old(self)@.execute(byte),
            final(self)@.wf(),
            effect@ == (if byte == 0x07 {
                Outcome::Bell
            } else {
                Outcome::Nothing
            }),
    {
        let cols: usize = self.cols();
        let x: usize = self.cursor.position.x;
        let y: usize = self.cursor.position.y;
        if byte == 0x09 {
            proof {
                self.lemma_buffers();
            }
            let mut stop: usize = x + 1;
            while stop < cols && !self.tabs[stop]
                invariant
                    x < stop <= cols + 1,
                    cols < self.tabs.len(),
                    next_stop(self.tabs@, x + 1) == next_stop(self.tabs@, stop as int),
                decreases cols - stop,
            {
                stop += 1;
            }
            proof {
                lemma_next_stop_from(self.tabs@, stop as int);
            }
            self.place(stop, y);
        } else if byte == 0x0a || byte == 0x0b || byte == 0x0c {
            if y >= self.scrolling_region.bottom {
                self.scroll_down(self.scrolling_region.bottom);
                self.settle();
            } else {
                self.place(x, y + 1);
            }
        } else if byte == 0x0d {
            self.place(0, y);
        } else if byte == 0x08 {
            self.place(
                if x > 0 {
                    x - 1
                } else {
                    0
                },
                y,
            );
        } else {
            self.settle();
        }
        if byte == 0x07 {
            Effect::Bell
        } else {
            Effect::Nothing
        }
    }
}

/// The first tab stop at or after a column is not before that column.
pub proof fn lemma_next_stop_from(tabs: Seq<bool>, from: int)
    requires
        0 <= from <= tabs.len(),
    ensures
        from <= next_stop(tabs, from) <= tabs.len(),
    decreases tabs.len() - from,
{
    if from < tabs.len() && !tabs[from] {
        lemma_next_stop_from(tabs, from + 1);
    }
}

} // verus!
