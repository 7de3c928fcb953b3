//! Control sequences.
use crate::terminal::grid::row_of;
use crate::terminal::model::{back_tabs, moves, prev_stop, Model};
use crate::terminal::{Character, CursorStyle, Effect, Screen};
use crate::terminal::report::{
    given_at, param_or, report_cursor, report_primary, report_secondary, report_status,
};
use vstd::prelude::*;

verus! {

/// Going back from column 0 stays at column 0.
pub proof fn lemma_back_tabs_at_home(tabs: Seq<bool>, n: nat)
    ensures
        back_tabs(tabs, 0, n) == 0,
    decreases n,
{
    if n > 0 {
        lemma_back_tabs_at_home(tabs, (n - 1) as nat);
    }
}

/// Whether `c` ends a sequence that only moves the cursor.
pub fn is_move(c: char) -> (yes: bool)
    ensures
        yes == moves(c),
{
    c == 'A' || c == 'B' || c == 'e' || c == 'C' || c == 'a' || c == 'D' || c == 'E' || c == 'F'
        || c == 'G' || c == '`' || c == 'H' || c == 'f' || c == 'd' || c == 'Z' || c == 'u'
}

impl Screen {
    /// The column reached from `x` by going back `n` tab stops.
    pub fn back_tab(&self, x: usize, n: usize) -> (column: usize)
        requires
            x < self@.tabs.len(),
        ensures
            column == back_tabs(self@.tabs, x as int, n as nat),
            column <= x,
    {
        let mut column: usize = x;
        let mut i: usize = 0;
        while i < n && column > 0
            invariant
                i <= n,
                column <= x < self.tabs.len(),
                back_tabs(self.tabs@, x as int, n as nat) == back_tabs(
                    self.tabs@,
                    column as int,
                    (n - i) as nat,
                ),
            decreases n - i,
        {
            let mut t: usize = column;
            while t > 0 && !self.tabs[t - 1]
                invariant
                    t <= column < self.tabs.len(),
                    prev_stop(self.tabs@, column as int) == prev_stop(self.tabs@, t as int),
                decreases t,
            {
                t -= 1;
            }
            column = if t > 0 {
                t - 1
            } else {
                0
            };
            i += 1;
        }
        proof {
            if column == 0 {
                lemma_back_tabs_at_home(self.tabs@, (n - i) as nat);
            }
        }
        column
    }

    /// Erases in the display.
    pub fn erase_display(&mut self, kind: u16)
        requires
            old(self)@.wf(),
        ensures
            final(self)@ == old(self)@.erase_display(kind as int),
            final(self)@.wf(),
    {
        let rows: usize = self.rows();
        let cols: usize = self.cols();
        let x: usize = self.cursor.position.x;
        let y: usize = self.cursor.position.y;
        let blank = Character { attr: self.attr, byte: ' ' };
        let upto: usize = if x < cols {
            x + 1
        } else {
            cols
        };
        if kind == 0 {
            self.fill(y, x, rows, 0, blank);
        } else if kind == 1 {
            self.fill(0, 0, y, upto, blank);
        } else if kind == 2 || kind == 3 {
            self.fill(0, 0, rows, 0, blank);
        }
    }

    /// Erases in the cursor's line.
    pub fn erase_line(&mut self, kind: u16)
        requires
            old(self)@.wf(),
        ensures
            final(self)@ == old(self)@.erase_line(kind as int),
            final(self)@.wf(),
    {
        let cols: usize = self.cols();
        let x: usize = self.cursor.position.x;
        let y: usize = self.cursor.position.y;
        let blank = Character { attr: self.attr, byte: ' ' };
        let upto: usize = if x < cols {
            x + 1
        } else {
            cols
        };
        if kind == 0 {
            self.fill(y, x, y, cols, blank);
        } else if kind == 1 {
            self.fill(y, 0, y, upto, blank);
        } else if kind == 2 {
            self.fill(y, 0, y, cols, blank);
        }
    }

    /// Where a sequence that only moves the cursor asks it to go.
    pub fn target(&self, params: &[u16], c: char) -> (to: (usize, usize))
        requires
            self@.wf(),
        ensures
            (to.0 as int, to.1 as int) == self@.target(params@, c),
    {
        proof {
            self.lemma_buffers();
        }
        let x: usize = self.cursor.position.x;
        let y: usize = self.cursor.position.y;
        let n: usize = param_or(params, 0, 1);
        let back_y: usize = if n < y {
            y - n
        } else {
            0
        };
        let back_x: usize = if n < x {
            x - n
        } else {
            0
        };
        if c == 'A' {
            (x, back_y)
        } else if c == 'B' || c == 'e' {
            (x, y + n)
        } else if c == 'C' || c == 'a' {
            (x + n, y)
        } else if c == 'D' {
            (back_x, y)
        } else if c == 'E' {
            (0, y + n)
        } else if c == 'F' {
            (0, back_y)
        } else if c == 'G' || c == '`' {
            (n - 1, y)
        } else if c == 'H' || c == 'f' {
            (
                param_or(params, 1, 1) - 1,
                n - 1 + (if self.mode.decom {
                    self.scrolling_region.top
                } else {
                    0
                }),
            )
        } else if c == 'd' {
            (x, n - 1)
        } else if c == 'Z' {
            (self.back_tab(x, n), y)
        } else if c == 'u' {
            (self.cursor.save.x, self.cursor.save.y)
        } else {
            (x, y)
        }
    }

    /// Carries out `J`, `K` or `X`.
    pub fn erase(&mut self, params: &[u16], c: char)
        requires
            old(self)@.wf(),
        ensures
            final(self)@ == old(self)@.erase(params@, c),
            final(self)@.wf(),
    {
        proof {
            self.lemma_buffers();
        }
        if c == 'J' {
            self.erase_display(given_at(params, 0, 0));
        } else if c == 'K' {
            self.erase_line(given_at(params, 0, 0));
        } else {
            let cols: usize = self.cols();
            let x: usize = self.cursor.position.x;
            let y: usize = self.cursor.position.y;
            let n: usize = param_or(params, 0, 1);
            let end: usize = if x + n < cols {
                x + n
            } else {
                cols
            };
            self.fill(y, x, y, end, Character { attr: self.attr, byte: ' ' });
        }
    }

    /// Carries out `L`, `M`, `S`, `T`, `P` or `@`.
    pub fn shift(&mut self, params: &[u16], c: char)
        requires
            old(self)@.wf(),
        ensures
            final(self)@ == old(self)@.shift(params@, c),
            final(self)@.wf(),
    {
        let x: usize = self.cursor.position.x;
        let y: usize = self.cursor.position.y;
        let n: usize = param_or(params, 0, 1);
        if c == 'L' {
            self.scroll_up_by(y, n);
            self.place(0, y);
        } else if c == 'M' {
            self.scroll_down_by(y, n);
            self.place(0, y);
        } else if c == 'S' {
            self.scroll_up_by(self.scrolling_region.top, n);
            self.settle();
        } else if c == 'T' {
            self.scroll_down_by(self.scrolling_region.bottom, n);
            self.settle();
        } else if c == 'P' {
            self.delete_chars(y, x, n);
            self.settle();
        } else {
            self.insert_chars(y, x, Character { attr: self.attr, byte: ' ' }, n);
            self.settle();
        }
    }

    /// Clears every tab stop.
    pub fn clear_all_tabs(&mut self)
        requires
            old(self)@.wf(),
        ensures
            final(self)@ == (Model {
                tabs: Seq::new(old(self)@.tabs.len(), |i: int| false),
                ..old(self)@
            }),
            final(self)@.wf(),
    {
        let count: usize = self.tabs.len();
        self.tabs = row_of(false, count);
    }

    /// Sets or clears the tab stop at the cursor.
    pub fn set_tab(&mut self, on: bool)
        requires
            old(self)@.wf(),
        ensures
            final(self)@ == (Model {
                tabs: old(self)@.tabs.update(old(self)@.cursor.position.x as int, on),
                ..old(self)@
            }),
            final(self)@.wf(),
    {
        proof {
            self.lemma_buffers();
        }
        let x: usize = self.cursor.position.x;
        self.tabs[x] = on;
    }

    /// Clears the tab stop at the cursor, or all of them.
    pub fn clear_tabs(&mut self, kind: u16)
        requires
            old(self)@.wf(),
        ensures
            final(self)@ == old(self)@.clear_tabs(kind as int),
            final(self)@.wf(),
    {
        if kind == 0 {
            self.set_tab(false);
        } else if kind == 3 {
            self.clear_all_tabs();
        }
    }

    /// Chooses the cursor's shape.
    pub fn set_style(&mut self, kind: u16)
        requires
            old(self)@.wf(),
        ensures
            final(self)@ == old(self)@.styled(kind as int),
            final(self)@.wf(),
    {
        self.cursor_style = if kind == 2 {
            CursorStyle::Block
        } else if kind == 4 {
            CursorStyle::Underline
        } else if kind == 6 {
            CursorStyle::Line
        } else {
            self.cursor_style
        };
    }

    /// The reply to a status request or to a request for the device
    /// attributes.
    pub fn report(&self, kind: u16, c: char) -> (effect: Effect)
        requires
            self@.wf(),
        ensures
            effect@ == self@.report(kind as int, c),
    {
        proof {
            self.lemma_buffers();
        }
        if c == 'n' && kind == 5 {
            Effect::Write(report_status())
        } else if c == 'n' && kind == 6 {
            let base: usize = if self.mode.decom {
                self.scrolling_region.top
            } else {
                0
            };
            Effect::Write(
                report_cursor(
                    (self.cursor.position.y - base + 1) as u64,
                    (self.cursor.position.x + 1) as u64,
                ),
            )
        } else if c == 'c' && kind == 0 {
            Effect::Write(report_primary())
        } else if c == 'c' && kind == 14 {
            Effect::Write(report_secondary())
        } else {
            Effect::Nothing
        }
    }

    /// Saves the cursor's place.
    pub fn save_cursor(&mut self)
        requires
            old(self)@.wf(),
        ensures
            final(self)@ == (Model {
                cursor: crate::terminal::Cursor {
                    save: old(self)@.cursor.position,
                    ..old(self)@.cursor
                },
                ..old(self)@
            }),
            final(self)@.wf(),
    {
        self.cursor.save = self.cursor.position;
    }

    /// Carries out a control sequence. The intermediates decide nothing.
    pub fn csi_dispatch(&mut self, params: &[u16], intermediates: &[u8], c: char) -> (effect:
        Effect)
        requires
            old(self)@.wf(),
        ensures
            (final(self)@, effect@) == old(self)@.csi(params@, c),
            final(self)@.wf(),
    {
        let kind: u16 = given_at(params, 0, 0);
        if is_move(c) {
            let to = self.target(params, c);
            self.place(to.0, to.1);
            Effect::Nothing
        } else if c == 'J' || c == 'K' || c == 'X' {
            self.erase(params, c);
            self.settle();
            Effect::Nothing
        } else if c == 'L' || c == 'M' || c == 'S' || c == 'T' || c == 'P' || c == '@' {
            self.shift(params, c);
            Effect::Nothing
        } else if c == 'g' {
            self.clear_tabs(kind);
            self.settle();
            Effect::Nothing
        } else if c == 'm' {
            self.settle();
            self.sgr(params, 0)
        } else if c == 'n' || c == 'c' {
            let effect = self.report(kind, c);
            self.settle();
            effect
        } else if c == 's' {
            self.save_cursor();
            self.settle();
            Effect::Nothing
        } else if c == 'h' {
            self.set_mode(kind, true);
            self.settle();
            Effect::Nothing
        } else if c == 'l' {
            self.set_mode(kind, false);
            self.settle();
            Effect::Nothing
        } else if c == 'q' {
            self.set_style(kind);
            self.settle();
            Effect::Nothing
        } else if c == 'r' {
            self.set_region(params);
            Effect::Nothing
        } else {
            self.settle();
            Effect::Nothing
        }
    }
}

} // verus!
