//! Escape sequences.
use crate::terminal::grid::filled;
use crate::terminal::{Attribute, Character, Effect, Screen};
use crate::terminal::report::report_primary;
use vstd::prelude::*;

verus! {

impl Screen {
    /// Clears the screen to the configured colours and sends the cursor
    /// home.
    pub fn hard_reset(&mut self)
        requires
            old(self)@.wf(),
        ensures
            final(self)@ == old(self)@.reset(),
            final(self)@.wf(),
    {
        let rows: usize = self.rows();
        let cols: usize = self.cols();
        let default = Attribute { fg: self.config.fg, bg: self.config.bg };
        self.buf = filled(Character { attr: default, byte: ' ' }, rows, cols);
        self.dirty = filled(true, rows, cols);
        self.attr = default;
        self.place(0, 0);
    }

    /// Carries out an escape sequence without intermediates.
    pub fn esc_plain(&mut self, byte: u8) -> (effect: Effect)
        requires
            old(self)@.wf(),
        ensures
            (final(self)@, effect@) == old(self)@.esc_plain(byte),
            final(self)@.wf(),
    {
        proof {
            self.lemma_buffers();
        }
        let x: usize = self.cursor.position.x;
        let y: usize = self.cursor.position.y;
        if byte == 0x4d {
            if y == self.scrolling_region.top {
                self.scroll_up(self.scrolling_region.top);
                self.settle();
            } else {
                self.place(
                    x,
                    if y > 0 {
                        y - 1
                    } else {
                        0
                    },
                );
            }
        } else if byte == 0x44 {
            self.place(x, y + 1);
        } else if byte == 0x45 {
            self.place(0, y + 1);
        } else if byte == 0x5a {
            self.settle();
            return Effect::Write(report_primary());
        } else if byte == 0x48 {
            self.set_tab(true);
            self.settle();
        } else if byte == 0x63 {
            self.hard_reset();
        } else {
            self.settle();
        }
        Effect::Nothing
    }

    /// Carries out an escape sequence.
    pub fn esc_dispatch(&mut self, intermediates: &[u8], byte: u8) -> (effect: Effect)
        requires
            old(self)@.wf(),
        ensures
            (final(self)@, effect@) == old(self)@.esc(intermediates@, byte),
            final(self)@.wf(),
    {
        if intermediates.len() == 0 {
            self.esc_plain(byte)
        } else if intermediates[0] == 0x23 && byte == 0x38 {
            let rows: usize = self.rows();
            self.fill(0, 0, rows, 0, Character { attr: self.attr, byte: 'E' });
            self.settle();
            Effect::Nothing
        } else {
            self.settle();
            Effect::Nothing
        }
    }
}

} // verus!
