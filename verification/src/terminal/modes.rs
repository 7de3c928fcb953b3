//! Modes, the alternate screen and the scrolling region.
use crate::terminal::grid::filled;
use crate::terminal::model::{flagged, Model};
use crate::terminal::{Mode, Screen, ScrollingRegion};
use crate::terminal::report::param_or;
use vstd::prelude::*;

verus! {

/// The modes with the flag that `code` names set to `on`. Origin mode and
/// the alternate screen, which move more than a flag, are not among them.
pub fn flag_set(mode: Mode, code: u16, on: bool) -> (modes: Mode)
    ensures
        modes == flagged(mode, code as int, on),
{
    if code == 1 {
        Mode { decckm: on, ..mode }
    } else if code == 4 {
        Mode { decim: on, ..mode }
    } else if code == 5 {
        Mode { decscnm: on, ..mode }
    } else if code == 25 {
        Mode { dectecm: on, ..mode }
    } else if code == 1004 {
        Mode { decfocus: on, ..mode }
    } else if code == 2004 {
        Mode { decpaste: on, ..mode }
    } else {
        mode
    }
}

impl Screen {
    /// Exchanges the active screen and the snapshot, each as it is, and
    /// marks everything dirty. The cursor that comes in is on the grid; the
    /// bookkeeping of the dispatch, `settle`, brings it into the scrolling
    /// region where its origin mode asks for that.
    pub fn switch_screen(&mut self)
        requires
            old(self)@.placed(),
        ensures
            final(self)@ == old(self)@.switch(),
            final(self)@.placed(),
    {
        std::mem::swap(&mut self.buf, &mut self.alt.buf);
        let cursor = self.cursor;
        let attr = self.attr;
        let mode = self.mode;
        self.cursor = self.alt.cursor;
        self.attr = self.alt.attr;
        self.mode = self.alt.mode;
        self.alt.cursor = cursor;
        self.alt.attr = attr;
        self.alt.mode = mode;
        proof {
            old(self).lemma_buffers();
        }
        let rows: usize = self.buf.len();
        let cols: usize = self.buf[0].len();
        self.dirty = filled(true, rows, cols);
    }

    /// Sets or resets one mode.
    pub fn set_mode(&mut self, code: u16, on: bool)
        requires
            old(self)@.wf(),
        ensures
            final(self)@ == old(self)@.set_mode(code as int, on),
            final(self)@.placed(),
    {
        if code == 6 {
            self.mode = Mode { decom: on, ..self.mode };
            self.place(0, 0);
        } else if code == 1049 {
            if self.mode.decalt != on {
                self.enter_or_leave(on);
            }
        } else {
            self.mode = flag_set(self.mode, code, on);
        }
    }

    /// Exchanges the screens and notes which one is active.
    pub fn enter_or_leave(&mut self, on: bool)
        requires
            old(self)@.wf(),
        ensures
            final(self)@ == (Model {
                mode: Mode { decalt: on, ..old(self)@.switch().mode },
                ..old(self)@.switch()
            }),
            final(self)@.placed(),
    {
        self.switch_screen();
        self.mode.decalt = on;
    }

    /// Sets the scrolling region and sends the cursor home.
    pub fn set_region(&mut self, params: &[u16])
        requires
            old(self)@.wf(),
        ensures
            final(self)@ == old(self)@.set_region(params@),
            final(self)@.wf(),
    {
        let rows: usize = self.rows();
        let wanted: usize = param_or(params, 1, rows) - 1;
        let bottom: usize = if wanted < rows - 1 {
            wanted
        } else {
            rows - 1
        };
        let first: usize = param_or(params, 0, 1) - 1;
        let top: usize = if first < bottom {
            first
        } else {
            bottom
        };
        self.scrolling_region = ScrollingRegion { top, bottom };
        self.scroll_set = params.len() > 0;
        self.place(0, 0);
    }
}

} // verus!
