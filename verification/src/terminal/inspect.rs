//! What the screen shows of itself.
use crate::terminal::model::Model;
use crate::terminal::{
    Attribute, Character, CursorStyle, Mode, Point, Screen, ScrollingRegion, Selection, Terminal,
    Window,
};
use vstd::prelude::*;

verus! {

impl Screen {
    /// The cursor's place.
    pub fn cursor(&self) -> (p: Point)
        ensures
            p == self@.cursor.position,
    {
        self.cursor.position
    }

    /// The place that the cursor was saved at.
    pub fn saved_cursor(&self) -> (p: Point)
        ensures
            p == self@.cursor.save,
    {
        self.cursor.save
    }

    /// The cell in row `y` and column `x`, if the grid has one there.
    pub fn cell(&self, y: usize, x: usize) -> (c: Option<Character>)
        requires
            self@.framed(),
        ensures
            c == (if y < self@.rows() && x < self@.cols() {
                Some(self@.grid[y as int][x as int])
            } else {
                None
            }),
    {
        proof {
            self.lemma_buffers();
        }
        if y < self.buf.len() && x < self.buf[y].len() {
            assert(self@.grid[y as int] == self.buf[y as int]@);
            Some(self.buf[y][x])
        } else {
            None
        }
    }

    /// Whether the cell in row `y` and column `x` is to be painted again;
    /// `false` outside the grid.
    pub fn is_dirty(&self, y: usize, x: usize) -> (dirty: bool)
        requires
            self@.framed(),
        ensures
            dirty == (y < self@.rows() && x < self@.cols() && self@.dirty[y as int][x as int]),
    {
        proof {
            self.lemma_buffers();
        }
        if y < self.dirty.len() && x < self.dirty[y].len() {
            assert(self@.dirty[y as int] == self.dirty[y as int]@);
            self.dirty[y][x]
        } else {
            false
        }
    }

    /// Whether column `x` holds a tab stop; `false` past the last entry.
    pub fn tab_stop(&self, x: usize) -> (stop: bool)
        ensures
            stop == (x < self@.tabs.len() && self@.tabs[x as int]),
    {
        x < self.tabs.len() && self.tabs[x]
    }

    pub fn attribute(&self) -> (attr: Attribute)
        ensures
            attr == self@.attr,
    {
        self.attr
    }

    pub fn mode(&self) -> (mode: Mode)
        ensures
            mode == self@.mode,
    {
        self.mode
    }

    pub fn scrolling_region(&self) -> (region: ScrollingRegion)
        ensures
            region == self@.region,
    {
        self.scrolling_region
    }

    pub fn cursor_style(&self) -> (style: CursorStyle)
        ensures
            style == self@.style,
    {
        self.cursor_style
    }

    pub fn window(&self) -> (window: Window)
        ensures
            window == self@.window,
    {
        self.window
    }

    pub fn selection(&self) -> (selection: Selection)
        ensures
            selection == self@.selection,
    {
        self.selection
    }

    /// Whether a redraw is asked for.
    pub fn needs_refresh(&self) -> (yes: bool)
        ensures
            yes == self@.refresh,
    {
        self.refresh
    }

    pub fn is_focused(&self) -> (yes: bool)
        ensures
            yes == self@.focused,
    {
        self.focused
    }

    /// Whether a sequence has set the scrolling region.
    pub fn scroll_is_set(&self) -> (yes: bool)
        ensures
            yes == self@.scroll_set,
    {
        self.scroll_set
    }

    /// Whether the event loop is to end.
    pub fn should_close(&self) -> (yes: bool)
        ensures
            yes == self@.should_close,
    {
        self.should_close
    }

    /// Asks the event loop to end.
    pub fn close(&mut self)
        ensures
            final(self)@ == (Model { should_close: true, ..old(self)@ }),
    {
        self.should_close = true;
    }
}

impl Terminal {
    /// The screen, to look at.
    pub fn display(&self) -> (screen: &Screen)
        requires
            self.wf(),
        ensures
            screen@ == self@.1,
            screen@.wf(),
    {
        &self.screen
    }
}

} // verus!
