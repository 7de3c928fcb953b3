//! The window's events: keys, the pointer, resizing, visibility and focus.
use crate::terminal::grid::{cols_for, filled, row_of, rows_for};
use crate::terminal::input::{
    arrow, arrow_bytes, cursor_key, is_cursor_key, is_special_key, special, special_bytes,
    special_key, xk_c, xk_v,
};
use crate::terminal::model::{blank, cells, cols_of, rows_of, uniform, Model, Outcome, Saved};
use crate::terminal::select::selected;
use crate::terminal::{
    Attribute, Character, Cursor, Effect, Point, Position, Screen, ScrollingRegion, Selection,
    Window,
};
use vstd::prelude::*;

verus! {

/// `x11::xlib::Button1`, the number of the first pointer button.
#[verifier::external_body]
fn button_1() -> (button: u32)
    ensures
        button == 1,
{
    x11::xlib::Button1
}

/// `x11::xlib::Button4`, the number that the wheel gives when it turns up.
#[verifier::external_body]
fn button_4() -> (button: u32)
    ensures
        button == 4,
{
    x11::xlib::Button4
}

/// `x11::xlib::Button5`, the number that the wheel gives when it turns
/// down.
#[verifier::external_body]
fn button_5() -> (button: u32)
    ensures
        button == 5,
{
    x11::xlib::Button5
}

/// An event of the window, with what the screen reads of it.
#[derive(Debug, Clone, Copy, PartialEq, Eq, Structural)]
pub enum WindowEvent {
    /// A key went down: its keysym and the modifier state.
    KeyPress { keysym: u32, state: u32 },
    /// A pointer button went down at a pixel.
    ButtonPress { button: u32, x: i32, y: i32 },
    ButtonRelease { button: u32 },
    /// The pointer moved to a pixel.
    MotionNotify { x: i32, y: i32 },
    /// The window is shown with a size in pixels.
    Expose { width: u32, height: u32 },
    VisibilityNotify,
    FocusIn,
    FocusOut,
    Other,
}

/// The column of the cell that holds a pixel; left of the window it counts
/// towards zero.
pub open spec fn column_at(x: i32) -> i32 {
    if x >= 0 {
        (x / 10) as i32
    } else {
        (-((-x) / 10)) as i32
    }
}

/// The row of the cell that holds a pixel; above the window it is at most
/// -1.
pub open spec fn row_at(y: i32) -> i32 {
    if y >= 0 {
        (y / 20) as i32
    } else {
        (-((20 - y) / 20)) as i32
    }
}

/// The cell that holds a pixel.
pub open spec fn cell_at(x: i32, y: i32) -> Position {
    Position { x: column_at(x), y: row_at(y) }
}

/// A grid cut or padded to `rows` by `cols`: what fits stays where it is,
/// and `ch` fills the rest.
pub open spec fn resize_grid(grid: Seq<Seq<Character>>, rows: int, cols: int, ch: Character) -> Seq<
    Seq<Character>,
> {
    Seq::new(
        rows as nat,
        |i: int|
            Seq::new(
                cols as nat,
                |j: int|
                    if i < grid.len() && j < grid[i].len() {
                        grid[i][j]
                    } else {
                        ch
                    },
            ),
    )
}

/// Tab stops for at least `count` columns: those there are, and beyond
/// them one at every eighth column.
pub open spec fn extend_tabs(tabs: Seq<bool>, count: int) -> Seq<bool> {
    if tabs.len() >= count {
        tabs
    } else {
        Seq::new(
            count as nat,
            |i: int|
                if i < tabs.len() {
                    tabs[i]
                } else {
                    i % 8 == 0
                },
        )
    }
}

/// A place brought onto a grid of `rows` by `cols`.
pub open spec fn onto(p: Point, rows: int, cols: int) -> Point {
    Point {
        x: if p.x <= cols {
            p.x
        } else {
            cols as usize
        },
        y: if p.y < rows {
            p.y
        } else {
            (rows - 1) as usize
        },
    }
}

/// A number of rows or columns as the shell is told it.
pub open spec fn told(n: int) -> u16 {
    if n > u16::MAX {
        u16::MAX
    } else {
        n as u16
    }
}

impl Model {
    /// What a key press asks of the host: the bytes of a cursor key or of
    /// backspace, F10 and escape; the selection for the clipboard at c
    /// with control and shift down; the clipboard's text at v with control
    /// and shift down; for every other key the text that the window system
    /// composes.
    pub open spec fn key(self, keysym: u32, state: u32) -> Outcome {
        if cursor_key(keysym) {
            Outcome::Write(arrow_bytes(keysym, state, self.mode.decckm))
        } else if special_key(keysym) {
            match special_bytes(keysym) {
                Some(bytes) => Outcome::Write(bytes),
                None => Outcome::Nothing,
            }
        } else if keysym == 0x63 && state == 5 {
            match selected(self.grid, self.selection) {
                Some(text) => Outcome::Copy(text),
                None => Outcome::Nothing,
            }
        } else if keysym == 0x76 && state == 5 {
            Outcome::Paste
        } else {
            Outcome::Lookup
        }
    }

    /// The screen in a window of another size. Both grids are cut or
    /// padded with blanks in the configured colours, everything is dirty,
    /// the scrolling region follows the grid unless a sequence has set it,
    /// and then is cut to the grid, and both cursors are brought onto the
    /// grid.
    pub open spec fn resized(self, width: u32, height: u32) -> Model {
        let rows = rows_of(height);
        let cols = cols_of(width);
        let bottom = if !self.scroll_set || self.region.bottom >= rows {
            (rows - 1) as usize
        } else {
            self.region.bottom
        };
        let top = if self.region.top < bottom {
            self.region.top
        } else {
            bottom
        };
        (Model {
            window: Window { width, height },
            grid: resize_grid(self.grid, rows, cols, blank(self.default)),
            dirty: uniform(true, rows, cols),
            alt: Saved {
                grid: resize_grid(self.alt.grid, rows, cols, blank(self.default)),
                cursor: Cursor {
                    position: onto(self.alt.cursor.position, rows, cols),
                    ..self.alt.cursor
                },
                ..self.alt
            },
            region: ScrollingRegion { top, bottom },
            tabs: extend_tabs(self.tabs, cols + 1),
            cursor: Cursor { position: onto(self.cursor.position, rows, cols), ..self.cursor },
            ..self
        }).settle()
    }

    /// A pointer button went down: the wheel sends a byte to the shell,
    /// 0x19 for up and 0x05 for down; the first button starts a selection
    /// at the cell under the pointer.
    pub open spec fn pressed(self, button: u32, x: i32, y: i32) -> (Model, Outcome) {
        if button == 4 {
            (Model { refresh: true, ..self }, Outcome::Write(seq![0x19u8]))
        } else if button == 5 {
            (Model { refresh: true, ..self }, Outcome::Write(seq![0x05u8]))
        } else if button == 1 {
            (
                Model {
                    selection: Selection {
                        start: cell_at(x, y),
                        end: cell_at(x, y),
                        selecting: true,
                    },
                    refresh: true,
                    ..self
                },
                Outcome::Nothing,
            )
        } else {
            (self, Outcome::Nothing)
        }
    }

    /// A pointer button went up: the first one ends the selecting.
    pub open spec fn released(self, button: u32) -> Model {
        if button == 1 {
            Model { selection: Selection { selecting: false, ..self.selection }, ..self }
        } else {
            self
        }
    }

    /// The pointer moved: while selecting, the selection ends at the cell
    /// under it.
    pub open spec fn dragged(self, x: i32, y: i32) -> Model {
        if self.selection.selecting {
            Model {
                selection: Selection { end: cell_at(x, y), ..self.selection },
                refresh: true,
                ..self
            }
        } else {
            self
        }
    }

    /// The window is shown with a size: where the size is new, the screen
    /// follows, and the shell is to be told.
    pub open spec fn exposed(self, width: u32, height: u32) -> (Model, Outcome) {
        if width != self.window.width || height != self.window.height {
            (
                self.resized(width, height),
                Outcome::Resize { cols: told(cols_of(width)), rows: told(rows_of(height)) },
            )
        } else {
            (self, Outcome::Nothing)
        }
    }

    /// The focus came or went: `CSI I` or `CSI O` goes to the shell where
    /// focus reports are on.
    pub open spec fn focus_changed(self, focused: bool) -> (Model, Outcome) {
        (
            Model { focused, refresh: true, ..self },
            if self.mode.decfocus {
                Outcome::Write(
                    seq![
                        0x1bu8,
                        0x5b,
                        if focused {
                            0x49u8
                        } else {
                            0x4fu8
                        },
                    ],
                )
            } else {
                Outcome::Nothing
            },
        )
    }

    /// What an event of the window makes of the screen, and what it asks
    /// of the host.
    pub open spec fn event(self, e: WindowEvent) -> (Model, Outcome) {
        match e {
            WindowEvent::KeyPress { keysym, state } => (self, self.key(keysym, state)),
            WindowEvent::ButtonPress { button, x, y } => self.pressed(button, x, y),
            WindowEvent::ButtonRelease { button } => (self.released(button), Outcome::Nothing),
            WindowEvent::MotionNotify { x, y } => (self.dragged(x, y), Outcome::Nothing),
            WindowEvent::Expose { width, height } => self.exposed(width, height),
            WindowEvent::VisibilityNotify => (
                Model { dirty: uniform(true, self.rows(), self.cols()), refresh: true, ..self },
                Outcome::Nothing,
            ),
            WindowEvent::FocusIn => self.focus_changed(true),
            WindowEvent::FocusOut => self.focus_changed(false),
            WindowEvent::Other => (self, Outcome::Nothing),
        }
    }
}

/// The cell that holds a pixel.
pub fn cell_of(x: i32, y: i32) -> (cell: Position)
    ensures
        cell == cell_at(x, y),
{
    let column: i32 = if x >= 0 {
        x / 10
    } else {
        (0 - ((0 - x as i64) / 10)) as i32
    };
    let row: i32 = if y >= 0 {
        y / 20
    } else {
        (0 - ((20 - y as i64) / 20)) as i32
    };
    Position { x: column, y: row }
}

/// One byte as a vector.
fn one_byte(byte: u8) -> (bytes: Vec<u8>)
    ensures
        bytes@ == seq![byte],
{
    let mut bytes: Vec<u8> = Vec::new();
    bytes.push(byte);
    assert(bytes@ =~= seq![byte]);
    bytes
}

/// Cuts or pads a buffer to `rows` by `cols`.
pub fn resize_cells(buf: &mut Vec<Vec<Character>>, rows: usize, cols: usize, ch: Character)
    ensures
        cells(final(buf)@) == resize_grid(cells(old(buf)@), rows as int, cols as int, ch),
{
    let ghost grid = cells(buf@);
    buf.truncate(rows);
    let kept: usize = buf.len();
    let mut i: usize = 0;
    while i < kept
        invariant
            i <= kept,
            kept == buf.len(),
            kept <= rows,
            kept <= grid.len(),
            kept == grid.len() || kept == rows,
            forall|r: int| i <= r < kept ==> (#[trigger] buf[r])@ == grid[r],
            forall|r: int|
                0 <= r < i ==> (#[trigger] buf[r])@ == resize_grid(
                    grid,
                    rows as int,
                    cols as int,
                    ch,
                )[r],
        decreases kept - i,
    {
        buf[i].truncate(cols);
        while buf[i].len() < cols
            invariant
                i < kept,
                kept == buf.len(),
                buf[i as int].len() <= cols,
                grid[i as int].len() <= buf[i as int].len() || buf[i as int].len() == cols,
                forall|r: int| i < r < kept ==> (#[trigger] buf[r])@ == grid[r],
                forall|r: int|
                    0 <= r < i ==> (#[trigger] buf[r])@ == resize_grid(
                        grid,
                        rows as int,
                        cols as int,
                        ch,
                    )[r],
                forall|c: int|
                    0 <= c < buf[i as int].len() ==> (#[trigger] buf[i as int][c]) == (if c
                        < grid[i as int].len() {
                        grid[i as int][c]
                    } else {
                        ch
                    }),
            decreases cols - buf[i as int].len(),
        {
            buf[i].push(ch);
        }
        assert(buf[i as int]@ =~= resize_grid(grid, rows as int, cols as int, ch)[i as int]);
        i += 1;
    }
    while buf.len() < rows
        invariant
            kept <= buf.len() <= rows,
            kept == grid.len() || kept == rows,
            kept <= grid.len(),
            forall|r: int|
                0 <= r < buf.len() ==> (#[trigger] buf[r])@ == resize_grid(
                    grid,
                    rows as int,
                    cols as int,
                    ch,
                )[r],
        decreases rows - buf.len(),
    {
        let row = row_of(ch, cols);
        assert(row@ =~= resize_grid(grid, rows as int, cols as int, ch)[buf.len() as int]);
        buf.push(row);
    }
    assert(cells(buf@) =~~= resize_grid(grid, rows as int, cols as int, ch));
}

/// Lengthens the tab stops to at least `count` entries.
pub fn extend(tabs: &mut Vec<bool>, count: usize)
    ensures
        final(tabs)@ == extend_tabs(old(tabs)@, count as int),
{
    if tabs.len() >= count {
        return ;
    }
    while tabs.len() < count
        invariant
            old(tabs).len() < count,
            old(tabs).len() <= tabs.len() <= count,
            forall|i: int|
                0 <= i < tabs.len() ==> tabs[i] == (if i < old(tabs).len() {
                    old(tabs)[i]
                } else {
                    i % 8 == 0
                }),
        decreases count - tabs.len(),
    {
        tabs.push(tabs.len() % 8 == 0);
    }
    assert(tabs@ =~= extend_tabs(old(tabs)@, count as int));
}

/// A place brought onto a grid of `rows` by `cols`.
fn brought(p: Point, rows: usize, cols: usize) -> (q: Point)
    requires
        rows >= 1,
    ensures
        q == onto(p, rows as int, cols as int),
{
    Point {
        x: if p.x <= cols {
            p.x
        } else {
            cols
        },
        y: if p.y < rows {
            p.y
        } else {
            rows - 1
        },
    }
}

impl Screen {
    /// What a key press asks of the host.
    pub fn handle_key(&self, keysym: u32, state: u32) -> (effect: Effect)
        requires
            self@.framed(),
        ensures
            effect@ == self@.key(keysym, state),
    {
        if is_cursor_key(keysym) {
            Effect::Write(arrow(keysym, state, self.mode.decckm))
        } else if is_special_key(keysym) {
            match special(keysym) {
                Some(bytes) => Effect::Write(bytes),
                None => Effect::Nothing,
            }
        } else if keysym == xk_c() && state == 5 {
            match self.get_selection() {
                Some(text) => Effect::Copy(text),
                None => Effect::Nothing,
            }
        } else if keysym == xk_v() && state == 5 {
            Effect::Paste
        } else {
            Effect::Lookup
        }
    }

    /// Takes the window's new size.
    pub fn resize(&mut self, width: u32, height: u32)
        requires
            old(self)@.wf(),
        ensures
            final(self)@ == old(self)@.resized(width, height),
            final(self)@.wf(),
    {
        let rows: usize = rows_for(height);
        let cols: usize = cols_for(width);
        let fill = Character { attr: Attribute { fg: self.config.fg, bg: self.config.bg }, byte: ' ' };
        resize_cells(&mut self.buf, rows, cols, fill);
        resize_cells(&mut self.alt.buf, rows, cols, fill);
        extend(&mut self.tabs, cols + 1);
        let bottom: usize = if !self.scroll_set || self.scrolling_region.bottom >= rows {
            rows - 1
        } else {
            self.scrolling_region.bottom
        };
        let top: usize = if self.scrolling_region.top < bottom {
            self.scrolling_region.top
        } else {
            bottom
        };
        self.shape(
            Window { width, height },
            filled(true, rows, cols),
            ScrollingRegion { top, bottom },
            brought(self.cursor.position, rows, cols),
            brought(self.alt.cursor.position, rows, cols),
        );
        self.settle();
    }

    /// Takes the window, the dirty map, the scrolling region and the two
    /// cursors' places as given.
    fn shape(
        &mut self,
        window: Window,
        dirty: Vec<Vec<bool>>,
        region: ScrollingRegion,
        place: Point,
        other: Point,
    )
        ensures
            final(self)@ == (Model {
                window,
                dirty: cells(dirty@),
                region,
                cursor: Cursor { position: place, ..old(self)@.cursor },
                alt: Saved {
                    cursor: Cursor { position: other, ..old(self)@.alt.cursor },
                    ..old(self)@.alt
                },
                ..old(self)@
            }),
    {
        self.window = window;
        self.dirty = dirty;
        self.scrolling_region = region;
        self.cursor.position = place;
        self.alt.cursor.position = other;
    }

    /// Notes what the pointer selects and whether a redraw is wanted.
    fn select(&mut self, selection: Selection, refresh: bool)
        ensures
            final(self)@ == (Model { selection, refresh, ..old(self)@ }),
    {
        self.selection = selection;
        self.refresh = refresh;
    }

    /// Asks for a redraw.
    pub fn request_redraw(&mut self)
        ensures
            final(self)@ == (Model { refresh: true, ..old(self)@ }),
    {
        self.refresh = true;
    }

    /// A pointer button went down.
    pub fn press(&mut self, button: u32, x: i32, y: i32) -> (effect: Effect)
        requires
            old(self)@.wf(),
        ensures
            (final(self)@, effect@) == old(self)@.pressed(button, x, y),
            final(self)@.wf(),
    {
        if button == button_4() {
            self.request_redraw();
            Effect::Write(one_byte(0x19))
        } else if button == button_5() {
            self.request_redraw();
            Effect::Write(one_byte(0x05))
        } else if button == button_1() {
            let cell = cell_of(x, y);
            self.select(Selection { start: cell, end: cell, selecting: true }, true);
            Effect::Nothing
        } else {
            Effect::Nothing
        }
    }

    /// A pointer button went up.
    pub fn release(&mut self, button: u32)
        requires
            old(self)@.wf(),
        ensures
            final(self)@ == old(self)@.released(button),
            final(self)@.wf(),
    {
        if button == button_1() {
            self.select(
                Selection {
                    start: self.selection.start,
                    end: self.selection.end,
                    selecting: false,
                },
                self.refresh,
            );
        }
    }

    /// The pointer moved.
    pub fn drag(&mut self, x: i32, y: i32)
        requires
            old(self)@.wf(),
        ensures
            final(self)@ == old(self)@.dragged(x, y),
            final(self)@.wf(),
    {
        if self.selection.selecting {
            self.select(
                Selection { start: self.selection.start, end: cell_of(x, y), selecting: true },
                true,
            );
        }
    }

    /// The window is shown with a size.
    pub fn expose(&mut self, width: u32, height: u32) -> (effect: Effect)
        requires
            old(self)@.wf(),
        ensures
            (final(self)@, effect@) == old(self)@.exposed(width, height),
            final(self)@.wf(),
    {
        if width != self.window.width || height != self.window.height {
            self.resize(width, height);
            let cols: usize = cols_for(width);
            let rows: usize = rows_for(height);
            Effect::Resize {
                cols: if cols > 0xffff {
                    0xffff
                } else {
                    cols as u16
                },
                rows: if rows > 0xffff {
                    0xffff
                } else {
                    rows as u16
                },
            }
        } else {
            Effect::Nothing
        }
    }

    /// The window became visible: everything is painted again.
    pub fn shown(&mut self)
        requires
            old(self)@.wf(),
        ensures
            final(self)@ == (Model {
                dirty: uniform(true, old(self)@.rows(), old(self)@.cols()),
                refresh: true,
                ..old(self)@
            }),
            final(self)@.wf(),
    {
        self.full_dirt();
        self.request_redraw();
    }

    /// The focus came or went.
    pub fn focus(&mut self, focused: bool) -> (effect: Effect)
        requires
            old(self)@.wf(),
        ensures
            (final(self)@, effect@) == old(self)@.focus_changed(focused),
            final(self)@.wf(),
    {
        self.focused = focused;
        self.refresh = true;
        if self.mode.decfocus {
            let mut bytes: Vec<u8> = Vec::new();
            bytes.push(0x1b);
            bytes.push(0x5b);
            bytes.push(
                if focused {
                    0x49
                } else {
                    0x4f
                },
            );
            assert(bytes@ =~= seq![
                0x1bu8,
                0x5b,
                if focused {
                    0x49u8
                } else {
                    0x4fu8
                },
            ]);
            Effect::Write(bytes)
        } else {
            Effect::Nothing
        }
    }

    /// Takes one event of the window.
    pub fn handle_event(&mut self, event: WindowEvent) -> (effect: Effect)
        requires
            old(self)@.wf(),
        ensures
            (final(self)@, effect@) == old(self)@.event(event),
            final(self)@.wf(),
    {
        match event {
            WindowEvent::KeyPress { keysym, state } => self.handle_key(keysym, state),
            WindowEvent::ButtonPress { button, x, y } => self.press(button, x, y),
            WindowEvent::ButtonRelease { button } => {
                self.release(button);
                Effect::Nothing
            },
            WindowEvent::MotionNotify { x, y } => {
                self.drag(x, y);
                Effect::Nothing
            },
            WindowEvent::Expose { width, height } => self.expose(width, height),
            WindowEvent::VisibilityNotify => {
                self.shown();
                Effect::Nothing
            },
            WindowEvent::FocusIn => self.focus(true),
            WindowEvent::FocusOut => self.focus(false),
            WindowEvent::Other => Effect::Nothing,
        }
    }
}

} // verus!
