//! The screen model: the grid of cells with its dirty map, the cursor, the
//! current attribute, the modes, the scrolling region, the tab stops and the
//! alternate screen; and the dispatcher that applies the parser's actions.
pub mod bytes;
pub mod csi;
pub mod dispatch;
pub mod esc;
pub mod events;
pub mod grid;
pub mod input;
pub mod inspect;
pub mod laws;
pub mod model;
pub mod modes;
pub mod render;
pub mod report;
pub mod select;
pub mod sgr;

use crate::color::Color;
use crate::config::Config;
use crate::escape::{Action, Machine, Parser};
use crate::terminal::model::{
    blank, cells, cols_of, feed, feed_until, fresh, rows_of, uniform, Model, Outcome, Saved,
};
use vstd::prelude::*;

verus! {

/// The width of a cell, in pixels.
pub const CELL_WIDTH: u32 = 10;

/// The height of a cell, in pixels.
pub const CELL_HEIGHT: u32 = 20;

/// The size of the window, in pixels.
#[derive(Debug, Clone, Copy, PartialEq, Eq, Structural)]
pub struct Window {
    pub width: u32,
    pub height: u32,
}

/// A place on the grid.
#[derive(Debug, Clone, Copy, PartialEq, Eq, Structural)]
pub struct Point {
    pub x: usize,
    pub y: usize,
}

#[derive(Debug, Clone, Copy, PartialEq, Eq, Structural)]
pub struct Cursor {
    pub position: Point,
    pub save: Point,
}

/// A place in cell coordinates that the pointer gave; it may lie outside
/// the grid.
#[derive(Debug, Clone, Copy, PartialEq, Eq, Structural)]
pub struct Position {
    pub x: i32,
    pub y: i32,
}

#[derive(Debug, Clone, Copy, PartialEq, Eq, Structural)]
pub struct Selection {
    pub start: Position,
    pub end: Position,
    pub selecting: bool,
}

#[derive(Debug, Clone, Copy, PartialEq, Eq, Structural)]
pub struct Attribute {
    pub fg: Color,
    pub bg: Color,
}

#[derive(Debug, Clone, Copy, PartialEq, Eq, Structural)]
pub struct Character {
    pub attr: Attribute,
    pub byte: char,
}

/// The rows, both inclusive, within which vertical scrolling takes effect.
#[derive(Debug, Clone, Copy, PartialEq, Eq, Structural)]
pub struct ScrollingRegion {
    pub top: usize,
    pub bottom: usize,
}

#[derive(Debug, Clone, Copy, PartialEq, Eq, Structural)]
pub struct Mode {
    /// Insert mode (IRM).
    pub decim: bool,
    /// Origin mode (OM).
    pub decom: bool,
    /// Reverse video for the whole screen (SCNM).
    pub decscnm: bool,
    /// Cursor keys in application mode (CKM).
    pub decckm: bool,
    /// The text cursor is shown (TCEM).
    pub dectecm: bool,
    /// The alternate screen is the active one.
    pub decalt: bool,
    /// Bracketed paste.
    pub decpaste: bool,
    /// Focus reporting.
    pub decfocus: bool,
}

#[derive(Debug, Clone, Copy, PartialEq, Eq, Structural)]
pub enum CursorStyle {
    Block,
    Line,
    Underline,
}

/// A direct colour that SGR asks for. The host says whether the window
/// system grants it; the parameters are then taken up again at `next`.
#[derive(Debug, Clone, Copy, PartialEq, Eq, Structural)]
pub struct ColorRequest {
    pub raw: Color,
    pub background: bool,
    pub next: usize,
}

/// What a dispatch or an event asks of the host.
#[derive(Debug)]
pub enum Effect {
    Nothing,
    /// Bytes for the shell.
    Write(Vec<u8>),
    /// The bell is to ring.
    Bell,
    /// A direct colour is wanted.
    Color(ColorRequest),
    /// The window changed: the shell's terminal size and the back buffer
    /// are to follow.
    Resize { cols: u16, rows: u16 },
    /// Text for the clipboard.
    Copy(String),
    /// The clipboard's text is wanted.
    Paste,
    /// The text that the window system composes for the key is wanted.
    Lookup,
}

impl View for Effect {
    type V = Outcome;

    open spec fn view(&self) -> Outcome {
        match *self {
            Effect::Nothing => Outcome::Nothing,
            Effect::Write(bytes) => Outcome::Write(bytes@),
            Effect::Bell => Outcome::Bell,
            Effect::Color(request) => Outcome::Color(request),
            Effect::Resize { cols, rows } => Outcome::Resize { cols, rows },
            Effect::Copy(text) => Outcome::Copy(text@),
            Effect::Paste => Outcome::Paste,
            Effect::Lookup => Outcome::Lookup,
        }
    }
}

/// The screen that is not the active one, as a snapshot.
pub struct AltScreen {
    buf: Vec<Vec<Character>>,
    attr: Attribute,
    mode: Mode,
    cursor: Cursor,
}

impl View for AltScreen {
    type V = Saved;

    closed spec fn view(&self) -> Saved {
        Saved { grid: cells(self.buf@), attr: self.attr, mode: self.mode, cursor: self.cursor }
    }
}

/// The modes of a fresh screen: only the text cursor is on.
pub open spec fn initial_mode() -> Mode {
    Mode {
        decim: false,
        decom: false,
        decscnm: false,
        decckm: false,
        dectecm: true,
        decalt: false,
        decpaste: false,
        decfocus: false,
    }
}

/// The cursor of a fresh screen: at the origin, and saved there.
pub open spec fn initial_cursor() -> Cursor {
    Cursor { position: Point { x: 0, y: 0 }, save: Point { x: 0, y: 0 } }
}

impl AltScreen {
    /// A blank screen for a window `width` by `height` pixels, in the
    /// configured colours.
    pub fn new(config: &Config, width: u32, height: u32) -> (alt: AltScreen)
        ensures
            alt@ == (Saved {
                grid: Seq::new(
                    rows_of(height) as nat,
                    |i: int|
                        Seq::new(
                            cols_of(width) as nat,
                            |j: int| blank(Attribute { fg: config.fg, bg: config.bg }),
                        ),
                ),
                attr: Attribute { fg: config.fg, bg: config.bg },
                mode: initial_mode(),
                cursor: initial_cursor(),
            }),
    {
        let attr = Attribute { fg: config.fg, bg: config.bg };
        let alt = AltScreen {
            cursor: Cursor { position: Point { x: 0, y: 0 }, save: Point { x: 0, y: 0 } },
            attr,
            mode: Mode {
                decim: false,
                decom: false,
                decscnm: false,
                decckm: false,
                dectecm: true,
                decalt: false,
                decpaste: false,
                decfocus: false,
            },
            buf: grid::filled(Character { attr, byte: ' ' }, grid::rows_for(height), grid::cols_for(width)),
        };
        assert(alt@.grid =~~= Seq::new(
            rows_of(height) as nat,
            |i: int|
                Seq::new(
                    cols_of(width) as nat,
                    |j: int| blank(Attribute { fg: config.fg, bg: config.bg }),
                ),
        ));
        alt
    }
}

pub struct Screen {
    selection: Selection,
    cursor: Cursor,
    window: Window,
    config: Config,
    attr: Attribute,
    mode: Mode,
    cursor_style: CursorStyle,
    scrolling_region: ScrollingRegion,
    buf: Vec<Vec<Character>>,
    alt: AltScreen,
    dirty: Vec<Vec<bool>>,
    tabs: Vec<bool>,
    refresh: bool,
    focused: bool,
    scroll_set: bool,
    should_close: bool,
}

impl View for Screen {
    type V = Model;

    closed spec fn view(&self) -> Model {
        Model {
            grid: cells(self.buf@),
            dirty: cells(self.dirty@),
            cursor: self.cursor,
            attr: self.attr,
            mode: self.mode,
            region: self.scrolling_region,
            tabs: self.tabs@,
            alt: self.alt@,
            style: self.cursor_style,
            scroll_set: self.scroll_set,
            refresh: self.refresh,
            focused: self.focused,
            selection: self.selection,
            window: self.window,
            default: Attribute { fg: self.config.fg, bg: self.config.bg },
            palette: self.config.colors@,
            should_close: self.should_close,
        }
    }
}

impl Screen {
    /// A blank screen for the given window.
    pub fn new(config: Config, window: Window) -> (screen: Screen)
        ensures
            screen@ == fresh(
                Attribute { fg: config.fg, bg: config.bg },
                config.colors@,
                config.tab_max as int,
                window,
            ),
            screen@.wf(),
    {
        let rows: usize = grid::rows_for(window.height);
        let cols: usize = grid::cols_for(window.width);
        let attr = Attribute { fg: config.fg, bg: config.bg };
        let alt = AltScreen::new(&config, window.width, window.height);
        let count: usize = if config.tab_max > cols {
            config.tab_max
        } else {
            cols + 1
        };
        let mut tabs: Vec<bool> = Vec::new();
        while tabs.len() < count
            invariant
                tabs.len() <= count,
                forall|i: int| 0 <= i < tabs.len() ==> tabs[i] == (i % 8 == 0),
            decreases count - tabs.len(),
        {
            tabs.push(tabs.len() % 8 == 0);
        }
        let screen = Screen {
            selection: Selection {
                start: Position { x: 0, y: 0 },
                end: Position { x: 0, y: 0 },
                selecting: false,
            },
            cursor: Cursor { position: Point { x: 0, y: 0 }, save: Point { x: 0, y: 0 } },
            window,
            attr,
            mode: Mode {
                decim: false,
                decom: false,
                decscnm: false,
                decckm: false,
                dectecm: true,
                decalt: false,
                decpaste: false,
                decfocus: false,
            },
            cursor_style: CursorStyle::Block,
            scrolling_region: ScrollingRegion { top: 0, bottom: rows - 1 },
            buf: grid::filled(Character { attr, byte: ' ' }, rows, cols),
            alt,
            dirty: grid::filled(true, rows, cols),
            tabs,
            config,
            refresh: true,
            focused: true,
            scroll_set: false,
            should_close: false,
        };
        assert(screen@.tabs =~= fresh(
            Attribute { fg: config.fg, bg: config.bg },
            config.colors@,
            config.tab_max as int,
            window,
        ).tabs);
        assert(screen@.alt.grid =~~= uniform(
            blank(attr),
            rows_of(window.height),
            cols_of(window.width),
        ));
        screen
    }
}

/// The terminal: the parser and the screen that its actions are applied
/// to.
pub struct Terminal {
    parser: Parser,
    screen: Screen,
}

impl View for Terminal {
    type V = (Machine, Model);

    closed spec fn view(&self) -> (Machine, Model) {
        (self.parser@, self.screen@)
    }
}

impl Terminal {
    /// What the terminal keeps between calls.
    pub closed spec fn wf(&self) -> bool {
        self.parser.wf() && self.screen@.wf()
    }

    /// A terminal for the given window: the parser outside any sequence
    /// with its buffers empty and the decoder at rest, and a blank screen.
    pub fn new(config: Config, window: Window) -> (terminal: Terminal)
        ensures
            terminal.wf(),
            terminal@.0 == (Machine {
                state: crate::escape::State::Anywhere,
                params: seq![0u16],
                intermediates: Seq::empty(),
                osc: Seq::empty(),
                utf8: (crate::escape::utf8::State::Ground, 0u32),
            }),
            terminal@.1 == fresh(
                Attribute { fg: config.fg, bg: config.bg },
                config.colors@,
                config.tab_max as int,
                window,
            ),
    {
        Terminal { parser: Parser::new(), screen: Screen::new(config, window) }
    }

    /// The screen, to draw it and to hand it the window's events.
    pub fn screen(&mut self) -> (screen: &mut Screen)
        requires
            old(self).wf(),
        ensures
            screen@ == old(self)@.1,
            final(self)@.0 == old(self)@.0,
            final(self)@.1 == final(screen)@,
            final(screen)@.wf() ==> final(self).wf(),
    {
        &mut self.screen
    }

    /// Takes one byte from the shell: the parser reads it, and the action
    /// that it completes, if any, is applied to the screen.
    pub fn handle_byte(&mut self, byte: u8) -> (effect: Effect)
        requires
            old(self).wf(),
        ensures
            final(self).wf(),
            (final(self)@, effect@) == feed(old(self)@, byte),
    {
        match self.parser.advance(byte) {
            Ok(Some(action)) => match action {
                Action::Print(c) => {
                    self.screen.print(c);
                    Effect::Nothing
                },
                Action::Execute(b) => self.screen.execute(b),
                Action::CsiDispatch(params, intermediates, c) => self.screen.csi_dispatch(
                    params,
                    intermediates,
                    c,
                ),
                Action::EscDispatch(intermediates, b) => self.screen.esc_dispatch(
                    intermediates,
                    b,
                ),
                Action::OscDispatch(_) => Effect::Nothing,
            },
            _ => Effect::Nothing,
        }
    }

    /// Takes the host's answer to a request for a direct colour and goes on
    /// with the parameters of the sequence that asked for it.
    pub fn resume(&mut self, request: &ColorRequest, granted: bool) -> (effect: Effect)
        requires
            old(self).wf(),
        ensures
            final(self).wf(),
            final(self)@.0 == old(self)@.0,
            (final(self)@.1, effect@) == old(self)@.1.grant(*request, granted).sgr_from(
                old(self)@.0.params,
                request.next as int,
            ),
    {
        self.screen.grant(request, granted);
        self.screen.sgr(self.parser.params(), request.next)
    }

    /// Takes the bytes from index `from` on, up to the end or to the first
    /// byte whose action asks something of the host. Returns the index to
    /// go on from and what is asked.
    #[verifier::rlimit(40)]
    pub fn handle_bytes(&mut self, bytes: &[u8], from: usize) -> (r: (usize, Effect))
        requires
            old(self).wf(),
        ensures
            final(self).wf(),
            (final(self)@, r.0 as int, r.1@) == feed_until(old(self)@, bytes@, from as int),
    {
        let mut at: usize = from;
        while at < bytes.len()
            invariant
                self.wf(),
                feed_until(old(self)@, bytes@, from as int) == feed_until(self@, bytes@, at as int),
            decreases bytes.len() - at,
        {
            let effect = self.handle_byte(bytes[at]);
            at += 1;
            match effect {
                Effect::Nothing => {},
                _ => {
                    return (at, effect);
                },
            }
        }
        (bytes.len(), Effect::Nothing)
    }
}

} // verus!
