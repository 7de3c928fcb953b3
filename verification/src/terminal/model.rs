//! The screen as a mathematical value, and what each operation makes of it.
use crate::color::Color;
use crate::escape::{Event, Machine};
use crate::terminal::{
    initial_cursor, initial_mode, Attribute, Character, ColorRequest, Cursor, CursorStyle, Mode,
    Point, Position, ScrollingRegion, Selection, Window, CELL_HEIGHT, CELL_WIDTH,
};
use vstd::prelude::*;

verus! {

/// The number of rows of a window `height` pixels high: at least one.
pub open spec fn rows_of(height: u32) -> int {
    if height / CELL_HEIGHT == 0 {
        1
    } else {
        (height / CELL_HEIGHT) as int
    }
}

/// The number of columns of a window `width` pixels wide: at least one.
pub open spec fn cols_of(width: u32) -> int {
    if width / CELL_WIDTH == 0 {
        1
    } else {
        (width / CELL_WIDTH) as int
    }
}

/// The rows of a buffer, each as a sequence.
pub open spec fn cells<T>(buf: Seq<Vec<T>>) -> Seq<Seq<T>> {
    Seq::new(buf.len(), |i: int| buf[i]@)
}

/// Whether `grid` has `rows` rows of `cols` cells each.
pub open spec fn shaped<T>(grid: Seq<Seq<T>>, rows: int, cols: int) -> bool {
    &&& grid.len() == rows
    &&& forall|i: int| 0 <= i < rows ==> (#[trigger] grid[i]).len() == cols
}

/// The empty cell in the given attribute.
pub open spec fn blank(attr: Attribute) -> Character {
    Character { attr, byte: ' ' }
}

/// A grid with `ch` in every cell.
pub open spec fn uniform<T>(ch: T, rows: int, cols: int) -> Seq<Seq<T>> {
    Seq::new(rows as nat, |i: int| Seq::new(cols as nat, |j: int| ch))
}

/// Whether the cell `(i, j)` lies in the span that runs, row by row, from
/// `(y0, x0)` up to but not including `(y1, x1)`.
pub open spec fn in_span(i: int, j: int, y0: int, x0: int, y1: int, x1: int) -> bool {
    (i > y0 || (i == y0 && j >= x0)) && (i < y1 || (i == y1 && j < x1))
}

/// The grid with `ch` in every cell of a span.
pub open spec fn fill_grid(
    grid: Seq<Seq<Character>>,
    y0: int,
    x0: int,
    y1: int,
    x1: int,
    ch: Character,
) -> Seq<Seq<Character>> {
    Seq::new(
        grid.len(),
        |i: int|
            Seq::new(
                grid[i].len(),
                |j: int|
                    if in_span(i, j, y0, x0, y1, x1) {
                        ch
                    } else {
                        grid[i][j]
                    },
            ),
    )
}

/// The dirty map after a span was filled with `ch`: a cell of the span is
/// marked where it held something else; no mark is taken away.
pub open spec fn fill_dirty(
    grid: Seq<Seq<Character>>,
    dirty: Seq<Seq<bool>>,
    y0: int,
    x0: int,
    y1: int,
    x1: int,
    ch: Character,
) -> Seq<Seq<bool>> {
    Seq::new(
        dirty.len(),
        |i: int|
            Seq::new(
                dirty[i].len(),
                |j: int| dirty[i][j] || (in_span(i, j, y0, x0, y1, x1) && grid[i][j] != ch),
            ),
    )
}

/// How many cells an insertion or a deletion of `n` at column `x` moves in
/// a row of `cols` cells.
pub open spec fn reach(cols: int, x: int, n: int) -> int {
    if n < cols - x {
        n
    } else {
        cols - x
    }
}

/// A row after `n` copies of `ch` were inserted at column `x`: what stood
/// there moves right, and what passes the end is lost.
pub open spec fn insert_row(row: Seq<Character>, x: int, ch: Character, n: int) -> Seq<Character> {
    let k = reach(row.len() as int, x, n);
    row.take(x) + Seq::new(k as nat, |t: int| ch) + row.subrange(x, row.len() - k)
}

/// A row after `n` cells were deleted at column `x`: what stood to their
/// right moves left, and `ch` fills the end.
pub open spec fn delete_row(row: Seq<Character>, x: int, ch: Character, n: int) -> Seq<Character> {
    let k = reach(row.len() as int, x, n);
    row.take(x) + row.subrange(x + k, row.len() as int) + Seq::new(k as nat, |t: int| ch)
}

/// A row of marks with every column from `x` on marked.
pub open spec fn mark_from(marks: Seq<bool>, x: int) -> Seq<bool> {
    Seq::new(marks.len(), |j: int| j >= x || marks[j])
}

/// The grid after row `from` was taken out and a row of `ch` put in at
/// `to`.
pub open spec fn shift_rows(
    grid: Seq<Seq<Character>>,
    from: int,
    to: int,
    ch: Character,
    cols: int,
) -> Seq<Seq<Character>> {
    grid.remove(from).insert(to, Seq::new(cols as nat, |j: int| ch))
}

/// The first tab stop at or after column `from`; the number of entries
/// where there is none.
pub open spec fn next_stop(tabs: Seq<bool>, from: int) -> int
    decreases tabs.len() - from,
{
    if from < 0 || from >= tabs.len() {
        tabs.len() as int
    } else if tabs[from] {
        from
    } else {
        next_stop(tabs, from + 1)
    }
}

/// The last tab stop before column `from`; column 0 where there is none.
pub open spec fn prev_stop(tabs: Seq<bool>, from: int) -> int
    decreases from,
{
    if from <= 0 {
        0
    } else if from <= tabs.len() && tabs[from - 1] {
        from - 1
    } else {
        prev_stop(tabs, from - 1)
    }
}

/// The column reached from `x` by going back `n` tab stops.
pub open spec fn back_tabs(tabs: Seq<bool>, x: int, n: nat) -> int
    decreases n,
{
    if n == 0 {
        x
    } else {
        back_tabs(tabs, prev_stop(tabs, x), (n - 1) as nat)
    }
}

/// A number in decimal, as ASCII digits.
pub open spec fn decimal(v: nat) -> Seq<u8>
    decreases v,
{
    if v < 10 {
        seq![(0x30 + v) as u8]
    } else {
        decimal(v / 10).push((0x30 + v % 10) as u8)
    }
}

/// `CSI row ; col R`, the report of the cursor's place.
pub open spec fn cursor_report(row: nat, col: nat) -> Seq<u8> {
    seq![0x1bu8, 0x5b] + decimal(row) + seq![0x3bu8] + decimal(col) + seq![0x52u8]
}

/// `CSI 0 n`, the report that the terminal is well.
pub open spec fn status_report() -> Seq<u8> {
    seq![0x1bu8, 0x5b, 0x30, 0x6e]
}

/// `CSI ? 6 c`, the primary device attributes.
pub open spec fn primary_attributes() -> Seq<u8> {
    seq![0x1bu8, 0x5b, 0x3f, 0x36, 0x63]
}

/// `CSI > 1 ; 4000 ; 33 c`, the secondary device attributes.
pub open spec fn secondary_attributes() -> Seq<u8> {
    seq![0x1bu8, 0x5b, 0x3e, 0x31, 0x3b, 0x34, 0x30, 0x30, 0x30, 0x3b, 0x33, 0x33, 0x63]
}

/// Parameter `i`, or `default` where it is absent or zero.
pub open spec fn param(params: Seq<u16>, i: int, default: int) -> int {
    if 0 <= i < params.len() && params[i] != 0 {
        params[i] as int
    } else {
        default
    }
}

/// Parameter `i` as it was sent, or zero where it is absent.
pub open spec fn given(params: Seq<u16>, i: int) -> int {
    if 0 <= i < params.len() {
        params[i] as int
    } else {
        0
    }
}

/// What one parameter of SGR, other than 38 and 48, makes of the attribute.
/// A palette entry that the configuration lacks leaves it unchanged.
pub open spec fn sgr_simple(attr: Attribute, default: Attribute, palette: Seq<Color>, p: int) -> Attribute {
    if p == 0 || p == 27 {
        default
    } else if p == 7 {
        Attribute { fg: default.bg, bg: default.fg }
    } else if p == 39 {
        Attribute { fg: default.fg, ..attr }
    } else if p == 49 {
        Attribute { bg: default.bg, ..attr }
    } else if 30 <= p <= 37 && p - 30 < palette.len() {
        Attribute { fg: palette[p - 30], ..attr }
    } else if 90 <= p <= 97 && p - 90 < palette.len() {
        Attribute { fg: palette[p - 90], ..attr }
    } else if 40 <= p <= 47 && p - 40 < palette.len() {
        Attribute { bg: palette[p - 40], ..attr }
    } else if 100 <= p <= 107 && p - 100 < palette.len() {
        Attribute { bg: palette[p - 100], ..attr }
    } else {
        attr
    }
}

/// The parameters of SGR applied from index `at` on, up to the end or to
/// the first direct colour: the attribute reached, and the request for that
/// colour with the index to go on from. After 38 or 48 the form `2;r;g;b`
/// is a direct colour, also where the 2 is left out at the end; the form
/// `5;index` is passed over with its index; before anything else the 38 or
/// 48 alone is passed over.
pub open spec fn sgr(
    attr: Attribute,
    default: Attribute,
    palette: Seq<Color>,
    params: Seq<u16>,
    at: int,
) -> (Attribute, Option<ColorRequest>)
    decreases params.len() - at,
{
    if at < 0 || at >= params.len() {
        (attr, None)
    } else if params[at] == 38 || params[at] == 48 {
        if at + 1 >= params.len() || params[at + 1] == 2 {
            (
                attr,
                Some(
                    ColorRequest {
                        raw: Color {
                            r: given(params, at + 2) as u64,
                            g: given(params, at + 3) as u64,
                            b: given(params, at + 4) as u64,
                        },
                        background: params[at] == 48,
                        next: (if at + 5 < params.len() {
                            at + 5
                        } else {
                            params.len() as int
                        }) as usize,
                    },
                ),
            )
        } else if params[at + 1] == 5 {
            sgr(
                attr,
                default,
                palette,
                params,
                if at + 3 < params.len() {
                    at + 3
                } else {
                    params.len() as int
                },
            )
        } else {
            sgr(attr, default, palette, params, at + 1)
        }
    } else {
        sgr(sgr_simple(attr, default, palette, params[at] as int), default, palette, params, at + 1)
    }
}

/// The modes with the flag that `code` names set to `on`: 1 the cursor
/// keys, 4 insertion, 5 reverse video, 25 the text cursor, 1004 focus
/// reports, 2004 bracketed paste. Any other code names no flag.
pub open spec fn flagged(mode: Mode, code: int, on: bool) -> Mode {
    if code == 1 {
        Mode { decckm: on, ..mode }
    } else if code == 4 {
        Mode { decim: on, ..mode }
    } else if code == 5 {
        Mode { decscnm: on, ..mode }
    } else if code == 25 {
        Mode { dectecm: on, ..mode }
    } else if code == 1004 {
        Mode { decfocus: on, ..mode }
    } else if code == 2004 {
        Mode { decpaste: on, ..mode }
    } else {
        mode
    }
}

/// The final bytes of the sequences that only move the cursor.
pub open spec fn moves(c: char) -> bool {
    c == 'A' || c == 'B' || c == 'e' || c == 'C' || c == 'a' || c == 'D' || c == 'E' || c == 'F'
        || c == 'G' || c == '`' || c == 'H' || c == 'f' || c == 'd' || c == 'Z' || c == 'u'
}

/// What a dispatch asks of the host, with its payload by value.
pub enum Outcome {
    Nothing,
    Write(Seq<u8>),
    Bell,
    Color(ColorRequest),
    Resize { cols: u16, rows: u16 },
    Copy(Seq<char>),
    Paste,
    Lookup,
}

/// The snapshot of the screen that is not active.
pub struct Saved {
    pub grid: Seq<Seq<Character>>,
    pub attr: Attribute,
    pub mode: Mode,
    pub cursor: Cursor,
}

/// The screen as a value.
pub struct Model {
    pub grid: Seq<Seq<Character>>,
    pub dirty: Seq<Seq<bool>>,
    pub cursor: Cursor,
    pub attr: Attribute,
    pub mode: Mode,
    pub region: ScrollingRegion,
    pub tabs: Seq<bool>,
    pub alt: Saved,
    pub style: CursorStyle,
    pub scroll_set: bool,
    pub refresh: bool,
    pub focused: bool,
    pub selection: Selection,
    pub window: Window,
    /// The configured foreground and background.
    pub default: Attribute,
    /// The configured palette.
    pub palette: Seq<Color>,
    pub should_close: bool,
}

/// The screen of a new terminal: blank in the configured colours on both
/// screens, everything dirty, the cursor at the origin, the scrolling
/// region the whole grid, a tab stop at every eighth column.
pub open spec fn fresh(default: Attribute, palette: Seq<Color>, tab_max: int, window: Window) -> Model {
    let rows = rows_of(window.height);
    let cols = cols_of(window.width);
    Model {
        grid: uniform(blank(default), rows, cols),
        dirty: uniform(true, rows, cols),
        cursor: initial_cursor(),
        attr: default,
        mode: initial_mode(),
        region: ScrollingRegion { top: 0, bottom: (rows - 1) as usize },
        tabs: Seq::new(
            (if tab_max > cols {
                tab_max
            } else {
                cols + 1
            }) as nat,
            |i: int| i % 8 == 0,
        ),
        alt: Saved {
            grid: uniform(blank(default), rows, cols),
            attr: default,
            mode: initial_mode(),
            cursor: initial_cursor(),
        },
        style: CursorStyle::Block,
        scroll_set: false,
        refresh: true,
        focused: true,
        selection: Selection {
            start: Position { x: 0, y: 0 },
            end: Position { x: 0, y: 0 },
            selecting: false,
        },
        window,
        default,
        palette,
        should_close: false,
    }
}

impl Model {
    pub open spec fn rows(self) -> int {
        rows_of(self.window.height)
    }

    pub open spec fn cols(self) -> int {
        cols_of(self.window.width)
    }

    /// Whether `(x, y)` is a place for the cursor: any row of the grid, and
    /// any column or the place just past the last one.
    pub open spec fn holds(self, p: Point) -> bool {
        p.y < self.rows() && p.x <= self.cols()
    }

    /// The frame that the cursor moves in: the grid, the dirty map and
    /// the alternate grid have the shape that the window gives; the
    /// alternate cursor is on the grid; the scrolling region is a range of
    /// rows; and there is a tab stop entry for every place of the cursor.
    pub open spec fn framed(self) -> bool {
        &&& shaped(self.grid, self.rows(), self.cols())
        &&& shaped(self.dirty, self.rows(), self.cols())
        &&& shaped(self.alt.grid, self.rows(), self.cols())
        &&& self.holds(self.alt.cursor.position)
        &&& self.region.top <= self.region.bottom < self.rows()
        &&& self.tabs.len() > self.cols()
    }

    /// The frame, with the cursor on the grid.
    pub open spec fn placed(self) -> bool {
        &&& self.framed()
        &&& self.holds(self.cursor.position)
    }

    /// What every dispatch keeps: the frame, the cursor on the grid, and in
    /// origin mode the cursor inside the scrolling region.
    pub open spec fn wf(self) -> bool {
        &&& self.placed()
        &&& self.mode.decom ==> self.region.top <= self.cursor.position.y <= self.region.bottom
    }

    /// The empty cell in the current attribute.
    pub open spec fn blank(self) -> Character {
        blank(self.attr)
    }

    /// The row nearest to `y` that the cursor may take: one inside the
    /// scrolling region in origin mode, one on the grid otherwise.
    pub open spec fn row_limit(self, y: int) -> int {
        if self.mode.decom {
            if y < self.region.top {
                self.region.top as int
            } else if y > self.region.bottom {
                self.region.bottom as int
            } else {
                y
            }
        } else if y < self.rows() {
            y
        } else {
            self.rows() - 1
        }
    }

    /// The cursor moved to the place nearest to `(x, y)` that it may take,
    /// and a redraw asked for.
    pub open spec fn place(self, x: int, y: int) -> Model {
        Model {
            cursor: Cursor {
                position: Point {
                    x: (if x < self.cols() {
                        x
                    } else {
                        self.cols()
                    }) as usize,
                    y: self.row_limit(y) as usize,
                },
                save: self.cursor.save,
            },
            refresh: true,
            ..self
        }
    }

    /// The bookkeeping at the end of every dispatch.
    pub open spec fn settle(self) -> Model {
        self.place(self.cursor.position.x as int, self.cursor.position.y as int)
    }

    /// A span filled with `ch`; see `fill_grid` and `fill_dirty`.
    pub open spec fn fill(self, y0: int, x0: int, y1: int, x1: int, ch: Character) -> Model {
        Model {
            grid: fill_grid(self.grid, y0, x0, y1, x1, ch),
            dirty: fill_dirty(self.grid, self.dirty, y0, x0, y1, x1, ch),
            ..self
        }
    }

    /// `n` copies of `ch` inserted at column `x` of row `y`.
    pub open spec fn insert(self, y: int, x: int, ch: Character, n: int) -> Model {
        Model {
            grid: self.grid.update(y, insert_row(self.grid[y], x, ch, n)),
            dirty: self.dirty.update(y, mark_from(self.dirty[y], x)),
            ..self
        }
    }

    /// `n` cells deleted at column `x` of row `y`.
    pub open spec fn delete(self, y: int, x: int, n: int) -> Model {
        Model {
            grid: self.grid.update(y, delete_row(self.grid[y], x, self.blank(), n)),
            dirty: self.dirty.update(y, mark_from(self.dirty[y], x)),
            ..self
        }
    }

    /// The top row of the scrolling region taken out and a blank row put
    /// in at `y`; everything marked dirty.
    pub open spec fn scroll_down(self, y: int) -> Model {
        Model {
            grid: shift_rows(self.grid, self.region.top as int, y, self.blank(), self.cols()),
            dirty: uniform(true, self.rows(), self.cols()),
            ..self
        }
    }

    /// The bottom row of the scrolling region taken out and a blank row
    /// put in at `y`; everything marked dirty.
    pub open spec fn scroll_up(self, y: int) -> Model {
        Model {
            grid: shift_rows(self.grid, self.region.bottom as int, y, self.blank(), self.cols()),
            dirty: uniform(true, self.rows(), self.cols()),
            ..self
        }
    }

    /// `scroll_down` at `y`, `n` times over.
    pub open spec fn scroll_down_by(self, y: int, n: nat) -> Model
        decreases n,
    {
        if n == 0 {
            self
        } else {
            self.scroll_down_by(y, (n - 1) as nat).scroll_down(y)
        }
    }

    /// `scroll_up` at `y`, `n` times over.
    pub open spec fn scroll_up_by(self, y: int, n: nat) -> Model
        decreases n,
    {
        if n == 0 {
            self
        } else {
            self.scroll_up_by(y, (n - 1) as nat).scroll_up(y)
        }
    }

    /// The active screen and the snapshot exchanged: grid, attribute, modes
    /// and cursor, each as it is; everything marked dirty. Nothing else
    /// changes, so a cursor that comes in may stand outside the scrolling
    /// region until the bookkeeping of the dispatch brings it in.
    pub open spec fn switch(self) -> Model {
        Model {
            grid: self.alt.grid,
            cursor: self.alt.cursor,
            attr: self.alt.attr,
            mode: self.alt.mode,
            alt: Saved {
                grid: self.grid,
                cursor: self.cursor,
                attr: self.attr,
                mode: self.mode,
            },
            dirty: uniform(true, self.rows(), self.cols()),
            ..self
        }
    }

    /// A printable character written at the cursor, which then moves one
    /// column on unless it stands past the last column already. A cursor
    /// past the last column writes into the last column.
    pub open spec fn print(self, c: char) -> Model {
        let p = self.cursor.position;
        let at = if p.x < self.cols() {
            p.x as int
        } else {
            self.cols() - 1
        };
        let ch = Character { attr: self.attr, byte: c };
        let written = if self.mode.decim {
            self.insert(p.y as int, at, ch, 1)
        } else {
            self.put(p.y as int, at, ch)
        };
        written.place(
            if p.x < self.cols() {
                p.x + 1
            } else {
                p.x as int
            },
            p.y as int,
        )
    }

    /// A C0 control: tab, line feed (also as VT and FF), carriage return
    /// and backspace move the cursor; the others leave the screen alone.
    pub open spec fn execute(self, byte: u8) -> Model {
        let p = self.cursor.position;
        if byte == 0x09 {
            self.place(next_stop(self.tabs, p.x + 1), p.y as int)
        } else if byte == 0x0a || byte == 0x0b || byte == 0x0c {
            if p.y >= self.region.bottom {
                self.scroll_down(self.region.bottom as int).settle()
            } else {
                self.place(p.x as int, p.y + 1)
            }
        } else if byte == 0x0d {
            self.place(0, p.y as int)
        } else if byte == 0x08 {
            self.place(
                if p.x > 0 {
                    p.x - 1
                } else {
                    0
                },
                p.y as int,
            )
        } else {
            self.settle()
        }
    }

    /// A mode set or reset. Origin mode also sends the cursor home; the
    /// alternate screen is entered or left only where that changes
    /// anything; an unknown code changes nothing.
    pub open spec fn set_mode(self, code: int, on: bool) -> Model {
        if code == 6 {
            (Model { mode: Mode { decom: on, ..self.mode }, ..self }).place(0, 0)
        } else if code == 1049 {
            if self.mode.decalt != on {
                let other = self.switch();
                Model { mode: Mode { decalt: on, ..other.mode }, ..other }
            } else {
                self
            }
        } else {
            Model { mode: flagged(self.mode, code, on), ..self }
        }
    }

    /// The scrolling region set from one-based, inclusive rows, each
    /// brought onto the grid, and the cursor sent home.
    pub open spec fn set_region(self, params: Seq<u16>) -> Model {
        let last = self.rows() - 1;
        let wanted = param(params, 1, self.rows()) - 1;
        let bottom = if wanted < last {
            wanted
        } else {
            last
        };
        let first = param(params, 0, 1) - 1;
        let top = if first < bottom {
            first
        } else {
            bottom
        };
        (Model {
            region: ScrollingRegion { top: top as usize, bottom: bottom as usize },
            scroll_set: params.len() > 0,
            ..self
        }).place(0, 0)
    }

    /// The display erased: from the cursor to the end, from the start to
    /// the cursor, or all of it.
    pub open spec fn erase_display(self, kind: int) -> Model {
        let p = self.cursor.position;
        if kind == 0 {
            self.fill(p.y as int, p.x as int, self.rows(), 0, self.blank())
        } else if kind == 1 {
            self.fill(0, 0, p.y as int, self.upto(), self.blank())
        } else if kind == 2 || kind == 3 {
            self.fill(0, 0, self.rows(), 0, self.blank())
        } else {
            self
        }
    }

    /// The cursor's line erased: from the cursor to the end, from the
    /// start to the cursor, or all of it.
    pub open spec fn erase_line(self, kind: int) -> Model {
        let p = self.cursor.position;
        if kind == 0 {
            self.fill(p.y as int, p.x as int, p.y as int, self.cols(), self.blank())
        } else if kind == 1 {
            self.fill(p.y as int, 0, p.y as int, self.upto(), self.blank())
        } else if kind == 2 {
            self.fill(p.y as int, 0, p.y as int, self.cols(), self.blank())
        } else {
            self
        }
    }

    /// The column just past the cursor, or the width where the cursor
    /// stands past the last column.
    pub open spec fn upto(self) -> int {
        if self.cursor.position.x < self.cols() {
            self.cursor.position.x + 1
        } else {
            self.cols()
        }
    }

    /// The graphic rendition parameters applied from index `at` on.
    pub open spec fn sgr_from(self, params: Seq<u16>, at: int) -> (Model, Outcome) {
        let (attr, request) = sgr(self.attr, self.default, self.palette, params, at);
        (
            Model { attr, ..self },
            match request {
                Some(r) => Outcome::Color(r),
                None => Outcome::Nothing,
            },
        )
    }

    /// The answer to a request for a direct colour: where it was granted,
    /// the colour becomes the foreground or the background.
    pub open spec fn grant(self, request: ColorRequest, granted: bool) -> Model {
        if !granted {
            self
        } else if request.background {
            Model { attr: Attribute { bg: request.raw, ..self.attr }, ..self }
        } else {
            Model { attr: Attribute { fg: request.raw, ..self.attr }, ..self }
        }
    }

    /// Where a sequence that only moves the cursor asks it to go, before
    /// that place is brought onto the grid. `n` is the first parameter, 1
    /// where it is absent or zero.
    pub open spec fn target(self, params: Seq<u16>, c: char) -> (int, int) {
        let x = self.cursor.position.x as int;
        let y = self.cursor.position.y as int;
        let n = param(params, 0, 1);
        let back_y = if n < y {
            y - n
        } else {
            0
        };
        let back_x = if n < x {
            x - n
        } else {
            0
        };
        if c == 'A' {
            (x, back_y)
        } else if c == 'B' || c == 'e' {
            (x, y + n)
        } else if c == 'C' || c == 'a' {
            (x + n, y)
        } else if c == 'D' {
            (back_x, y)
        } else if c == 'E' {
            (0, y + n)
        } else if c == 'F' {
            (0, back_y)
        } else if c == 'G' || c == '`' {
            (n - 1, y)
        } else if c == 'H' || c == 'f' {
            (
                param(params, 1, 1) - 1,
                n - 1 + (if self.mode.decom {
                    self.region.top as int
                } else {
                    0
                }),
            )
        } else if c == 'd' {
            (x, n - 1)
        } else if c == 'Z' {
            (back_tabs(self.tabs, x, n as nat), y)
        } else if c == 'u' {
            (self.cursor.save.x as int, self.cursor.save.y as int)
        } else {
            (x, y)
        }
    }

    /// The sequences that erase: in the display, in the line, or `n`
    /// cells from the cursor on.
    pub open spec fn erase(self, params: Seq<u16>, c: char) -> Model {
        let x = self.cursor.position.x as int;
        let y = self.cursor.position.y as int;
        let n = param(params, 0, 1);
        if c == 'J' {
            self.erase_display(given(params, 0))
        } else if c == 'K' {
            self.erase_line(given(params, 0))
        } else {
            self.fill(
                y,
                x,
                y,
                if x + n < self.cols() {
                    x + n
                } else {
                    self.cols()
                },
                self.blank(),
            )
        }
    }

    /// The sequences that insert and delete lines and cells and that
    /// scroll, each `n` times; the first two also send the cursor to the
    /// first column.
    pub open spec fn shift(self, params: Seq<u16>, c: char) -> Model {
        let x = self.cursor.position.x as int;
        let y = self.cursor.position.y as int;
        let n = param(params, 0, 1);
        if c == 'L' {
            self.scroll_up_by(y, n as nat).place(0, y)
        } else if c == 'M' {
            self.scroll_down_by(y, n as nat).place(0, y)
        } else if c == 'S' {
            self.scroll_up_by(self.region.top as int, n as nat).settle()
        } else if c == 'T' {
            self.scroll_down_by(self.region.bottom as int, n as nat).settle()
        } else if c == 'P' {
            self.delete(y, x, n).settle()
        } else {
            self.insert(y, x, self.blank(), n).settle()
        }
    }

    /// Tab stops cleared: the one at the cursor, or all of them.
    pub open spec fn clear_tabs(self, kind: int) -> Model {
        if kind == 0 {
            Model { tabs: self.tabs.update(self.cursor.position.x as int, false), ..self }
        } else if kind == 3 {
            Model { tabs: Seq::new(self.tabs.len(), |i: int| false), ..self }
        } else {
            self
        }
    }

    /// The cursor's shape chosen: 2 a block, 4 an underline, 6 a line.
    pub open spec fn styled(self, kind: int) -> Model {
        if kind == 2 {
            Model { style: CursorStyle::Block, ..self }
        } else if kind == 4 {
            Model { style: CursorStyle::Underline, ..self }
        } else if kind == 6 {
            Model { style: CursorStyle::Line, ..self }
        } else {
            self
        }
    }

    /// The reply to a status request (`n`) or to a request for the device
    /// attributes (`c`).
    pub open spec fn report(self, kind: int, c: char) -> Outcome {
        let p = self.cursor.position;
        if c == 'n' && kind == 5 {
            Outcome::Write(status_report())
        } else if c == 'n' && kind == 6 {
            Outcome::Write(
                cursor_report(
                    (p.y - (if self.mode.decom {
                        self.region.top as int
                    } else {
                        0
                    }) + 1) as nat,
                    (p.x + 1) as nat,
                ),
            )
        } else if c == 'c' && kind == 0 {
            Outcome::Write(primary_attributes())
        } else if c == 'c' && kind == 14 {
            Outcome::Write(secondary_attributes())
        } else {
            Outcome::Nothing
        }
    }

    /// What a control sequence makes of the screen, and what it asks of
    /// the host.
    pub open spec fn csi(self, params: Seq<u16>, c: char) -> (Model, Outcome) {
        let kind = given(params, 0);
        if moves(c) {
            (self.place(self.target(params, c).0, self.target(params, c).1), Outcome::Nothing)
        } else if c == 'J' || c == 'K' || c == 'X' {
            (self.erase(params, c).settle(), Outcome::Nothing)
        } else if c == 'L' || c == 'M' || c == 'S' || c == 'T' || c == 'P' || c == '@' {
            (self.shift(params, c), Outcome::Nothing)
        } else if c == 'g' {
            (self.clear_tabs(kind).settle(), Outcome::Nothing)
        } else if c == 'm' {
            (self.settle().sgr_from(params, 0).0, self.settle().sgr_from(params, 0).1)
        } else if c == 'n' || c == 'c' {
            (self.settle(), self.report(kind, c))
        } else if c == 's' {
            (
                (Model {
                    cursor: Cursor { save: self.cursor.position, ..self.cursor },
                    ..self
                }).settle(),
                Outcome::Nothing,
            )
        } else if c == 'h' {
            (self.set_mode(kind, true).settle(), Outcome::Nothing)
        } else if c == 'l' {
            (self.set_mode(kind, false).settle(), Outcome::Nothing)
        } else if c == 'q' {
            (self.styled(kind).settle(), Outcome::Nothing)
        } else if c == 'r' {
            (self.set_region(params), Outcome::Nothing)
        } else {
            (self.settle(), Outcome::Nothing)
        }
    }

    /// The screen cleared to the configured colours, with the cursor home.
    pub open spec fn reset(self) -> Model {
        (Model {
            grid: uniform(blank(self.default), self.rows(), self.cols()),
            dirty: uniform(true, self.rows(), self.cols()),
            attr: self.default,
            ..self
        }).place(0, 0)
    }

    /// What an escape sequence without intermediates makes of the screen:
    /// `M` reverse index, which scrolls at the top row of the scrolling
    /// region and else moves up, staying on the first row; `D` index; `E`
    /// next line; `Z` the device attributes; `H` a tab stop at the cursor;
    /// `c` the hard reset. Any other final byte leaves the grid alone.
    pub open spec fn esc_plain(self, byte: u8) -> (Model, Outcome) {
        let x = self.cursor.position.x as int;
        let y = self.cursor.position.y as int;
        if byte == 0x4d {
            if y == self.region.top {
                (self.scroll_up(self.region.top as int).settle(), Outcome::Nothing)
            } else {
                (
                    self.place(
                        x,
                        if y > 0 {
                            y - 1
                        } else {
                            0
                        },
                    ),
                    Outcome::Nothing,
                )
            }
        } else if byte == 0x44 {
            (self.place(x, y + 1), Outcome::Nothing)
        } else if byte == 0x45 {
            (self.place(0, y + 1), Outcome::Nothing)
        } else if byte == 0x5a {
            (self.settle(), Outcome::Write(primary_attributes()))
        } else if byte == 0x48 {
            ((Model { tabs: self.tabs.update(x, true), ..self }).settle(), Outcome::Nothing)
        } else if byte == 0x63 {
            (self.reset(), Outcome::Nothing)
        } else {
            (self.settle(), Outcome::Nothing)
        }
    }

    /// What an escape sequence makes of the screen, and what it asks of
    /// the host. Without intermediates see `esc_plain`; after `#` the final
    /// byte `8` fills the grid with the letter E in the current attribute;
    /// every other sequence, the choice of a character set after `(` among
    /// them, leaves the grid alone.
    pub open spec fn esc(self, intermediates: Seq<u8>, byte: u8) -> (Model, Outcome) {
        if intermediates.len() == 0 {
            self.esc_plain(byte)
        } else if intermediates[0] == 0x23 && byte == 0x38 {
            (
                self.fill(
                    0,
                    0,
                    self.rows(),
                    0,
                    Character { attr: self.attr, byte: 'E' },
                ).settle(),
                Outcome::Nothing,
            )
        } else {
            (self.settle(), Outcome::Nothing)
        }
    }

    /// One cell overwritten. A cell that already holds `ch` is left alone,
    /// and its dirty mark with it.
    pub open spec fn put(self, y: int, x: int, ch: Character) -> Model {
        if self.grid[y][x] == ch {
            self
        } else {
            Model {
                grid: self.grid.update(y, self.grid[y].update(x, ch)),
                dirty: self.dirty.update(y, self.dirty[y].update(x, true)),
                ..self
            }
        }
    }
}

/// What an action of the parser makes of the screen, and what it asks of
/// the host. Operating system commands are taken and dropped.
pub open spec fn apply(model: Model, event: Option<Event>) -> (Model, Outcome) {
    match event {
        None => (model, Outcome::Nothing),
        Some(Event::Print(c)) => (model.print(c), Outcome::Nothing),
        Some(Event::Execute(b)) => (
            model.execute(b),
            if b == 0x07 {
                Outcome::Bell
            } else {
                Outcome::Nothing
            },
        ),
        Some(Event::CsiDispatch(params, _, c)) => model.csi(params, c),
        Some(Event::EscDispatch(intermediates, b)) => model.esc(intermediates, b),
        Some(Event::OscDispatch(_)) => (model, Outcome::Nothing),
    }
}

/// One byte from the shell: through the parser, and its action applied.
pub open spec fn feed(t: (Machine, Model), byte: u8) -> ((Machine, Model), Outcome) {
    let (machine, event) = crate::escape::step(t.0, byte);
    let (model, outcome) = apply(t.1, event);
    ((machine, model), outcome)
}

/// The bytes from index `at` on fed one by one, up to the end or to the
/// first byte whose action asks something of the host: the terminal
/// reached, the index to go on from, and what is asked.
pub open spec fn feed_until(t: (Machine, Model), bytes: Seq<u8>, at: int) -> (
    (Machine, Model),
    int,
    Outcome,
)
    decreases bytes.len() - at,
{
    if at < 0 || at >= bytes.len() {
        (t, bytes.len() as int, Outcome::Nothing)
    } else {
        let (next, outcome) = feed(t, bytes[at]);
        if outcome is Nothing {
            feed_until(next, bytes, at + 1)
        } else {
            (next, at + 1, outcome)
        }
    }
}

} // verus!
