//! The renderer's driver: what a frame paints, and what it leaves dirty.
use crate::color::Color;
use crate::terminal::model::{cells, shaped, Model};
use crate::terminal::select::{normalize, ordered, within};
use crate::terminal::{
    Character, CursorStyle, Screen, Selection, CELL_HEIGHT, CELL_WIDTH,
};
use vstd::prelude::*;

verus! {

/// One operation of the window system, in pixels.
#[derive(Debug, Clone, Copy, PartialEq, Eq, Structural)]
pub enum Paint {
    /// A filled rectangle.
    Fill { x: u32, y: u32, width: u32, height: u32, color: Color },
    /// The outline of a rectangle.
    Outline { x: u32, y: u32, width: u32, height: u32, color: Color },
    /// A character with its baseline at `y`.
    Glyph { ch: char, x: u32, y: u32, color: Color },
}

/// What a frame paints for one cell: nothing for a clean cell outside the
/// selection; else the background and the character, with the two colours
/// exchanged inside the selection.
pub open spec fn cell_paint(
    grid: Seq<Seq<Character>>,
    dirty: Seq<Seq<bool>>,
    selection: Selection,
    y: int,
    x: int,
) -> Seq<Paint> {
    let ch = grid[y][x];
    let picked = within(selection, y, x);
    if dirty[y][x] || picked {
        seq![
            Paint::Fill {
                x: (x * CELL_WIDTH) as u32,
                y: (y * CELL_HEIGHT) as u32,
                width: CELL_WIDTH,
                height: CELL_HEIGHT,
                color: if picked {
                    ch.attr.fg
                } else {
                    ch.attr.bg
                },
            },
            Paint::Glyph {
                ch: ch.byte,
                x: (x * CELL_WIDTH) as u32,
                y: (y * CELL_HEIGHT + 15) as u32,
                color: if picked {
                    ch.attr.bg
                } else {
                    ch.attr.fg
                },
            },
        ]
    } else {
        Seq::empty()
    }
}

/// What a frame paints for the first `upto` cells of row `y`, left to
/// right.
pub open spec fn row_paint(
    grid: Seq<Seq<Character>>,
    dirty: Seq<Seq<bool>>,
    selection: Selection,
    y: int,
    upto: int,
) -> Seq<Paint>
    decreases upto,
{
    if upto <= 0 {
        Seq::empty()
    } else {
        row_paint(grid, dirty, selection, y, upto - 1) + cell_paint(
            grid,
            dirty,
            selection,
            y,
            upto - 1,
        )
    }
}

/// Whether row `y` starts inside a window `height` pixels high.
pub open spec fn visible(y: int, height: u32) -> bool {
    y * CELL_HEIGHT < height
}

/// What a frame paints for the rows from `from` on, the last row first.
pub open spec fn rows_paint(
    grid: Seq<Seq<Character>>,
    dirty: Seq<Seq<bool>>,
    selection: Selection,
    height: u32,
    from: int,
) -> Seq<Paint>
    decreases grid.len() - from,
{
    if from < 0 || from >= grid.len() {
        Seq::empty()
    } else {
        rows_paint(grid, dirty, selection, height, from + 1) + (if visible(from, height) {
            row_paint(grid, dirty, selection, from, grid[from].len() as int)
        } else {
            Seq::empty()
        })
    }
}

/// The dirty map that a frame leaves: in the rows it painted, exactly the
/// selected cells, so that they are painted again once the selection has
/// moved away.
pub open spec fn swept(dirty: Seq<Seq<bool>>, selection: Selection, height: u32) -> Seq<Seq<bool>> {
    Seq::new(
        dirty.len(),
        |i: int|
            Seq::new(
                dirty[i].len(),
                |j: int|
                    if visible(i, height) {
                        within(selection, i, j)
                    } else {
                        dirty[i][j]
                    },
            ),
    )
}

impl Model {
    /// What a frame paints for the cursor: nothing where it is hidden; the
    /// outline of its cell for a block in a window without focus; else a
    /// block, a line two pixels wide or an underline five pixels high, in
    /// the configured foreground.
    pub open spec fn cursor_paint(self) -> Seq<Paint> {
        let x = (self.cursor.position.x * CELL_WIDTH) as u32;
        let y = (self.cursor.position.y * CELL_HEIGHT) as u32;
        if !self.mode.dectecm {
            Seq::empty()
        } else if !self.focused && self.style == CursorStyle::Block {
            seq![
                Paint::Outline {
                    x,
                    y,
                    width: (CELL_WIDTH - 1) as u32,
                    height: (CELL_HEIGHT - 1) as u32,
                    color: self.default.fg,
                },
            ]
        } else {
            seq![
                Paint::Fill {
                    x,
                    y: if self.style == CursorStyle::Underline {
                        (y + 15) as u32
                    } else {
                        y
                    },
                    width: if self.style == CursorStyle::Line {
                        2
                    } else {
                        CELL_WIDTH
                    },
                    height: if self.style == CursorStyle::Underline {
                        5
                    } else {
                        CELL_HEIGHT
                    },
                    color: self.default.fg,
                },
            ]
        }
    }

    /// Everything that a frame paints, in order: the cells, then the
    /// cursor.
    pub open spec fn painted(self) -> Seq<Paint> {
        rows_paint(self.grid, self.dirty, ordered(self.selection), self.window.height, 0)
            + self.cursor_paint()
    }

    /// The screen after a frame: the dirty map swept, the cursor's cell
    /// marked so that the cursor is painted over once it has moved, and no
    /// redraw asked for.
    pub open spec fn drawn(self) -> Model {
        let p = self.cursor.position;
        let marks = swept(self.dirty, ordered(self.selection), self.window.height);
        Model {
            dirty: if p.x < self.cols() {
                marks.update(p.y as int, marks[p.y as int].update(p.x as int, true))
            } else {
                marks
            },
            refresh: false,
            ..self
        }
    }
}

/// Paints the cells that need it and sweeps the dirty map.
pub fn paint_cells(
    buf: &Vec<Vec<Character>>,
    dirty: &mut Vec<Vec<bool>>,
    selection: Selection,
    height: u32,
) -> (ops: Vec<Paint>)
    requires
        buf.len() > 0,
        buf.len() <= u32::MAX / 20,
        buf[0].len() <= u32::MAX / 10,
        shaped(cells(buf@), buf.len() as int, buf[0].len() as int),
        shaped(cells(old(dirty)@), buf.len() as int, buf[0].len() as int),
    ensures
        ops@ == rows_paint(cells(buf@), cells(old(dirty)@), selection, height, 0),
        cells(final(dirty)@) == swept(cells(old(dirty)@), selection, height),
{
    let ghost grid = cells(buf@);
    let ghost marks = cells(dirty@);
    let rows: usize = buf.len();
    assert(grid[0] == buf[0]@);
    let cols: usize = buf[0].len();
    assert forall|r: int| 0 <= r < rows implies (#[trigger] buf[r]).len() == cols by {
        assert(grid[r] == buf[r]@);
    }
    assert forall|r: int| 0 <= r < rows implies (#[trigger] dirty[r]).len() == cols by {
        assert(marks[r] == dirty[r]@);
    }
    let mut ops: Vec<Paint> = Vec::new();
    let mut y: usize = rows;
    while y > 0
        invariant
            y <= rows,
            rows == buf.len(),
            rows == grid.len(),
            rows <= u32::MAX / 20,
            cols <= u32::MAX / 10,
            grid == cells(buf@),
            dirty.len() == rows,
            shaped(grid, rows as int, cols as int),
            shaped(marks, rows as int, cols as int),
            forall|r: int| 0 <= r < rows ==> (#[trigger] buf[r]).len() == cols,
            forall|r: int| 0 <= r < rows ==> (#[trigger] dirty[r]).len() == cols,
            ops@ == rows_paint(grid, marks, selection, height, y as int),
            forall|r: int, c: int|
                0 <= r < rows && 0 <= c < cols ==> (#[trigger] dirty[r][c]) == (if r >= y
                    && visible(r, height) {
                    within(selection, r, c)
                } else {
                    marks[r][c]
                }),
        decreases y,
    {
        y -= 1;
        let ghost done = ops@;
        if (y as u32) * CELL_HEIGHT < height {
            let mut x: usize = 0;
            while x < cols
                invariant
                    x <= cols,
                    y < rows,
                    rows == buf.len(),
                    rows == grid.len(),
                    rows <= u32::MAX / 20,
                    cols <= u32::MAX / 10,
                    grid == cells(buf@),
                    dirty.len() == rows,
                    visible(y as int, height),
                    shaped(grid, rows as int, cols as int),
                    shaped(marks, rows as int, cols as int),
                    forall|r: int| 0 <= r < rows ==> (#[trigger] buf[r]).len() == cols,
                    forall|r: int| 0 <= r < rows ==> (#[trigger] dirty[r]).len() == cols,
                    ops@ == done + row_paint(grid, marks, selection, y as int, x as int),
                    forall|r: int, c: int|
                        0 <= r < rows && 0 <= c < cols ==> (#[trigger] dirty[r][c]) == (if (r > y
                            || (r == y && c < x)) && visible(r, height) {
                            within(selection, r, c)
                        } else {
                            marks[r][c]
                        }),
                decreases cols - x,
            {
                let picked: bool = is_within(y, x, &selection);
                let ghost so_far = ops@;
                assert(grid[y as int] == buf[y as int]@);
                if dirty[y][x] || picked {
                    dirty[y][x] = picked;
                    let ch: Character = buf[y][x];
                    ops.push(
                        Paint::Fill {
                            x: x as u32 * CELL_WIDTH,
                            y: y as u32 * CELL_HEIGHT,
                            width: CELL_WIDTH,
                            height: CELL_HEIGHT,
                            color: if picked {
                                ch.attr.fg
                            } else {
                                ch.attr.bg
                            },
                        },
                    );
                    ops.push(
                        Paint::Glyph {
                            ch: ch.byte,
                            x: x as u32 * CELL_WIDTH,
                            y: y as u32 * CELL_HEIGHT + 15,
                            color: if picked {
                                ch.attr.bg
                            } else {
                                ch.attr.fg
                            },
                        },
                    );
                }
                assert(ops@ =~= so_far + cell_paint(grid, marks, selection, y as int, x as int));
                x += 1;
                assert(ops@ =~= done + row_paint(grid, marks, selection, y as int, x as int));
            }
            assert(grid[y as int].len() == cols);
        } else {
            assert(ops@ =~= done + Seq::<Paint>::empty());
        }
    }
    assert(cells(dirty@) =~~= swept(marks, selection, height));
    ops
}

/// Whether the cell in row `y` and column `x` lies within `selection`.
pub fn is_within(y: usize, x: usize, selection: &Selection) -> (yes: bool)
    ensures
        yes == within(*selection, y as int, x as int),
{
    let start = selection.start;
    let end = selection.end;
    if start.x == end.x && start.y == end.y {
        false
    } else if y > i32::MAX as usize {
        false
    } else if x > i32::MAX as usize {
        if start.y == end.y && y as i32 == start.y {
            false
        } else if y as i32 == start.y {
            true
        } else if y as i32 == end.y {
            false
        } else {
            y as i32 > start.y && (y as i32) < end.y
        }
    } else if start.y == end.y && y as i32 == start.y {
        x as i32 >= start.x && (x as i32) < end.x
    } else if y as i32 == start.y {
        x as i32 >= start.x
    } else if y as i32 == end.y {
        x as i32 <= end.x
    } else {
        y as i32 > start.y && (y as i32) < end.y
    }
}

impl Screen {
    /// What the cursor adds to a frame.
    pub fn draw_cursor(&self) -> (ops: Vec<Paint>)
        requires
            self@.wf(),
        ensures
            ops@ == self@.cursor_paint(),
    {
        proof {
            self.lemma_buffers();
        }
        let mut ops: Vec<Paint> = Vec::new();
        let x: u32 = self.cursor.position.x as u32 * CELL_WIDTH;
        let y: u32 = self.cursor.position.y as u32 * CELL_HEIGHT;
        let color = self.config.fg;
        if self.mode.dectecm {
            if !self.focused && self.cursor_style == CursorStyle::Block {
                ops.push(
                    Paint::Outline { x, y, width: CELL_WIDTH - 1, height: CELL_HEIGHT - 1, color },
                );
            } else {
                let top: u32 = if self.cursor_style == CursorStyle::Underline {
                    y + 15
                } else {
                    y
                };
                let width: u32 = if self.cursor_style == CursorStyle::Line {
                    2
                } else {
                    CELL_WIDTH
                };
                let height: u32 = if self.cursor_style == CursorStyle::Underline {
                    5
                } else {
                    CELL_HEIGHT
                };
                ops.push(Paint::Fill { x, y: top, width, height, color });
            }
        }
        assert(ops@ =~= self@.cursor_paint());
        ops
    }

    /// Paints the cells that need it and sweeps the dirty map.
    pub fn sweep(&mut self) -> (ops: Vec<Paint>)
        requires
            old(self)@.wf(),
        ensures
            ops@ == rows_paint(
                old(self)@.grid,
                old(self)@.dirty,
                ordered(old(self)@.selection),
                old(self)@.window.height,
                0,
            ),
            final(self)@ == (Model {
                dirty: swept(
                    old(self)@.dirty,
                    ordered(old(self)@.selection),
                    old(self)@.window.height,
                ),
                ..old(self)@
            }),
            final(self)@.wf(),
    {
        proof {
            self.lemma_buffers();
        }
        let selection = normalize(self.selection);
        paint_cells(&self.buf, &mut self.dirty, selection, self.window.height)
    }

    /// Marks the cursor's cell dirty and notes that the frame is done.
    pub fn mark_cursor(&mut self)
        requires
            old(self)@.wf(),
        ensures
            final(self)@ == (Model {
                dirty: if old(self)@.cursor.position.x < old(self)@.cols() {
                    old(self)@.dirty.update(
                        old(self)@.cursor.position.y as int,
                        old(self)@.dirty[old(self)@.cursor.position.y as int].update(
                            old(self)@.cursor.position.x as int,
                            true,
                        ),
                    )
                } else {
                    old(self)@.dirty
                },
                refresh: false,
                ..old(self)@
            }),
            final(self)@.wf(),
    {
        proof {
            self.lemma_buffers();
        }
        let x: usize = self.cursor.position.x;
        let y: usize = self.cursor.position.y;
        let cols: usize = self.buf[0].len();
        self.refresh = false;
        if x < cols {
            assert(self@.dirty[y as int] == self.dirty[y as int]@);
            self.dirty[y][x] = true;
            assert(self@.dirty =~~= old(self)@.dirty.update(
                y as int,
                old(self)@.dirty[y as int].update(x as int, true),
            ));
        }
    }

    /// Paints a frame: every cell that is dirty or selected, then the
    /// cursor. The host carries the operations out in order and then shows
    /// the back buffer.
    pub fn draw(&mut self) -> (ops: Vec<Paint>)
        requires
            old(self)@.wf(),
        ensures
            ops@ == old(self)@.painted(),
            final(self)@ == old(self)@.drawn(),
            final(self)@.wf(),
    {
        let mut ops = self.sweep();
        let mut cursor = self.draw_cursor();
        ops.append(&mut cursor);
        self.mark_cursor();
        ops
    }
}

} // verus!
