//! What holds of the screen whatever is dispatched.
use crate::escape::{Event, Machine};
use crate::terminal::events::WindowEvent;
use crate::terminal::model::{apply, feed, feed_until, moves, shaped, uniform, Model};
use crate::terminal::{Character, Mode, Window};
use vstd::prelude::*;

verus! {

/// The flag that a mode's code names; `false` for a code that names none.
pub open spec fn flag(mode: Mode, code: int) -> bool {
    if code == 1 {
        mode.decckm
    } else if code == 4 {
        mode.decim
    } else if code == 5 {
        mode.decscnm
    } else if code == 6 {
        mode.decom
    } else if code == 25 {
        mode.dectecm
    } else if code == 1004 {
        mode.decfocus
    } else if code == 2004 {
        mode.decpaste
    } else if code == 1049 {
        mode.decalt
    } else {
        false
    }
}

/// Moving the cursor puts it on the grid, and in origin mode inside the
/// scrolling region.
pub proof fn lemma_place_wf(m: Model, x: int, y: int)
    requires
        m.framed(),
        0 <= x,
        0 <= y,
    ensures
        m.place(x, y).wf(),
{
}

/// Inserting cells keeps the frame.
pub proof fn lemma_insert_framed(m: Model, y: int, x: int, ch: Character, n: int)
    requires
        m.framed(),
        0 <= y < m.rows(),
        0 <= x <= m.cols(),
        0 <= n,
    ensures
        m.insert(y, x, ch, n).framed(),
{
}

/// Deleting cells keeps the frame.
pub proof fn lemma_delete_framed(m: Model, y: int, x: int, n: int)
    requires
        m.framed(),
        0 <= y < m.rows(),
        0 <= x <= m.cols(),
        0 <= n,
    ensures
        m.delete(y, x, n).framed(),
{
}

/// Scrolling keeps the frame.
pub proof fn lemma_scroll_framed(m: Model, y: int)
    requires
        m.framed(),
        0 <= y < m.rows(),
    ensures
        m.scroll_down(y).framed(),
        m.scroll_up(y).framed(),
{
}

/// Scrolling any number of times keeps the frame, the cursor, the modes
/// and the scrolling region.
pub proof fn lemma_scroll_by_framed(m: Model, y: int, n: nat)
    requires
        m.framed(),
        0 <= y < m.rows(),
    ensures
        m.scroll_down_by(y, n).framed(),
        m.scroll_up_by(y, n).framed(),
        m.scroll_down_by(y, n).cursor == m.cursor,
        m.scroll_up_by(y, n).cursor == m.cursor,
        m.scroll_down_by(y, n).mode == m.mode,
        m.scroll_up_by(y, n).mode == m.mode,
        m.scroll_down_by(y, n).region == m.region,
        m.scroll_up_by(y, n).region == m.region,
        m.scroll_down_by(y, n).window == m.window,
        m.scroll_up_by(y, n).window == m.window,
    decreases n,
{
    if n > 0 {
        lemma_scroll_by_framed(m, y, (n - 1) as nat);
        lemma_scroll_framed(m.scroll_down_by(y, (n - 1) as nat), y);
        lemma_scroll_framed(m.scroll_up_by(y, (n - 1) as nat), y);
    }
}

/// Alt-screen involution: exchanging the screens twice gives back the
/// grid, the attribute, the modes and the cursor of the active screen and
/// of the snapshot exactly; of the whole screen only the dirty map, which
/// is all marked, may differ.
pub proof fn lemma_switch_involution(m: Model)
    requires
        m.placed(),
    ensures
        m.switch().placed(),
        m.switch().switch().grid == m.grid,
        m.switch().switch().attr == m.attr,
        m.switch().switch().mode == m.mode,
        m.switch().switch().cursor == m.cursor,
        m.switch().switch().alt == m.alt,
        m.switch().switch() == (Model { dirty: uniform(true, m.rows(), m.cols()), ..m }),
{
}

/// An exchange of the screens changes nothing but the four parts that it
/// exchanges and the dirty map.
pub proof fn lemma_switch_keeps(m: Model)
    ensures
        m.switch().region == m.region,
        m.switch().tabs == m.tabs,
        m.switch().window == m.window,
        m.switch().style == m.style,
        m.switch().selection == m.selection,
        m.switch().dirty == uniform(true, m.rows(), m.cols()),
        m.switch().grid == m.alt.grid,
        m.switch().attr == m.alt.attr,
        m.switch().mode == m.alt.mode,
        m.switch().cursor == m.alt.cursor,
        m.switch().alt.grid == m.grid,
        m.switch().alt.attr == m.attr,
        m.switch().alt.mode == m.mode,
        m.switch().alt.cursor == m.cursor,
{
}

/// Idempotent writes: writing to a cell what it holds changes nothing, so
/// it marks nothing dirty.
pub proof fn lemma_put_same(m: Model, y: int, x: int)
    ensures
        m.put(y, x, m.grid[y][x]) == m,
{
}

/// A cell that a fill leaves as it was keeps its dirty mark as it was.
pub proof fn lemma_fill_same(m: Model, y0: int, x0: int, y1: int, x1: int, ch: Character, i: int, j: int)
    requires
        m.framed(),
        0 <= i < m.rows(),
        0 <= j < m.cols(),
        m.grid[i][j] == ch,
    ensures
        m.fill(y0, x0, y1, x1, ch).grid[i][j] == m.grid[i][j],
        m.fill(y0, x0, y1, x1, ch).dirty[i][j] == m.dirty[i][j],
{
}

/// Scrolling region preservation: `scroll_down` at the top of the region
/// and then `scroll_up` at its bottom leave every other row as it was, and
/// those two rows blank.
pub proof fn lemma_scroll_pair(m: Model)
    requires
        m.wf(),
    ensures
        ({
            let after = m.scroll_down(m.region.top as int).scroll_up(m.region.bottom as int);
            let empty = Seq::new(m.cols() as nat, |j: int| m.blank());
            &&& shaped(after.grid, m.rows(), m.cols())
            &&& after.grid[m.region.top as int] == empty
            &&& after.grid[m.region.bottom as int] == empty
            &&& forall|i: int|
                0 <= i < m.rows() && i != m.region.top && i != m.region.bottom
                    ==> #[trigger] after.grid[i] == m.grid[i]
        }),
{
}

/// Setting a mode and resetting it leaves the flag off; where it was off
/// before, all the modes are as they were.
pub proof fn lemma_mode_toggle(m: Model, code: int)
    requires
        m.wf(),
    ensures
        !flag(m.set_mode(code, true).set_mode(code, false).mode, code),
        !flag(m.mode, code) ==> m.set_mode(code, true).set_mode(code, false).mode == m.mode,
{
    if code == 1049 && !m.mode.decalt {
        lemma_switch_involution(m);
        let entered = m.set_mode(code, true);
        assert(entered.alt.mode == m.mode);
    }
}

/// Printing keeps the screen well formed.
pub proof fn lemma_print_wf(m: Model, c: char)
    requires
        m.wf(),
    ensures
        m.print(c).wf(),
        m.print(c).window == m.window,
{
    let p = m.cursor.position;
    let at = if p.x < m.cols() {
        p.x as int
    } else {
        m.cols() - 1
    };
    lemma_insert_framed(m, p.y as int, at, Character { attr: m.attr, byte: c }, 1);
}

/// A C0 control keeps the screen well formed.
pub proof fn lemma_execute_wf(m: Model, byte: u8)
    requires
        m.wf(),
    ensures
        m.execute(byte).wf(),
        m.execute(byte).window == m.window,
{
    lemma_scroll_framed(m, m.region.bottom as int);
    crate::terminal::dispatch::lemma_next_stop_from(m.tabs, m.cursor.position.x + 1);
}

/// Setting or resetting a mode keeps the screen well formed.
pub proof fn lemma_set_mode_wf(m: Model, code: int, on: bool)
    requires
        m.wf(),
    ensures
        m.set_mode(code, on).settle().wf(),
        m.set_mode(code, on).window == m.window,
{
    lemma_switch_involution(m);
}

/// Going back by tab stops ends at a column from 0 to the start.
pub proof fn lemma_back_tabs_range(tabs: Seq<bool>, x: int, n: nat)
    requires
        0 <= x,
    ensures
        0 <= crate::terminal::model::back_tabs(tabs, x, n) <= x,
    decreases n,
{
    if n > 0 {
        lemma_prev_stop_range(tabs, x);
        lemma_back_tabs_range(tabs, crate::terminal::model::prev_stop(tabs, x), (n - 1) as nat);
    }
}

/// The tab stop before a column is a column from 0 to that one.
pub proof fn lemma_prev_stop_range(tabs: Seq<bool>, x: int)
    requires
        0 <= x,
    ensures
        0 <= crate::terminal::model::prev_stop(tabs, x) <= x,
    decreases x,
{
    if x > 0 && !(x <= tabs.len() && tabs[x - 1]) {
        lemma_prev_stop_range(tabs, x - 1);
    }
}

/// A sequence that only moves the cursor keeps the screen well formed.
pub proof fn lemma_motion_wf(m: Model, params: Seq<u16>, c: char)
    requires
        m.wf(),
    ensures
        m.place(m.target(params, c).0, m.target(params, c).1).wf(),
{
    let x = m.cursor.position.x as int;
    let n = crate::terminal::model::param(params, 0, 1);
    lemma_back_tabs_range(m.tabs, x, n as nat);
    lemma_place_wf(m, m.target(params, c).0, m.target(params, c).1);
}

/// Erasing keeps the screen well formed.
pub proof fn lemma_erase_wf(m: Model, params: Seq<u16>, c: char)
    requires
        m.wf(),
    ensures
        m.erase(params, c).settle().wf(),
        m.erase(params, c).settle().window == m.window,
{
    assert(m.erase(params, c).framed());
    assert(m.erase(params, c).cursor == m.cursor);
}

/// Inserting, deleting and scrolling keep the screen well formed.
#[verifier::rlimit(40)]
pub proof fn lemma_shift_wf(m: Model, params: Seq<u16>, c: char)
    requires
        m.wf(),
    ensures
        m.shift(params, c).wf(),
        m.shift(params, c).window == m.window,
{
    let x = m.cursor.position.x as int;
    let y = m.cursor.position.y as int;
    let n = crate::terminal::model::param(params, 0, 1);
    if c == 'L' || c == 'M' {
        lemma_scroll_by_framed(m, y, n as nat);
    } else if c == 'S' {
        lemma_scroll_by_framed(m, m.region.top as int, n as nat);
    } else if c == 'T' {
        lemma_scroll_by_framed(m, m.region.bottom as int, n as nat);
    } else if c == 'P' {
        lemma_delete_framed(m, y, x, n);
    } else {
        lemma_insert_framed(m, y, x, m.blank(), n);
    }
}

/// Graphic rendition changes the attribute and nothing else.
pub proof fn lemma_sgr_wf(m: Model, params: Seq<u16>, at: int)
    requires
        m.wf(),
    ensures
        m.sgr_from(params, at).0.wf(),
        m.sgr_from(params, at).0.window == m.window,
{
}

/// Setting the scrolling region keeps the screen well formed.
pub proof fn lemma_set_region_wf(m: Model, params: Seq<u16>)
    requires
        m.wf(),
    ensures
        m.set_region(params).wf(),
        m.set_region(params).window == m.window,
{
}

/// Clearing tab stops and choosing the cursor's shape keep the screen well
/// formed.
pub proof fn lemma_setting_wf(m: Model, kind: int)
    requires
        m.wf(),
    ensures
        m.clear_tabs(kind).settle().wf(),
        m.styled(kind).settle().wf(),
{
    assert(m.clear_tabs(kind).framed());
    assert(m.styled(kind).framed());
}

/// Saving the cursor, and the bookkeeping alone, keep the screen well
/// formed.
pub proof fn lemma_saving_wf(m: Model)
    requires
        m.wf(),
    ensures
        (Model {
            cursor: crate::terminal::Cursor { save: m.cursor.position, ..m.cursor },
            ..m
        }).settle().wf(),
        m.settle().wf(),
{
}

/// A control sequence keeps the screen well formed and the window's size as
/// it was.
#[verifier::rlimit(40)]
pub proof fn lemma_csi_wf(m: Model, params: Seq<u16>, c: char)
    requires
        m.wf(),
    ensures
        m.csi(params, c).0.wf(),
        m.csi(params, c).0.window == m.window,
{
    let kind = crate::terminal::model::given(params, 0);
    if moves(c) {
        lemma_motion_wf(m, params, c);
    } else if c == 'J' || c == 'K' || c == 'X' {
        lemma_erase_wf(m, params, c);
    } else if c == 'L' || c == 'M' || c == 'S' || c == 'T' || c == 'P' || c == '@' {
        lemma_shift_wf(m, params, c);
    } else if c == 'm' {
        lemma_saving_wf(m);
        lemma_sgr_wf(m.settle(), params, 0);
    } else if c == 'h' {
        lemma_set_mode_wf(m, kind, true);
    } else if c == 'l' {
        lemma_set_mode_wf(m, kind, false);
    } else if c == 'r' {
        lemma_set_region_wf(m, params);
    } else if c == 'g' || c == 'q' {
        lemma_setting_wf(m, kind);
    } else {
        lemma_saving_wf(m);
    }
}

/// An escape sequence keeps the screen well formed.
pub proof fn lemma_esc_wf(m: Model, intermediates: Seq<u8>, byte: u8)
    requires
        m.wf(),
    ensures
        m.esc(intermediates, byte).0.wf(),
        m.esc(intermediates, byte).0.window == m.window,
{
    lemma_scroll_framed(m, m.region.top as int);
}

/// Cursor bounds: whatever action is dispatched, the screen stays well
/// formed; so the cursor stays on a row of the grid and on a column or
/// just past the last one, and in origin mode inside the scrolling region.
pub proof fn lemma_apply_wf(m: Model, event: Option<Event>)
    requires
        m.wf(),
    ensures
        apply(m, event).0.wf(),
        apply(m, event).0.window == m.window,
        0 <= apply(m, event).0.cursor.position.y < m.rows(),
        0 <= apply(m, event).0.cursor.position.x <= m.cols(),
        apply(m, event).0.mode.decom ==> apply(m, event).0.region.top <= apply(
            m,
            event,
        ).0.cursor.position.y <= apply(m, event).0.region.bottom,
{
    match event {
        None => {},
        Some(Event::Print(c)) => {
            lemma_print_wf(m, c);
        },
        Some(Event::Execute(b)) => {
            lemma_execute_wf(m, b);
        },
        Some(Event::CsiDispatch(params, _, c)) => {
            lemma_csi_wf(m, params, c);
        },
        Some(Event::EscDispatch(intermediates, b)) => {
            lemma_esc_wf(m, intermediates, b);
        },
        Some(Event::OscDispatch(_)) => {},
    }
}

/// What `CSI N h` and `CSI N l` do to the modes is what `set_mode` does.
pub proof fn lemma_csi_modes(m: Model, code: u16, c: char)
    requires
        c == 'h' || c == 'l',
    ensures
        m.csi(seq![code], c).0 == m.set_mode(code as int, c == 'h').settle(),
        m.csi(seq![code], c).0.mode == m.set_mode(code as int, c == 'h').mode,
{
}

/// Setting a mode, the bookkeeping, and resetting the mode leave the flag
/// off; where it was off before, all the modes are as they were.
pub proof fn lemma_settled_toggle(m: Model, code: int)
    requires
        m.wf(),
    ensures
        !flag(m.set_mode(code, true).settle().set_mode(code, false).mode, code),
        !flag(m.mode, code) ==> m.set_mode(code, true).settle().set_mode(code, false).mode
            == m.mode,
{
    if code == 1049 {
        if !m.mode.decalt {
            lemma_switch_involution(m);
            let entered = m.set_mode(code, true);
            assert(entered.alt.mode == m.mode);
            assert(entered.settle().alt.mode == m.mode);
            assert(entered.settle().mode.decalt);
        }
    }
}

/// Mode toggling: `CSI ? N h` and then `CSI ? N l` leave the flag off;
/// where it was off before, all the modes are as they were.
pub proof fn lemma_csi_mode_toggle(m: Model, code: u16)
    requires
        m.wf(),
    ensures
        ({
            let set = m.csi(seq![code], 'h').0;
            let reset = set.csi(seq![code], 'l').0;
            &&& !flag(reset.mode, code as int)
            &&& !flag(m.mode, code as int) ==> reset.mode == m.mode
        }),
{
    let set = m.csi(seq![code], 'h').0;
    lemma_csi_modes(m, code, 'h');
    lemma_csi_modes(set, code, 'l');
    lemma_settled_toggle(m, code as int);
}

/// Totality: whatever bytes the shell sends, the parser stays within its
/// buffers and the screen stays well formed, with its cursor on the grid.
pub proof fn lemma_feed_wf(t: (Machine, Model), byte: u8)
    requires
        t.0.wf(),
        t.1.wf(),
    ensures
        feed(t, byte).0.0.wf(),
        feed(t, byte).0.1.wf(),
{
    crate::escape::lemma_step_wf(t.0, byte);
    lemma_apply_wf(t.1, crate::escape::step(t.0, byte).1);
}

/// The same of any run of bytes, up to the point where the host is asked
/// for something.
pub proof fn lemma_feed_until_wf(t: (Machine, Model), bytes: Seq<u8>, at: int)
    requires
        t.0.wf(),
        t.1.wf(),
    ensures
        feed_until(t, bytes, at).0.0.wf(),
        feed_until(t, bytes, at).0.1.wf(),
        at <= bytes.len() ==> at <= feed_until(t, bytes, at).1 <= bytes.len(),
    decreases bytes.len() - at,
{
    if 0 <= at < bytes.len() {
        lemma_feed_wf(t, bytes[at]);
        lemma_feed_until_wf(feed(t, bytes[at]).0, bytes, at + 1);
    }
}

/// Resizing keeps the screen well formed: the grid, the dirty map and the
/// alternate grid all take the shape that the new window gives.
pub proof fn lemma_resized_wf(m: Model, width: u32, height: u32)
    requires
        m.wf(),
    ensures
        m.resized(width, height).wf(),
        m.resized(width, height).window == (Window { width, height }),
{
}

/// Every event of the window keeps the screen well formed.
pub proof fn lemma_event_wf(m: Model, e: WindowEvent)
    requires
        m.wf(),
    ensures
        m.event(e).0.wf(),
{
    match e {
        WindowEvent::Expose { width, height } => {
            lemma_resized_wf(m, width, height);
        },
        _ => {},
    }
}

/// A frame keeps the screen well formed and changes nothing but the dirty
/// map and the request for a redraw.
pub proof fn lemma_drawn_wf(m: Model)
    requires
        m.wf(),
    ensures
        m.drawn().wf(),
        m.drawn() == (Model { dirty: m.drawn().dirty, refresh: false, ..m }),
{
}

} // verus!
