use termal::color::Color;
use termal::config::Config;
use termal::terminal::events::WindowEvent;
use termal::terminal::input::{arrow, is_cursor_key, is_special_key, special, typed};
use termal::terminal::render::Paint;
use termal::terminal::select::normalize;
use termal::terminal::{Effect, Point, Position, ScrollingRegion, Selection, Terminal, Window};

const UP: u32 = 0xff52;
const DOWN: u32 = 0xff54;
const LEFT: u32 = 0xff51;
const RIGHT: u32 = 0xff53;
const BACKSPACE: u32 = 0xff08;
const F10: u32 = 0xffc7;
const ESCAPE: u32 = 0xff1b;

fn terminal() -> Terminal {
    Terminal::new(Config::standard().ok().unwrap(), Window { width: 800, height: 480 })
}

fn print(term: &mut Terminal, bytes: &[u8]) {
    let mut at = 0;
    while at < bytes.len() {
        at = term.handle_bytes(bytes, at).0;
    }
}

fn written(effect: Effect) -> Vec<u8> {
    match effect {
        Effect::Write(bytes) => bytes,
        other => panic!("{:?}", other),
    }
}

#[test]
fn key_classes() {
    for key in [UP, DOWN, LEFT, RIGHT] {
        assert!(is_cursor_key(key));
    }
    assert!(!is_cursor_key(BACKSPACE) && !is_cursor_key(0x61));
    for key in [UP, BACKSPACE, F10, ESCAPE] {
        assert!(is_special_key(key));
    }
    assert!(!is_special_key(DOWN) && !is_special_key(0x61));
}

#[test]
fn keysyms_are_those_of_the_window_system() {
    assert_eq!(UP, x11::keysym::XK_Up);
    assert!(is_cursor_key(x11::keysym::XK_Down));
    assert!(is_cursor_key(x11::keysym::XK_Left));
    assert!(is_cursor_key(x11::keysym::XK_Right));
    assert!(is_special_key(x11::keysym::XK_BackSpace));
    assert!(is_special_key(x11::keysym::XK_F10));
    assert!(is_special_key(x11::keysym::XK_Escape));
    assert!(!is_special_key(x11::keysym::XK_Tab));
}

#[test]
fn cursor_keys() {
    assert_eq!(arrow(UP, 0, false), b"\x1b[A");
    assert_eq!(arrow(DOWN, 0, false), b"\x1b[B");
    assert_eq!(arrow(LEFT, 0, false), b"\x1b[D");
    assert_eq!(arrow(RIGHT, 0, false), b"\x1b[C");
    assert_eq!(arrow(UP, 0, true), b"\x1bOA");
    assert_eq!(arrow(LEFT, 4, true), b"\x1b[1;5D");
    assert_eq!(arrow(RIGHT, 1, false), b"\x1b[1;2C");
    assert_eq!(arrow(DOWN, u32::MAX, false), b"\x1b[1;4294967296B");
}

#[test]
fn special_keys() {
    assert_eq!(special(BACKSPACE), Some(vec![0x7f]));
    assert_eq!(special(F10), Some(b"\x1b[21~".to_vec()));
    assert_eq!(special(ESCAPE), Some(vec![0x1b]));
    assert_eq!(special(UP), None);
    assert_eq!(special(0x61), None);
}

#[test]
fn key_presses() {
    let mut term = terminal();
    let screen = term.screen();
    assert_eq!(written(screen.handle_key(UP, 0)), b"\x1b[A");
    assert_eq!(written(screen.handle_key(BACKSPACE, 0)), b"\x7f");
    assert!(matches!(screen.handle_key(0x61, 0), Effect::Lookup));
    assert!(matches!(screen.handle_key(0x63, 4), Effect::Lookup));
    assert!(matches!(screen.handle_key(0x76, 5), Effect::Paste));
    assert!(matches!(screen.handle_key(0x63, 5), Effect::Nothing));
    print(&mut term, b"\x1b[?1h");
    assert_eq!(written(term.screen().handle_key(LEFT, 0)), b"\x1bOD");
    assert_eq!(
        written(term.screen().handle_event(WindowEvent::KeyPress { keysym: RIGHT, state: 2 })),
        b"\x1b[1;3C"
    );
}

#[test]
fn typed_text_loses_its_nul_bytes() {
    assert_eq!(typed("a\0b\0\0"), b"ab");
    assert_eq!(typed("\0"), b"");
    assert_eq!(typed("é"), "é".as_bytes());
}

#[test]
fn pasted_text() {
    let mut term = terminal();
    assert_eq!(term.screen().paste("ls -l"), b"ls -l");
    print(&mut term, b"\x1b[?2004h");
    assert_eq!(term.screen().paste("ls -l"), b"\x1b[200~ls -l\x1b[201~");
    assert_eq!(term.screen().paste(""), b"\x1b[200~\x1b[201~");
}

#[test]
fn wheel_and_focus() {
    let mut term = terminal();
    let screen = term.screen();
    screen.draw();
    assert!(!screen.needs_refresh());
    assert_eq!(
        written(screen.handle_event(WindowEvent::ButtonPress { button: 4, x: 1, y: 1 })),
        vec![0x19]
    );
    assert!(screen.needs_refresh());
    assert_eq!(
        written(screen.handle_event(WindowEvent::ButtonPress { button: 5, x: 1, y: 1 })),
        vec![0x05]
    );
    assert!(matches!(
        screen.handle_event(WindowEvent::ButtonPress { button: 2, x: 1, y: 1 }),
        Effect::Nothing
    ));
    assert!(matches!(screen.handle_event(WindowEvent::FocusOut), Effect::Nothing));
    assert!(!screen.is_focused());
    assert!(matches!(screen.handle_event(WindowEvent::FocusIn), Effect::Nothing));
    assert!(screen.is_focused());
    assert!(matches!(screen.handle_event(WindowEvent::Other), Effect::Nothing));
    print(&mut term, b"\x1b[?1004h");
    assert_eq!(written(term.screen().handle_event(WindowEvent::FocusOut)), b"\x1b[O");
    assert_eq!(written(term.screen().handle_event(WindowEvent::FocusIn)), b"\x1b[I");
}

#[test]
fn pointer_selects() {
    let mut term = terminal();
    print(&mut term, b"hello world\r\nsecond line\r\nthird");
    let screen = term.screen();
    screen.handle_event(WindowEvent::MotionNotify { x: 500, y: 300 });
    assert!(!screen.selection().selecting);
    screen.handle_event(WindowEvent::ButtonPress { button: 1, x: 65, y: 5 });
    assert_eq!(
        screen.selection(),
        Selection {
            start: Position { x: 6, y: 0 },
            end: Position { x: 6, y: 0 },
            selecting: true
        }
    );
    assert_eq!(screen.get_selection(), None);
    screen.handle_event(WindowEvent::MotionNotify { x: 119, y: 19 });
    assert_eq!(screen.selection().end, Position { x: 11, y: 0 });
    assert_eq!(screen.get_selection(), Some("world".to_string()));
    match screen.handle_key(0x63, 5) {
        Effect::Copy(text) => assert_eq!(text, "world"),
        other => panic!("{:?}", other),
    }
    screen.handle_event(WindowEvent::MotionNotify { x: 0, y: 0 });
    assert_eq!(screen.get_selection(), Some("hello ".to_string()));
    screen.handle_event(WindowEvent::MotionNotify { x: 60, y: 45 });
    let text = screen.get_selection().unwrap();
    let lines: Vec<&str> = text.split('\n').collect();
    assert_eq!(lines.len(), 4);
    assert_eq!(lines[0].len(), 74);
    assert_eq!(lines[0].trim_end(), "world");
    assert_eq!(lines[1].trim_end(), "second line");
    assert_eq!(lines[1].len(), 80);
    assert_eq!(lines[2], "third ");
    assert_eq!(lines[3], "");
    screen.handle_event(WindowEvent::ButtonRelease { button: 3 });
    assert!(screen.selection().selecting);
    screen.handle_event(WindowEvent::ButtonRelease { button: 1 });
    assert!(!screen.selection().selecting);
    screen.handle_event(WindowEvent::MotionNotify { x: 0, y: 0 });
    assert_eq!(screen.selection().end, Position { x: 6, y: 2 });
}

#[test]
fn pointer_outside_the_window() {
    let mut term = terminal();
    print(&mut term, b"abc");
    let screen = term.screen();
    screen.handle_event(WindowEvent::ButtonPress { button: 1, x: 25, y: 10 });
    screen.handle_event(WindowEvent::MotionNotify { x: -25, y: -1 });
    assert_eq!(screen.selection().end, Position { x: -2, y: -1 });
    assert_eq!(screen.get_selection(), Some("\nab\n".to_string()));
    screen.handle_event(WindowEvent::MotionNotify { x: -9, y: -20 });
    assert_eq!(screen.selection().end, Position { x: 0, y: -2 });
    screen.handle_event(WindowEvent::MotionNotify { x: -5, y: 3 });
    assert_eq!(screen.selection().end, Position { x: 0, y: 0 });
    assert_eq!(screen.get_selection(), Some("ab".to_string()));
    screen.handle_event(WindowEvent::MotionNotify { x: i32::MIN, y: i32::MIN });
    assert_eq!(screen.selection().end, Position { x: -214748364, y: -107374183 });
    screen.handle_event(WindowEvent::MotionNotify { x: 10, y: 485 });
    assert_eq!(screen.get_selection().unwrap().matches('\n').count(), 25);
}

#[test]
fn selection_order_and_cover() {
    let a = Position { x: 5, y: 3 };
    let b = Position { x: 2, y: 1 };
    let sorted = normalize(Selection { start: a, end: b, selecting: true });
    assert_eq!((sorted.start, sorted.end), (b, a));
    let row = normalize(Selection {
        start: Position { x: 9, y: 1 },
        end: Position { x: 4, y: 1 },
        selecting: false,
    });
    assert_eq!((row.start.x, row.end.x), (4, 9));
    let term = terminal();
    let screen = term.display();
    assert!(screen.is_within_selection(1, 4, &row));
    assert!(screen.is_within_selection(1, 8, &row));
    assert!(!screen.is_within_selection(1, 9, &row));
    assert!(!screen.is_within_selection(1, 3, &row));
    assert!(!screen.is_within_selection(0, 5, &row));
    assert!(screen.is_within_selection(1, 2, &sorted));
    assert!(screen.is_within_selection(1, 79, &sorted));
    assert!(!screen.is_within_selection(1, 1, &sorted));
    assert!(screen.is_within_selection(2, 0, &sorted));
    assert!(screen.is_within_selection(3, 5, &sorted));
    assert!(!screen.is_within_selection(3, 6, &sorted));
    assert!(!screen.is_within_selection(4, 0, &sorted));
    let empty = Selection { start: a, end: a, selecting: false };
    assert!(!screen.is_within_selection(3, 5, &empty));
}

#[test]
fn resizing() {
    let mut term = terminal();
    print(&mut term, b"\x1b[24;80HZ\x1b[1;1Habc");
    let screen = term.screen();
    assert!(matches!(
        screen.handle_event(WindowEvent::Expose { width: 800, height: 480 }),
        Effect::Nothing
    ));
    match screen.handle_event(WindowEvent::Expose { width: 405, height: 219 }) {
        Effect::Resize { cols, rows } => assert_eq!((cols, rows), (40, 10)),
        other => panic!("{:?}", other),
    }
    assert_eq!(screen.window(), Window { width: 405, height: 219 });
    assert_eq!(screen.cell(0, 2).unwrap().byte, 'c');
    assert!(screen.cell(9, 39).is_some());
    assert!(screen.cell(10, 0).is_none() && screen.cell(0, 40).is_none());
    assert_eq!(screen.scrolling_region(), ScrollingRegion { top: 0, bottom: 9 });
    assert!(screen.is_dirty(9, 39));
    match screen.handle_event(WindowEvent::Expose { width: 1000, height: 600 }) {
        Effect::Resize { cols, rows } => assert_eq!((cols, rows), (100, 30)),
        other => panic!("{:?}", other),
    }
    assert_eq!(screen.cell(0, 2).unwrap().byte, 'c');
    assert_eq!(screen.cell(23, 79).unwrap().byte, ' ');
    assert_eq!(screen.cell(29, 99).unwrap().byte, ' ');
    assert_eq!(screen.scrolling_region(), ScrollingRegion { top: 0, bottom: 29 });
    // A region that a sequence has set is kept, and cut to the grid.
    print(&mut term, b"\x1b[5;20r\x1b[30;100H");
    let screen = term.screen();
    screen.resize(1000, 300);
    assert_eq!(screen.scrolling_region(), ScrollingRegion { top: 4, bottom: 14 });
    assert_eq!(screen.cursor(), Point { x: 99, y: 14 });
    screen.resize(50, 60);
    assert_eq!(screen.scrolling_region(), ScrollingRegion { top: 2, bottom: 2 });
    assert_eq!(screen.cursor(), Point { x: 5, y: 2 });
    match screen.handle_event(WindowEvent::Expose { width: 700000, height: 1 }) {
        Effect::Resize { cols, rows } => assert_eq!((cols, rows), (65535, 1)),
        other => panic!("{:?}", other),
    }
    assert!(screen.tab_stop(69992) && !screen.tab_stop(69993));
    assert!(screen.cell(0, 69999).is_some());
}

#[test]
fn visibility_marks_everything() {
    let mut term = terminal();
    let screen = term.screen();
    screen.draw();
    assert!(!screen.is_dirty(5, 5));
    screen.handle_event(WindowEvent::VisibilityNotify);
    assert!(screen.is_dirty(5, 5) && screen.is_dirty(23, 79));
    assert!(screen.needs_refresh());
}

#[test]
fn drawing_a_frame() {
    let mut term = terminal();
    print(&mut term, b"\x1b[31mA");
    let fg = Color::new(0xd7, 0xe0, 0xda);
    let bg = Color::new(0x0d, 0x16, 0x17);
    let red = Color::new(0xcc, 0x24, 0x1d);
    let screen = term.screen();
    let ops = screen.draw();
    assert_eq!(ops.len(), 24 * 80 * 2 + 1);
    // The last row comes first.
    assert_eq!(ops[0], Paint::Fill { x: 0, y: 460, width: 10, height: 20, color: bg });
    assert_eq!(ops[1], Paint::Glyph { ch: ' ', x: 0, y: 475, color: fg });
    let first = 23 * 80 * 2;
    assert_eq!(ops[first], Paint::Fill { x: 0, y: 0, width: 10, height: 20, color: bg });
    assert_eq!(ops[first + 1], Paint::Glyph { ch: 'A', x: 0, y: 15, color: red });
    assert_eq!(
        ops[ops.len() - 1],
        Paint::Fill { x: 10, y: 0, width: 10, height: 20, color: fg }
    );
    assert!(!screen.needs_refresh());
    assert!(screen.is_dirty(0, 1));
    assert!(!screen.is_dirty(0, 0));
    // Only the cursor's cell and what changed are painted again.
    print(&mut term, b"B");
    let ops = term.screen().draw();
    assert_eq!(
        ops,
        vec![
            Paint::Fill { x: 10, y: 0, width: 10, height: 20, color: bg },
            Paint::Glyph { ch: 'B', x: 10, y: 15, color: red },
            Paint::Fill { x: 20, y: 0, width: 10, height: 20, color: fg },
        ]
    );
}

#[test]
fn drawing_the_selection_and_the_cursor() {
    let mut term = terminal();
    print(&mut term, b"ab");
    let fg = Color::new(0xd7, 0xe0, 0xda);
    let bg = Color::new(0x0d, 0x16, 0x17);
    let screen = term.screen();
    screen.draw();
    screen.draw();
    screen.handle_event(WindowEvent::ButtonPress { button: 1, x: 15, y: 0 });
    screen.handle_event(WindowEvent::MotionNotify { x: 5, y: 0 });
    screen.handle_event(WindowEvent::FocusOut);
    let ops = screen.draw();
    assert_eq!(
        ops,
        vec![
            Paint::Fill { x: 0, y: 0, width: 10, height: 20, color: fg },
            Paint::Glyph { ch: 'a', x: 0, y: 15, color: bg },
            Paint::Fill { x: 20, y: 0, width: 10, height: 20, color: bg },
            Paint::Glyph { ch: ' ', x: 20, y: 15, color: fg },
            Paint::Outline { x: 20, y: 0, width: 9, height: 19, color: fg },
        ]
    );
    assert!(screen.is_dirty(0, 0));
    print(&mut term, b"\x1b[4 q\x1b[3;1H");
    let ops = term.screen().draw();
    assert_eq!(
        ops[ops.len() - 1],
        Paint::Fill { x: 0, y: 55, width: 10, height: 5, color: fg }
    );
    print(&mut term, b"\x1b[6 q");
    let ops = term.screen().draw();
    assert_eq!(
        ops[ops.len() - 1],
        Paint::Fill { x: 0, y: 40, width: 2, height: 20, color: fg }
    );
    print(&mut term, b"\x1b[?25l");
    let ops = term.screen().draw();
    assert!(ops.iter().all(|op| !matches!(op, Paint::Fill { width: 2, .. })));
}

#[test]
fn redraw_on_request() {
    let mut term = terminal();
    term.screen().draw();
    assert!(!term.display().needs_refresh());
    term.screen().request_redraw();
    assert!(term.display().needs_refresh());
    assert!(!term.display().is_dirty(3, 3));
}

#[test]
fn closing() {
    let mut term = terminal();
    assert!(!term.display().should_close());
    term.screen().close();
    assert!(term.display().should_close());
}
