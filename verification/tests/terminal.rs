use termal::color::Color;
use termal::config::Config;
use termal::terminal::{
    Attribute, Character, CursorStyle, Effect, Point, ScrollingRegion, Terminal, Window,
};

fn config() -> Config {
    Config::standard().ok().unwrap()
}

fn terminal() -> Terminal {
    Terminal::new(config(), Window { width: 800, height: 480 })
}

fn default_attr() -> Attribute {
    Attribute { fg: Color::new(0xd7, 0xe0, 0xda), bg: Color::new(0x0d, 0x16, 0x17) }
}

fn blank() -> Character {
    Character { attr: default_attr(), byte: ' ' }
}

/// Feeds the bytes as a host would that grants every colour, and gathers
/// what goes back to the shell.
fn feed_with(term: &mut Terminal, bytes: &[u8], grant: bool) -> Vec<u8> {
    let mut out = Vec::new();
    let mut at = 0;
    loop {
        let (next, first) = term.handle_bytes(bytes, at);
        at = next;
        let mut effect = first;
        loop {
            match effect {
                Effect::Write(reply) => {
                    out.extend(reply);
                    break;
                }
                Effect::Color(request) => {
                    effect = term.resume(&request, grant);
                }
                _ => break,
            }
        }
        if at >= bytes.len() {
            break;
        }
    }
    out
}

fn feed(term: &mut Terminal, bytes: &[u8]) -> Vec<u8> {
    feed_with(term, bytes, true)
}

fn row_text(term: &Terminal, y: usize) -> String {
    let mut text = String::new();
    let mut x = 0;
    while let Some(cell) = term.display().cell(y, x) {
        text.push(cell.byte);
        x += 1;
    }
    text.trim_end().to_string()
}

fn cursor(term: &Terminal) -> (usize, usize) {
    let p = term.display().cursor();
    (p.y, p.x)
}

#[test]
fn new_terminal_is_blank() {
    let term = terminal();
    let screen = term.display();
    assert_eq!(screen.cell(0, 0), Some(blank()));
    assert_eq!(screen.cell(23, 79), Some(blank()));
    assert_eq!(screen.cell(24, 0), None);
    assert_eq!(screen.cell(0, 80), None);
    assert_eq!(screen.cursor(), Point { x: 0, y: 0 });
    assert_eq!(screen.scrolling_region(), ScrollingRegion { top: 0, bottom: 23 });
    assert!(screen.is_dirty(3, 3));
    assert!(screen.needs_refresh());
    assert!(screen.tab_stop(0) && screen.tab_stop(8) && !screen.tab_stop(9));
    assert!(screen.tab_stop(392) && !screen.tab_stop(400));
    assert!(screen.mode().dectecm && !screen.mode().decalt);
    assert_eq!(screen.cursor_style(), CursorStyle::Block);
}

#[test]
fn tiny_window_has_one_cell() {
    let term = Terminal::new(config(), Window { width: 3, height: 0 });
    assert!(term.display().cell(0, 0).is_some());
    assert!(term.display().cell(1, 0).is_none());
    assert!(term.display().cell(0, 1).is_none());
}

#[test]
fn color_and_print() {
    let mut term = terminal();
    feed(&mut term, b"\x1b[31;1mA\x1b[0mB");
    let a = term.display().cell(0, 0).unwrap();
    assert_eq!(a.byte, 'A');
    assert_eq!(a.attr.fg, Color::new(0xcc, 0x24, 0x1d));
    assert_eq!(a.attr.bg, default_attr().bg);
    let b = term.display().cell(0, 1).unwrap();
    assert_eq!(b.byte, 'B');
    assert_eq!(b.attr, default_attr());
    assert_eq!(cursor(&term), (0, 2));
}

#[test]
fn cursor_position_and_report() {
    let mut term = terminal();
    let reply = feed(&mut term, b"\x1b[12;40H\x1b[6n");
    assert_eq!(reply, b"\x1b[12;40R");
    assert_eq!(cursor(&term), (11, 39));
}

#[test]
fn erase_whole_display() {
    let mut term = terminal();
    feed(&mut term, b"hello\n");
    assert_eq!(row_text(&term, 0), "hello");
    assert_eq!(cursor(&term), (1, 5));
    feed(&mut term, b"\x1b[2J");
    for y in 0..24 {
        for x in 0..80 {
            assert_eq!(term.display().cell(y, x), Some(blank()));
        }
    }
    assert_eq!(cursor(&term), (1, 5));
}

fn numbered(term: &mut Terminal) {
    for y in 0..24 {
        feed(term, format!("\x1b[{};1Hrow{}", y + 1, y).as_bytes());
    }
}

#[test]
fn insert_lines() {
    let mut term = terminal();
    numbered(&mut term);
    feed(&mut term, b"\x1b[6;4H\x1b[2L");
    assert_eq!(row_text(&term, 4), "row4");
    assert_eq!(row_text(&term, 5), "");
    assert_eq!(row_text(&term, 6), "");
    assert_eq!(row_text(&term, 7), "row5");
    assert_eq!(row_text(&term, 23), "row21");
    assert_eq!(cursor(&term), (5, 0));
}

#[test]
fn delete_lines_takes_from_the_top_of_the_region() {
    let mut term = terminal();
    numbered(&mut term);
    feed(&mut term, b"\x1b[6;4H\x1b[M");
    assert_eq!(row_text(&term, 0), "row1");
    assert_eq!(row_text(&term, 4), "row5");
    assert_eq!(row_text(&term, 5), "");
    assert_eq!(row_text(&term, 6), "row6");
    assert_eq!(cursor(&term), (5, 0));
}

#[test]
fn alternate_screen() {
    let mut term = terminal();
    feed(&mut term, b"primary");
    feed(&mut term, b"\x1b[?1049h");
    assert!(term.display().mode().decalt);
    assert_eq!(row_text(&term, 0), "");
    feed(&mut term, b"X");
    assert_eq!(row_text(&term, 0), "X");
    feed(&mut term, b"\x1b[?1049l");
    assert!(!term.display().mode().decalt);
    assert_eq!(row_text(&term, 0), "primary");
    assert_eq!(cursor(&term), (0, 7));
    for y in 1..24 {
        assert_eq!(row_text(&term, y), "");
    }
    // Entering again shows the X that was left there.
    feed(&mut term, b"\x1b[?1049h\x1b[?1049h");
    assert_eq!(row_text(&term, 0), "X");
}

#[test]
fn direct_color() {
    let mut term = terminal();
    feed(&mut term, b"\x1b[38;2;10;20;30mZ");
    let z = term.display().cell(0, 0).unwrap();
    assert_eq!(z.byte, 'Z');
    assert_eq!(z.attr.fg, Color::new(10, 20, 30));
    assert_eq!(z.attr.bg, default_attr().bg);
    // What follows the colour is read as a parameter of its own.
    let mut term = terminal();
    feed(&mut term, b"\x1b[38;2;10;20;30;1mZ");
    assert_eq!(term.display().cell(0, 0).unwrap().attr.fg, Color::new(10, 20, 30));
    let mut term = terminal();
    feed(&mut term, b"\x1b[48;2;1;2;3;31mZ");
    let z = term.display().cell(0, 0).unwrap();
    assert_eq!(z.attr.bg, Color::new(1, 2, 3));
    assert_eq!(z.attr.fg, Color::new(0xcc, 0x24, 0x1d));
}

#[test]
fn direct_color_request_names_the_colour() {
    let mut term = terminal();
    let (next, effect) = term.handle_bytes(b"\x1b[1;48;2;7;8;9;4m", 0);
    assert_eq!(next, 17);
    match effect {
        Effect::Color(request) => {
            assert_eq!(request.raw, Color::new(7, 8, 9));
            assert!(request.background);
            assert_eq!(request.next, 6);
        }
        other => panic!("{:?}", other),
    }
    let (_, effect) = term.handle_bytes(b"\x1b[38m", 0);
    match effect {
        Effect::Color(request) => {
            assert_eq!(request.raw, Color::new(0, 0, 0));
            assert!(!request.background);
            assert_eq!(request.next, 1);
        }
        other => panic!("{:?}", other),
    }
}

#[test]
fn refused_color_leaves_the_attribute() {
    let mut term = terminal();
    feed_with(&mut term, b"\x1b[32;38;2;10;20;30;44mZ", false);
    let z = term.display().cell(0, 0).unwrap();
    assert_eq!(z.attr.fg, Color::new(0x98, 0x97, 0x1a));
    assert_eq!(z.attr.bg, Color::new(0x45, 0x85, 0x88));
}

#[test]
fn palette_form_of_color_is_passed_over() {
    let mut term = terminal();
    feed(&mut term, b"\x1b[38;5mZ");
    assert_eq!(term.display().cell(0, 0).unwrap().attr, default_attr());
}

#[test]
fn graphic_rendition() {
    let mut term = terminal();
    feed(&mut term, b"\x1b[7m");
    assert_eq!(
        term.display().attribute(),
        Attribute { fg: default_attr().bg, bg: default_attr().fg }
    );
    feed(&mut term, b"\x1b[27m");
    assert_eq!(term.display().attribute(), default_attr());
    feed(&mut term, b"\x1b[97;100m");
    assert_eq!(
        term.display().attribute(),
        Attribute { fg: Color::new(0xeb, 0xdb, 0xb2), bg: Color::new(0x28, 0x28, 0x28) }
    );
    feed(&mut term, b"\x1b[39m");
    assert_eq!(term.display().attribute().fg, default_attr().fg);
    assert_eq!(term.display().attribute().bg, Color::new(0x28, 0x28, 0x28));
    feed(&mut term, b"\x1b[37;49m");
    assert_eq!(
        term.display().attribute(),
        Attribute { fg: Color::new(0xeb, 0xdb, 0xb2), bg: default_attr().bg }
    );
    feed(&mut term, b"\x1b[22;3;1;55m");
    assert_eq!(term.display().attribute().fg, Color::new(0xeb, 0xdb, 0xb2));
    feed(&mut term, b"\x1b[m");
    assert_eq!(term.display().attribute(), default_attr());
}

#[test]
fn missing_palette_entry_leaves_the_attribute() {
    let mut short = config();
    short.colors.truncate(2);
    let mut term = Terminal::new(short, Window { width: 800, height: 480 });
    feed(&mut term, b"\x1b[31;42m");
    assert_eq!(term.display().attribute().fg, Color::new(0xcc, 0x24, 0x1d));
    assert_eq!(term.display().attribute().bg, default_attr().bg);
}

#[test]
fn cursor_motion() {
    let mut term = terminal();
    feed(&mut term, b"\x1b[5;10H");
    assert_eq!(cursor(&term), (4, 9));
    feed(&mut term, b"\x1b[2A");
    assert_eq!(cursor(&term), (2, 9));
    feed(&mut term, b"\x1b[B\x1b[0e");
    assert_eq!(cursor(&term), (4, 9));
    feed(&mut term, b"\x1b[3C\x1b[a");
    assert_eq!(cursor(&term), (4, 13));
    feed(&mut term, b"\x1b[4D");
    assert_eq!(cursor(&term), (4, 9));
    feed(&mut term, b"\x1b[2E");
    assert_eq!(cursor(&term), (6, 0));
    feed(&mut term, b"\x1b[7G\x1b[3F");
    assert_eq!(cursor(&term), (3, 0));
    feed(&mut term, b"\x1b[21`\x1b[9d");
    assert_eq!(cursor(&term), (8, 20));
    feed(&mut term, b"\x1b[f");
    assert_eq!(cursor(&term), (0, 0));
    feed(&mut term, b"\x1b[;7f");
    assert_eq!(cursor(&term), (0, 6));
}

#[test]
fn cursor_stays_on_the_grid() {
    let mut term = terminal();
    for sequence in [
        &b"\x1b[65535B"[..],
        b"\x1b[65535C",
        b"\x1b[65535;65535H",
        b"\x1b[65535A",
        b"\x1b[65535D",
        b"\x1b[65535E",
        b"\x1b[65535G",
        b"\x1b[65535d",
        b"\x1b[65535F",
        b"\x1bD\x1bD\x1bE",
        b"\x1b[99;1H\x1bD",
        b"\x1b[65535L",
        b"\x1b[65535Z",
        b"\t\t\t\t\t\t\t\t\t\t\t\t\t\t\t\t\t\t\t\t",
        b"\x1b[24;80HABCDEFG",
        b"\n\n\n\n\n\n\n\n\n\n\n\n\n\n\n\n\n\n\n\n\n\n\n\n\n\n\n\n\n",
        b"\x1b[s\x1b[u",
        b"\x1b[5;10r\x1b[?6h\x1b[65535B\x1b[65535A",
    ] {
        feed(&mut term, sequence);
        let (y, x) = cursor(&term);
        assert!(y < 24 && x <= 80, "{:?}", sequence);
    }
    assert_eq!(cursor(&term), (4, 0));
}

#[test]
fn printing_at_the_right_edge() {
    let mut term = terminal();
    feed(&mut term, b"\x1b[1;79HAB");
    assert_eq!(cursor(&term), (0, 80));
    assert_eq!(term.display().cell(0, 78).unwrap().byte, 'A');
    assert_eq!(term.display().cell(0, 79).unwrap().byte, 'B');
    feed(&mut term, b"C");
    assert_eq!(cursor(&term), (0, 80));
    assert_eq!(term.display().cell(0, 79).unwrap().byte, 'C');
    assert_eq!(term.display().cell(1, 0).unwrap().byte, ' ');
}

#[test]
fn controls() {
    let mut term = terminal();
    feed(&mut term, b"ab\x08");
    assert_eq!(cursor(&term), (0, 1));
    feed(&mut term, b"\x08\x08");
    assert_eq!(cursor(&term), (0, 0));
    feed(&mut term, b"\t");
    assert_eq!(cursor(&term), (0, 8));
    feed(&mut term, b"x\t");
    assert_eq!(cursor(&term), (0, 16));
    feed(&mut term, b"\x0b\x0c\r");
    assert_eq!(cursor(&term), (2, 0));
    feed(&mut term, b"\x1b[1;78H\t");
    assert_eq!(cursor(&term), (0, 80));
    let mut term = terminal();
    let (_, effect) = term.handle_bytes(b"\x07", 0);
    assert!(matches!(effect, Effect::Bell));
    let (_, effect) = term.handle_bytes(b"\x01", 0);
    assert!(matches!(effect, Effect::Nothing));
}

#[test]
fn line_feed_at_the_bottom_scrolls() {
    let mut term = terminal();
    numbered(&mut term);
    feed(&mut term, b"\x1b[24;3H\n");
    assert_eq!(cursor(&term), (23, 2));
    assert_eq!(row_text(&term, 0), "row1");
    assert_eq!(row_text(&term, 22), "row23");
    assert_eq!(row_text(&term, 23), "");
}

#[test]
fn scrolling_region_and_origin_mode() {
    let mut term = terminal();
    numbered(&mut term);
    feed(&mut term, b"\x1b[5;10r");
    assert_eq!(term.display().scrolling_region(), ScrollingRegion { top: 4, bottom: 9 });
    assert!(term.display().scroll_is_set());
    assert_eq!(cursor(&term), (0, 0));
    feed(&mut term, b"\x1b[10;1H\n");
    assert_eq!(row_text(&term, 3), "row3");
    assert_eq!(row_text(&term, 4), "row5");
    assert_eq!(row_text(&term, 8), "row9");
    assert_eq!(row_text(&term, 9), "");
    assert_eq!(row_text(&term, 10), "row10");
    feed(&mut term, b"\x1b[?6h");
    assert_eq!(cursor(&term), (4, 0));
    feed(&mut term, b"\x1b[2;3H");
    assert_eq!(cursor(&term), (5, 2));
    assert_eq!(feed(&mut term, b"\x1b[6n"), b"\x1b[2;3R");
    feed(&mut term, b"\x1b[99;1H");
    assert_eq!(cursor(&term), (9, 0));
    feed(&mut term, b"\x1b[?6l");
    assert_eq!(cursor(&term), (0, 0));
    assert!(!term.display().mode().decom);
    // Rows outside the grid and a top below the bottom are brought in.
    feed(&mut term, b"\x1b[30;99r");
    assert_eq!(term.display().scrolling_region(), ScrollingRegion { top: 23, bottom: 23 });
    feed(&mut term, b"\x1b[9;3r");
    assert_eq!(term.display().scrolling_region(), ScrollingRegion { top: 2, bottom: 2 });
    feed(&mut term, b"\x1b[r");
    assert_eq!(term.display().scrolling_region(), ScrollingRegion { top: 0, bottom: 23 });
}

#[test]
fn scroll_up_and_down_sequences() {
    let mut term = terminal();
    numbered(&mut term);
    feed(&mut term, b"\x1b[2S");
    assert_eq!(row_text(&term, 0), "");
    assert_eq!(row_text(&term, 1), "");
    assert_eq!(row_text(&term, 2), "row0");
    assert_eq!(row_text(&term, 23), "row21");
    feed(&mut term, b"\x1b[T");
    assert_eq!(row_text(&term, 0), "");
    assert_eq!(row_text(&term, 1), "row0");
    assert_eq!(row_text(&term, 22), "row21");
    assert_eq!(row_text(&term, 23), "");
}

#[test]
fn erase_in_display_and_line() {
    let mut term = terminal();
    numbered(&mut term);
    feed(&mut term, b"\x1b[3;3H\x1b[J");
    assert_eq!(row_text(&term, 1), "row1");
    assert_eq!(row_text(&term, 2), "ro");
    assert_eq!(row_text(&term, 3), "");
    assert_eq!(row_text(&term, 23), "");
    let mut term = terminal();
    numbered(&mut term);
    feed(&mut term, b"\x1b[3;3H\x1b[1J");
    assert_eq!(row_text(&term, 0), "");
    assert_eq!(row_text(&term, 1), "");
    assert_eq!(term.display().cell(2, 2).unwrap().byte, ' ');
    assert_eq!(term.display().cell(2, 3).unwrap().byte, '2');
    assert_eq!(row_text(&term, 3), "row3");
    feed(&mut term, b"\x1b[3J");
    assert_eq!(row_text(&term, 3), "");
    let mut term = terminal();
    feed(&mut term, b"abcdef\x1b[1;3H\x1b[K");
    assert_eq!(row_text(&term, 0), "ab");
    feed(&mut term, b"\rabcdef\x1b[1;3H\x1b[1K");
    assert_eq!(row_text(&term, 0), "   def");
    feed(&mut term, b"\x1b[2K");
    assert_eq!(row_text(&term, 0), "");
    feed(&mut term, b"\rabcdef\x1b[9K\x1b[9J");
    assert_eq!(row_text(&term, 0), "abcdef");
}

#[test]
fn erase_uses_the_current_attribute() {
    let mut term = terminal();
    feed(&mut term, b"\x1b[41m\x1b[2J");
    assert_eq!(
        term.display().cell(10, 10).unwrap().attr.bg,
        Color::new(0xcc, 0x24, 0x1d)
    );
}

#[test]
fn insert_delete_and_erase_characters() {
    let mut term = terminal();
    feed(&mut term, b"abcdef\x1b[1;3H\x1b[2@");
    assert_eq!(row_text(&term, 0), "ab  cdef");
    assert_eq!(cursor(&term), (0, 2));
    feed(&mut term, b"\x1b[3P");
    assert_eq!(row_text(&term, 0), "abdef");
    feed(&mut term, b"\x1b[0X");
    assert_eq!(row_text(&term, 0), "ab ef");
    feed(&mut term, b"\x1b[2X");
    assert_eq!(row_text(&term, 0), "ab  f");
    feed(&mut term, b"\x1b[999P");
    assert_eq!(row_text(&term, 0), "ab");
    feed(&mut term, b"\x1b[1;79Hyz\x1b[1;1H\x1b[@");
    assert_eq!(term.display().cell(0, 79).unwrap().byte, 'y');
    feed(&mut term, b"\x1b[999@");
    assert_eq!(row_text(&term, 0), "");
}

#[test]
fn insert_mode() {
    let mut term = terminal();
    feed(&mut term, b"abc\r\x1b[4hXY");
    assert_eq!(row_text(&term, 0), "XYabc");
    assert!(term.display().mode().decim);
    feed(&mut term, b"\x1b[4lZ");
    assert_eq!(row_text(&term, 0), "XYZbc");
}

#[test]
fn tab_stops() {
    let mut term = terminal();
    feed(&mut term, b"\x1b[1;5H\x1bH\r\t");
    assert_eq!(cursor(&term), (0, 4));
    feed(&mut term, b"\t");
    assert_eq!(cursor(&term), (0, 8));
    feed(&mut term, b"\x1b[g\r\t\t");
    assert_eq!(cursor(&term), (0, 16));
    feed(&mut term, b"\x1b[Z");
    assert_eq!(cursor(&term), (0, 4));
    feed(&mut term, b"\x1b[1;30H\x1b[2Z");
    assert_eq!(cursor(&term), (0, 16));
    feed(&mut term, b"\x1b[9Z");
    assert_eq!(cursor(&term), (0, 0));
    feed(&mut term, b"\x1b[3g\t");
    assert_eq!(cursor(&term), (0, 80));
    assert!(!term.display().tab_stop(0));
}

#[test]
fn reports() {
    let mut term = terminal();
    assert_eq!(feed(&mut term, b"\x1b[5n"), b"\x1b[0n");
    assert_eq!(feed(&mut term, b"\x1b[c"), b"\x1b[?6c");
    assert_eq!(feed(&mut term, b"\x1b[14c"), b"\x1b[>1;4000;33c");
    assert_eq!(feed(&mut term, b"\x1b[1c"), b"");
    assert_eq!(feed(&mut term, b"\x1b[7n"), b"");
    assert_eq!(feed(&mut term, b"\x1bZ"), b"\x1b[?6c");
    assert_eq!(feed(&mut term, b"\x1b[24;80HX\x1b[6n"), b"\x1b[24;81R");
}

#[test]
fn save_and_restore_cursor() {
    let mut term = terminal();
    feed(&mut term, b"\x1b[5;6H\x1b[s\x1b[H");
    assert_eq!(term.display().saved_cursor(), Point { x: 5, y: 4 });
    feed(&mut term, b"\x1b[u");
    assert_eq!(cursor(&term), (4, 5));
}

#[test]
fn cursor_styles() {
    let mut term = terminal();
    feed(&mut term, b"\x1b[4 q");
    assert_eq!(term.display().cursor_style(), CursorStyle::Underline);
    feed(&mut term, b"\x1b[6 q");
    assert_eq!(term.display().cursor_style(), CursorStyle::Line);
    feed(&mut term, b"\x1b[9 q");
    assert_eq!(term.display().cursor_style(), CursorStyle::Line);
    feed(&mut term, b"\x1b[2 q");
    assert_eq!(term.display().cursor_style(), CursorStyle::Block);
}

#[test]
fn modes_set_and_reset() {
    let mut term = terminal();
    let initial = term.display().mode();
    for (code, read) in [
        (1u16, (|m| m.decckm) as fn(termal::terminal::Mode) -> bool),
        (4, |m| m.decim),
        (5, |m| m.decscnm),
        (6, |m| m.decom),
        (25, |m| m.dectecm),
        (1004, |m| m.decfocus),
        (1049, |m| m.decalt),
        (2004, |m| m.decpaste),
    ] {
        let before = term.display().mode();
        let was = read(before);
        feed(&mut term, format!("\x1b[?{}h", code).as_bytes());
        assert!(read(term.display().mode()), "{}", code);
        feed(&mut term, format!("\x1b[?{}l", code).as_bytes());
        assert!(!read(term.display().mode()), "{}", code);
        if !was {
            assert_eq!(term.display().mode(), before);
        }
    }
    feed(&mut term, b"\x1b[?7h\x1b[?12h\x1b[?3h\x1b[?999h\x1b[?7l");
    let mut expected = initial;
    expected.dectecm = false;
    assert_eq!(term.display().mode(), expected);
}

#[test]
fn escape_sequences() {
    let mut term = terminal();
    numbered(&mut term);
    feed(&mut term, b"\x1b[3;4H\x1bD");
    assert_eq!(cursor(&term), (3, 3));
    feed(&mut term, b"\x1bE");
    assert_eq!(cursor(&term), (4, 0));
    feed(&mut term, b"\x1bM");
    assert_eq!(cursor(&term), (3, 0));
    feed(&mut term, b"\x1b[H\x1bM");
    assert_eq!(cursor(&term), (0, 0));
    assert_eq!(row_text(&term, 0), "");
    assert_eq!(row_text(&term, 1), "row0");
    assert_eq!(row_text(&term, 23), "row22");
    feed(&mut term, b"\x1b(B\x1bB\x1b6\x1b(0\x1b)M");
    assert_eq!(row_text(&term, 1), "row0");
    assert_eq!(cursor(&term), (0, 0));
}

#[test]
fn alignment_test_and_hard_reset() {
    let mut term = terminal();
    feed(&mut term, b"\x1b[32m\x1b#8");
    let cell = term.display().cell(23, 79).unwrap();
    assert_eq!(cell.byte, 'E');
    assert_eq!(cell.attr.fg, Color::new(0x98, 0x97, 0x1a));
    feed(&mut term, b"\x1b[5;5H\x1bc");
    assert_eq!(cursor(&term), (0, 0));
    assert_eq!(term.display().attribute(), default_attr());
    for y in 0..24 {
        for x in 0..80 {
            assert_eq!(term.display().cell(y, x), Some(blank()));
            assert!(term.display().is_dirty(y, x));
        }
    }
}

#[test]
fn operating_system_commands_are_dropped() {
    let mut term = terminal();
    assert_eq!(feed(&mut term, b"\x1b]0;title\x07ok"), b"");
    assert_eq!(row_text(&term, 0), "ok");
}

#[test]
fn unknown_sequences_leave_the_grid() {
    let mut term = terminal();
    feed(&mut term, b"abc\x1b[5;5H");
    feed(&mut term, b"\x1b[i\x1b[w\x1b[1;2;3y\x1b%G\x1bq");
    assert_eq!(row_text(&term, 0), "abc");
    assert_eq!(cursor(&term), (4, 4));
}

#[test]
fn handle_byte_and_handle_bytes_agree() {
    let bytes = b"ab\x1b[2;2Hc\x1b[6n\x1b[31md\n";
    let mut one = terminal();
    let mut replies = Vec::new();
    for b in bytes {
        if let Effect::Write(r) = one.handle_byte(*b) {
            replies.extend(r);
        }
    }
    let mut other = terminal();
    assert_eq!(feed(&mut other, bytes), replies);
    assert_eq!(replies, b"\x1b[2;3R");
    for y in 0..24 {
        for x in 0..80 {
            assert_eq!(one.display().cell(y, x), other.display().cell(y, x));
        }
    }
    assert_eq!(one.display().cursor(), other.display().cursor());
    assert_eq!(other.handle_bytes(bytes, 99).0, bytes.len());
}

#[test]
fn writing_the_same_cell_marks_nothing() {
    let mut term = terminal();
    feed(&mut term, b"abc");
    let screen = term.screen();
    screen.draw();
    assert!(!screen.is_dirty(0, 1));
    let held = screen.cell(0, 1).unwrap();
    screen.set_char(0, 1, held);
    assert!(!screen.is_dirty(0, 1));
    screen.set_char(0, 1, Character { attr: held.attr, byte: 'x' });
    assert!(screen.is_dirty(0, 1));
    assert!(!screen.is_dirty(0, 0));
    // Printing what is there, and erasing what is blank, mark nothing.
    let mut term = terminal();
    feed(&mut term, b"abc");
    term.screen().draw();
    feed(&mut term, b"\rabc\x1b[K");
    for x in 0..80 {
        assert_eq!(term.display().is_dirty(0, x), x == 3, "{}", x);
    }
}

#[test]
fn switching_twice_restores_the_screen() {
    let mut term = terminal();
    feed(&mut term, b"\x1b[31mhello\x1b[4h\x1b[3;3H");
    let before: Vec<_> = (0..24)
        .flat_map(|y| (0..80).map(move |x| (y, x)))
        .map(|(y, x)| term.display().cell(y, x))
        .collect();
    let attr = term.display().attribute();
    let mode = term.display().mode();
    let at = term.display().cursor();
    let screen = term.screen();
    screen.switch_screen();
    assert_eq!(screen.cell(0, 0), Some(blank()));
    assert_eq!(screen.cursor(), Point { x: 0, y: 0 });
    screen.switch_screen();
    let after: Vec<_> = (0..24)
        .flat_map(|y| (0..80).map(move |x| (y, x)))
        .map(|(y, x)| term.display().cell(y, x))
        .collect();
    assert_eq!(before, after);
    assert_eq!(term.display().attribute(), attr);
    assert_eq!(term.display().mode(), mode);
    assert_eq!(term.display().cursor(), at);
}

#[test]
fn scroll_pair_blanks_two_rows() {
    let mut term = terminal();
    numbered(&mut term);
    feed(&mut term, b"\x1b[5;10r");
    let screen = term.screen();
    screen.scroll_down(4);
    screen.scroll_up(9);
    for y in 0..24 {
        let expected = if y == 4 || y == 9 { String::new() } else { format!("row{}", y) };
        assert_eq!(row_text(&term, y), expected);
    }
}

#[test]
fn grid_primitives() {
    let mut term = terminal();
    feed(&mut term, b"abcdef");
    let screen = term.screen();
    screen.draw();
    let x = Character { attr: default_attr(), byte: 'x' };
    screen.insert_char(0, 2, x);
    assert!(!screen.is_dirty(0, 1));
    assert!(screen.is_dirty(0, 2) && screen.is_dirty(0, 79));
    screen.delete_chars(0, 0, 1);
    screen.fill(0, 1, 0, 3, x);
    screen.place(200, 200);
    assert_eq!(screen.cursor(), Point { x: 80, y: 23 });
    assert_eq!(row_text(&term, 0), "bxxdef");
}

#[test]
fn any_bytes_keep_the_cursor_on_the_grid() {
    let mut term = Terminal::new(config(), Window { width: 333, height: 215 });
    let alphabet: &[u8] = b"\x1b\x1b\x1b[[[]?;;0123456789ABCDEFGHJKLMPSTXZ@`adefghlmnqrsu8c#( \t\n\r\x08\x07\x9cxyz\xc3\xa9\xe2\x9c\xb3";
    let mut seed: u64 = 0x2545f4914f6cdd1d;
    let mut bytes = Vec::new();
    for _ in 0..30000 {
        seed ^= seed << 13;
        seed ^= seed >> 7;
        seed ^= seed << 17;
        let pick = (seed >> 11) as usize;
        if pick % 17 == 0 {
            bytes.push((seed >> 40) as u8);
        } else {
            bytes.push(alphabet[pick % alphabet.len()]);
        }
    }
    let mut at = 0;
    let mut grant = false;
    while at < bytes.len() {
        let (next, first) = term.handle_bytes(&bytes, at);
        assert!(next > at && next <= bytes.len());
        at = next;
        let mut effect = first;
        while let Effect::Color(request) = effect {
            grant = !grant;
            effect = term.resume(&request, grant);
        }
        let screen = term.display();
        let p = screen.cursor();
        assert!(p.y < 10 && p.x <= 33);
        let region = screen.scrolling_region();
        assert!(region.top <= region.bottom && region.bottom < 10);
        if screen.mode().decom {
            assert!(region.top <= p.y && p.y <= region.bottom);
        }
        assert!(screen.cell(9, 32).is_some() && screen.cell(10, 0).is_none());
        assert!(screen.cell(0, 33).is_none());
    }
    term.screen().draw();
}

#[test]
fn reverse_index_scrolls_only_at_the_top_of_the_region() {
    let mut term = terminal();
    numbered(&mut term);
    feed(&mut term, b"\x1b[5;10r\x1b[3;4H\x1bM");
    assert_eq!(cursor(&term), (1, 3));
    feed(&mut term, b"\x1bM");
    assert_eq!(cursor(&term), (0, 3));
    feed(&mut term, b"\x1bM");
    assert_eq!(cursor(&term), (0, 3));
    for y in 0..24 {
        assert_eq!(row_text(&term, y), format!("row{}", y));
    }
    feed(&mut term, b"\x1b[5;1H\x1bM");
    assert_eq!(cursor(&term), (4, 0));
    assert_eq!(row_text(&term, 3), "row3");
    assert_eq!(row_text(&term, 4), "");
    assert_eq!(row_text(&term, 5), "row4");
    assert_eq!(row_text(&term, 9), "row8");
    assert_eq!(row_text(&term, 10), "row10");
    feed(&mut term, b"\x1b[12;1H\x1bM");
    assert_eq!(cursor(&term), (10, 0));
}

#[test]
fn escape_sequences_keep_to_their_prefix() {
    let mut term = terminal();
    numbered(&mut term);
    feed(&mut term, b"\x1b[3;4H\x1b8");
    assert_eq!(row_text(&term, 0), "row0");
    feed(&mut term, b"\x1b#D\x1b#E\x1b#M\x1b#H\x1b#c\x1b(8\x1b(D");
    assert_eq!(cursor(&term), (2, 3));
    assert!(!term.display().tab_stop(3));
    assert_eq!(feed(&mut term, b"\x1b#Z"), b"");
    for y in 0..24 {
        assert_eq!(row_text(&term, y), format!("row{}", y));
    }
    feed(&mut term, b"\x1b#8");
    assert_eq!(term.display().cell(0, 0).unwrap().byte, 'E');
    assert_eq!(cursor(&term), (2, 3));
}

#[test]
fn palette_form_is_passed_over_with_its_index() {
    let mut term = terminal();
    feed(&mut term, b"\x1b[38;5;31mZ");
    assert_eq!(term.display().cell(0, 0).unwrap().attr, default_attr());
    feed(&mut term, b"\x1b[48;5;41;32mZ");
    assert_eq!(
        term.display().attribute(),
        Attribute { fg: Color::new(0x98, 0x97, 0x1a), bg: default_attr().bg }
    );
    feed(&mut term, b"\x1b[0;38;5m\x1b[38;5;7");
    feed(&mut term, b"m\x1b[38;9;31m");
    assert_eq!(term.display().attribute().fg, Color::new(0xcc, 0x24, 0x1d));
}

#[test]
fn switching_exchanges_the_snapshot_as_it_is() {
    let mut term = terminal();
    feed(&mut term, b"\x1b[5;10r\x1b[?6h\x1b[?1049h\x1b[15;20r\x1b[16;3H");
    let active = term.display().cursor();
    assert_eq!(active, Point { x: 2, y: 15 });
    let screen = term.screen();
    screen.switch_screen();
    // The cursor that comes in stands where it stood, outside the region
    // that was set since.
    let snapshot = screen.cursor();
    assert_eq!(snapshot, Point { x: 0, y: 4 });
    assert!(screen.mode().decom && !screen.mode().decalt);
    assert!(screen.is_dirty(0, 0) && screen.is_dirty(23, 79));
    screen.switch_screen();
    assert_eq!(screen.cursor(), active);
    assert!(screen.mode().decalt);
    screen.switch_screen();
    assert_eq!(screen.cursor(), snapshot);
    screen.settle();
    assert_eq!(screen.cursor(), Point { x: 0, y: 14 });
    // Through the sequence the bookkeeping follows the exchange.
    let mut term = terminal();
    feed(&mut term, b"\x1b[5;10r\x1b[?6h\x1b[?1049h\x1b[15;20r\x1b[?1049l");
    assert_eq!(cursor(&term), (14, 0));
}
