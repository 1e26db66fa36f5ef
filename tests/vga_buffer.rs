use moon_os::vga_buffer::{
    Color, ColorCode, ScreenChar, Writer, BUFFER_HEIGHT, BUFFER_WIDTH, PLACEHOLDER,
};

fn writer() -> Writer {
    Writer::new(ColorCode::new(Color::Yellow, Color::Black, false))
}

fn row_text(w: &Writer, row: usize) -> Vec<u8> {
    let mut out = Vec::new();
    for col in 0..BUFFER_WIDTH {
        let c = w.char_at(row, col).ascii_character;
        if c == 0 {
            break;
        }
        out.push(c);
    }
    out
}

fn println(w: &mut Writer, s: &str) {
    w.write_string(s);
    w.write_string("\n");
}

#[test]
fn color_code_packs_foreground_background_and_blink() {
    assert_eq!(ColorCode::new(Color::Yellow, Color::Black, false).0, 0x0e);
    assert_eq!(ColorCode::new(Color::White, Color::Blue, false).0, 0x1f);
    assert_eq!(ColorCode::new(Color::Green, Color::Red, true).0, 0xc2);
    // a light background uses bit 7 itself, so blink is ignored
    assert_eq!(ColorCode::new(Color::Black, Color::White, true).0, 0xf0);
    assert_eq!(ColorCode::new(Color::White, Color::White, true).0, 0xff);
}

#[test]
fn new_writer_is_blank() {
    let w = writer();
    assert_eq!(w.column(), 0);
    for row in 0..BUFFER_HEIGHT {
        for col in 0..BUFFER_WIDTH {
            assert_eq!(
                w.char_at(row, col),
                ScreenChar { ascii_character: 0, color_code: ColorCode(0) }
            );
        }
    }
}

#[test]
fn test_println_simple() {
    let mut w = writer();
    println(&mut w, "Hello world!");
    assert_eq!(row_text(&w, BUFFER_HEIGHT - 2), b"Hello world!".to_vec());
    assert_eq!(row_text(&w, BUFFER_HEIGHT - 1), Vec::<u8>::new());
    assert_eq!(w.column(), 0);
}

#[test]
fn test_println_many() {
    let mut w = writer();
    for count in 0..200 {
        println(&mut w, &format!("This is line {}", count));
    }
    assert_eq!(row_text(&w, BUFFER_HEIGHT - 2), b"This is line 199".to_vec());
    assert_eq!(row_text(&w, 0), b"This is line 176".to_vec());
}

#[test]
fn test_println_output() {
    let mut w = writer();
    let s = "Some test string that fits on a single line";
    println(&mut w, s);
    for (j, c1) in s.chars().enumerate() {
        let screen_char = w.char_at(BUFFER_HEIGHT - 2, j);
        let c2 = char::from(screen_char.ascii_character);
        assert_eq!(c1, c2);
        assert_eq!(screen_char.color_code, ColorCode(0x0e));
    }
}

#[test]
fn test_print_all() {
    let mut w = writer();
    for value in 0x20u8..=0x7e {
        let c = char::from(value);
        w.write_string(&c.to_string());
    }
    // the 95 characters fill one row and wrap onto the next
    for value in 0x20u8..=0x7e {
        let c1 = char::from(value);
        let idx = (value - 0x20) as usize;
        let i = BUFFER_HEIGHT - 2 + idx / BUFFER_WIDTH;
        let j = idx % BUFFER_WIDTH;
        let c2 = char::from(w.char_at(i, j).ascii_character);
        assert_eq!(c1, c2);
    }
}

#[test]
fn long_line_wraps_at_grid_width() {
    let mut w = writer();
    let line = "x".repeat(BUFFER_WIDTH + 3);
    w.write_string(&line);
    assert_eq!(row_text(&w, BUFFER_HEIGHT - 2), vec![b'x'; BUFFER_WIDTH]);
    assert_eq!(row_text(&w, BUFFER_HEIGHT - 1), vec![b'x'; 3]);
    assert_eq!(w.column(), 3);
}

#[test]
fn full_row_then_newline_scrolls_once() {
    let mut w = writer();
    let line = "y".repeat(BUFFER_WIDTH);
    w.write_string(&line);
    assert_eq!(w.column(), BUFFER_WIDTH);
    w.write_string("\nz");
    assert_eq!(row_text(&w, BUFFER_HEIGHT - 2), vec![b'y'; BUFFER_WIDTH]);
    assert_eq!(row_text(&w, BUFFER_HEIGHT - 1), b"z".to_vec());
    assert_eq!(row_text(&w, BUFFER_HEIGHT - 3), Vec::<u8>::new());
}

#[test]
fn bytes_outside_printable_ascii_become_placeholder() {
    let mut w = writer();
    w.write_string("a\tb\u{e9}c");
    // '\t' is one byte, 'é' is two bytes of UTF-8
    let expected = vec![b'a', PLACEHOLDER, b'b', PLACEHOLDER, PLACEHOLDER, b'c'];
    assert_eq!(row_text(&w, BUFFER_HEIGHT - 1), expected);
}

#[test]
fn write_byte_writes_any_byte_as_it_is() {
    let mut w = writer();
    w.write_byte(0x01);
    w.write_byte(b'q');
    assert_eq!(w.char_at(BUFFER_HEIGHT - 1, 0).ascii_character, 0x01);
    assert_eq!(w.char_at(BUFFER_HEIGHT - 1, 1).ascii_character, b'q');
    w.write_byte(b'\n');
    assert_eq!(w.column(), 0);
    assert_eq!(w.char_at(BUFFER_HEIGHT - 2, 1).ascii_character, b'q');
}

#[test]
fn more_lines_than_rows_leave_the_last_rows_visible() {
    let mut w = writer();
    w.write_string("left over");
    let lines: Vec<String> = (0..BUFFER_HEIGHT + 5).map(|i| format!("line number {}", i)).collect();
    w.write_string("\n");
    w.write_string(&lines.join("\n"));
    for r in 0..BUFFER_HEIGHT {
        assert_eq!(row_text(&w, r), lines[5 + r].as_bytes().to_vec());
        let len = lines[5 + r].len();
        for col in len..BUFFER_WIDTH {
            assert_eq!(w.char_at(r, col).ascii_character, 0);
        }
    }
}

#[test]
fn top_row_is_dropped_when_scrolling() {
    let mut w = writer();
    for i in 0..BUFFER_HEIGHT {
        w.write_string(&format!("{}\n", i));
    }
    // row 0 held "0" before the last newline and has been scrolled away
    assert_eq!(row_text(&w, 0), b"1".to_vec());
    assert_eq!(row_text(&w, BUFFER_HEIGHT - 2), format!("{}", BUFFER_HEIGHT - 1).into_bytes());
}
