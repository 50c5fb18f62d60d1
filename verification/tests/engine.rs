//! Behaviors of the engine on concrete inputs: fresh buffers, printing and
//! wrapping, scrollback eviction, attribute resets, the fixed palette, and
//! selection extraction.

use termlink::{
    Color, SelectionRange, TerminalBuffer, TerminalCell, TerminalEmulator, TerminalTheme,
    ThemeStyle,
};

#[test]
fn fresh_buffer_is_default() {
    let buffer = TerminalBuffer::new(3, 4);
    assert_eq!(buffer.cursor_row, 0);
    assert_eq!(buffer.cursor_col, 0);
    assert_eq!(buffer.history.len(), 0);
    let default = TerminalCell::default();
    for r in 0..3 {
        for c in 0..4 {
            assert_eq!(*buffer.get_cell(r, c).unwrap(), default);
        }
    }
}

#[test]
fn printing_advances_column_by_length() {
    let mut emulator = TerminalEmulator::new(5, 10);
    emulator.process_input(b"abc").unwrap();
    let buffer = emulator.buffer();
    assert_eq!(buffer.cursor_row, 0);
    assert_eq!(buffer.cursor_col, 3);
}

#[test]
fn filling_a_row_wraps_exactly_once() {
    let mut emulator = TerminalEmulator::new(5, 8);
    emulator.process_input(b"12345678").unwrap();
    let buffer = emulator.buffer();
    assert_eq!(buffer.cursor_row, 1);
    assert_eq!(buffer.cursor_col, 0);
    assert_eq!(buffer.history.len(), 0);
}

#[test]
fn each_wrap_boundary_feeds_one_line() {
    let mut emulator = TerminalEmulator::new(5, 8);
    // Sixteen characters cross two wrap boundaries: two line feeds.
    emulator.process_input(b"0123456789abcdef").unwrap();
    let buffer = emulator.buffer();
    assert_eq!(buffer.cursor_row, 2);
    assert_eq!(buffer.cursor_col, 0);
}

#[test]
fn resize_to_same_dimensions_changes_nothing() {
    let mut emulator = TerminalEmulator::new(4, 6);
    emulator.process_input(b"hi").unwrap();
    let before = emulator.buffer();
    emulator.resize(4, 6);
    let after = emulator.buffer();
    assert_eq!(after.rows, before.rows);
    assert_eq!(after.cols, before.cols);
    assert_eq!(after.cursor_row, before.cursor_row);
    assert_eq!(after.cursor_col, before.cursor_col);
    for r in 0..4 {
        for c in 0..6 {
            assert_eq!(after.get_cell(r, c).unwrap(), before.get_cell(r, c).unwrap());
        }
    }
}

#[test]
fn resize_copies_overlap_and_defaults_the_rest() {
    let mut emulator = TerminalEmulator::new(2, 6);
    emulator.process_input(b"abcd\r\nwxy").unwrap();
    emulator.resize(3, 2);
    let buffer = emulator.buffer();
    assert_eq!(buffer.get_cell(0, 0).unwrap().character, 'a');
    assert_eq!(buffer.get_cell(0, 1).unwrap().character, 'b');
    assert_eq!(buffer.get_cell(1, 0).unwrap().character, 'w');
    assert_eq!(buffer.get_cell(2, 0).unwrap().character, ' ');
}

#[test]
fn scrollback_evicts_oldest_first() {
    let mut buffer = TerminalBuffer::new(2, 3);
    buffer.max_history = 2;
    // Write a recognizable top row, then scroll three times from the
    // bottom row.
    for (i, label) in [b'a', b'b', b'c', b'd'].iter().enumerate() {
        buffer.set_cursor(0, 0);
        let mut cell = TerminalCell::default();
        cell.character = *label as char;
        buffer.set_cell(0, 0, cell);
        buffer.set_cursor(1, 0);
        buffer.newline();
        // After each scroll the history grows until the cap, then the
        // oldest row leaves first.
        let expect = if i < 2 { i + 1 } else { 2 };
        assert_eq!(buffer.history.len(), expect);
    }
    // Rows pushed: 'a', 'b', 'c', 'd'; capacity 2 keeps the newest two.
    assert_eq!(buffer.history[0][0].character, 'c');
    assert_eq!(buffer.history[1][0].character, 'd');
}

#[test]
fn sgr_reset_prints_with_theme_defaults() {
    let mut emulator = TerminalEmulator::new(5, 10);
    let theme = TerminalTheme::default();
    emulator.process_input(b"\x1b[1;31mA\x1b[0mB").unwrap();
    let buffer = emulator.buffer();
    let b = buffer.get_cell(0, 1).unwrap();
    assert_eq!(b.character, 'B');
    assert_eq!(b.fg_color, theme.style.foreground);
    assert_eq!(b.bg_color, theme.style.background);
    assert!(!b.bold);
}

#[test]
fn palette_grayscale_and_cube_endpoints() {
    let theme = TerminalTheme::default();
    assert_eq!(theme.get_color_256(232), Color::rgb(8, 8, 8));
    assert_eq!(theme.get_color_256(255), Color::rgb(238, 238, 238));
    assert_eq!(theme.get_color_256(16), Color::rgb(0, 0, 0));
    assert_eq!(theme.get_color_256(231), Color::rgb(255, 255, 255));
    assert_eq!(theme.get_color_256(196), Color::rgb(255, 0, 0));
}

#[test]
fn selection_normalizes_inverted_range() {
    let buffer = TerminalBuffer::new(5, 10);
    let sel = SelectionRange { start_row: 2, start_col: 5, end_row: 0, end_col: 1 };
    assert_eq!(buffer.normalize_selection(&sel), (0, 1, 2, 5));
}

#[test]
fn empty_selection_extracts_nothing() {
    let mut emulator = TerminalEmulator::new(5, 10);
    emulator.process_input(b"hello").unwrap();
    emulator.start_selection(0, 2);
    assert_eq!(emulator.get_selected_text(), None);
}

#[test]
fn selection_extracts_rows_with_line_breaks() {
    let mut emulator = TerminalEmulator::new(5, 10);
    emulator.process_input(b"ab\r\ncd").unwrap();
    emulator.start_selection(0, 0);
    emulator.update_selection(1, 1);
    let text = emulator.get_selected_text().unwrap();
    assert!(text.starts_with("ab"));
    assert!(text.contains('\n'));
    assert!(text.ends_with("cd"));
}

#[test]
fn selection_highlight_covers_range() {
    let mut emulator = TerminalEmulator::new(5, 10);
    emulator.process_input(b"abcdef").unwrap();
    emulator.start_selection(0, 1);
    emulator.update_selection(0, 3);
    let buffer = emulator.buffer();
    assert!(!buffer.get_cell(0, 0).unwrap().is_selected);
    assert!(buffer.get_cell(0, 1).unwrap().is_selected);
    assert!(buffer.get_cell(0, 3).unwrap().is_selected);
    assert!(!buffer.get_cell(0, 4).unwrap().is_selected);
    emulator.clear_selection();
    let buffer = emulator.buffer();
    assert!(!buffer.get_cell(0, 1).unwrap().is_selected);
}

#[test]
fn red_text_then_normal_end_to_end() {
    let mut emulator = TerminalEmulator::new(5, 20);
    let theme = TerminalTheme::default();
    emulator.process_input(b"\x1b[31mRed\x1b[0m Normal\r\n").unwrap();
    let buffer = emulator.buffer();
    for (i, ch) in ['R', 'e', 'd'].iter().enumerate() {
        let cell = buffer.get_cell(0, i).unwrap();
        assert_eq!(cell.character, *ch);
        assert_eq!(cell.fg_color, theme.style.red);
    }
    for (i, ch) in " Normal".chars().enumerate() {
        let cell = buffer.get_cell(0, 3 + i).unwrap();
        assert_eq!(cell.character, ch);
        assert_eq!(cell.fg_color, theme.style.foreground);
    }
    assert_eq!(buffer.cursor_row, 1);
    assert_eq!(buffer.cursor_col, 0);
}

#[test]
fn erase_display_clears_everything() {
    let mut emulator = TerminalEmulator::new(5, 10);
    emulator.process_input(b"some text here").unwrap();
    emulator.process_input(b"\x1b[2J").unwrap();
    let buffer = emulator.buffer();
    assert_eq!(buffer.cursor_row, 0);
    assert_eq!(buffer.cursor_col, 0);
    let default = TerminalCell::default();
    for r in 0..5 {
        for c in 0..10 {
            assert_eq!(*buffer.get_cell(r, c).unwrap(), default);
        }
    }
}

#[test]
fn erase_below_keeps_content_above_cursor() {
    let mut emulator = TerminalEmulator::new(3, 6);
    emulator.process_input(b"aaaa\r\nbbbb").unwrap();
    emulator.process_input(b"\x1b[2;1H\x1b[0J").unwrap();
    let buffer = emulator.buffer();
    assert_eq!(buffer.get_cell(0, 0).unwrap().character, 'a');
    assert_eq!(buffer.get_cell(1, 0).unwrap().character, ' ');
    assert_eq!(buffer.cursor_row, 1);
}

#[test]
fn erase_line_modes() {
    let mut emulator = TerminalEmulator::new(2, 6);
    emulator.process_input(b"abcdef\x1b[1;3H\x1b[K").unwrap();
    let buffer = emulator.buffer();
    assert_eq!(buffer.get_cell(0, 0).unwrap().character, 'a');
    assert_eq!(buffer.get_cell(0, 1).unwrap().character, 'b');
    assert_eq!(buffer.get_cell(0, 2).unwrap().character, ' ');
    assert_eq!(buffer.get_cell(0, 5).unwrap().character, ' ');
}

#[test]
fn wide_character_at_last_column_wraps() {
    let mut emulator = TerminalEmulator::new(3, 4);
    // A double-width character arriving on the last column does not fit:
    // the skipped trailing cell becomes a continuation filler with no
    // independent glyph, the cursor wraps, and the character lands at the
    // start of the next row with its own continuation cell.
    emulator.process_input("abc\u{4e2d}".as_bytes()).unwrap();
    let buffer = emulator.buffer();
    let skipped = buffer.get_cell(0, 3).unwrap();
    assert_eq!(skipped.character, ' ');
    assert!(skipped.is_continuation);
    assert_eq!(buffer.get_cell(1, 0).unwrap().character, '\u{4e2d}');
    assert!(!buffer.get_cell(1, 0).unwrap().is_continuation);
    assert!(buffer.get_cell(1, 1).unwrap().is_continuation);
    assert_eq!(buffer.cursor_row, 1);
    assert_eq!(buffer.cursor_col, 2);
}

#[test]
fn wide_character_marks_continuation_cell() {
    let mut emulator = TerminalEmulator::new(3, 4);
    emulator.process_input("ab\u{4e2d}".as_bytes()).unwrap();
    let buffer = emulator.buffer();
    assert_eq!(buffer.get_cell(0, 2).unwrap().character, '\u{4e2d}');
    assert!(buffer.get_cell(0, 3).unwrap().is_continuation);
    assert_eq!(buffer.get_cell(0, 3).unwrap().character, ' ');
    assert_eq!(buffer.cursor_row, 1);
    assert_eq!(buffer.cursor_col, 0);
}

#[test]
fn wide_character_on_single_column_grid() {
    let mut emulator = TerminalEmulator::new(2, 1);
    // With one column there is no trailing cell to skip: the character
    // takes the single column and the cursor wraps.
    emulator.process_input("\u{4e2d}".as_bytes()).unwrap();
    let buffer = emulator.buffer();
    assert_eq!(buffer.get_cell(0, 0).unwrap().character, '\u{4e2d}');
    assert!(!buffer.get_cell(0, 0).unwrap().is_continuation);
    assert_eq!(buffer.cursor_row, 1);
    assert_eq!(buffer.cursor_col, 0);
}

#[test]
fn selection_beyond_content_extracts_nothing() {
    let mut emulator = TerminalEmulator::new(2, 3);
    emulator.process_input(b"hi").unwrap();
    // A multi-row range lying entirely past scrollback and grid covers no
    // cell; the separators between its rows alone yield no text.
    emulator.start_selection(5, 0);
    emulator.update_selection(7, 2);
    assert_eq!(emulator.get_selected_text(), None);
}

#[test]
fn escape_sequence_split_across_calls() {
    let mut emulator = TerminalEmulator::new(3, 10);
    let theme = TerminalTheme::default();
    emulator.process_input(b"\x1b[3").unwrap();
    emulator.process_input(b"1mX").unwrap();
    let buffer = emulator.buffer();
    let cell = buffer.get_cell(0, 0).unwrap();
    assert_eq!(cell.character, 'X');
    assert_eq!(cell.fg_color, theme.style.red);
}

#[test]
fn extended_colors_resolve() {
    let mut emulator = TerminalEmulator::new(3, 10);
    emulator.process_input(b"\x1b[38;5;196ma\x1b[38;2;1;2;3mb").unwrap();
    let buffer = emulator.buffer();
    assert_eq!(buffer.get_cell(0, 0).unwrap().fg_color, Color::rgb(255, 0, 0));
    assert_eq!(buffer.get_cell(0, 1).unwrap().fg_color, Color::rgb(1, 2, 3));
}

#[test]
fn osc_title_is_recorded() {
    let mut emulator = TerminalEmulator::new(3, 10);
    emulator.process_input(b"\x1b]2;My \xe4\xb8\xad Title\x07").unwrap();
    let titles = emulator.titles();
    assert_eq!(titles.len(), 1);
    assert_eq!(titles[0], "My \u{4e2d} Title");
}

#[test]
fn malformed_input_is_survived() {
    let mut emulator = TerminalEmulator::new(3, 10);
    emulator.process_input(b"\xff\xfe\x1b[999999999999m\x1b]unterminated").unwrap();
    emulator.process_input(b"\x1b[;;;H ok").unwrap();
    assert!(emulator.buffer().cursor_col > 0);
}

#[test]
fn text_log_accumulates_prints_and_line_feeds() {
    let mut emulator = TerminalEmulator::new(3, 10);
    emulator.process_input(b"ab\ncd").unwrap();
    assert_eq!(emulator.get_buffer(), "ab\ncd");
}

#[test]
fn theme_parse_hex_forms() {
    assert_eq!(ThemeStyle::parse_hex("#FF0080"), Color::rgb(255, 0, 128));
    assert_eq!(
        ThemeStyle::parse_hex("#01020304"),
        Color { r: 1, g: 2, b: 3, a: 4 }
    );
    assert_eq!(ThemeStyle::parse_hex("oops"), Color::white());
}
