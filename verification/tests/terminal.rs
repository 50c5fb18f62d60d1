//! The emulator and adapter behaviors, exercised end to end through the
//! public surface.

use termlink::{TerminalEmulator, TerminalEmulatorTrait, TerminalState, TerminalTheme, WezTermAdapter};

#[test]
fn test_basic_emulator_creation() {
    let emulator = TerminalEmulator::new(24, 80);
    assert_eq!(emulator.state(), &TerminalState::Disconnected);

    let buffer = emulator.buffer();
    assert_eq!(buffer.rows, 24);
    assert_eq!(buffer.cols, 80);
}

#[test]
fn test_simple_text_processing() {
    let mut emulator = TerminalEmulator::new(10, 40);
    let test_text = b"Hello World!";

    let result = emulator.process_input(test_text);
    assert!(result.is_ok());

    let buffer = emulator.buffer();
    assert_eq!(buffer.cursor_col, 12);
}

#[test]
fn test_ansi_color_codes() {
    let mut emulator = TerminalEmulator::new(10, 40);

    let red_text = b"\x1b[31mRed Text";
    emulator.process_input(red_text).unwrap();

    let reset_text = b"\x1b[0mNormal Text";
    emulator.process_input(reset_text).unwrap();

    let buffer = emulator.buffer();
    assert!(buffer.cursor_col > 0);
}

#[test]
fn test_cursor_movement() {
    let mut emulator = TerminalEmulator::new(10, 40);

    emulator.process_input(b"\x1b[5C").unwrap();
    let buffer = emulator.buffer();
    assert_eq!(buffer.cursor_col, 5);

    emulator.process_input(b"\x1b[3;10H").unwrap();
    let buffer = emulator.buffer();
    assert_eq!(buffer.cursor_row, 2);
    assert_eq!(buffer.cursor_col, 9);
}

#[test]
fn test_screen_clearing() {
    let mut emulator = TerminalEmulator::new(10, 40);

    emulator.process_input(b"Test text").unwrap();

    emulator.process_input(b"\x1b[2J").unwrap();
    let buffer = emulator.buffer();
    assert_eq!(buffer.cursor_row, 0);
    assert_eq!(buffer.cursor_col, 0);
}

#[test]
fn test_terminal_resizing() {
    let mut emulator = TerminalEmulator::new(10, 40);

    emulator.resize(20, 60);

    let buffer = emulator.buffer();
    assert_eq!(buffer.rows, 20);
    assert_eq!(buffer.cols, 60);
}

#[test]
fn test_state_management() {
    let mut emulator = TerminalEmulator::new(10, 40);

    emulator.set_state(TerminalState::Connected);
    assert_eq!(emulator.state(), &TerminalState::Connected);

    emulator.set_state(TerminalState::Error("Test error".to_string()));
    match emulator.state() {
        TerminalState::Error(msg) => assert_eq!(msg, "Test error"),
        _ => panic!("State should be Error"),
    }
}

#[test]
fn test_clear_function() {
    let mut emulator = TerminalEmulator::new(10, 40);

    emulator.process_input(b"Test content").unwrap();
    assert!(emulator.buffer().cursor_col > 0);

    emulator.clear();

    let buffer = emulator.buffer();
    assert_eq!(buffer.cursor_row, 0);
    assert_eq!(buffer.cursor_col, 0);
}

#[test]
fn test_osc_title_change() {
    let mut emulator = TerminalEmulator::new(10, 40);

    let title_sequence = b"\x1b]0;Test Title\x07";
    emulator.process_input(title_sequence).unwrap();

    let buffer = emulator.buffer();
    assert_eq!(buffer.cursor_row, 0);
}

#[test]
fn test_backspace_handling() {
    let mut emulator = TerminalEmulator::new(10, 40);

    emulator.process_input(b"Hello").unwrap();
    assert_eq!(emulator.buffer().cursor_col, 5);

    emulator.process_input(b"\x08").unwrap();
    assert_eq!(emulator.buffer().cursor_col, 4);

    assert_eq!(emulator.buffer().cursor_col, 4);
}

#[test]
fn test_256_color_support() {
    let mut emulator = TerminalEmulator::new(10, 40);

    let color_256_fg = b"\x1b[38;5;196mRed 256";
    emulator.process_input(color_256_fg).unwrap();

    let color_256_bg = b"\x1b[48;5;21mBlue BG";
    emulator.process_input(color_256_bg).unwrap();

    let reset = b"\x1b[0mNormal";
    emulator.process_input(reset).unwrap();

    let buffer = emulator.buffer();
    assert!(buffer.cursor_col > 0);
}

#[test]
fn test_rgb_color_support() {
    let mut emulator = TerminalEmulator::new(10, 40);

    let rgb_fg = b"\x1b[38;2;255;0;0mRed RGB";
    emulator.process_input(rgb_fg).unwrap();

    let rgb_bg = b"\x1b[48;2;0;255;0mGreen BG";
    emulator.process_input(rgb_bg).unwrap();

    let reset = b"\x1b[0mNormal";
    emulator.process_input(reset).unwrap();

    let buffer = emulator.buffer();
    assert!(buffer.cursor_col > 0);
}

#[test]
fn test_wezterm_adapter_creation() {
    let theme = TerminalTheme::default();
    let adapter = WezTermAdapter::new(24, 80, theme);
    assert_eq!(adapter.state(), &TerminalState::Disconnected);
}

#[test]
fn test_buffer_conversion() {
    let theme = TerminalTheme::default();
    let mut adapter = WezTermAdapter::new(10, 20, theme);

    let test_data = b"Hello World\n";
    adapter.process_input(test_data).unwrap();

    let buffer = adapter.buffer();
    assert_eq!(buffer.rows, 10);
    assert_eq!(buffer.cols, 20);
}

#[test]
fn test_output_history() {
    let theme = TerminalTheme::default();
    let mut adapter = WezTermAdapter::new(24, 80, theme);

    adapter.process_input(b"Line 1\n").unwrap();
    adapter.process_input(b"Line 2\n").unwrap();
    adapter.process_input(b"Line 3").unwrap();

    let history = adapter.get_output_history();
    assert_eq!(history.len(), 3);
    assert_eq!(history[0], "Line 1\n");
    assert_eq!(history[1], "Line 2\n");
    assert_eq!(history[2], "Line 3");
}

#[test]
fn test_cursor_position() {
    let theme = TerminalTheme::default();
    let mut adapter = WezTermAdapter::new(24, 80, theme);

    let (row, col) = adapter.get_cursor_position();
    assert_eq!(row, 0);
    assert_eq!(col, 0);

    adapter.process_input(b"Hello").unwrap();
    let (row, col) = adapter.get_cursor_position();
    assert_eq!(row, 0);
    assert_eq!(col, 5);

    adapter.process_input(b"\n").unwrap();
    let (row, col) = adapter.get_cursor_position();
    assert_eq!(row, 1);
    assert_eq!(col, 0);
}

#[test]
fn test_ansi_color_processing() {
    let theme = TerminalTheme::default();
    let default_fg = theme.style.foreground;
    let mut adapter = WezTermAdapter::new(24, 80, theme);

    adapter.process_input(b"\x1b[31mRed Text").unwrap();
    let buffer = adapter.buffer();

    if let Some(cell) = buffer.get_cell(0, 0) {
        assert_eq!(cell.character, 'R');
        assert_ne!(cell.fg_color, default_fg);
    }

    adapter.process_input(b"\x1b[0mNormal Text").unwrap();
    let buffer = adapter.buffer();

    let normal_start_col = 8;
    if let Some(cell) = buffer.get_cell(0, normal_start_col) {
        assert_eq!(cell.character, 'N');
        assert_eq!(cell.fg_color, default_fg);
    }
}
