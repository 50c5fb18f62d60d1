//! The helper functions, localized strings, selection gesture tracker and
//! plain configuration data.

use termlink::{
    format_file_size, get_char_width, get_file_extension, is_directory_path, join_paths,
    timestamp, truncate_string, validate_host, validate_port, validate_username, AboutDialog,
    CustomTheme, I18nKey, I18nManager, Language, SelectionState, SshConfig, TerminalEmulator,
    TerminalEmulatorTrait, TextSelector,
};

#[test]
fn host_validation() {
    assert!(validate_host("my-host.example_1"));
    assert!(validate_host("localhost"));
    assert!(!validate_host(""));
    assert!(!validate_host("bad host"));
    assert!(!validate_host("semi;colon"));
}

#[test]
fn port_validation() {
    assert!(validate_port(22));
    assert!(validate_port(65535));
    assert!(!validate_port(0));
}

#[test]
fn username_validation() {
    assert!(validate_username("root"));
    assert!(!validate_username(""));
    let long = "x".repeat(101);
    assert!(!validate_username(&long));
}

#[test]
fn file_size_formatting() {
    assert_eq!(format_file_size(0), "0 B");
    assert_eq!(format_file_size(500), "500 B");
    assert_eq!(format_file_size(1024), "1.0 KB");
    assert_eq!(format_file_size(1536), "1.5 KB");
    assert_eq!(format_file_size(1048576), "1.0 MB");
    assert_eq!(format_file_size(1073741824), "1.0 GB");
    assert_eq!(format_file_size(1099511627776), "1.0 TB");
}

#[test]
fn string_truncation() {
    assert_eq!(truncate_string("hello", 10), "hello");
    assert_eq!(truncate_string("hello world", 8), "hello...");
}

#[test]
fn path_shapes() {
    assert!(is_directory_path("a/"));
    assert!(is_directory_path("a\\"));
    assert!(!is_directory_path("a"));
    assert!(!is_directory_path(""));
}

#[test]
fn path_joining() {
    assert_eq!(join_paths("", "x"), "x");
    assert_eq!(join_paths("a", ""), "a");
    assert_eq!(join_paths("a/", "/b"), "a/b");
    assert_eq!(join_paths("a//", "b"), "a/b");
    assert_eq!(join_paths("a", "b/c"), "a/b/c");
}

#[test]
fn file_extensions() {
    assert_eq!(get_file_extension("dir/file.tar.gz"), Some("gz".to_string()));
    assert_eq!(get_file_extension("file.txt"), Some("txt".to_string()));
    assert_eq!(get_file_extension(".bashrc"), None);
    assert_eq!(get_file_extension("noext"), None);
}

#[test]
fn character_widths() {
    assert_eq!(get_char_width('a'), 1);
    assert_eq!(get_char_width(' '), 1);
    assert_eq!(get_char_width('\u{4e2d}'), 2);
    assert_eq!(get_char_width('\u{ff21}'), 2);
}

#[test]
fn timestamp_is_decimal() {
    let t = timestamp();
    assert!(!t.is_empty());
    assert!(t.chars().all(|c| c.is_ascii_digit()));
}

#[test]
fn localized_lookup_follows_language() {
    let mut i18n = I18nManager::new();
    assert_eq!(i18n.get(I18nKey::MenuFile), "\u{6587}\u{4ef6}");
    i18n.set_language(Language::English);
    assert_eq!(i18n.get(I18nKey::MenuFile), "File");
    assert_eq!(i18n.get(I18nKey::Cancel), "Cancel");
}

#[test]
fn language_tags_round() {
    assert_eq!(Language::from_str("en"), Language::English);
    assert_eq!(Language::from_str("en-US"), Language::English);
    assert_eq!(Language::from_str("zh-CN"), Language::Chinese);
    assert_eq!(Language::from_str("anything"), Language::Chinese);
    assert_eq!(Language::English.to_str(), "en");
    assert_eq!(Language::Chinese.to_str(), "zh-CN");
}

#[test]
fn supported_languages() {
    let langs = I18nManager::get_supported_languages();
    assert_eq!(langs, vec![Language::Chinese, Language::English]);
}

#[test]
fn selector_gesture_lifecycle() {
    let mut sel = TextSelector::new();
    assert_eq!(*sel.state(), SelectionState::Idle);
    sel.start_selection(1, 2);
    assert_eq!(*sel.state(), SelectionState::Selecting);
    sel.update_selection(3, 4);
    sel.end_selection();
    assert_eq!(*sel.state(), SelectionState::Selected);
    sel.cancel_selection();
    assert_eq!(*sel.state(), SelectionState::Idle);
}

#[test]
fn selector_drives_emulator_selection() {
    let mut emulator = TerminalEmulator::new(4, 8);
    emulator.process_input(b"abcdef").unwrap();
    let mut sel = TextSelector::new();
    sel.start_selection(0, 1);
    sel.update_selection(0, 4);
    sel.update_emulator_selection(&mut emulator);
    let text = sel.get_selected_text_content(&emulator).unwrap();
    assert_eq!(text, "bcde");
}

#[test]
fn selector_select_all() {
    let mut emulator = TerminalEmulator::new(2, 4);
    emulator.process_input(b"hey").unwrap();
    let mut sel = TextSelector::new();
    sel.select_all(&mut emulator);
    assert_eq!(*sel.state(), SelectionState::Selected);
    let text = emulator.get_selected_text().unwrap();
    assert!(text.starts_with("hey"));
}

#[test]
fn coordinate_mapping_bounds() {
    let sel = TextSelector::new();
    assert_eq!(sel.screen_to_buffer_coords(2, 3, 4, 8, 1), Some((2, 3)));
    assert_eq!(sel.screen_to_buffer_coords(5, 0, 4, 8, 1), None);
    assert_eq!(sel.screen_to_buffer_coords(0, 8, 4, 8, 1), None);
}

#[test]
fn about_dialog_opens() {
    let mut d = AboutDialog::new();
    assert!(!d.show);
    d.show();
    assert!(d.show);
}

#[test]
fn custom_theme_presets() {
    let presets = CustomTheme::presets();
    assert_eq!(presets.len(), 4);
    assert_eq!(presets[0].0, "Solarized Dark");
    assert_eq!(presets[0].1.background, "#002B36");
    assert_eq!(presets[1].0, "Monokai");
    assert_eq!(presets[2].0, "Nord");
    assert_eq!(presets[3].0, "One Half Dark");
    let d = CustomTheme::default();
    assert_eq!(d.foreground, "#FFFFFF");
    assert_eq!(d.selection, "#6495EDB4");
}

#[test]
fn ssh_config_defaults() {
    let c = SshConfig::default();
    assert_eq!(c.host, "localhost");
    assert_eq!(c.port, 22);
    assert_eq!(c.username, "user");
    assert!(c.password.is_none());
    assert_eq!(c.timeout, Some(30));
}
