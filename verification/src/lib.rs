//! A verified terminal emulation engine: an ANSI/VT byte-stream parser, a
//! screen buffer with scrollback, a color resolver, and a selection engine.

mod buffer;
mod cell;
mod dialogs;
mod emulator;
mod helpers;
mod i18n;
mod laws;
mod parser;
mod selection;
mod session;
mod settings;
mod strutil;
mod textenc;
mod theme;
mod wezterm;

pub use buffer::{SelectionRange, TerminalBuffer};
pub use cell::{Color, TerminalCell};
pub use dialogs::{AboutDialog, ConnectionForm, GroupForm};
pub use emulator::{AttrState, BufModel, ColorRef, EmuModel, PerfModel, TerminalEmulator, TerminalEmulatorTrait, TerminalError, TerminalEvent, TerminalState};
pub use helpers::{format_file_size, get_char_width, get_file_extension, is_directory_path, join_paths, timestamp, truncate_string, u64_to_decimal, validate_host, validate_port, validate_username};
pub use i18n::{I18nKey, I18nManager, Language};
pub use laws::{is_print_run, lemma_prints_advance_column, lemma_prints_wrap_once, lemma_reset_then_print_uses_defaults, lemma_scroll_evicts_oldest_first};
pub use parser::{Action, Parser};
pub use selection::{SelectionState, TextSelector};
pub use session::{ConnectionTestResult, FileInfo, SessionInfo, SessionState, SshConfig};
pub use settings::{AppearanceSettings, ConnectionConfig, ConnectionGroup, CustomTheme, ThemeMode};
pub use theme::{TerminalTheme, ThemeStyle};
pub use wezterm::{WezAttrs, WezModel, WezTermAdapter};
