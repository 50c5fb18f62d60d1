//! The terminal emulator: the byte-stream parser joined to a screen
//! performer that interprets each parsed action against the screen buffer
//! and the color resolver.
//!
//! The whole effect of feeding bytes is captured by a functional model: the
//! parser model produces actions, and [`apply_action_m`] folds them over the
//! performer state.

use vstd::prelude::*;

use crate::buffer::{SelectionRange, TerminalBuffer, cell_at, default_cells_spec};
use crate::cell::{Color, TerminalCell};
use crate::helpers::char_width_spec;
use crate::parser::{Action, ActionModel, Parser, ParserModel, act_m, acts_m, init_model, run_m};
use crate::textenc::lossy_decode;
use crate::theme::TerminalTheme;
use vstd::string::StringSliceAdditionalSpecFns;

verus! {

/// A notification the emulator queues for the presentation layer.
#[derive(Debug, Clone, PartialEq)]
pub enum TerminalEvent {
    /// Output content was produced.
    Output(String),
    /// The cursor moved.
    CursorPosition { row: usize, col: usize },
    /// The grid was resized.
    Resize { rows: usize, cols: usize },
    /// Input is requested from the user.
    RequestInput,
    /// The window title changed.
    TitleChange(String),
}

/// Connection state of the terminal.
#[derive(Debug, Clone, PartialEq)]
pub enum TerminalState {
    Disconnected,
    Connecting,
    Connected,
    Error(String),
}

/// An abstract color reference: unset, a 16-color index, a 256-color index,
/// or a 24-bit triple.
#[derive(Clone, Copy, Debug, PartialEq, Eq, Structural)]
pub enum ColorRef {
    Default,
    Idx(u8),
    Idx256(u16),
    Rgb(u8, u8, u8),
}

/// The current SGR context: active foreground and background references and
/// the bold flag.
#[derive(Clone, Copy, Debug, PartialEq, Eq, Structural)]
pub struct AttrState {
    pub fg: ColorRef,
    pub bg: ColorRef,
    pub bold: bool,
}

impl AttrState {
    /// Everything reset: both references unset, bold off.
    pub open spec fn reset_spec() -> AttrState {
        AttrState { fg: ColorRef::Default, bg: ColorRef::Default, bold: false }
    }
}

/// The mathematical shape of the screen buffer.
#[verifier::ext_equal]
pub struct BufModel {
    pub rows: int,
    pub cols: int,
    pub cells: Seq<TerminalCell>,
    pub cursor_row: int,
    pub cursor_col: int,
    pub history: Seq<Seq<TerminalCell>>,
    pub max_history: int,
    pub selection: Option<SelectionRange>,
}

impl TerminalBuffer {
    /// The abstract value of the buffer.
    pub open spec fn bm(self) -> BufModel {
        BufModel {
            rows: self.rows as int,
            cols: self.cols as int,
            cells: self.cells@,
            cursor_row: self.cursor_row as int,
            cursor_col: self.cursor_col as int,
            history: Seq::new(self.history@.len(), |i: int| self.history@[i]@),
            max_history: self.max_history as int,
            selection: self.selection,
        }
    }
}

/// The performer state: the buffer, the SGR context, the accumulated plain
/// text log, and the window titles announced so far.
#[verifier::ext_equal]
pub struct PerfModel {
    pub buf: BufModel,
    pub attrs: AttrState,
    pub log: Seq<char>,
    pub titles: Seq<Seq<char>>,
}

/// The whole emulator: parser state plus performer state plus theme.
#[verifier::ext_equal]
pub struct EmuModel {
    pub parser: ParserModel,
    pub perf: PerfModel,
    pub theme: TerminalTheme,
}

/// Scroll-or-advance.  On any row but the last, the cursor moves down one
/// row; on the last, the top row moves into scrollback (evicting the oldest
/// row when full), the grid shifts up, and the freed bottom row is cleared.
/// Either way the cursor column returns to the line start.
pub open spec fn bm_newline(b: BufModel) -> BufModel {
    if b.cursor_row + 1 < b.rows {
        BufModel { cursor_row: b.cursor_row + 1, cursor_col: 0, ..b }
    } else {
        let top = b.cells.subrange(0, b.cols);
        let pushed = b.history.push(top);
        let hist = if b.history.len() == b.max_history {
            pushed.subrange(1, pushed.len() as int)
        } else {
            pushed
        };
        BufModel {
            cells: b.cells.subrange(b.cols, b.rows * b.cols) + default_cells_spec(b.cols),
            cursor_col: 0,
            history: hist,
            ..b
        }
    }
}

/// Every cell default, cursor at the origin.
pub open spec fn bm_clear(b: BufModel) -> BufModel {
    BufModel {
        cells: default_cells_spec(b.cells.len() as int),
        cursor_row: 0,
        cursor_col: 0,
        ..b
    }
}

/// The concrete foreground for the current SGR context.
pub open spec fn resolve_fg_spec(theme: TerminalTheme, attrs: AttrState) -> Color {
    match attrs.fg {
        ColorRef::Rgb(r, g, b) => Color::rgb_spec(r, g, b),
        ColorRef::Idx256(i) => theme.resolve_256_spec(i),
        ColorRef::Idx(i) => theme.style.get_color_spec(i, attrs.bold),
        ColorRef::Default => theme.style.foreground,
    }
}

/// The concrete background for the current SGR context.
pub open spec fn resolve_bg_spec(theme: TerminalTheme, attrs: AttrState) -> Color {
    match attrs.bg {
        ColorRef::Rgb(r, g, b) => Color::rgb_spec(r, g, b),
        ColorRef::Idx256(i) => theme.resolve_256_spec(i),
        ColorRef::Idx(i) => theme.style.get_color_spec(i, false),
        ColorRef::Default => theme.style.background,
    }
}

/// Printing one character.  A double-width character that would start on
/// the last column does not fit there: the skipped trailing cell becomes a
/// continuation-style filler (no independent glyph), the cursor wraps
/// through an implicit line feed, and the character lands at the start of
/// the next row.  (On a one-column grid there is no trailing cell to skip;
/// the character takes the single column and the cursor wraps.)
/// Everything else is [`perf_glyph_m`].
pub open spec fn perf_print_m(theme: TerminalTheme, p: PerfModel, c: char) -> PerfModel {
    let width = char_width_spec(c) as int;
    let b = p.buf;
    if width == 2 && b.cursor_col == b.cols - 1 && b.cols >= 2 {
        let idx = b.cursor_row * b.cols + b.cursor_col;
        let fill0 = b.cells[idx];
        let filler = TerminalCell {
            character: ' ',
            fg_color: resolve_fg_spec(theme, p.attrs),
            bg_color: resolve_bg_spec(theme, p.attrs),
            bold: p.attrs.bold,
            is_continuation: true,
            ..fill0
        };
        let b1 = bm_newline(BufModel { cells: b.cells.update(idx, filler), ..b });
        perf_glyph_m(theme, PerfModel { buf: b1, ..p }, c, width)
    } else {
        perf_glyph_m(theme, p, c, width)
    }
}

/// A character written at the cursor: the cell takes the character, the
/// resolved colors and the bold flag; a double-width character marks the
/// following cell (if any) as a continuation; the cursor advances by the
/// character's width, wrapping through an implicit line feed at the line
/// end.
pub open spec fn perf_glyph_m(theme: TerminalTheme, p: PerfModel, c: char, width: int) -> PerfModel {
    let b = p.buf;
    let idx = b.cursor_row * b.cols + b.cursor_col;
    let cell0 = b.cells[idx];
    let cell1 = TerminalCell {
        character: c,
        fg_color: resolve_fg_spec(theme, p.attrs),
        bg_color: resolve_bg_spec(theme, p.attrs),
        bold: p.attrs.bold,
        is_continuation: false,
        ..cell0
    };
    let cells1 = b.cells.update(idx, cell1);
    let cells2 = if width == 2 && b.cursor_col < b.cols - 1 {
        let next0 = cells1[idx + 1];
        cells1.update(idx + 1, TerminalCell { character: ' ', is_continuation: true, ..next0 })
    } else {
        cells1
    };
    let b2 = BufModel { cells: cells2, ..b };
    let b3 = if b.cursor_col + width < b.cols {
        BufModel { cursor_col: b.cursor_col + width, ..b2 }
    } else {
        bm_newline(b2)
    };
    PerfModel { buf: b3, log: p.log.push(c), ..p }
}

/// A C0 control code: backspace and delete move the cursor left, line feed
/// scrolls or advances (and is logged), carriage return homes the column;
/// everything else has no buffer effect.
pub open spec fn perf_execute_m(p: PerfModel, byte: u8) -> PerfModel {
    if byte == 0x08 || byte == 0x7F {
        let b = p.buf;
        let col = if b.cursor_col > 0 {
            b.cursor_col - 1
        } else {
            0
        };
        PerfModel { buf: BufModel { cursor_col: col, ..b }, ..p }
    } else if byte == 0x0A {
        PerfModel { buf: bm_newline(p.buf), log: p.log.push('\n'), ..p }
    } else if byte == 0x0D {
        PerfModel { buf: BufModel { cursor_col: 0, ..p.buf }, ..p }
    } else {
        p
    }
}

/// Parameter `i` of a CSI parameter list, or `d` when missing.
pub open spec fn param_or(params: Seq<u16>, i: int, d: u16) -> u16 {
    if 0 <= i < params.len() {
        params[i]
    } else {
        d
    }
}

/// A 1-based cursor coordinate: zero and missing both mean 1.
pub open spec fn cursor_param(params: Seq<u16>, i: int) -> int {
    let v = param_or(params, i, 1);
    if v == 0 {
        1
    } else {
        v as int
    }
}

/// The smaller of two integers.
pub open spec fn min_int(a: int, b: int) -> int {
    if a < b {
        a
    } else {
        b
    }
}

/// Erase in line: mode 0 clears from the cursor to the line end, 1 from the
/// line start through the cursor, 2 the whole line; other modes do nothing.
/// Cleared cells become the default cell.
pub open spec fn bm_erase_line(b: BufModel, mode: u16) -> BufModel {
    let row0 = b.cursor_row * b.cols;
    let lo = if mode == 0 {
        row0 + b.cursor_col
    } else {
        row0
    };
    let hi = if mode == 1 {
        row0 + b.cursor_col + 1
    } else {
        row0 + b.cols
    };
    if mode == 0 || mode == 1 || mode == 2 {
        BufModel {
            cells: Seq::new(
                b.cells.len(),
                |i: int|
                    if lo <= i < hi {
                        TerminalCell::default_spec()
                    } else {
                        b.cells[i]
                    },
            ),
            ..b
        }
    } else {
        b
    }
}

/// Erase in display: mode 0 clears from the cursor to the end of the
/// screen, 1 from the start of the screen through the cursor, leaving the
/// cursor in place; any other mode clears the whole grid and homes the
/// cursor.
pub open spec fn bm_erase_display(b: BufModel, mode: u16) -> BufModel {
    let at = b.cursor_row * b.cols + b.cursor_col;
    if mode == 0 {
        BufModel {
            cells: Seq::new(
                b.cells.len(),
                |i: int|
                    if at <= i {
                        TerminalCell::default_spec()
                    } else {
                        b.cells[i]
                    },
            ),
            ..b
        }
    } else if mode == 1 {
        BufModel {
            cells: Seq::new(
                b.cells.len(),
                |i: int|
                    if i <= at {
                        TerminalCell::default_spec()
                    } else {
                        b.cells[i]
                    },
            ),
            ..b
        }
    } else {
        bm_clear(b)
    }
}

/// One SGR parameter list folded over the attribute state, from index `i`
/// on.  Code 0 resets, 1 sets bold, the color ranges select indexed colors,
/// and the extended forms `38`/`48` consume the rest of the list.
pub open spec fn sgr_apply(attrs: AttrState, params: Seq<u16>, i: int) -> AttrState
    decreases params.len() - i,
{
    if i < 0 || i >= params.len() {
        attrs
    } else {
        let p = params[i];
        if p == 0 {
            sgr_apply(AttrState::reset_spec(), params, i + 1)
        } else if p == 1 {
            sgr_apply(AttrState { bold: true, ..attrs }, params, i + 1)
        } else if 30 <= p && p <= 37 {
            sgr_apply(AttrState { fg: ColorRef::Idx((p - 30) as u8), ..attrs }, params, i + 1)
        } else if 40 <= p && p <= 47 {
            sgr_apply(AttrState { bg: ColorRef::Idx((p - 40) as u8), ..attrs }, params, i + 1)
        } else if 90 <= p && p <= 97 {
            sgr_apply(AttrState { fg: ColorRef::Idx((p - 90 + 8) as u8), ..attrs }, params, i + 1)
        } else if 100 <= p && p <= 107 {
            sgr_apply(AttrState { bg: ColorRef::Idx((p - 100 + 8) as u8), ..attrs }, params, i + 1)
        } else if p == 38 || p == 48 {
            sgr_extended(attrs, params, i)
        } else {
            sgr_apply(attrs, params, i + 1)
        }
    }
}

/// The extended color form at index `i` (`38` or `48`): `;5;n` selects a
/// 256-color index, `;2;r;g;b` a 24-bit triple; a malformed tail changes
/// nothing.  Parameters after the form are not interpreted.
pub open spec fn sgr_extended(attrs: AttrState, params: Seq<u16>, i: int) -> AttrState {
    let fg = params[i] == 38;
    if i + 2 < params.len() && params[i + 1] == 5 {
        let cref = ColorRef::Idx256(params[i + 2]);
        if fg {
            AttrState { fg: cref, ..attrs }
        } else {
            AttrState { bg: cref, ..attrs }
        }
    } else if i + 4 < params.len() && params[i + 1] == 2 {
        let cref = ColorRef::Rgb(
            (params[i + 2] % 256) as u8,
            (params[i + 3] % 256) as u8,
            (params[i + 4] % 256) as u8,
        );
        if fg {
            AttrState { fg: cref, ..attrs }
        } else {
            AttrState { bg: cref, ..attrs }
        }
    } else {
        attrs
    }
}

/// One control sequence applied to the performer: cursor positioning and
/// motion, erase in line and display, and SGR attribute updates; unknown
/// final bytes do nothing.
pub open spec fn perf_csi_m(p: PerfModel, params: Seq<u16>, ch: char) -> PerfModel {
    let b = p.buf;
    if ch == 'H' || ch == 'f' {
        let row = min_int(cursor_param(params, 0) - 1, b.rows - 1);
        let col = min_int(cursor_param(params, 1) - 1, b.cols - 1);
        PerfModel { buf: BufModel { cursor_row: row, cursor_col: col, ..b }, ..p }
    } else if ch == 'A' {
        let n = param_or(params, 0, 1) as int;
        let row = if b.cursor_row >= n {
            b.cursor_row - n
        } else {
            0
        };
        PerfModel { buf: BufModel { cursor_row: row, ..b }, ..p }
    } else if ch == 'B' {
        let n = param_or(params, 0, 1) as int;
        PerfModel { buf: BufModel { cursor_row: min_int(b.cursor_row + n, b.rows - 1), ..b }, ..p }
    } else if ch == 'C' {
        let n = param_or(params, 0, 1) as int;
        PerfModel { buf: BufModel { cursor_col: min_int(b.cursor_col + n, b.cols - 1), ..b }, ..p }
    } else if ch == 'D' {
        let n = param_or(params, 0, 1) as int;
        let col = if b.cursor_col >= n {
            b.cursor_col - n
        } else {
            0
        };
        PerfModel { buf: BufModel { cursor_col: col, ..b }, ..p }
    } else if ch == 'K' {
        PerfModel { buf: bm_erase_line(b, param_or(params, 0, 0)), ..p }
    } else if ch == 'J' {
        PerfModel { buf: bm_erase_display(b, param_or(params, 0, 0)), ..p }
    } else if ch == 'm' {
        let attrs = if params.len() == 0 {
            AttrState::reset_spec()
        } else {
            sgr_apply(p.attrs, params, 0)
        };
        PerfModel { attrs, ..p }
    } else {
        p
    }
}

/// One OSC string applied to the performer: parameters `0` and `2` announce
/// a window title (decoded from the second parameter); everything else is
/// ignored.
pub open spec fn perf_osc_m(p: PerfModel, params: Seq<Seq<u8>>) -> PerfModel {
    if params.len() >= 2 && (params[0] == seq![0x30u8] || params[0] == seq![0x32u8]) {
        PerfModel { titles: p.titles.push(lossy_decode(params[1])), ..p }
    } else {
        p
    }
}

/// One parsed action applied to the performer.
pub open spec fn apply_action_m(theme: TerminalTheme, p: PerfModel, a: ActionModel) -> PerfModel {
    match a {
        ActionModel::Print(c) => perf_print_m(theme, p, c),
        ActionModel::Execute(b) => perf_execute_m(p, b),
        ActionModel::Csi(params, ch) => perf_csi_m(p, params, ch),
        ActionModel::Osc(params) => perf_osc_m(p, params),
    }
}

/// A list of actions folded over the performer, from index `i` on.
pub open spec fn apply_actions_m(
    theme: TerminalTheme,
    p: PerfModel,
    acts: Seq<ActionModel>,
    i: int,
) -> PerfModel
    decreases acts.len() - i,
{
    if i < 0 || i >= acts.len() {
        p
    } else {
        apply_actions_m(theme, apply_action_m(theme, p, acts[i]), acts, i + 1)
    }
}

/// The whole effect of feeding `bytes`: the parser model advances and every
/// produced action is applied to the performer in order.
pub open spec fn process_m(em: EmuModel, bytes: Seq<u8>) -> EmuModel {
    let r = run_m(em.parser, bytes, 0);
    EmuModel {
        parser: r.0,
        perf: apply_actions_m(em.theme, em.perf, r.1, 0),
        theme: em.theme,
    }
}

/// The one reportable error class: a synchronization failure around the
/// shared buffer.  The library's own operations are synchronous and never
/// raise it; a concurrent wrapper may.
#[derive(Clone, Copy, Debug, PartialEq, Eq, Structural)]
pub enum TerminalError {
    SyncFailure,
}

/// The terminal emulator: parser, screen buffer, SGR context, theme, the
/// plain-text log and the announced titles.
pub struct TerminalEmulator {
    parser: Parser,
    buffer: TerminalBuffer,
    theme: TerminalTheme,
    attrs: AttrState,
    state: TerminalState,
    log: String,
    titles: Vec<String>,
}

impl TerminalEmulator {
    /// The abstract performer state.
    pub closed spec fn pm(self) -> PerfModel {
        PerfModel {
            buf: self.buffer.bm(),
            attrs: self.attrs,
            log: self.log@,
            titles: Seq::new(self.titles@.len(), |i: int| self.titles@[i]@),
        }
    }

    /// The abstract emulator state.
    pub closed spec fn em(self) -> EmuModel {
        EmuModel { parser: self.parser.m(), perf: self.pm(), theme: self.theme }
    }

    /// The connection state.
    pub closed spec fn state_view(self) -> TerminalState {
        self.state
    }

    /// The underlying buffer value, for stating buffer-level relations.
    pub closed spec fn buf_view(self) -> TerminalBuffer {
        self.buffer
    }

    /// Structural validity: buffer and parser are well formed.
    pub closed spec fn wf(self) -> bool {
        self.buffer.wf() && self.parser.wf()
    }

    /// A fresh emulator over a `rows x cols` grid: ground parser, default
    /// theme, reset attributes, empty log and titles, disconnected.
    pub fn new(rows: usize, cols: usize) -> (e: TerminalEmulator)
        requires
            1 <= rows,
            1 <= cols,
            rows * cols <= usize::MAX,
        ensures
            e.wf(),
            e.em().parser == init_model(),
            e.em().perf.attrs == AttrState::reset_spec(),
            e.em().perf.log == Seq::<char>::empty(),
            e.em().perf.titles == Seq::<Seq<char>>::empty(),
            e.em().theme == (TerminalTheme { style: crate::theme::ThemeStyle::dark_spec(), cursor_blink: true }),
            e.em().perf.buf.rows == rows,
            e.em().perf.buf.cols == cols,
            e.em().perf.buf.cursor_row == 0,
            e.em().perf.buf.cursor_col == 0,
            e.em().perf.buf.cells == default_cells_spec((rows * cols) as int),
            e.em().perf.buf.history == Seq::<Seq<TerminalCell>>::empty(),
            e.em().perf.buf.max_history == 1000,
            e.em().perf.buf.selection is None,
            e.state_view() is Disconnected,
            e.buf_view().wf(),
            e.buf_view().bm() == e.em().perf.buf,
    {
        let e = TerminalEmulator {
            parser: Parser::new(),
            buffer: TerminalBuffer::new(rows, cols),
            theme: TerminalTheme::default(),
            attrs: AttrState { fg: ColorRef::Default, bg: ColorRef::Default, bold: false },
            state: TerminalState::Disconnected,
            log: String::new(),
            titles: Vec::new(),
        };
        proof {
            assert(e.em().perf.titles =~= Seq::<Seq<char>>::empty());
            assert(e.em().perf.buf.history =~= Seq::<Seq<TerminalCell>>::empty());
        }
        e
    }

    /// Feeds raw bytes through the parser and applies every resulting
    /// action to the screen; this never fails.
    pub fn process_input(&mut self, data: &[u8]) -> (r: Result<(), TerminalError>)
        requires
            old(self).wf(),
        ensures
            final(self).wf(),
            r is Ok,
            final(self).em() == process_m(old(self).em(), data@),
            final(self).state_view() == old(self).state_view(),
    {
        let ghost em0 = self.em();
        let acts = self.parser.advance(data);
        let ghost acts_total = acts_m(acts@);
        let ghost pm0 = self.pm();
        proof {
            assert(acts_total == run_m(em0.parser, data@, 0).1);
            assert(self.parser.m() == run_m(em0.parser, data@, 0).0);
        }
        let ghost parser1 = self.parser;
        let n = acts.len();
        let mut i: usize = 0;
        while i < n
            invariant
                self.wf(),
                0 <= i <= n,
                n == acts@.len(),
                acts_total == acts_m(acts@),
                self.parser == parser1,
                self.em().theme == em0.theme,
                self.state_view() == old(self).state_view(),
                apply_actions_m(em0.theme, pm0, acts_total, 0) == apply_actions_m(
                    em0.theme,
                    self.pm(),
                    acts_total,
                    i as int,
                ),
            decreases n - i,
        {
            let ghost pmi = self.pm();
            self.apply_action(&acts[i]);
            proof {
                assert(acts_total[i as int] == act_m(acts@[i as int]));
                assert(self.pm() == apply_action_m(em0.theme, pmi, acts_total[i as int]));
            }
            i = i + 1;
        }
        proof {
            assert(self.em() =~~= process_m(em0, data@));
        }
        Ok(())
    }

    /// Feeds a string of output through the emulator, byte for byte.
    pub fn send_output(&mut self, output: &str)
        requires
            old(self).wf(),
        ensures
            final(self).wf(),
            final(self).em() == process_m(old(self).em(), output.spec_bytes()),
            final(self).state_view() == old(self).state_view(),
    {
        let bytes = output.as_bytes();
        let _ = self.process_input(bytes);
    }

    /// One parsed action applied to the screen and attribute state.
    fn apply_action(&mut self, a: &Action)
        requires
            old(self).wf(),
        ensures
            final(self).wf(),
            final(self).pm() == apply_action_m(old(self).em().theme, old(self).pm(), act_m(*a)),
            final(self).parser == old(self).parser,
            final(self).em().theme == old(self).em().theme,
            final(self).state_view() == old(self).state_view(),
    {
        match a {
            Action::Print(c) => {
                self.do_print(*c);
            },
            Action::Execute(b) => {
                self.do_execute(*b);
            },
            Action::CsiDispatch(params, ch) => {
                self.do_csi(params, *ch);
            },
            Action::OscDispatch(params) => {
                self.do_osc(params);
                proof {
                    let pm_a = act_m(*a);
                    assert(pm_a matches ActionModel::Osc(ps) ==> ps == Seq::new(
                        params@.len(),
                        |i: int| params@[i]@,
                    ));
                }
            },
        }
    }

    /// The concrete foreground for the current attributes.
    fn resolve_fg(&self) -> (c: Color)
        ensures
            c == resolve_fg_spec(self.em().theme, self.em().perf.attrs),
    {
        match self.attrs.fg {
            ColorRef::Rgb(r, g, b) => Color::rgb(r, g, b),
            ColorRef::Idx256(i) => self.theme.get_color_256(i),
            ColorRef::Idx(i) => self.theme.get_color(i, self.attrs.bold),
            ColorRef::Default => self.theme.style.foreground,
        }
    }

    /// The concrete background for the current attributes.
    fn resolve_bg(&self) -> (c: Color)
        ensures
            c == resolve_bg_spec(self.em().theme, self.em().perf.attrs),
    {
        match self.attrs.bg {
            ColorRef::Rgb(r, g, b) => Color::rgb(r, g, b),
            ColorRef::Idx256(i) => self.theme.get_color_256(i),
            ColorRef::Idx(i) => self.theme.get_color(i, false),
            ColorRef::Default => self.theme.style.background,
        }
    }

    fn do_print(&mut self, c: char)
        requires
            old(self).wf(),
        ensures
            final(self).wf(),
            final(self).pm() == perf_print_m(old(self).em().theme, old(self).pm(), c),
            final(self).parser == old(self).parser,
            final(self).em().theme == old(self).em().theme,
            final(self).state_view() == old(self).state_view(),
    {
        let width = crate::helpers::get_char_width(c);
        if width == 2 && self.buffer.cursor_col == self.buffer.cols - 1 && self.buffer.cols >= 2 {
            // The character does not fit on this line: fill the skipped
            // trailing cell as a continuation, wrap, and write the glyph at
            // the start of the next row.
            let row = self.buffer.cursor_row;
            let col = self.buffer.cursor_col;
            proof {
                crate::buffer::lemma_grid_index(
                    row as int,
                    col as int,
                    self.buffer.rows as int,
                    self.buffer.cols as int,
                );
            }
            let idx = row * self.buffer.cols + col;
            let fill0 = self.buffer.cells[idx];
            let filler = TerminalCell {
                character: ' ',
                fg_color: self.resolve_fg(),
                bg_color: self.resolve_bg(),
                bold: self.attrs.bold,
                is_continuation: true,
                italic: fill0.italic,
                underline: fill0.underline,
                is_selected: fill0.is_selected,
            };
            self.buffer.cells[idx] = filler;
            let ghost bpre = self.buffer;
            self.buffer.newline();
            proof {
                lemma_newline_bm(bpre, self.buffer);
            }
            let ghost mid = *self;
            self.write_glyph(c, width);
            proof {
                assert(mid.pm() =~~= (PerfModel {
                    buf: bm_newline(bpre.bm()),
                    ..old(self).pm()
                }));
                assert(self.pm() =~~= perf_print_m(old(self).em().theme, old(self).pm(), c));
            }
        } else {
            self.write_glyph(c, width);
            proof {
                assert(self.pm() =~~= perf_print_m(old(self).em().theme, old(self).pm(), c));
            }
        }
    }

    fn write_glyph(&mut self, c: char, width: usize)
        requires
            old(self).wf(),
            width == char_width_spec(c),
        ensures
            final(self).wf(),
            final(self).pm() == perf_glyph_m(
                old(self).em().theme,
                old(self).pm(),
                c,
                width as int,
            ),
            final(self).parser == old(self).parser,
            final(self).em().theme == old(self).em().theme,
            final(self).state_view() == old(self).state_view(),
    {
        let row = self.buffer.cursor_row;
        let col = self.buffer.cursor_col;
        proof {
            crate::buffer::lemma_grid_index(
                row as int,
                col as int,
                self.buffer.rows as int,
                self.buffer.cols as int,
            );
        }
        let idx = row * self.buffer.cols + col;
        let cell0 = self.buffer.cells[idx];
        let fg = self.resolve_fg();
        let bg = self.resolve_bg();
        let cell1 = TerminalCell {
            character: c,
            fg_color: fg,
            bg_color: bg,
            bold: self.attrs.bold,
            is_continuation: false,
            italic: cell0.italic,
            underline: cell0.underline,
            is_selected: cell0.is_selected,
        };
        self.buffer.cells[idx] = cell1;
        if width == 2 && col < self.buffer.cols - 1 {
            proof {
                crate::buffer::lemma_grid_index(
                    row as int,
                    col as int + 1,
                    self.buffer.rows as int,
                    self.buffer.cols as int,
                );
            }
            let next0 = self.buffer.cells[idx + 1];
            let cont = TerminalCell { character: ' ', is_continuation: true, ..next0 };
            self.buffer.cells[idx + 1] = cont;
        }
        if width < self.buffer.cols - col {
            self.buffer.cursor_col = col + width;
        } else {
            let ghost bpre = self.buffer;
            self.buffer.newline();
            proof {
                lemma_newline_bm(bpre, self.buffer);
            }
        }
        crate::strutil::push_char(&mut self.log, c);
        proof {
            assert(self.pm() =~~= perf_glyph_m(
                old(self).em().theme,
                old(self).pm(),
                c,
                width as int,
            ));
        }
    }

    fn do_execute(&mut self, byte: u8)
        requires
            old(self).wf(),
        ensures
            final(self).wf(),
            final(self).pm() == perf_execute_m(old(self).pm(), byte),
            final(self).parser == old(self).parser,
            final(self).em().theme == old(self).em().theme,
            final(self).state_view() == old(self).state_view(),
    {
        if byte == 0x08 || byte == 0x7F {
            self.buffer.backspace();
            proof {
                assert(self.pm() =~~= perf_execute_m(old(self).pm(), byte));
            }
        } else if byte == 0x0A {
            let ghost bpre = self.buffer;
            self.buffer.newline();
            proof {
                lemma_newline_bm(bpre, self.buffer);
            }
            crate::strutil::push_char(&mut self.log, '\n');
            proof {
                assert(self.pm() =~~= perf_execute_m(old(self).pm(), byte));
            }
        } else if byte == 0x0D {
            self.buffer.carriage_return();
            proof {
                assert(self.pm() =~~= perf_execute_m(old(self).pm(), byte));
            }
        } else {
            proof {
                assert(self.pm() =~~= perf_execute_m(old(self).pm(), byte));
            }
        }
    }

    fn do_csi(&mut self, params: &Vec<u16>, ch: char)
        requires
            old(self).wf(),
        ensures
            final(self).wf(),
            final(self).pm() == perf_csi_m(old(self).pm(), params@, ch),
            final(self).parser == old(self).parser,
            final(self).em().theme == old(self).em().theme,
            final(self).state_view() == old(self).state_view(),
    {
        if ch == 'H' || ch == 'f' {
            let v0 = Self::cursor_param_exec(params, 0);
            let v1 = Self::cursor_param_exec(params, 1);
            let r0 = (v0 - 1) as usize;
            let c0 = (v1 - 1) as usize;
            self.buffer.cursor_row = if r0 < self.buffer.rows {
                r0
            } else {
                self.buffer.rows - 1
            };
            self.buffer.cursor_col = if c0 < self.buffer.cols {
                c0
            } else {
                self.buffer.cols - 1
            };
            proof {
                assert(self.pm() =~~= perf_csi_m(old(self).pm(), params@, ch));
            }
        } else if ch == 'A' {
            let n = Self::param_get(params, 0, 1) as usize;
            self.buffer.cursor_row = if self.buffer.cursor_row >= n {
                self.buffer.cursor_row - n
            } else {
                0
            };
            proof {
                assert(self.pm() =~~= perf_csi_m(old(self).pm(), params@, ch));
            }
        } else if ch == 'B' {
            let n = Self::param_get(params, 0, 1) as usize;
            let limit = self.buffer.rows - 1 - self.buffer.cursor_row;
            self.buffer.cursor_row = if n <= limit {
                self.buffer.cursor_row + n
            } else {
                self.buffer.rows - 1
            };
            proof {
                assert(self.pm() =~~= perf_csi_m(old(self).pm(), params@, ch));
            }
        } else if ch == 'C' {
            let n = Self::param_get(params, 0, 1) as usize;
            let limit = self.buffer.cols - 1 - self.buffer.cursor_col;
            self.buffer.cursor_col = if n <= limit {
                self.buffer.cursor_col + n
            } else {
                self.buffer.cols - 1
            };
            proof {
                assert(self.pm() =~~= perf_csi_m(old(self).pm(), params@, ch));
            }
        } else if ch == 'D' {
            let n = Self::param_get(params, 0, 1) as usize;
            self.buffer.cursor_col = if self.buffer.cursor_col >= n {
                self.buffer.cursor_col - n
            } else {
                0
            };
            proof {
                assert(self.pm() =~~= perf_csi_m(old(self).pm(), params@, ch));
            }
        } else if ch == 'K' {
            let mode = Self::param_get(params, 0, 0);
            Self::erase_line_buf(&mut self.buffer, mode);
            proof {
                assert(self.pm() =~~= perf_csi_m(old(self).pm(), params@, ch));
            }
        } else if ch == 'J' {
            let mode = Self::param_get(params, 0, 0);
            Self::erase_display_buf(&mut self.buffer, mode);
            proof {
                assert(self.pm() =~~= perf_csi_m(old(self).pm(), params@, ch));
            }
        } else if ch == 'm' {
            self.attrs = Self::apply_sgr_exec(self.attrs, params);
            proof {
                assert(self.pm() =~~= perf_csi_m(old(self).pm(), params@, ch));
            }
        } else {
            proof {
                assert(self.pm() =~~= perf_csi_m(old(self).pm(), params@, ch));
            }
        }
    }

    /// A 1-based cursor coordinate parameter: missing and zero mean 1.
    fn cursor_param_exec(params: &Vec<u16>, i: usize) -> (r: u16)
        ensures
            r as int == cursor_param(params@, i as int),
            r >= 1,
    {
        let v = Self::param_get(params, i, 1);
        if v == 0 {
            1
        } else {
            v
        }
    }

    fn param_get(params: &Vec<u16>, i: usize, d: u16) -> (r: u16)
        ensures
            r == param_or(params@, i as int, d),
    {
        if i < params.len() {
            params[i]
        } else {
            d
        }
    }

    fn erase_line_buf(buf: &mut TerminalBuffer, mode: u16)
        requires
            old(buf).wf(),
        ensures
            final(buf).wf(),
            final(buf).bm() == bm_erase_line(old(buf).bm(), mode),
    {
        if mode > 2 {
            proof {
                assert(final(buf).bm() =~~= bm_erase_line(old(buf).bm(), mode));
            }
            return ;
        }
        proof {
            crate::buffer::lemma_grid_index(
                buf.cursor_row as int,
                buf.cursor_col as int,
                buf.rows as int,
                buf.cols as int,
            );
            crate::buffer::lemma_grid_index(
                buf.cursor_row as int,
                buf.cols as int - 1,
                buf.rows as int,
                buf.cols as int,
            );
        }
        let row0 = buf.cursor_row * buf.cols;
        let lo = if mode == 0 {
            row0 + buf.cursor_col
        } else {
            row0
        };
        let hi = if mode == 1 {
            row0 + buf.cursor_col + 1
        } else {
            row0 + buf.cols
        };
        let mut i = lo;
        while i < hi
            invariant
                old(buf).wf(),
                lo <= i <= hi,
                hi <= buf.cells@.len(),
                *buf == (TerminalBuffer { cells: buf.cells, ..*old(buf) }),
                buf.cells@.len() == old(buf).cells@.len(),
                forall|j: int|
                    0 <= j < buf.cells@.len() ==> #[trigger] buf.cells@[j] == if lo <= j < i {
                        TerminalCell::default_spec()
                    } else {
                        old(buf).cells@[j]
                    },
            decreases hi - i,
        {
            self_erase_one(buf, i);
            i = i + 1;
        }
        proof {
            assert(final(buf).bm().cells =~= bm_erase_line(old(buf).bm(), mode).cells);
            assert(final(buf).bm() =~~= bm_erase_line(old(buf).bm(), mode));
        }
    }

    fn erase_display_buf(buf: &mut TerminalBuffer, mode: u16)
        requires
            old(buf).wf(),
        ensures
            final(buf).wf(),
            final(buf).bm() == bm_erase_display(old(buf).bm(), mode),
    {
        proof {
            crate::buffer::lemma_grid_index(
                buf.cursor_row as int,
                buf.cursor_col as int,
                buf.rows as int,
                buf.cols as int,
            );
        }
        let at = buf.cursor_row * buf.cols + buf.cursor_col;
        let total = buf.cells.len();
        if mode == 0 {
            let mut i = at;
            while i < total
                invariant
                    old(buf).wf(),
                    at <= i <= total,
                    total == buf.cells@.len(),
                    *buf == (TerminalBuffer { cells: buf.cells, ..*old(buf) }),
                    buf.cells@.len() == old(buf).cells@.len(),
                    forall|j: int|
                        0 <= j < buf.cells@.len() ==> #[trigger] buf.cells@[j] == if at <= j < i {
                            TerminalCell::default_spec()
                        } else {
                            old(buf).cells@[j]
                        },
                decreases total - i,
            {
                self_erase_one(buf, i);
                i = i + 1;
            }
            proof {
                assert(final(buf).bm().cells =~= bm_erase_display(old(buf).bm(), mode).cells);
                assert(final(buf).bm() =~~= bm_erase_display(old(buf).bm(), mode));
            }
        } else if mode == 1 {
            let mut i: usize = 0;
            while i < at + 1
                invariant
                    old(buf).wf(),
                    0 <= i <= at + 1,
                    at < buf.cells@.len(),
                    *buf == (TerminalBuffer { cells: buf.cells, ..*old(buf) }),
                    buf.cells@.len() == old(buf).cells@.len(),
                    forall|j: int|
                        0 <= j < buf.cells@.len() ==> #[trigger] buf.cells@[j] == if 0 <= j < i {
                            TerminalCell::default_spec()
                        } else {
                            old(buf).cells@[j]
                        },
                decreases at + 1 - i,
            {
                self_erase_one(buf, i);
                i = i + 1;
            }
            proof {
                assert(final(buf).bm().cells =~= bm_erase_display(old(buf).bm(), mode).cells);
                assert(final(buf).bm() =~~= bm_erase_display(old(buf).bm(), mode));
            }
        } else {
            buf.clear();
            proof {
                assert(final(buf).bm().cells =~= bm_erase_display(old(buf).bm(), mode).cells);
                assert(final(buf).bm() =~~= bm_erase_display(old(buf).bm(), mode));
            }
        }
    }

    /// One SGR parameter list applied to the attribute state.
    fn apply_sgr_exec(attrs0: AttrState, params: &Vec<u16>) -> (r: AttrState)
        ensures
            r == if params@.len() == 0 {
                AttrState::reset_spec()
            } else {
                sgr_apply(attrs0, params@, 0)
            },
    {
        if params.len() == 0 {
            return AttrState { fg: ColorRef::Default, bg: ColorRef::Default, bold: false };
        }
        let mut attrs = attrs0;
        let n = params.len();
        let mut i: usize = 0;
        while i < n
            invariant_except_break
                0 <= i <= n,
                n == params@.len(),
                sgr_apply(attrs0, params@, 0) == sgr_apply(attrs, params@, i as int),
            ensures
                attrs == sgr_apply(attrs0, params@, 0),
            decreases n - i,
        {
            let p = params[i];
            if p == 0 {
                attrs = AttrState { fg: ColorRef::Default, bg: ColorRef::Default, bold: false };
                i = i + 1;
            } else if p == 1 {
                attrs = AttrState { bold: true, ..attrs };
                i = i + 1;
            } else if 30 <= p && p <= 37 {
                attrs = AttrState { fg: ColorRef::Idx((p - 30) as u8), ..attrs };
                i = i + 1;
            } else if 40 <= p && p <= 47 {
                attrs = AttrState { bg: ColorRef::Idx((p - 40) as u8), ..attrs };
                i = i + 1;
            } else if 90 <= p && p <= 97 {
                attrs = AttrState { fg: ColorRef::Idx((p - 90 + 8) as u8), ..attrs };
                i = i + 1;
            } else if 100 <= p && p <= 107 {
                attrs = AttrState { bg: ColorRef::Idx((p - 100 + 8) as u8), ..attrs };
                i = i + 1;
            } else if p == 38 || p == 48 {
                let before = attrs;
                attrs = Self::sgr_extended_exec(before, params, i);
                proof {
                    assert(sgr_apply(before, params@, i as int) == sgr_extended(
                        before,
                        params@,
                        i as int,
                    ));
                }
                break ;
            } else {
                i = i + 1;
            }
        }
        attrs
    }

    fn sgr_extended_exec(attrs: AttrState, params: &Vec<u16>, i: usize) -> (r: AttrState)
        requires
            i < params@.len(),
            params@[i as int] == 38 || params@[i as int] == 48,
        ensures
            r == sgr_extended(attrs, params@, i as int),
    {
        let n = params.len();
        let fg = params[i] == 38;
        if n - i > 2 && params[i + 1] == 5 {
            let cref = ColorRef::Idx256(params[i + 2]);
            if fg {
                AttrState { fg: cref, ..attrs }
            } else {
                AttrState { bg: cref, ..attrs }
            }
        } else if n - i > 4 && params[i + 1] == 2 {
            let cref = ColorRef::Rgb(
                (params[i + 2] % 256) as u8,
                (params[i + 3] % 256) as u8,
                (params[i + 4] % 256) as u8,
            );
            if fg {
                AttrState { fg: cref, ..attrs }
            } else {
                AttrState { bg: cref, ..attrs }
            }
        } else {
            attrs
        }
    }

    fn do_osc(&mut self, params: &Vec<Vec<u8>>)
        requires
            old(self).wf(),
        ensures
            final(self).wf(),
            final(self).pm() == perf_osc_m(
                old(self).pm(),
                Seq::new(params@.len(), |i: int| params@[i]@),
            ),
            final(self).parser == old(self).parser,
            final(self).em().theme == old(self).em().theme,
            final(self).state_view() == old(self).state_view(),
    {
        let ghost ps = Seq::new(params@.len(), |i: int| params@[i]@);
        if params.len() >= 2 {
            let first = &params[0];
            let is_title = first.len() == 1 && (first[0] == 0x30 || first[0] == 0x32);
            proof {
                if is_title {
                    if first@[0] == 0x30 {
                        assert(ps[0] =~= seq![0x30u8]);
                    } else {
                        assert(ps[0] =~= seq![0x32u8]);
                    }
                } else {
                    assert(ps[0] != seq![0x30u8] && ps[0] != seq![0x32u8]) by {
                        if first@.len() != 1 {
                            assert(ps[0].len() != 1);
                        }
                    }
                }
            }
            if is_title {
                let title = crate::textenc::decode_lossy(params[1].as_slice());
                self.titles.push(title);
                proof {
                    assert(self.pm().titles =~= old(self).pm().titles.push(lossy_decode(ps[1])));
                    assert(self.pm() =~~= perf_osc_m(old(self).pm(), ps));
                }
            } else {
                proof {
                    assert(self.pm() =~~= perf_osc_m(old(self).pm(), ps));
                }
            }
        } else {
            proof {
                assert(self.pm() =~~= perf_osc_m(old(self).pm(), ps));
            }
        }
    }
}

impl TerminalEmulator {
    /// An owned snapshot of the screen buffer, for painting.
    pub fn buffer(&self) -> (b: TerminalBuffer)
        requires
            self.wf(),
        ensures
            b.wf(),
            b.bm() == self.em().perf.buf,
    {
        let b = self.buffer.snapshot();
        proof {
            assert(b.bm().history =~= self.buffer.bm().history);
            assert(b.bm() =~~= self.buffer.bm());
        }
        b
    }

    /// The plain text fed through the terminal so far: printed characters
    /// and line feeds.
    pub fn get_buffer(&self) -> (s: String)
        ensures
            s@ == self.em().perf.log,
    {
        self.log.clone()
    }

    /// The window titles announced so far, oldest first.
    pub fn titles(&self) -> (t: &Vec<String>)
        ensures
            t@.len() == self.em().perf.titles.len(),
            forall|i: int|
                0 <= i < t@.len() ==> (#[trigger] t@[i])@ == self.em().perf.titles[i],
    {
        &self.titles
    }

    /// Replaces the color theme used to resolve attributes from now on.
    pub fn update_theme(&mut self, theme: TerminalTheme)
        requires
            old(self).wf(),
        ensures
            final(self).wf(),
            final(self).em() == (EmuModel { theme, ..old(self).em() }),
            final(self).state_view() == old(self).state_view(),
    {
        self.theme = theme;
        proof {
            assert(final(self).em() =~~= (EmuModel { theme, ..old(self).em() }));
        }
    }

    /// The connection state.
    pub fn state(&self) -> (s: &TerminalState)
        ensures
            s == self.state_view(),
    {
        &self.state
    }

    /// Records the connection state.
    pub fn set_state(&mut self, state: TerminalState)
        requires
            old(self).wf(),
        ensures
            final(self).wf(),
            final(self).em() == old(self).em(),
            final(self).state_view() == state,
    {
        self.state = state;
    }

    /// Clears the screen, homes the cursor and empties the text log;
    /// scrollback, attributes and titles stay.
    pub fn clear(&mut self)
        requires
            old(self).wf(),
        ensures
            final(self).wf(),
            final(self).em() == (EmuModel {
                perf: PerfModel {
                    buf: bm_clear(old(self).em().perf.buf),
                    log: Seq::<char>::empty(),
                    ..old(self).em().perf
                },
                ..old(self).em()
            }),
            final(self).state_view() == old(self).state_view(),
    {
        self.buffer.clear();
        self.log = String::new();
        proof {
            assert(self.buffer.bm() =~~= bm_clear(old(self).em().perf.buf));
            assert(final(self).em() =~~= (EmuModel {
                perf: PerfModel {
                    buf: bm_clear(old(self).em().perf.buf),
                    log: Seq::<char>::empty(),
                    ..old(self).em().perf
                },
                ..old(self).em()
            }));
        }
    }

    /// Resizes the grid, copying the overlapping content and clamping the
    /// cursor; scrollback keeps its rows at their original width.
    pub fn resize(&mut self, rows: usize, cols: usize)
        requires
            old(self).wf(),
            1 <= rows,
            1 <= cols,
            rows * cols <= usize::MAX,
        ensures
            final(self).wf(),
            final(self).em().theme == old(self).em().theme,
            final(self).em().parser == old(self).em().parser,
            final(self).em().perf.attrs == old(self).em().perf.attrs,
            final(self).em().perf.log == old(self).em().perf.log,
            final(self).em().perf.titles == old(self).em().perf.titles,
            final(self).state_view() == old(self).state_view(),
            rows == old(self).buf_view().rows && cols == old(self).buf_view().cols ==> final(self).em().perf.buf == old(self).em().perf.buf,
            !(rows == old(self).buf_view().rows && cols == old(self).buf_view().cols) ==> {
                let pre = old(self).em().perf.buf;
                let post = final(self).em().perf.buf;
                &&& post.rows == rows
                &&& post.cols == cols
                &&& post.history == pre.history
                &&& post.max_history == pre.max_history
                &&& post.selection == pre.selection
                &&& post.cursor_row == min_int(pre.cursor_row, rows - 1)
                &&& post.cursor_col == min_int(pre.cursor_col, cols - 1)
                &&& post.cells.len() == rows * cols
                &&& forall|r: int, c: int|
                    0 <= r < rows && 0 <= c < cols ==> #[trigger] cell_at(post.cells, cols as int, r, c)
                        == if r < pre.rows && c < pre.cols {
                        cell_at(pre.cells, pre.cols, r, c)
                    } else {
                        TerminalCell::default_spec()
                    }
            },
    {
        self.buffer.resize(rows, cols);
        proof {
            if rows == old(self).buf_view().rows && cols == old(self).buf_view().cols {
                assert(final(self).em().perf.buf =~~= old(self).em().perf.buf);
            } else {
                assert(final(self).em().perf.buf.history =~= old(self).em().perf.buf.history);
            }
        }
    }

    /// Starts a selection at a unified-space point and paints its
    /// highlight.
    pub fn start_selection(&mut self, row: usize, col: usize)
        requires
            old(self).wf(),
        ensures
            final(self).wf(),
            final(self).buf_view().selection == Some(
                SelectionRange { start_row: row, start_col: col, end_row: row, end_col: col },
            ),
            TerminalBuffer::highlight_model(
                old(self).buf_view(),
                final(self).buf_view(),
                final(self).buf_view().selection,
            ),
            final(self).em().perf.attrs == old(self).em().perf.attrs,
            final(self).em().perf.log == old(self).em().perf.log,
            final(self).em().perf.titles == old(self).em().perf.titles,
            final(self).em().theme == old(self).em().theme,
            final(self).em().parser == old(self).em().parser,
            final(self).state_view() == old(self).state_view(),
    {
        self.buffer.start_selection(row, col);
    }

    /// Moves the floating end of the selection and repaints its highlight.
    pub fn update_selection(&mut self, row: usize, col: usize)
        requires
            old(self).wf(),
        ensures
            final(self).wf(),
            old(self).buf_view().selection is None ==> *final(self) == *old(self),
            old(self).buf_view().selection matches Some(sel) ==> {
                &&& final(self).buf_view().selection == Some(
                    SelectionRange { end_row: row, end_col: col, ..sel },
                )
                &&& TerminalBuffer::highlight_model(
                    old(self).buf_view(),
                    final(self).buf_view(),
                    final(self).buf_view().selection,
                )
            },
            final(self).em().perf.attrs == old(self).em().perf.attrs,
            final(self).em().perf.log == old(self).em().perf.log,
            final(self).em().perf.titles == old(self).em().perf.titles,
            final(self).em().theme == old(self).em().theme,
            final(self).em().parser == old(self).em().parser,
            final(self).state_view() == old(self).state_view(),
    {
        self.buffer.update_selection(row, col);
    }

    /// Drops the selection and clears every highlight flag.
    pub fn clear_selection(&mut self)
        requires
            old(self).wf(),
        ensures
            final(self).wf(),
            final(self).buf_view().selection is None,
            TerminalBuffer::highlight_model(old(self).buf_view(), final(self).buf_view(), None),
            final(self).em().perf.attrs == old(self).em().perf.attrs,
            final(self).em().perf.log == old(self).em().perf.log,
            final(self).em().perf.titles == old(self).em().perf.titles,
            final(self).em().theme == old(self).em().theme,
            final(self).em().parser == old(self).em().parser,
            final(self).state_view() == old(self).state_view(),
    {
        self.buffer.clear_selection();
    }

    /// The selected text, `None` without a selection, for a zero-width
    /// selection, or when nothing is covered.
    pub fn get_selected_text(&self) -> (r: Option<String>)
        requires
            self.wf(),
        ensures
            match r {
                Some(s) => self.buf_view().selected_text_spec() == Some(s@),
                None => self.buf_view().selected_text_spec() is None,
            },
    {
        self.buffer.get_selected_text()
    }
}

/// Applying any action list never changes the scrollback bound.
pub proof fn lemma_actions_keep_max_history(
    theme: TerminalTheme,
    p: PerfModel,
    acts: Seq<ActionModel>,
    i: int,
)
    ensures
        apply_actions_m(theme, p, acts, i).buf.max_history == p.buf.max_history,
    decreases acts.len() - i,
{
    if i < 0 || i >= acts.len() {
    } else {
        let p1 = apply_action_m(theme, p, acts[i]);
        assert(p1.buf.max_history == p.buf.max_history);
        lemma_actions_keep_max_history(theme, p1, acts, i + 1);
    }
}

/// A terminal emulator backend: feeds bytes in, hands buffer snapshots
/// out, and carries the selection surface.  Both engine implementations
/// satisfy it, so a presentation layer can stay backend-agnostic.
pub trait TerminalEmulatorTrait: Sized {
    /// The backend's standing invariant, preserved by every operation.
    spec fn tinv(&self) -> bool;

    /// The backend's screen buffer, as an abstract value the contracts
    /// below speak of.
    spec fn abs_buffer(&self) -> TerminalBuffer;

    /// The invariant keeps the abstract buffer well formed.
    proof fn tinv_wf(&self)
        requires
            self.tinv(),
        ensures
            self.abs_buffer().wf(),
    ;

    /// Feeds raw bytes into the backend.
    fn process_input(&mut self, data: &[u8]) -> (r: Result<(), TerminalError>)
        requires
            old(self).tinv(),
        ensures
            final(self).tinv(),
    ;

    /// An owned, well-formed snapshot of the screen buffer.
    fn buffer(&self) -> (b: TerminalBuffer)
        requires
            self.tinv(),
        ensures
            b.wf(),
            b.bm() == self.abs_buffer().bm(),
    ;

    /// Resizes the grid: a no-op for the current dimensions, otherwise
    /// the overlapping content is copied, the rest defaults, and the
    /// cursor is clamped; scrollback rows keep their width.
    fn resize(&mut self, rows: usize, cols: usize)
        requires
            old(self).tinv(),
            1 <= rows,
            1 <= cols,
            rows * cols <= usize::MAX,
        ensures
            final(self).tinv(),
            rows == old(self).abs_buffer().rows && cols == old(self).abs_buffer().cols ==> final(self).abs_buffer().bm() == old(self).abs_buffer().bm(),
            !(rows == old(self).abs_buffer().rows && cols == old(self).abs_buffer().cols) ==> {
                let pre = old(self).abs_buffer().bm();
                let post = final(self).abs_buffer().bm();
                &&& post.rows == rows
                &&& post.cols == cols
                &&& post.history == pre.history
                &&& post.max_history == pre.max_history
                &&& post.selection == pre.selection
                &&& post.cursor_row == min_int(pre.cursor_row, rows - 1)
                &&& post.cursor_col == min_int(pre.cursor_col, cols - 1)
                &&& post.cells.len() == rows * cols
                &&& forall|r: int, c: int|
                    0 <= r < rows && 0 <= c < cols ==> #[trigger] cell_at(post.cells, cols as int, r, c)
                        == if r < pre.rows && c < pre.cols {
                        cell_at(pre.cells, pre.cols, r, c)
                    } else {
                        TerminalCell::default_spec()
                    }
            },
    ;

    /// Replaces the color theme.
    fn update_theme(&mut self, theme: TerminalTheme)
        requires
            old(self).tinv(),
        ensures
            final(self).tinv(),
    ;

    /// The connection state.
    fn state(&self) -> &TerminalState;

    /// Records the connection state.
    fn set_state(&mut self, state: TerminalState)
        requires
            old(self).tinv(),
        ensures
            final(self).tinv(),
    ;

    /// Clears the live grid and homes the cursor; scrollback stays.
    fn clear(&mut self)
        requires
            old(self).tinv(),
        ensures
            final(self).tinv(),
            final(self).abs_buffer().bm() == bm_clear(old(self).abs_buffer().bm()),
    ;

    /// Starts a selection at a unified-space point and repaints the
    /// highlight.
    fn start_selection(&mut self, row: usize, col: usize)
        requires
            old(self).tinv(),
        ensures
            final(self).tinv(),
            final(self).abs_buffer().selection == Some(
                SelectionRange { start_row: row, start_col: col, end_row: row, end_col: col },
            ),
            TerminalBuffer::highlight_model(
                old(self).abs_buffer(),
                final(self).abs_buffer(),
                final(self).abs_buffer().selection,
            ),
    ;

    /// Moves the floating end of the selection and repaints; without a
    /// selection this does nothing.
    fn update_selection(&mut self, row: usize, col: usize)
        requires
            old(self).tinv(),
        ensures
            final(self).tinv(),
            old(self).abs_buffer().selection is None ==> final(self).abs_buffer() == old(
                self,
            ).abs_buffer(),
            old(self).abs_buffer().selection matches Some(sel) ==> {
                &&& final(self).abs_buffer().selection == Some(
                    SelectionRange { end_row: row, end_col: col, ..sel },
                )
                &&& TerminalBuffer::highlight_model(
                    old(self).abs_buffer(),
                    final(self).abs_buffer(),
                    final(self).abs_buffer().selection,
                )
            },
    ;

    /// Drops the selection and clears every highlight flag.
    fn clear_selection(&mut self)
        requires
            old(self).tinv(),
        ensures
            final(self).tinv(),
            final(self).abs_buffer().selection is None,
            TerminalBuffer::highlight_model(old(self).abs_buffer(), final(self).abs_buffer(), None),
    ;

    /// The selected text: `None` without a selection, for a zero-width
    /// one, or when nothing is covered.
    fn get_selected_text(&self) -> (r: Option<String>)
        requires
            self.tinv(),
        ensures
            match r {
                Some(s) => self.abs_buffer().selected_text_spec() == Some(s@),
                None => self.abs_buffer().selected_text_spec() is None,
            },
    ;
}

impl TerminalEmulatorTrait for TerminalEmulator {
    open spec fn tinv(&self) -> bool {
        self.wf() && self.buf_view().max_history == 1000
    }

    open spec fn abs_buffer(&self) -> TerminalBuffer {
        self.buf_view()
    }

    proof fn tinv_wf(&self) {
    }

    fn process_input(&mut self, data: &[u8]) -> (r: Result<(), TerminalError>) {
        let ghost em0 = self.em();
        let r = TerminalEmulator::process_input(self, data);
        proof {
            lemma_actions_keep_max_history(
                em0.theme,
                em0.perf,
                run_m(em0.parser, data@, 0).1,
                0,
            );
        }
        r
    }

    fn buffer(&self) -> (b: TerminalBuffer) {
        TerminalEmulator::buffer(self)
    }

    fn resize(&mut self, rows: usize, cols: usize) {
        TerminalEmulator::resize(self, rows, cols)
    }

    fn update_theme(&mut self, theme: TerminalTheme) {
        TerminalEmulator::update_theme(self, theme)
    }

    fn state(&self) -> &TerminalState {
        TerminalEmulator::state(self)
    }

    fn set_state(&mut self, state: TerminalState) {
        TerminalEmulator::set_state(self, state)
    }

    fn clear(&mut self) {
        TerminalEmulator::clear(self)
    }

    fn start_selection(&mut self, row: usize, col: usize) {
        TerminalEmulator::start_selection(self, row, col)
    }

    fn update_selection(&mut self, row: usize, col: usize) {
        TerminalEmulator::update_selection(self, row, col)
    }

    fn clear_selection(&mut self) {
        TerminalEmulator::clear_selection(self)
    }

    fn get_selected_text(&self) -> Option<String> {
        TerminalEmulator::get_selected_text(self)
    }
}

/// Sets one cell of the flat vector to the default cell.
fn self_erase_one(buf: &mut TerminalBuffer, i: usize)
    requires
        i < old(buf).cells@.len(),
    ensures
        *final(buf) == (TerminalBuffer { cells: final(buf).cells, ..*old(buf) }),
        final(buf).cells@ == old(buf).cells@.update(i as int, TerminalCell::default_spec()),
{
    buf.cells[i] = TerminalCell::default();
}

/// An exec `newline` call matches the model transition [`bm_newline`].
pub proof fn lemma_newline_bm(pre: TerminalBuffer, post: TerminalBuffer)
    requires
        pre.wf(),
        pre.cursor_row + 1 < pre.rows ==> post == (TerminalBuffer {
            cursor_row: (pre.cursor_row + 1) as usize,
            cursor_col: 0,
            ..pre
        }),
        pre.cursor_row + 1 == pre.rows ==> {
            let evict = pre.history@.len() == pre.max_history;
            let shift = if evict { 1int } else { 0int };
            &&& post.rows == pre.rows
            &&& post.cols == pre.cols
            &&& post.cursor_row == pre.cursor_row
            &&& post.cursor_col == 0
            &&& post.max_history == pre.max_history
            &&& post.selection == pre.selection
            &&& post.history@.len() == pre.history@.len() + 1 - shift
            &&& forall|h: int|
                0 <= h < pre.history@.len() - shift ==> post.history@[h] == pre.history@[h + shift]
            &&& post.history@.last()@ == pre.cells@.subrange(0, pre.cols as int)
            &&& post.cells@.len() == pre.cells@.len()
            &&& forall|i: int|
                0 <= i < (pre.rows - 1) * pre.cols ==> post.cells@[i] == pre.cells@[i + pre.cols]
            &&& forall|i: int|
                (pre.rows - 1) * pre.cols <= i < pre.rows * pre.cols ==> post.cells@[i]
                    == TerminalCell::default_spec()
        },
    ensures
        post.bm() == bm_newline(pre.bm()),
{
    if pre.cursor_row + 1 < pre.rows {
        assert(post.bm().history =~= pre.bm().history);
        assert(post.bm() =~~= bm_newline(pre.bm()));
    } else {
        crate::buffer::lemma_shift_bound(pre.rows as int, pre.cols as int);
        assert(post.bm().cells =~= bm_newline(pre.bm()).cells);
        let top = pre.bm().cells.subrange(0, pre.bm().cols);
        let pushed = pre.bm().history.push(top);
        if pre.history@.len() == pre.max_history {
            assert(post.bm().history =~= pushed.subrange(1, pushed.len() as int));
        } else {
            assert(post.bm().history =~= pushed);
        }
        assert(post.bm() =~~= bm_newline(pre.bm()));
    }
}


} // verus!
