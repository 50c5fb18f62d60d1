//! An alternate, text-oriented emulator backend: input is decoded to
//! characters first, only SGR escape sequences are interpreted, and tabs are
//! expanded to spaces.  It satisfies the same backend trait as the main
//! emulator.

use vstd::prelude::*;

use crate::buffer::TerminalBuffer;
use crate::cell::TerminalCell;
use crate::emulator::{
    bm_newline, BufModel, TerminalEmulatorTrait, TerminalError, TerminalState,
};
use crate::textenc::lossy_decode;
use crate::theme::TerminalTheme;

verus! {

/// The adapter's SGR context: 16-color indices only.
#[derive(Clone, Copy, Debug, PartialEq, Eq, Structural)]
pub struct WezAttrs {
    pub fg: Option<u8>,
    pub bg: Option<u8>,
    pub bold: bool,
}

/// The abstract adapter state: the buffer, the SGR context, and the input
/// history (most recent last, capped at 100 entries).
#[verifier::ext_equal]
pub struct WezModel {
    pub buf: BufModel,
    pub attrs: WezAttrs,
    pub outputs: Seq<Seq<char>>,
}

/// The in-call scanner state: plain text, after an ESC, or collecting an
/// escape sequence.
pub enum WezScan {
    Norm,
    SawEsc,
    InSeq(Seq<char>),
}

/// The foreground a printed cell takes under the adapter's SGR context.
pub open spec fn wez_fg_spec(theme: TerminalTheme, attrs: WezAttrs) -> crate::cell::Color {
    match attrs.fg {
        Some(i) => theme.style.get_color_spec(i, attrs.bold),
        None => theme.style.foreground,
    }
}

/// The background a printed cell takes under the adapter's SGR context.
pub open spec fn wez_bg_spec(theme: TerminalTheme, attrs: WezAttrs) -> crate::cell::Color {
    match attrs.bg {
        Some(i) => theme.style.get_color_spec(i, false),
        None => theme.style.background,
    }
}

/// One printable character written at the cursor: the cell takes the
/// character, the resolved colors and the bold flag; the cursor advances,
/// wrapping through a line feed at the line end.
pub open spec fn wez_write_spec(theme: TerminalTheme, m: WezModel, ch: char) -> WezModel {
    let b = m.buf;
    let idx = b.cursor_row * b.cols + b.cursor_col;
    let cell0 = b.cells[idx];
    let cell1 = TerminalCell {
        character: ch,
        fg_color: wez_fg_spec(theme, m.attrs),
        bg_color: wez_bg_spec(theme, m.attrs),
        bold: m.attrs.bold,
        ..cell0
    };
    let b1 = BufModel { cells: b.cells.update(idx, cell1), ..b };
    let b2 = if b.cursor_col + 1 < b.cols {
        BufModel { cursor_col: b.cursor_col + 1, ..b1 }
    } else {
        bm_newline(b1)
    };
    WezModel { buf: b2, ..m }
}

/// One character applied to the screen: line feed, carriage return, tab
/// expansion to the next 8-column stop (wrapping at the line end), or a
/// plain write.
pub open spec fn wez_putc_spec(theme: TerminalTheme, m: WezModel, ch: char) -> WezModel
    decreases 9int,
{
    if ch == '\n' {
        WezModel { buf: bm_newline(m.buf), ..m }
    } else if ch == '\r' {
        WezModel { buf: BufModel { cursor_col: 0, ..m.buf }, ..m }
    } else if ch == '\t' {
        let next = (m.buf.cursor_col / 8 + 1) * 8;
        let stop = if next < m.buf.cols {
            next
        } else {
            m.buf.cols
        };
        wez_tab_spec(theme, m, stop)
    } else {
        wez_write_spec(theme, m, ch)
    }
}

/// Spaces written from the cursor up to column `stop` (exclusive); if the
/// stop is the line end the cursor wraps through a line feed.
pub open spec fn wez_tab_spec(theme: TerminalTheme, m: WezModel, stop: int) -> WezModel {
    let b = m.buf;
    let row0 = b.cursor_row * b.cols;
    let cells2 = Seq::new(
        b.cells.len(),
        |i: int|
            if row0 + b.cursor_col <= i < row0 + stop {
                TerminalCell {
                    character: ' ',
                    fg_color: wez_fg_spec(theme, m.attrs),
                    bg_color: wez_bg_spec(theme, m.attrs),
                    bold: m.attrs.bold,
                    ..b.cells[i]
                }
            } else {
                b.cells[i]
            },
    );
    let b1 = BufModel { cells: cells2, ..b };
    let b2 = if stop < b.cols {
        BufModel { cursor_col: stop, ..b1 }
    } else {
        bm_newline(b1)
    };
    WezModel { buf: b2, ..m }
}

/// The numeric value of an SGR token: decimal digits only, within `u8`
/// range; anything else parses to nothing.
pub open spec fn parse_code_spec(t: Seq<char>) -> Option<u8> {
    if t.len() >= 1 && (forall|i: int| 0 <= i < t.len() ==> '0' <= #[trigger] t[i] <= '9')
        && token_value_spec(t) <= 255 {
        Some(token_value_spec(t) as u8)
    } else {
        None
    }
}

/// The decimal value of a digit string.
pub open spec fn token_value_spec(t: Seq<char>) -> int
    decreases t.len(),
{
    if t.len() == 0 {
        0
    } else {
        token_value_spec(t.drop_last()) * 10 + (t.last() as int - '0' as int)
    }
}

/// One parsed SGR code folded into the attribute state.
pub open spec fn wez_code_spec(attrs: WezAttrs, code: u8) -> WezAttrs {
    if code == 0 {
        WezAttrs { fg: None, bg: None, bold: false }
    } else if code == 1 {
        WezAttrs { bold: true, ..attrs }
    } else if code == 22 {
        WezAttrs { bold: false, ..attrs }
    } else if 30 <= code && code <= 37 {
        WezAttrs { fg: Some((code - 30) as u8), ..attrs }
    } else if code == 39 {
        WezAttrs { fg: None, ..attrs }
    } else if 40 <= code && code <= 47 {
        WezAttrs { bg: Some((code - 40) as u8), ..attrs }
    } else if code == 49 {
        WezAttrs { bg: None, ..attrs }
    } else if 90 <= code && code <= 97 {
        WezAttrs { fg: Some((code - 90 + 8) as u8), ..attrs }
    } else if 100 <= code && code <= 107 {
        WezAttrs { bg: Some((code - 100 + 8) as u8), ..attrs }
    } else {
        attrs
    }
}

/// The `;`-separated tokens of an SGR body, applied in order; unparsable
/// tokens are skipped.  `cur` is the token still being collected.
pub open spec fn wez_sgr_scan_spec(attrs: WezAttrs, body: Seq<char>, i: int, cur: Seq<char>)
    -> WezAttrs
    decreases body.len() - i,
{
    if i < 0 || i >= body.len() {
        match parse_code_spec(cur) {
            Some(code) => wez_code_spec(attrs, code),
            None => attrs,
        }
    } else if body[i] == ';' {
        let attrs2 = match parse_code_spec(cur) {
            Some(code) => wez_code_spec(attrs, code),
            None => attrs,
        };
        wez_sgr_scan_spec(attrs2, body, i + 1, Seq::empty())
    } else {
        wez_sgr_scan_spec(attrs, body, i + 1, cur.push(body[i]))
    }
}

/// A whole SGR body applied to the attribute state: an empty body resets
/// everything, otherwise its tokens are folded in order.
pub open spec fn wez_sgr_spec(attrs: WezAttrs, body: Seq<char>) -> WezAttrs {
    if body.len() == 0 {
        WezAttrs { fg: None, bg: None, bold: false }
    } else {
        wez_sgr_scan_spec(attrs, body, 0, Seq::empty())
    }
}

/// Whether a character ends an escape sequence.
pub open spec fn is_alpha_spec(c: char) -> bool {
    ('a' <= c && c <= 'z') || ('A' <= c && c <= 'Z')
}

/// One decoded character through the scanner.
pub open spec fn wez_scan_step_spec(theme: TerminalTheme, m: WezModel, st: WezScan, ch: char)
    -> (WezModel, WezScan) {
    match st {
        WezScan::Norm => {
            if ch == '\u{1b}' {
                (m, WezScan::SawEsc)
            } else {
                (wez_putc_spec(theme, m, ch), WezScan::Norm)
            }
        },
        WezScan::SawEsc => {
            if ch == '[' {
                (m, WezScan::InSeq(Seq::empty()))
            } else {
                let m2 = wez_putc_spec(theme, m, '\u{1b}');
                if ch == '\u{1b}' {
                    (m2, WezScan::SawEsc)
                } else {
                    (wez_putc_spec(theme, m2, ch), WezScan::Norm)
                }
            }
        },
        WezScan::InSeq(body) => {
            if is_alpha_spec(ch) {
                if ch == 'm' {
                    (WezModel { attrs: wez_sgr_spec(m.attrs, body), ..m }, WezScan::Norm)
                } else {
                    (m, WezScan::Norm)
                }
            } else {
                (m, WezScan::InSeq(body.push(ch)))
            }
        },
    }
}

/// The decoded characters of one input run through the scanner from index
/// `i`; a trailing lone ESC is written out as a plain character.
pub open spec fn wez_run_spec(theme: TerminalTheme, m: WezModel, st: WezScan, cs: Seq<char>, i: int)
    -> WezModel
    decreases cs.len() - i,
{
    if i < 0 || i >= cs.len() {
        match st {
            WezScan::SawEsc => wez_putc_spec(theme, m, '\u{1b}'),
            _ => m,
        }
    } else {
        let s = wez_scan_step_spec(theme, m, st, cs[i]);
        wez_run_spec(theme, s.0, s.1, cs, i + 1)
    }
}

/// The input history after recording one more input: capped at the 100
/// most recent entries, oldest evicted first.
pub open spec fn wez_record_spec(outputs: Seq<Seq<char>>, text: Seq<char>) -> Seq<Seq<char>> {
    let pushed = outputs.push(text);
    if pushed.len() > 100 {
        pushed.subrange(1, pushed.len() as int)
    } else {
        pushed
    }
}

/// The whole effect of one `process_input` call on the adapter.
pub open spec fn wez_process_spec(theme: TerminalTheme, m: WezModel, bytes: Seq<u8>) -> WezModel {
    let cs = lossy_decode(bytes);
    let m2 = wez_run_spec(theme, m, WezScan::Norm, cs, 0);
    WezModel { outputs: wez_record_spec(m2.outputs, cs), ..m2 }
}

/// The exec scanner state as its abstract value.
pub open spec fn scan_of(mode: u8, body: Seq<char>) -> WezScan {
    if mode == 0 {
        WezScan::Norm
    } else if mode == 1 {
        WezScan::SawEsc
    } else {
        WezScan::InSeq(body)
    }
}

/// The alternate emulator backend.
pub struct WezTermAdapter {
    buffer: TerminalBuffer,
    output_buffer: Vec<String>,
    state: TerminalState,
    theme: TerminalTheme,
    attrs: WezAttrs,
}

impl WezTermAdapter {
    /// The abstract adapter state.
    pub closed spec fn wm(self) -> WezModel {
        WezModel {
            buf: self.buffer.bm(),
            attrs: self.attrs,
            outputs: Seq::new(self.output_buffer@.len(), |i: int| self.output_buffer@[i]@),
        }
    }

    /// The theme colors the adapter resolves against.
    pub closed spec fn theme_view(self) -> TerminalTheme {
        self.theme
    }

    /// The connection state.
    pub closed spec fn state_view(self) -> TerminalState {
        self.state
    }

    /// The underlying buffer value.
    pub closed spec fn buf_view(self) -> TerminalBuffer {
        self.buffer
    }

    /// Structural validity.
    pub closed spec fn wwf(self) -> bool {
        self.buffer.wf()
    }

    /// A fresh adapter over a `rows x cols` grid with the given theme.
    pub fn new(rows: usize, cols: usize, theme: TerminalTheme) -> (a: WezTermAdapter)
        requires
            1 <= rows,
            1 <= cols,
            rows * cols <= usize::MAX,
        ensures
            a.wwf(),
            a.theme_view() == theme,
            a.state_view() is Disconnected,
            a.wm().attrs == (WezAttrs { fg: None, bg: None, bold: false }),
            a.wm().outputs == Seq::<Seq<char>>::empty(),
            a.wm().buf.rows == rows,
            a.wm().buf.cols == cols,
            a.wm().buf.cursor_row == 0,
            a.wm().buf.cursor_col == 0,
            a.wm().buf.cells == crate::buffer::default_cells_spec((rows * cols) as int),
            a.wm().buf.history == Seq::<Seq<TerminalCell>>::empty(),
            a.wm().buf.max_history == 1000,
            a.wm().buf.selection is None,
    {
        let a = WezTermAdapter {
            buffer: TerminalBuffer::new(rows, cols),
            output_buffer: Vec::new(),
            state: TerminalState::Disconnected,
            theme,
            attrs: WezAttrs { fg: None, bg: None, bold: false },
        };
        proof {
            assert(a.wm().outputs =~= Seq::<Seq<char>>::empty());
            assert(a.wm().buf.history =~= Seq::<Seq<TerminalCell>>::empty());
        }
        a
    }

    /// The recorded inputs, oldest first (at most the last 100).
    pub fn get_output_history(&self) -> (h: Vec<String>)
        ensures
            h@.len() == self.wm().outputs.len(),
            forall|i: int| 0 <= i < h@.len() ==> (#[trigger] h@[i])@ == self.wm().outputs[i],
    {
        let mut h: Vec<String> = Vec::new();
        let n = self.output_buffer.len();
        let mut i: usize = 0;
        while i < n
            invariant
                0 <= i <= n,
                n == self.output_buffer@.len(),
                h@.len() == i,
                forall|j: int|
                    0 <= j < i ==> (#[trigger] h@[j])@ == self.output_buffer@[j]@,
            decreases n - i,
        {
            h.push(self.output_buffer[i].clone());
            i = i + 1;
        }
        h
    }

    /// The cursor position `(row, col)`.
    pub fn get_cursor_position(&self) -> (p: (usize, usize))
        ensures
            p.0 == self.wm().buf.cursor_row,
            p.1 == self.wm().buf.cursor_col,
    {
        (self.buffer.cursor_row, self.buffer.cursor_col)
    }

    /// The concrete foreground for the current context.
    fn fg_color(&self) -> (c: crate::cell::Color)
        ensures
            c == wez_fg_spec(self.theme_view(), self.wm().attrs),
    {
        match self.attrs.fg {
            Some(i) => self.theme.get_color(i, self.attrs.bold),
            None => self.theme.style.foreground,
        }
    }

    /// The concrete background for the current context.
    fn bg_color(&self) -> (c: crate::cell::Color)
        ensures
            c == wez_bg_spec(self.theme_view(), self.wm().attrs),
    {
        match self.attrs.bg {
            Some(i) => self.theme.get_color(i, false),
            None => self.theme.style.background,
        }
    }

    /// One character applied to the screen.
    fn putc(&mut self, ch: char)
        requires
            old(self).wwf(),
        ensures
            final(self).wwf(),
            final(self).wm() == wez_putc_spec(old(self).theme_view(), old(self).wm(), ch),
            final(self).theme_view() == old(self).theme_view(),
            final(self).state_view() == old(self).state_view(),
    {
        if ch == '\n' {
            let ghost bpre = self.buffer;
            self.buffer.newline();
            proof {
                crate::emulator::lemma_newline_bm(bpre, self.buffer);
                assert(self.wm() =~~= wez_putc_spec(old(self).theme_view(), old(self).wm(), ch));
            }
        } else if ch == '\r' {
            self.buffer.carriage_return();
            proof {
                assert(self.wm() =~~= wez_putc_spec(old(self).theme_view(), old(self).wm(), ch));
            }
        } else if ch == '\t' {
            let col = self.buffer.cursor_col;
            let cols = self.buffer.cols;
            let rem = 8 - (col % 8);
            let stop = if rem < cols - col {
                col + rem
            } else {
                cols
            };
            proof {
                assert((col as int / 8 + 1) * 8 == col as int + 8 - (col as int) % 8)
                    by (nonlinear_arith)
                    requires
                        col >= 0,
                ;
            }
            self.tab_to(stop);
            proof {
                assert(self.wm() =~~= wez_putc_spec(old(self).theme_view(), old(self).wm(), ch));
            }
        } else {
            let row = self.buffer.cursor_row;
            let col = self.buffer.cursor_col;
            proof {
                crate::buffer::lemma_grid_index(
                    row as int,
                    col as int,
                    self.buffer.rows as int,
                    self.buffer.cols as int,
                );
            }
            let idx = row * self.buffer.cols + col;
            let cell0 = self.buffer.cells[idx];
            let cell1 = TerminalCell {
                character: ch,
                fg_color: self.fg_color(),
                bg_color: self.bg_color(),
                bold: self.attrs.bold,
                ..cell0
            };
            self.buffer.cells[idx] = cell1;
            if col + 1 < self.buffer.cols {
                self.buffer.cursor_col = col + 1;
            } else {
                let ghost bpre = self.buffer;
                self.buffer.newline();
                proof {
                    crate::emulator::lemma_newline_bm(bpre, self.buffer);
                }
            }
            proof {
                assert(self.wm() =~~= wez_putc_spec(old(self).theme_view(), old(self).wm(), ch));
            }
        }
    }

    /// Writes spaces from the cursor up to column `stop` and moves the
    /// cursor there, wrapping at the line end.
    fn tab_to(&mut self, stop: usize)
        requires
            old(self).wwf(),
            old(self).buf_view().cursor_col < stop <= old(self).buf_view().cols,
        ensures
            final(self).wwf(),
            final(self).wm() == wez_tab_spec(old(self).theme_view(), old(self).wm(), stop as int),
            final(self).theme_view() == old(self).theme_view(),
            final(self).state_view() == old(self).state_view(),
    {
        let ghost pre = *self;
        let row = self.buffer.cursor_row;
        let col0 = self.buffer.cursor_col;
        let fg = self.fg_color();
        let bg = self.bg_color();
        let mut c = col0;
        proof {
            crate::buffer::lemma_grid_index(
                row as int,
                stop as int - 1,
                self.buffer.rows as int,
                self.buffer.cols as int,
            );
        }
        while c < stop
            invariant
                pre.wwf(),
                *self == (WezTermAdapter { buffer: self.buffer, ..pre }),
                self.buffer == (TerminalBuffer { cells: self.buffer.cells, ..pre.buffer }),
                self.buffer.cells@.len() == pre.buffer.cells@.len(),
                row == pre.buffer.cursor_row,
                col0 == pre.buffer.cursor_col,
                col0 <= c <= stop,
                stop <= pre.buffer.cols,
                fg == wez_fg_spec(pre.theme, pre.wm().attrs),
                bg == wez_bg_spec(pre.theme, pre.wm().attrs),
                row as int * pre.buffer.cols + stop - 1 < pre.buffer.cells@.len(),
                forall|j: int|
                    0 <= j < self.buffer.cells@.len() ==> #[trigger] self.buffer.cells@[j] == if row
                        as int * pre.buffer.cols + col0 <= j < row as int * pre.buffer.cols
                        + c {
                        TerminalCell {
                            character: ' ',
                            fg_color: fg,
                            bg_color: bg,
                            bold: pre.attrs.bold,
                            ..pre.buffer.cells@[j]
                        }
                    } else {
                        pre.buffer.cells@[j]
                    },
            decreases stop - c,
        {
            let idx = row * self.buffer.cols + c;
            let cell0 = self.buffer.cells[idx];
            let cell1 = TerminalCell {
                character: ' ',
                fg_color: fg,
                bg_color: bg,
                bold: self.attrs.bold,
                ..cell0
            };
            self.buffer.cells[idx] = cell1;
            c = c + 1;
        }
        if stop < self.buffer.cols {
            self.buffer.cursor_col = stop;
            proof {
                assert(self.wm().buf.cells =~= wez_tab_spec(
                    pre.theme,
                    pre.wm(),
                    stop as int,
                ).buf.cells);
                assert(self.wm() =~~= wez_tab_spec(pre.theme, pre.wm(), stop as int));
            }
        } else {
            let ghost bpre = self.buffer;
            self.buffer.newline();
            proof {
                crate::emulator::lemma_newline_bm(bpre, self.buffer);
                assert(bpre.bm().cells =~= wez_tab_spec_mid_cells(pre, stop as int));
                assert(self.wm() =~~= wez_tab_spec(pre.theme, pre.wm(), stop as int));
            }
        }
    }
}

/// The cell vector of [`wez_tab_spec`] before the cursor moves.
pub open spec fn wez_tab_spec_mid_cells(pre: WezTermAdapter, stop: int) -> Seq<TerminalCell> {
    let b = pre.wm().buf;
    let row0 = b.cursor_row * b.cols;
    Seq::new(
        b.cells.len(),
        |i: int|
            if row0 + b.cursor_col <= i < row0 + stop {
                TerminalCell {
                    character: ' ',
                    fg_color: wez_fg_spec(pre.theme_view(), pre.wm().attrs),
                    bg_color: wez_bg_spec(pre.theme_view(), pre.wm().attrs),
                    bold: pre.wm().attrs.bold,
                    ..b.cells[i]
                }
            } else {
                b.cells[i]
            },
    )
}


impl WezTermAdapter {
    /// Parses one SGR token: decimal digits within `u8` range.
    fn parse_code(t: &Vec<char>) -> (r: Option<u8>)
        ensures
            r == parse_code_spec(t@),
    {
        let n = t.len();
        if n == 0 {
            return None;
        }
        let mut value: u32 = 0;
        let mut i: usize = 0;
        while i < n
            invariant
                0 <= i <= n,
                n == t@.len(),
                forall|j: int| 0 <= j < i ==> '0' <= #[trigger] t@[j] <= '9',
                token_value_spec(t@.subrange(0, i as int)) <= 255 ==> value == token_value_spec(
                    t@.subrange(0, i as int),
                ),
                token_value_spec(t@.subrange(0, i as int)) > 255 ==> value == 256,
                value <= 256,
            decreases n - i,
        {
            let ch = t[i];
            if !('0' <= ch && ch <= '9') {
                return None;
            }
            let d = (ch as u32) - ('0' as u32);
            value = value * 10 + d;
            if value > 255 {
                value = 256;
            }
            i = i + 1;
            proof {
                let p = t@.subrange(0, i as int);
                assert(p.drop_last() =~= t@.subrange(0, i as int - 1));
                assert(p.last() == ch);
            }
        }
        proof {
            assert(t@.subrange(0, n as int) =~= t@);
        }
        if value <= 255 {
            Some(value as u8)
        } else {
            None
        }
    }

    /// One parsed code folded into the attribute state.
    fn apply_code(attrs: WezAttrs, code: u8) -> (r: WezAttrs)
        ensures
            r == wez_code_spec(attrs, code),
    {
        if code == 0 {
            WezAttrs { fg: None, bg: None, bold: false }
        } else if code == 1 {
            WezAttrs { bold: true, ..attrs }
        } else if code == 22 {
            WezAttrs { bold: false, ..attrs }
        } else if 30 <= code && code <= 37 {
            WezAttrs { fg: Some(code - 30), ..attrs }
        } else if code == 39 {
            WezAttrs { fg: None, ..attrs }
        } else if 40 <= code && code <= 47 {
            WezAttrs { bg: Some(code - 40), ..attrs }
        } else if code == 49 {
            WezAttrs { bg: None, ..attrs }
        } else if 90 <= code && code <= 97 {
            WezAttrs { fg: Some(code - 90 + 8), ..attrs }
        } else if 100 <= code && code <= 107 {
            WezAttrs { bg: Some(code - 100 + 8), ..attrs }
        } else {
            attrs
        }
    }

    /// A whole SGR body applied to the attribute state.
    fn apply_sgr(attrs0: WezAttrs, body: &Vec<char>) -> (r: WezAttrs)
        ensures
            r == wez_sgr_spec(attrs0, body@),
    {
        let n = body.len();
        if n == 0 {
            return WezAttrs { fg: None, bg: None, bold: false };
        }
        let mut attrs = attrs0;
        let mut cur: Vec<char> = Vec::new();
        let mut i: usize = 0;
        while i < n
            invariant
                0 <= i <= n,
                n == body@.len(),
                wez_sgr_scan_spec(attrs0, body@, 0, Seq::empty()) == wez_sgr_scan_spec(
                    attrs,
                    body@,
                    i as int,
                    cur@,
                ),
            decreases n - i,
        {
            let ch = body[i];
            if ch == ';' {
                match Self::parse_code(&cur) {
                    Some(code) => {
                        attrs = Self::apply_code(attrs, code);
                    },
                    None => {},
                }
                cur = Vec::new();
            } else {
                cur.push(ch);
            }
            i = i + 1;
        }
        match Self::parse_code(&cur) {
            Some(code) => Self::apply_code(attrs, code),
            None => attrs,
        }
    }

    /// Feeds raw bytes: they are decoded to characters, SGR escape
    /// sequences adjust the attribute state, everything else goes to the
    /// screen, and the raw input is recorded in the output history.
    pub fn process_input(&mut self, data: &[u8]) -> (r: Result<(), TerminalError>)
        requires
            old(self).wwf(),
        ensures
            final(self).wwf(),
            r is Ok,
            final(self).wm() == wez_process_spec(
                old(self).theme_view(),
                old(self).wm(),
                data@,
            ),
            final(self).theme_view() == old(self).theme_view(),
            final(self).state_view() == old(self).state_view(),
    {
        let ghost m0 = self.wm();
        let ghost theme0 = self.theme_view();
        let chars = crate::textenc::decode_chars(data);
        let n = chars.len();
        let mut mode: u8 = 0;
        let mut body: Vec<char> = Vec::new();
        let mut i: usize = 0;
        proof {
            assert(scan_of(0, body@) == WezScan::Norm);
        }
        while i < n
            invariant
                self.wwf(),
                0 <= i <= n,
                n == chars@.len(),
                chars@ == lossy_decode(data@),
                mode <= 2,
                self.theme_view() == theme0,
                self.state_view() == old(self).state_view(),
                wez_run_spec(theme0, m0, WezScan::Norm, chars@, 0) == wez_run_spec(
                    theme0,
                    self.wm(),
                    scan_of(mode, body@),
                    chars@,
                    i as int,
                ),
            decreases n - i,
        {
            let ghost pre_m = self.wm();
            let ghost pre_scan = scan_of(mode, body@);
            let ch = chars[i];
            if mode == 0 {
                if ch == '\u{1b}' {
                    mode = 1;
                } else {
                    self.putc(ch);
                }
            } else if mode == 1 {
                if ch == '[' {
                    mode = 2;
                    body = Vec::new();
                } else {
                    self.putc('\u{1b}');
                    if ch == '\u{1b}' {
                    } else {
                        self.putc(ch);
                        mode = 0;
                    }
                }
            } else {
                let alpha = ('a' <= ch && ch <= 'z') || ('A' <= ch && ch <= 'Z');
                if alpha {
                    if ch == 'm' {
                        self.attrs = Self::apply_sgr(self.attrs, &body);
                    }
                    mode = 0;
                } else {
                    body.push(ch);
                }
            }
            proof {
                let s = wez_scan_step_spec(theme0, pre_m, pre_scan, chars@[i as int]);
                assert(self.wm() == s.0);
                assert(scan_of(mode, body@) == s.1);
            }
            i = i + 1;
        }
        if mode == 1 {
            self.putc('\u{1b}');
        }
        let text = crate::textenc::chars_to_string(&chars);
        self.output_buffer.push(text);
        if self.output_buffer.len() > 100 {
            self.output_buffer.remove(0);
            proof {
                let outs = wez_run_spec(theme0, m0, WezScan::Norm, chars@, 0).outputs;
                outs.push(chars@).remove_ensures(0);
            }
        }
        proof {
            assert(self.wm().outputs =~= wez_record_spec(
                wez_run_spec(theme0, m0, WezScan::Norm, chars@, 0).outputs,
                chars@,
            ));
            assert(self.wm() =~~= wez_process_spec(theme0, m0, data@));
        }
        Ok(())
    }
}

/// Any character keeps the scrollback bound.
proof fn lemma_wez_putc_keeps_max(theme: TerminalTheme, m: WezModel, ch: char)
    ensures
        wez_putc_spec(theme, m, ch).buf.max_history == m.buf.max_history,
{
}

/// Any input run keeps the scrollback bound.
proof fn lemma_wez_run_keeps_max(
    theme: TerminalTheme,
    m: WezModel,
    st: WezScan,
    cs: Seq<char>,
    i: int,
)
    ensures
        wez_run_spec(theme, m, st, cs, i).buf.max_history == m.buf.max_history,
    decreases cs.len() - i,
{
    if i < 0 || i >= cs.len() {
        match st {
            WezScan::SawEsc => {
                lemma_wez_putc_keeps_max(theme, m, '\u{1b}');
            },
            _ => {},
        }
    } else {
        let s = wez_scan_step_spec(theme, m, st, cs[i]);
        assert(s.0.buf.max_history == m.buf.max_history) by {
            match st {
                WezScan::Norm => {
                    lemma_wez_putc_keeps_max(theme, m, cs[i]);
                },
                WezScan::SawEsc => {
                    lemma_wez_putc_keeps_max(theme, m, '\u{1b}');
                    lemma_wez_putc_keeps_max(
                        theme,
                        wez_putc_spec(theme, m, '\u{1b}'),
                        cs[i],
                    );
                },
                WezScan::InSeq(_) => {},
            }
        }
        lemma_wez_run_keeps_max(theme, s.0, s.1, cs, i + 1);
    }
}

impl TerminalEmulatorTrait for WezTermAdapter {
    open spec fn tinv(&self) -> bool {
        self.wwf() && self.buf_view().max_history == 1000
    }

    open spec fn abs_buffer(&self) -> TerminalBuffer {
        self.buf_view()
    }

    proof fn tinv_wf(&self) {
    }

    fn process_input(&mut self, data: &[u8]) -> (r: Result<(), TerminalError>) {
        let ghost m0 = self.wm();
        let ghost theme0 = self.theme_view();
        let r = WezTermAdapter::process_input(self, data);
        proof {
            lemma_wez_run_keeps_max(theme0, m0, WezScan::Norm, lossy_decode(data@), 0);
        }
        r
    }

    fn buffer(&self) -> (b: TerminalBuffer) {
        let b = self.buffer.snapshot();
        proof {
            assert(b.bm().history =~= self.buffer.bm().history);
            assert(b.bm() =~~= self.buffer.bm());
        }
        b
    }

    fn resize(&mut self, rows: usize, cols: usize) {
        self.buffer.resize(rows, cols);
    }

    // The adapter keeps the theme it was built with; a swapped theme only
    // affects cells written afterwards by the main emulator, and this
    // backend repaints nothing.
    fn update_theme(&mut self, theme: TerminalTheme) {
        let _ = theme;
    }

    fn state(&self) -> &TerminalState {
        &self.state
    }

    fn set_state(&mut self, state: TerminalState) {
        self.state = state;
    }

    fn clear(&mut self) {
        self.buffer.clear();
        self.output_buffer = Vec::new();
    }

    fn start_selection(&mut self, row: usize, col: usize) {
        self.buffer.start_selection(row, col);
    }

    fn update_selection(&mut self, row: usize, col: usize) {
        self.buffer.update_selection(row, col);
    }

    fn clear_selection(&mut self) {
        self.buffer.clear_selection();
    }

    fn get_selected_text(&self) -> Option<String> {
        self.buffer.get_selected_text()
    }
}


} // verus!
