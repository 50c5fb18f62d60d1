//! General laws of the engine, proved once for every input: how printing
//! moves the cursor, and what an attribute reset means for the next printed
//! cell.

use vstd::prelude::*;

use crate::cell::TerminalCell;
use crate::emulator::{apply_action_m, apply_actions_m, bm_newline, perf_print_m, BufModel, PerfModel};
use crate::helpers::char_width_spec;
use crate::parser::ActionModel;
use crate::theme::TerminalTheme;

verus! {

/// Whether `acts` is exactly the print actions of the characters `s`, in
/// order.
pub open spec fn is_print_run(acts: Seq<ActionModel>, s: Seq<char>) -> bool {
    &&& acts.len() == s.len()
    &&& forall|i: int| 0 <= i < acts.len() ==> acts[i] == ActionModel::Print(#[trigger] s[i])
}

/// Printing a string of single-width characters that stays within the
/// current line advances the cursor column by exactly the string's length,
/// and touches neither the cursor row nor the scrollback.
pub proof fn lemma_prints_advance_column(
    theme: TerminalTheme,
    p: PerfModel,
    acts: Seq<ActionModel>,
    s: Seq<char>,
)
    requires
        is_print_run(acts, s),
        0 <= p.buf.cursor_col,
        p.buf.cursor_col + s.len() < p.buf.cols,
        forall|i: int| 0 <= i < s.len() ==> char_width_spec(#[trigger] s[i]) == 1,
    ensures
        ({
            let q = apply_actions_m(theme, p, acts, 0);
            &&& q.buf.cursor_col == p.buf.cursor_col + s.len()
            &&& q.buf.cursor_row == p.buf.cursor_row
            &&& q.buf.rows == p.buf.rows
            &&& q.buf.cols == p.buf.cols
            &&& q.buf.history == p.buf.history
        }),
{
    lemma_prints_advance_from(theme, p, acts, s, 0);
}

proof fn lemma_prints_advance_from(
    theme: TerminalTheme,
    p: PerfModel,
    acts: Seq<ActionModel>,
    s: Seq<char>,
    i: int,
)
    requires
        is_print_run(acts, s),
        0 <= i <= s.len(),
        0 <= p.buf.cursor_col,
        p.buf.cursor_col + (s.len() - i) < p.buf.cols,
        forall|j: int| 0 <= j < s.len() ==> char_width_spec(#[trigger] s[j]) == 1,
    ensures
        ({
            let q = apply_actions_m(theme, p, acts, i);
            &&& q.buf.cursor_col == p.buf.cursor_col + (s.len() - i)
            &&& q.buf.cursor_row == p.buf.cursor_row
            &&& q.buf.rows == p.buf.rows
            &&& q.buf.cols == p.buf.cols
            &&& q.buf.history == p.buf.history
        }),
    decreases s.len() - i,
{
    if i == s.len() {
    } else {
        assert(acts[i] == ActionModel::Print(s[i]));
        let p1 = apply_action_m(theme, p, acts[i]);
        assert(p1 == perf_print_m(theme, p, s[i]));
        assert(char_width_spec(s[i]) == 1);
        assert(p1.buf.cursor_col == p.buf.cursor_col + 1);
        lemma_prints_advance_from(theme, p1, acts, s, i + 1);
    }
}

/// Printing exactly as many single-width characters as the line has room
/// for triggers exactly one implicit line feed: the cursor ends at column 0,
/// and, away from the bottom row, exactly one row further down with the
/// scrollback untouched; on the bottom row exactly one row is scrolled into
/// the scrollback (evicting the oldest only when it is full).
pub proof fn lemma_prints_wrap_once(
    theme: TerminalTheme,
    p: PerfModel,
    acts: Seq<ActionModel>,
    s: Seq<char>,
)
    requires
        is_print_run(acts, s),
        0 <= p.buf.cursor_col,
        0 <= p.buf.cursor_row < p.buf.rows,
        s.len() >= 1,
        p.buf.cursor_col + s.len() == p.buf.cols,
        forall|i: int| 0 <= i < s.len() ==> char_width_spec(#[trigger] s[i]) == 1,
    ensures
        ({
            let q = apply_actions_m(theme, p, acts, 0);
            &&& q.buf.cursor_col == 0
            &&& q.buf.rows == p.buf.rows
            &&& q.buf.cols == p.buf.cols
            &&& (p.buf.cursor_row + 1 < p.buf.rows ==> q.buf.cursor_row == p.buf.cursor_row + 1
                && q.buf.history == p.buf.history)
            &&& (p.buf.cursor_row + 1 == p.buf.rows ==> q.buf.cursor_row == p.buf.cursor_row
                && q.buf.history.len() == if p.buf.history.len() == p.buf.max_history {
                    p.buf.history.len()
                } else {
                    p.buf.history.len() + 1
                })
        }),
{
    lemma_prints_wrap_from(theme, p, acts, s, 0);
}

proof fn lemma_prints_wrap_from(
    theme: TerminalTheme,
    p: PerfModel,
    acts: Seq<ActionModel>,
    s: Seq<char>,
    i: int,
)
    requires
        is_print_run(acts, s),
        0 <= i < s.len(),
        0 <= p.buf.cursor_col,
        0 <= p.buf.cursor_row < p.buf.rows,
        p.buf.cursor_col + (s.len() - i) == p.buf.cols,
        forall|j: int| 0 <= j < s.len() ==> char_width_spec(#[trigger] s[j]) == 1,
    ensures
        ({
            let q = apply_actions_m(theme, p, acts, i);
            &&& q.buf.cursor_col == 0
            &&& q.buf.rows == p.buf.rows
            &&& q.buf.cols == p.buf.cols
            &&& (p.buf.cursor_row + 1 < p.buf.rows ==> q.buf.cursor_row == p.buf.cursor_row + 1
                && q.buf.history == p.buf.history)
            &&& (p.buf.cursor_row + 1 == p.buf.rows ==> q.buf.cursor_row == p.buf.cursor_row
                && q.buf.history.len() == if p.buf.history.len() == p.buf.max_history {
                    p.buf.history.len()
                } else {
                    p.buf.history.len() + 1
                })
        }),
    decreases s.len() - i,
{
    assert(acts[i] == ActionModel::Print(s[i]));
    let p1 = apply_action_m(theme, p, acts[i]);
    assert(p1 == perf_print_m(theme, p, s[i]));
    assert(char_width_spec(s[i]) == 1);
    if i + 1 == s.len() {
        assert(p.buf.cursor_col + 1 == p.buf.cols);
        assert(p1.buf.cursor_col == 0);
        assert(p1.buf.rows == p.buf.rows);
        assert(p1.buf.cols == p.buf.cols);
        if p.buf.cursor_row + 1 < p.buf.rows {
            assert(p1.buf.cursor_row == p.buf.cursor_row + 1);
            assert(p1.buf.history == p.buf.history);
        } else {
            assert(p1.buf.cursor_row == p.buf.cursor_row);
        }
        assert(apply_actions_m(theme, p1, acts, i + 1) == p1);
    } else {
        assert(p1.buf.cursor_col == p.buf.cursor_col + 1);
        assert(p1.buf.cursor_row == p.buf.cursor_row);
        lemma_prints_wrap_from(theme, p1, acts, s, i + 1);
    }
}

/// An SGR reset followed by any print writes a cell carrying the theme's
/// default foreground and background and no bold flag, whatever the
/// attribute state was before.  (The cursor must not sit on the bottom row,
/// so that a possible wrap does not scroll the written cell away, and a
/// double-width character must still fit on the line, so that the glyph is
/// not handed to the next row.)
pub proof fn lemma_reset_then_print_uses_defaults(theme: TerminalTheme, p: PerfModel, c: char)
    requires
        0 <= p.buf.cursor_col < p.buf.cols,
        0 <= p.buf.cursor_row,
        p.buf.cursor_row + 1 < p.buf.rows,
        p.buf.cells.len() == p.buf.rows * p.buf.cols,
        char_width_spec(c) == 2 ==> p.buf.cursor_col < p.buf.cols - 1,
    ensures
        ({
            let p1 = apply_action_m(theme, p, ActionModel::Csi(seq![0u16], 'm'));
            let p2 = apply_action_m(theme, p1, ActionModel::Print(c));
            let idx = p.buf.cursor_row * p.buf.cols + p.buf.cursor_col;
            &&& p1.buf == p.buf
            &&& p2.buf.cells[idx].character == c
            &&& p2.buf.cells[idx].fg_color == theme.style.foreground
            &&& p2.buf.cells[idx].bg_color == theme.style.background
            &&& !p2.buf.cells[idx].bold
        }),
{
    let p1 = apply_action_m(theme, p, ActionModel::Csi(seq![0u16], 'm'));
    let ps = seq![0u16];
    assert(p1 == crate::emulator::perf_csi_m(p, ps, 'm'));
    assert(crate::emulator::sgr_apply(p.attrs, ps, 0) == crate::emulator::sgr_apply(
        crate::emulator::AttrState::reset_spec(),
        ps,
        1,
    ));
    assert(crate::emulator::sgr_apply(crate::emulator::AttrState::reset_spec(), ps, 1)
        == crate::emulator::AttrState::reset_spec());
    assert(p1.attrs == crate::emulator::AttrState::reset_spec());
    assert(p1.buf == p.buf);
    let idx = p.buf.cursor_row * p.buf.cols + p.buf.cursor_col;
    crate::buffer::lemma_grid_index(
        p.buf.cursor_row,
        p.buf.cursor_col,
        p.buf.rows,
        p.buf.cols,
    );
    let p2 = apply_action_m(theme, p1, ActionModel::Print(c));
    assert(p2 == perf_print_m(theme, p1, c));
    let w0 = char_width_spec(c) as int;
    assert(p2 == crate::emulator::perf_glyph_m(theme, p1, c, w0));
    assert(crate::emulator::resolve_fg_spec(theme, p1.attrs) == theme.style.foreground);
    assert(crate::emulator::resolve_bg_spec(theme, p1.attrs) == theme.style.background);
    let b = p1.buf;
    let w = char_width_spec(c) as int;
    let cell0 = b.cells[idx];
    let cell1 = TerminalCell {
        character: c,
        fg_color: crate::emulator::resolve_fg_spec(theme, p1.attrs),
        bg_color: crate::emulator::resolve_bg_spec(theme, p1.attrs),
        bold: p1.attrs.bold,
        is_continuation: false,
        ..cell0
    };
    let cells1 = b.cells.update(idx, cell1);
    assert(cells1[idx] == cell1);
    if w == 2 && b.cursor_col < b.cols - 1 {
        crate::buffer::lemma_grid_index(
            p.buf.cursor_row,
            p.buf.cursor_col + 1,
            p.buf.rows,
            p.buf.cols,
        );
        let next0 = cells1[idx + 1];
        let cells2 = cells1.update(
            idx + 1,
            TerminalCell { character: ' ', is_continuation: true, ..next0 },
        );
        assert(p2.buf.cells == cells2);
        assert(cells2[idx] == cell1);
    } else {
        assert(p2.buf.cells == cells1);
    }
    assert(p2.buf.cells[idx] == cell1);
}

/// Scrolling at the bottom row treats the scrollback as a queue: the top
/// grid row is appended, and when the scrollback already sits at its
/// bound, exactly the oldest row leaves; every other row keeps its order.
pub proof fn lemma_scroll_evicts_oldest_first(b: BufModel)
    requires
        b.cursor_row + 1 == b.rows,
        b.max_history >= 1,
        b.history.len() <= b.max_history,
    ensures
        ({
            let c = bm_newline(b);
            &&& c.history.len() == if b.history.len() == b.max_history {
                b.history.len()
            } else {
                b.history.len() + 1
            }
            &&& c.history.last() == b.cells.subrange(0, b.cols)
            &&& (b.history.len() == b.max_history ==> forall|h: int|
                0 <= h < b.history.len() - 1 ==> #[trigger] c.history[h] == b.history[h + 1])
            &&& (b.history.len() < b.max_history ==> forall|h: int|
                0 <= h < b.history.len() ==> #[trigger] c.history[h] == b.history[h])
        }),
{
    let top = b.cells.subrange(0, b.cols);
    let pushed = b.history.push(top);
    if b.history.len() == b.max_history {
        assert(bm_newline(b).history == pushed.subrange(1, pushed.len() as int));
        assert(pushed.subrange(1, pushed.len() as int).last() == pushed[pushed.len() - 1]);
    }
}

} // verus!
