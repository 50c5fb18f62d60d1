//! The text-selection engine: the gesture lifecycle (none, selecting,
//! selected) and the glue that turns pointer positions in buffer
//! coordinates into a painted selection on an emulator backend.

use vstd::prelude::*;

use crate::buffer::TerminalBuffer;
use crate::buffer::SelectionRange;
use crate::emulator::TerminalEmulatorTrait;

verus! {

/// Whether a unified cell position maps into the buffer: its row within
/// scrollback plus live rows, its column within the grid.
pub open spec fn maps_into(b: TerminalBuffer, p: (usize, usize)) -> bool {
    p.0 < b.history@.len() + b.rows && p.1 < b.cols
}

impl TextSelector {
    /// Whether pushing the gesture into a backend with buffer `b` would
    /// repaint: a selection is in progress and both recorded points map
    /// into the buffer.
    pub open spec fn gesture_applies(self, b: TerminalBuffer) -> bool {
        &&& self.state_spec() is Selecting
        &&& self.start_spec() is Some
        &&& self.current_spec() is Some
        &&& maps_into(b, self.start_spec()->0)
        &&& maps_into(b, self.current_spec()->0)
    }
}

/// Lifecycle of a selection gesture.
#[derive(Debug, Clone, Copy, PartialEq, Eq, Structural)]
pub enum SelectionState {
    /// No selection.
    Idle,
    /// The pointer is down and the range is still moving.
    Selecting,
    /// The gesture has ended; the range stands.
    Selected,
}

/// The selection gesture tracker.  Positions are unified buffer
/// coordinates: row 0 is the oldest scrollback row; the caller converts
/// pointer pixels to cells.
pub struct TextSelector {
    state: SelectionState,
    start_pos: Option<(usize, usize)>,
    current_pos: Option<(usize, usize)>,
}

impl TextSelector {
    /// The current gesture state.
    pub closed spec fn state_spec(self) -> SelectionState {
        self.state
    }

    /// The recorded anchor point.
    pub closed spec fn start_spec(self) -> Option<(usize, usize)> {
        self.start_pos
    }

    /// The recorded floating end point.
    pub closed spec fn current_spec(self) -> Option<(usize, usize)> {
        self.current_pos
    }

    /// A tracker with no gesture in progress.
    pub fn new() -> (s: TextSelector)
        ensures
            s.state_spec() is Idle,
            s.start_spec() is None,
            s.current_spec() is None,
    {
        TextSelector { state: SelectionState::Idle, start_pos: None, current_pos: None }
    }

    /// Begins a gesture: records the anchor and enters `Selecting`.
    pub fn start_selection(&mut self, row: usize, col: usize)
        ensures
            final(self).state_spec() is Selecting,
            final(self).start_spec() == Some((row, col)),
            final(self).current_spec() == Some((row, col)),
    {
        self.state = SelectionState::Selecting;
        self.start_pos = Some((row, col));
        self.current_pos = Some((row, col));
    }

    /// Moves the floating end point; ignored outside `Selecting`.
    pub fn update_selection(&mut self, row: usize, col: usize)
        ensures
            old(self).state_spec() is Selecting ==> final(self).current_spec() == Some(
                (row, col),
            ),
            !(old(self).state_spec() is Selecting) ==> final(self).current_spec() == old(
                self,
            ).current_spec(),
            final(self).state_spec() == old(self).state_spec(),
            final(self).start_spec() == old(self).start_spec(),
    {
        if matches!(self.state, SelectionState::Selecting) {
            self.current_pos = Some((row, col));
        }
    }

    /// Ends the gesture without touching the range.
    pub fn end_selection(&mut self)
        ensures
            old(self).state_spec() is Selecting ==> final(self).state_spec() is Selected,
            !(old(self).state_spec() is Selecting) ==> final(self).state_spec() == old(
                self,
            ).state_spec(),
            final(self).start_spec() == old(self).start_spec(),
            final(self).current_spec() == old(self).current_spec(),
    {
        if matches!(self.state, SelectionState::Selecting) {
            self.state = SelectionState::Selected;
        }
    }

    /// Cancels the gesture and forgets both points.
    pub fn cancel_selection(&mut self)
        ensures
            final(self).state_spec() is Idle,
            final(self).start_spec() is None,
            final(self).current_spec() is None,
    {
        self.state = SelectionState::Idle;
        self.start_pos = None;
        self.current_pos = None;
    }

    /// The current gesture state.
    pub fn state(&self) -> (s: &SelectionState)
        ensures
            *s == self.state_spec(),
    {
        &self.state
    }

    /// Validates a cell position against the buffer: rows index the unified
    /// space (scrollback first, then the live grid), columns the grid
    /// width; anything outside yields no mapping.
    pub fn screen_to_buffer_coords(
        &self,
        row: usize,
        col: usize,
        buffer_rows: usize,
        buffer_cols: usize,
        history_size: usize,
    ) -> (r: Option<(usize, usize)>)
        ensures
            r == if row < history_size + buffer_rows && col < buffer_cols {
                Some((row, col))
            } else {
                None::<(usize, usize)>
            },
    {
        if history_size <= usize::MAX - buffer_rows {
            let total_rows = history_size + buffer_rows;
            if row >= total_rows {
                return None;
            }
        }
        // Otherwise the unified row space exceeds the machine range and
        // every representable row index falls inside it.
        if col >= buffer_cols {
            return None;
        }
        Some((row, col))
    }

    /// Pushes the current gesture into the emulator: while selecting, both
    /// recorded points are validated and repainted as the emulator's
    /// selection.
    pub fn update_emulator_selection<T: TerminalEmulatorTrait>(&self, emulator: &mut T)
        requires
            old(emulator).tinv(),
        ensures
            final(emulator).tinv(),
            ({
                let b = old(emulator).abs_buffer();
                &&& self.gesture_applies(b) ==> {
                    let sel = SelectionRange {
                        start_row: (self.start_spec()->0).0,
                        start_col: (self.start_spec()->0).1,
                        end_row: (self.current_spec()->0).0,
                        end_col: (self.current_spec()->0).1,
                    };
                    &&& final(emulator).abs_buffer().selection == Some(sel)
                    &&& TerminalBuffer::highlight_model(
                        old(emulator).abs_buffer(),
                        final(emulator).abs_buffer(),
                        Some(sel),
                    )
                }
                &&& !self.gesture_applies(b) ==> *final(emulator) == *old(emulator)
            }),
    {
        proof {
            old(emulator).tinv_wf();
        }
        if !matches!(self.state, SelectionState::Selecting) {
            return ;
        }
        let (sp, cp) = match (&self.start_pos, &self.current_pos) {
            (Some(s), Some(c)) => (*s, *c),
            _ => {
                return ;
            },
        };
        let buffer = emulator.buffer();
        proof {
            let a = emulator.abs_buffer();
            assert(buffer.bm().history.len() == a.bm().history.len());
            assert(buffer.history@.len() == a.history@.len());
            assert(buffer.rows == a.rows && buffer.cols == a.cols);
        }
        let hist = buffer.history.len();
        if let Some((start_row, start_col)) = self.screen_to_buffer_coords(
            sp.0,
            sp.1,
            buffer.rows,
            buffer.cols,
            hist,
        ) {
            if let Some((end_row, end_col)) = self.screen_to_buffer_coords(
                cp.0,
                cp.1,
                buffer.rows,
                buffer.cols,
                hist,
            ) {
                let ghost a0 = emulator.abs_buffer();
                emulator.clear_selection();
                let ghost a1 = emulator.abs_buffer();
                emulator.start_selection(start_row, start_col);
                let ghost a2 = emulator.abs_buffer();
                emulator.update_selection(end_row, end_col);
                proof {
                    crate::buffer::lemma_highlight_compose(
                        a0,
                        a1,
                        a2,
                        None,
                        a2.selection,
                    );
                    crate::buffer::lemma_highlight_compose(
                        a0,
                        a2,
                        emulator.abs_buffer(),
                        a2.selection,
                        emulator.abs_buffer().selection,
                    );
                }
            }
        }
    }

    /// The emulator's selected text, for copying.
    pub fn get_selected_text_content<T: TerminalEmulatorTrait>(&self, emulator: &T) -> (r: Option<
        String,
    >)
        requires
            emulator.tinv(),
        ensures
            match r {
                Some(s) => emulator.abs_buffer().selected_text_spec() == Some(s@),
                None => emulator.abs_buffer().selected_text_spec() is None,
            },
    {
        emulator.get_selected_text()
    }

    /// Selects everything: from the oldest scrollback row to the last cell
    /// of the live grid.
    pub fn select_all<T: TerminalEmulatorTrait>(&mut self, emulator: &mut T)
        requires
            old(emulator).tinv(),
        ensures
            final(emulator).tinv(),
            ({
                let b = old(emulator).abs_buffer();
                &&& b.history@.len() + b.rows <= usize::MAX ==> {
                    let sel = SelectionRange {
                        start_row: 0,
                        start_col: 0,
                        end_row: (b.history@.len() + b.rows - 1) as usize,
                        end_col: (b.cols - 1) as usize,
                    };
                    &&& final(self).state_spec() is Selected
                    &&& final(emulator).abs_buffer().selection == Some(sel)
                    &&& TerminalBuffer::highlight_model(
                        old(emulator).abs_buffer(),
                        final(emulator).abs_buffer(),
                        Some(sel),
                    )
                }
                &&& b.history@.len() + b.rows > usize::MAX ==> *final(emulator) == *old(emulator)
                    && *final(self) == *old(self)
            }),
    {
        proof {
            old(emulator).tinv_wf();
        }
        let buffer = emulator.buffer();
        proof {
            let a = emulator.abs_buffer();
            assert(buffer.bm().history.len() == a.bm().history.len());
            assert(buffer.history@.len() == a.history@.len());
            assert(buffer.rows == a.rows && buffer.cols == a.cols);
        }
        if buffer.history.len() > usize::MAX - buffer.rows {
            // The unified row count exceeds the machine range; nothing can
            // name its last row, so the gesture is dropped.
            return ;
        }
        let total_rows = buffer.history.len() + buffer.rows;
        let ghost a0 = emulator.abs_buffer();
        emulator.clear_selection();
        let ghost a1 = emulator.abs_buffer();
        emulator.start_selection(0, 0);
        let ghost a2 = emulator.abs_buffer();
        emulator.update_selection(total_rows - 1, buffer.cols - 1);
        proof {
            crate::buffer::lemma_highlight_compose(a0, a1, a2, None, a2.selection);
            crate::buffer::lemma_highlight_compose(
                a0,
                a2,
                emulator.abs_buffer(),
                a2.selection,
                emulator.abs_buffer().selection,
            );
        }
        self.state = SelectionState::Selected;
    }
}

impl Default for TextSelector {
    fn default() -> (s: TextSelector)
        ensures
            s.state_spec() is Idle,
    {
        TextSelector { state: SelectionState::Idle, start_pos: None, current_pos: None }
    }
}

} // verus!
