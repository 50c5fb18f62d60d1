//! The ANSI/VT byte-stream parser: a finite-state machine that classifies
//! incoming bytes into printable characters, control codes and escape/CSI/OSC
//! sequences, reassembling UTF-8 sequences into single characters.
//!
//! The parser is a pure tokenizer: it knows nothing of the grid, never fails,
//! and drops malformed or aborted sequences silently.  Partial buffers may
//! split a sequence anywhere; the state carries over between calls.

use vstd::prelude::*;

verus! {

/// Most parameters a CSI sequence may carry; further ones are dropped.
pub const MAX_CSI_PARAMS: usize = 32;

/// Most parameters an OSC sequence may carry; further ones are dropped.
pub const MAX_OSC_PARAMS: usize = 16;

/// Most bytes kept of one OSC parameter; further ones are dropped.
pub const MAX_OSC_BYTES: usize = 1024;

/// The current position of the state machine.
#[derive(Clone, Copy, Debug, PartialEq, Eq, Structural)]
pub enum ParseState {
    /// Plain text and control codes.
    Ground,
    /// An ESC byte has been seen.
    Escape,
    /// Collecting the parameters of a control sequence.
    Csi,
    /// Collecting an operating-system-command string.
    Osc,
    /// An ESC inside an OSC string: either string terminator or abort.
    OscEsc,
    /// Reassembling a multi-byte UTF-8 character: `need` continuation bytes
    /// are still expected, `cp` holds the bits seen so far, and `min` is the
    /// smallest code point this sequence length may legally encode.
    Utf8 { need: u8, cp: u32, min: u32 },
}

/// One structured action handed to the performer.
#[derive(Clone, Debug, PartialEq, Eq)]
pub enum Action {
    /// A printable character (UTF-8 already reassembled).
    Print(char),
    /// A C0 control code (or DEL).
    Execute(u8),
    /// A complete control sequence: its numeric parameters and final byte.
    CsiDispatch(Vec<u16>, char),
    /// A complete OSC string: its `;`-separated raw parameters.
    OscDispatch(Vec<Vec<u8>>),
}

/// The mathematical shape of an [`Action`].
pub enum ActionModel {
    Print(char),
    Execute(u8),
    Csi(Seq<u16>, char),
    Osc(Seq<Seq<u8>>),
}

/// The mathematical shape of the parser state.
#[verifier::ext_equal]
pub struct ParserModel {
    pub state: ParseState,
    pub params: Seq<u16>,
    pub cur: u16,
    pub any: bool,
    pub osc_params: Seq<Seq<u8>>,
    pub osc_cur: Seq<u8>,
}

/// The abstract value of one action.
pub open spec fn act_m(a: Action) -> ActionModel {
    match a {
        Action::Print(c) => ActionModel::Print(c),
        Action::Execute(b) => ActionModel::Execute(b),
        Action::CsiDispatch(ps, ch) => ActionModel::Csi(ps@, ch),
        Action::OscDispatch(ps) => ActionModel::Osc(Seq::new(ps@.len(), |i: int| ps@[i]@)),
    }
}

/// The abstract values of a list of actions.
pub open spec fn acts_m(s: Seq<Action>) -> Seq<ActionModel> {
    s.map_values(|a: Action| act_m(a))
}

/// The parser state in which everything is empty and ground.
pub open spec fn init_model() -> ParserModel {
    ParserModel {
        state: ParseState::Ground,
        params: Seq::empty(),
        cur: 0u16,
        any: false,
        osc_params: Seq::empty(),
        osc_cur: Seq::empty(),
    }
}

/// The parameter list a CSI dispatch hands out: the completed parameters,
/// plus the accumulating one when any parameter byte was seen.
pub open spec fn csi_finish_params(m: ParserModel) -> Seq<u16> {
    if m.any && m.params.len() < MAX_CSI_PARAMS {
        m.params.push(m.cur)
    } else {
        m.params
    }
}

/// The parameter list an OSC dispatch hands out: the completed parameters
/// plus the accumulating one.
pub open spec fn osc_finish_params(m: ParserModel) -> Seq<Seq<u8>> {
    if m.osc_params.len() < MAX_OSC_PARAMS {
        m.osc_params.push(m.osc_cur)
    } else {
        m.osc_params
    }
}

/// One step from the ground state.
pub open spec fn step_ground_m(m: ParserModel, b: u8) -> (ParserModel, Seq<ActionModel>) {
    if b == 0x1B {
        (ParserModel { state: ParseState::Escape, ..m }, Seq::empty())
    } else if b < 0x20 || b == 0x7F {
        (m, seq![ActionModel::Execute(b)])
    } else if b < 0x80 {
        (m, seq![ActionModel::Print(b as char)])
    } else if 0xC2 <= b && b <= 0xDF {
        (
            ParserModel {
                state: ParseState::Utf8 { need: 1u8, cp: (b - 0xC0) as u32, min: 0x80u32 },
                ..m
            },
            Seq::empty(),
        )
    } else if 0xE0 <= b && b <= 0xEF {
        (
            ParserModel {
                state: ParseState::Utf8 { need: 2u8, cp: (b - 0xE0) as u32, min: 0x800u32 },
                ..m
            },
            Seq::empty(),
        )
    } else if 0xF0 <= b && b <= 0xF4 {
        (
            ParserModel {
                state: ParseState::Utf8 { need: 3u8, cp: (b - 0xF0) as u32, min: 0x10000u32 },
                ..m
            },
            Seq::empty(),
        )
    } else {
        (m, seq![ActionModel::Print('\u{FFFD}')])
    }
}

/// One step from the escape state.
pub open spec fn step_escape_m(m: ParserModel, b: u8) -> (ParserModel, Seq<ActionModel>) {
    if b == 0x5B {
        (
            ParserModel {
                state: ParseState::Csi,
                params: Seq::empty(),
                cur: 0u16,
                any: false,
                ..m
            },
            Seq::empty(),
        )
    } else if b == 0x5D {
        (
            ParserModel {
                state: ParseState::Osc,
                osc_params: Seq::empty(),
                osc_cur: Seq::empty(),
                ..m
            },
            Seq::empty(),
        )
    } else if b == 0x1B {
        (m, Seq::empty())
    } else if b == 0x18 || b == 0x1A {
        (ParserModel { state: ParseState::Ground, ..m }, seq![ActionModel::Execute(b)])
    } else {
        (ParserModel { state: ParseState::Ground, ..m }, Seq::empty())
    }
}

/// One step while collecting CSI parameters.
pub open spec fn step_csi_m(m: ParserModel, b: u8) -> (ParserModel, Seq<ActionModel>) {
    if 0x30 <= b && b <= 0x39 {
        let v = m.cur as int * 10 + (b - 0x30);
        let cur = if v > 0xFFFF {
            0xFFFFu16
        } else {
            v as u16
        };
        (ParserModel { cur, any: true, ..m }, Seq::empty())
    } else if b == 0x3B {
        let params = if m.params.len() < MAX_CSI_PARAMS {
            m.params.push(m.cur)
        } else {
            m.params
        };
        (ParserModel { params, cur: 0u16, any: true, ..m }, Seq::empty())
    } else if 0x40 <= b && b <= 0x7E {
        (
            ParserModel {
                state: ParseState::Ground,
                params: Seq::empty(),
                cur: 0u16,
                any: false,
                ..m
            },
            seq![ActionModel::Csi(csi_finish_params(m), b as char)],
        )
    } else if b == 0x1B {
        (ParserModel { state: ParseState::Escape, ..m }, Seq::empty())
    } else if b == 0x18 || b == 0x1A {
        (ParserModel { state: ParseState::Ground, ..m }, seq![ActionModel::Execute(b)])
    } else if b < 0x20 {
        (m, seq![ActionModel::Execute(b)])
    } else {
        (m, Seq::empty())
    }
}

/// One step while collecting an OSC string.
pub open spec fn step_osc_m(m: ParserModel, b: u8) -> (ParserModel, Seq<ActionModel>) {
    if b == 0x07 {
        (
            ParserModel {
                state: ParseState::Ground,
                osc_params: Seq::empty(),
                osc_cur: Seq::empty(),
                ..m
            },
            seq![ActionModel::Osc(osc_finish_params(m))],
        )
    } else if b == 0x1B {
        (ParserModel { state: ParseState::OscEsc, ..m }, Seq::empty())
    } else if b == 0x3B {
        let osc_params = if m.osc_params.len() < MAX_OSC_PARAMS {
            m.osc_params.push(m.osc_cur)
        } else {
            m.osc_params
        };
        (ParserModel { osc_params, osc_cur: Seq::empty(), ..m }, Seq::empty())
    } else if b < 0x20 {
        (m, Seq::empty())
    } else {
        let osc_cur = if m.osc_cur.len() < MAX_OSC_BYTES {
            m.osc_cur.push(b)
        } else {
            m.osc_cur
        };
        (ParserModel { osc_cur, ..m }, Seq::empty())
    }
}

/// One step after an ESC inside an OSC string: `\` terminates and
/// dispatches; anything else aborts the string and is handled as an escape
/// byte.
pub open spec fn step_oscesc_m(m: ParserModel, b: u8) -> (ParserModel, Seq<ActionModel>) {
    if b == 0x5C {
        (
            ParserModel {
                state: ParseState::Ground,
                osc_params: Seq::empty(),
                osc_cur: Seq::empty(),
                ..m
            },
            seq![ActionModel::Osc(osc_finish_params(m))],
        )
    } else {
        step_escape_m(
            ParserModel {
                state: ParseState::Escape,
                osc_params: Seq::empty(),
                osc_cur: Seq::empty(),
                ..m
            },
            b,
        )
    }
}

/// One step while reassembling a UTF-8 character.
pub open spec fn step_utf8_m(m: ParserModel, need: u8, cp: u32, min: u32, b: u8) -> (
    ParserModel,
    Seq<ActionModel>,
) {
    if 0x80 <= b && b <= 0xBF {
        let cp2 = (cp * 64 + (b - 0x80)) as u32;
        if need == 1 {
            let c = if cp2 >= min && cp2 <= 0x10FFFF && !(0xD800 <= cp2 && cp2 <= 0xDFFF) {
                cp2 as char
            } else {
                '\u{FFFD}'
            };
            (ParserModel { state: ParseState::Ground, ..m }, seq![ActionModel::Print(c)])
        } else {
            (
                ParserModel {
                    state: ParseState::Utf8 { need: (need - 1) as u8, cp: cp2, min },
                    ..m
                },
                Seq::empty(),
            )
        }
    } else {
        let g = step_ground_m(ParserModel { state: ParseState::Ground, ..m }, b);
        (g.0, seq![ActionModel::Print('\u{FFFD}')] + g.1)
    }
}

/// One step of the state machine on one byte.
pub open spec fn step_m(m: ParserModel, b: u8) -> (ParserModel, Seq<ActionModel>) {
    match m.state {
        ParseState::Ground => step_ground_m(m, b),
        ParseState::Escape => step_escape_m(m, b),
        ParseState::Csi => step_csi_m(m, b),
        ParseState::Osc => step_osc_m(m, b),
        ParseState::OscEsc => step_oscesc_m(m, b),
        ParseState::Utf8 { need, cp, min } => step_utf8_m(m, need, cp, min, b),
    }
}

/// The state machine run over `bytes` from index `i` on: the final state and
/// every action produced, in order.
pub open spec fn run_m(m: ParserModel, bytes: Seq<u8>, i: int) -> (ParserModel, Seq<ActionModel>)
    decreases bytes.len() - i,
{
    if i < 0 || i >= bytes.len() {
        (m, Seq::empty())
    } else {
        let s = step_m(m, bytes[i]);
        let rest = run_m(s.0, bytes, i + 1);
        (rest.0, s.1 + rest.1)
    }
}

/// The byte-stream parser.
pub struct Parser {
    state: ParseState,
    params: Vec<u16>,
    cur: u16,
    any: bool,
    osc_params: Vec<Vec<u8>>,
    osc_cur: Vec<u8>,
}

impl Parser {
    /// The abstract value of the parser.
    pub closed spec fn m(self) -> ParserModel {
        ParserModel {
            state: self.state,
            params: self.params@,
            cur: self.cur,
            any: self.any,
            osc_params: Seq::new(self.osc_params@.len(), |i: int| self.osc_params@[i]@),
            osc_cur: self.osc_cur@,
        }
    }

    /// Bounds that every reachable parser satisfies; in particular the
    /// UTF-8 accumulator never overflows on the next continuation byte.
    pub closed spec fn wf(self) -> bool {
        match self.state {
            ParseState::Utf8 { need, cp, min } => {
                &&& 1 <= need <= 3
                &&& (need == 3 ==> cp < 0x08)
                &&& (need == 2 ==> cp < 0x200)
                &&& (need == 1 ==> cp < 0x8000)
                &&& (min == 0x80 || min == 0x800 || min == 0x10000)
            },
            _ => true,
        }
    }

    /// A parser in the ground state with nothing collected.
    pub fn new() -> (p: Parser)
        ensures
            p.wf(),
            p.m() == init_model(),
    {
        let p = Parser {
            state: ParseState::Ground,
            params: Vec::new(),
            cur: 0,
            any: false,
            osc_params: Vec::new(),
            osc_cur: Vec::new(),
        };
        proof {
            assert(p.m().osc_params =~= init_model().osc_params);
            assert(p.m() == init_model());
        }
        p
    }

    /// Feeds one slice of bytes through the machine and returns the actions
    /// it produces, exactly as the model [`run_m`] describes.
    pub fn advance(&mut self, bytes: &[u8]) -> (acts: Vec<Action>)
        requires
            old(self).wf(),
        ensures
            final(self).wf(),
            final(self).m() == run_m(old(self).m(), bytes@, 0).0,
            acts_m(acts@) == run_m(old(self).m(), bytes@, 0).1,
    {
        let mut acts: Vec<Action> = Vec::new();
        let n = bytes.len();
        let mut i: usize = 0;
        proof {
            assert(acts_m(acts@) =~= Seq::<ActionModel>::empty());
        }
        while i < n
            invariant
                self.wf(),
                0 <= i <= n,
                n == bytes@.len(),
                run_m(old(self).m(), bytes@, 0).0 == run_m(self.m(), bytes@, i as int).0,
                run_m(old(self).m(), bytes@, 0).1 == acts_m(acts@) + run_m(
                    self.m(),
                    bytes@,
                    i as int,
                ).1,
            decreases n - i,
        {
            let ghost pre_m = self.m();
            let ghost pre_acts = acts@;
            self.step(bytes[i], &mut acts);
            proof {
                let s = step_m(pre_m, bytes@[i as int]);
                let rest = run_m(self.m(), bytes@, i as int + 1);
                assert(run_m(pre_m, bytes@, i as int).0 == rest.0);
                assert(run_m(pre_m, bytes@, i as int).1 == s.1 + rest.1);
                assert(acts_m(acts@) =~= acts_m(pre_acts) + s.1);
                assert(acts_m(pre_acts) + (s.1 + rest.1) =~= (acts_m(pre_acts) + s.1) + rest.1);
            }
            i = i + 1;
        }
        acts
    }

    /// One byte through the machine; actions are appended to `out`.
    fn step(&mut self, b: u8, out: &mut Vec<Action>)
        requires
            old(self).wf(),
        ensures
            final(self).wf(),
            final(self).m() == step_m(old(self).m(), b).0,
            acts_m(final(out)@) == acts_m(old(out)@) + step_m(old(self).m(), b).1,
    {
        let ghost m0 = self.m();
        match self.state {
            ParseState::Ground => {
                self.step_ground(b, out);
            },
            ParseState::Escape => {
                self.step_escape(b, out);
            },
            ParseState::Csi => {
                self.step_csi(b, out);
            },
            ParseState::Osc => {
                self.step_osc(b, out);
            },
            ParseState::OscEsc => {
                if b == 0x5C {
                    let ps = self.take_osc_params();
                    self.state = ParseState::Ground;
                    let ghost preout = out@;
                    out.push(Action::OscDispatch(ps));
                    proof {
                        assert(acts_m(out@) =~= acts_m(preout) + step_m(m0, b).1);
                    }
                } else {
                    self.state = ParseState::Escape;
                    self.osc_params = Vec::new();
                    self.osc_cur = Vec::new();
                    proof {
                        assert(self.m().osc_params =~= Seq::<Seq<u8>>::empty());
                        assert(self.m().osc_cur =~= Seq::<u8>::empty());
                        assert(self.m() == (ParserModel {
                            state: ParseState::Escape,
                            osc_params: Seq::empty(),
                            osc_cur: Seq::empty(),
                            ..m0
                        }));
                    }
                    self.step_escape(b, out);
                }
            },
            ParseState::Utf8 { need, cp, min } => {
                if 0x80 <= b && b <= 0xBF {
                    let cp2 = cp * 64 + (b - 0x80) as u32;
                    if need == 1 {
                        let c = if cp2 >= min && cp2 <= 0x10FFFF && !(0xD800 <= cp2 && cp2
                            <= 0xDFFF) {
                            crate::strutil::char_from_scalar(cp2)
                        } else {
                            '\u{FFFD}'
                        };
                        self.state = ParseState::Ground;
                        let ghost preout = out@;
                        out.push(Action::Print(c));
                        proof {
                            assert(acts_m(out@) =~= acts_m(preout) + step_m(m0, b).1);
                        }
                    } else {
                        self.state = ParseState::Utf8 { need: need - 1, cp: cp2, min };
                    }
                } else {
                    self.state = ParseState::Ground;
                    let ghost preout = out@;
                    out.push(Action::Print('\u{FFFD}'));
                    proof {
                        assert(acts_m(out@) =~= acts_m(preout) + seq![
                            ActionModel::Print('\u{FFFD}'),
                        ]);
                        assert(self.m() == (ParserModel { state: ParseState::Ground, ..m0 }));
                    }
                    self.step_ground(b, out);
                    proof {
                        let g = step_ground_m(ParserModel { state: ParseState::Ground, ..m0 }, b);
                        assert(acts_m(out@) =~= acts_m(preout) + (seq![
                            ActionModel::Print('\u{FFFD}'),
                        ] + g.1));
                    }
                }
            },
        }
    }

    fn step_ground(&mut self, b: u8, out: &mut Vec<Action>)
        requires
            old(self).wf(),
            old(self).m().state is Ground,
        ensures
            final(self).wf(),
            final(self).m() == step_ground_m(old(self).m(), b).0,
            acts_m(final(out)@) == acts_m(old(out)@) + step_ground_m(old(self).m(), b).1,
    {
        let ghost m0 = self.m();
        let ghost preout = out@;
        if b == 0x1B {
            self.state = ParseState::Escape;
        } else if b < 0x20 || b == 0x7F {
            out.push(Action::Execute(b));
        } else if b < 0x80 {
            out.push(Action::Print(b as char));
        } else if 0xC2 <= b && b <= 0xDF {
            self.state = ParseState::Utf8 { need: 1, cp: (b - 0xC0) as u32, min: 0x80 };
        } else if 0xE0 <= b && b <= 0xEF {
            self.state = ParseState::Utf8 { need: 2, cp: (b - 0xE0) as u32, min: 0x800 };
        } else if 0xF0 <= b && b <= 0xF4 {
            self.state = ParseState::Utf8 { need: 3, cp: (b - 0xF0) as u32, min: 0x10000 };
        } else {
            out.push(Action::Print('\u{FFFD}'));
        }
        proof {
            assert(acts_m(out@) =~= acts_m(preout) + step_ground_m(m0, b).1);
        }
    }

    fn step_escape(&mut self, b: u8, out: &mut Vec<Action>)
        requires
            old(self).wf(),
            old(self).m().state is Escape,
        ensures
            final(self).wf(),
            final(self).m() == step_escape_m(old(self).m(), b).0,
            acts_m(final(out)@) == acts_m(old(out)@) + step_escape_m(old(self).m(), b).1,
    {
        let ghost m0 = self.m();
        let ghost preout = out@;
        if b == 0x5B {
            self.state = ParseState::Csi;
            self.params = Vec::new();
            self.cur = 0;
            self.any = false;
        } else if b == 0x5D {
            self.state = ParseState::Osc;
            self.osc_params = Vec::new();
            self.osc_cur = Vec::new();
            proof {
                assert(self.m().osc_params =~= Seq::<Seq<u8>>::empty());
            }
        } else if b == 0x1B {
        } else if b == 0x18 || b == 0x1A {
            self.state = ParseState::Ground;
            out.push(Action::Execute(b));
        } else {
            self.state = ParseState::Ground;
        }
        proof {
            assert(acts_m(out@) =~= acts_m(preout) + step_escape_m(m0, b).1);
        }
    }

    fn step_csi(&mut self, b: u8, out: &mut Vec<Action>)
        requires
            old(self).wf(),
            old(self).m().state is Csi,
        ensures
            final(self).wf(),
            final(self).m() == step_csi_m(old(self).m(), b).0,
            acts_m(final(out)@) == acts_m(old(out)@) + step_csi_m(old(self).m(), b).1,
    {
        let ghost m0 = self.m();
        let ghost preout = out@;
        if 0x30 <= b && b <= 0x39 {
            let v = self.cur as u32 * 10 + (b - 0x30) as u32;
            self.cur = if v > 0xFFFF {
                0xFFFF
            } else {
                v as u16
            };
            self.any = true;
        } else if b == 0x3B {
            if self.params.len() < MAX_CSI_PARAMS {
                self.params.push(self.cur);
            }
            self.cur = 0;
            self.any = true;
        } else if 0x40 <= b && b <= 0x7E {
            if self.any && self.params.len() < MAX_CSI_PARAMS {
                self.params.push(self.cur);
            }
            let mut ps: Vec<u16> = Vec::new();
            core::mem::swap(&mut self.params, &mut ps);
            self.cur = 0;
            self.any = false;
            self.state = ParseState::Ground;
            out.push(Action::CsiDispatch(ps, b as char));
        } else if b == 0x1B {
            self.state = ParseState::Escape;
        } else if b == 0x18 || b == 0x1A {
            self.state = ParseState::Ground;
            out.push(Action::Execute(b));
        } else if b < 0x20 {
            out.push(Action::Execute(b));
        } else {
        }
        proof {
            assert(acts_m(out@) =~= acts_m(preout) + step_csi_m(m0, b).1);
        }
    }

    fn step_osc(&mut self, b: u8, out: &mut Vec<Action>)
        requires
            old(self).wf(),
            old(self).m().state is Osc,
        ensures
            final(self).wf(),
            final(self).m() == step_osc_m(old(self).m(), b).0,
            acts_m(final(out)@) == acts_m(old(out)@) + step_osc_m(old(self).m(), b).1,
    {
        let ghost m0 = self.m();
        let ghost preout = out@;
        if b == 0x07 {
            let ps = self.take_osc_params();
            self.state = ParseState::Ground;
            out.push(Action::OscDispatch(ps));
        } else if b == 0x1B {
            self.state = ParseState::OscEsc;
        } else if b == 0x3B {
            if self.osc_params.len() < MAX_OSC_PARAMS {
                let mut cur: Vec<u8> = Vec::new();
                core::mem::swap(&mut self.osc_cur, &mut cur);
                self.osc_params.push(cur);
                proof {
                    assert(self.m().osc_params =~= m0.osc_params.push(m0.osc_cur));
                }
            } else {
                self.osc_cur = Vec::new();
            }
        } else if b < 0x20 {
        } else {
            if self.osc_cur.len() < MAX_OSC_BYTES {
                self.osc_cur.push(b);
            }
        }
        proof {
            assert(acts_m(out@) =~= acts_m(preout) + step_osc_m(m0, b).1);
        }
    }

    /// Takes the collected OSC parameters out, leaving empty accumulators.
    fn take_osc_params(&mut self) -> (ps: Vec<Vec<u8>>)
        ensures
            final(self).state == old(self).state,
            final(self).m() == (ParserModel {
                osc_params: Seq::empty(),
                osc_cur: Seq::empty(),
                ..old(self).m()
            }),
            Seq::new(ps@.len(), |i: int| ps@[i]@) == osc_finish_params(old(self).m()),
            final(self).wf() == old(self).wf(),
    {
        let mut cur: Vec<u8> = Vec::new();
        core::mem::swap(&mut self.osc_cur, &mut cur);
        let mut ps: Vec<Vec<u8>> = Vec::new();
        core::mem::swap(&mut self.osc_params, &mut ps);
        if ps.len() < MAX_OSC_PARAMS {
            ps.push(cur);
        }
        proof {
            assert(Seq::new(ps@.len(), |i: int| ps@[i]@) =~= osc_finish_params(old(self).m()));
            assert(self.m().osc_params =~= Seq::<Seq<u8>>::empty());
        }
        ps
    }
}

} // verus!
