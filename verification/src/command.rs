//! The Command Path: the ordered accumulation of resolved tokens for one
//! in-progress command, together with the engine loop around it.
//!
//! A [`Command`] starts empty at the root position.  Each whitespace-
//! delimited fragment of operator input is offered to the current open
//! position; a successful collapse appends the resolved value and asks the
//! transition graph for the next position, until the terminal marker is
//! reached.  A failed collapse changes nothing, so repeated bad keystrokes
//! are safe.  The path is cleared by an explicit reset, never revised in
//! place: revising an earlier token means discarding the path and starting
//! over at the root.

use vstd::prelude::*;

use crate::grammar::CmdError;
use crate::grammar::NodeType;
use crate::grammar::TokenKind;
use crate::grammar::next_open;
use crate::grammar::open_node;
use crate::grammar::spec_candidates;
use crate::grammar::spec_collapse;
use crate::numeric::dec_digits;
use crate::numeric::push_decimal;
use crate::numeric::push_digits;
use crate::numeric::spec_render_decimal;
use crate::text::normalize;
use crate::tokens::CmdContext;
use crate::tokens::EffectType;
use crate::tokens::EngineType;
use crate::tokens::GenericParam;
use crate::tokens::Gui;
use crate::tokens::Knob;
use crate::tokens::MatrixCmdArgs;
use crate::tokens::OrganDrawBarParam;
use crate::tokens::OrganParam;
use crate::tokens::PowerState;
use crate::tokens::ReverbParams;
use crate::tokens::Screen;
use crate::tokens::SemitoneDetune;
use crate::tokens::SubSynthParam;
use crate::tokens::TokenValue;
use crate::tokens::WaveformType;
use crate::tokens::display_name;

verus! {

/// How one resolved value is written in a finished command: numerals by
/// their digits, every other value by its canonical (first) alias.
pub open spec fn spec_render_value(v: TokenValue) -> Seq<char> {
    match v {
        TokenValue::Amount(d) => spec_render_decimal(d),
        TokenValue::Lfo(n) => dec_digits(n.0 as nat),
        TokenValue::Sequence(n) => dec_digits(n.0 as nat),
        _ => display_name(v),
    }
}

/// The whole path, values joined by '/'.
pub open spec fn spec_render_path(ts: Seq<TokenValue>) -> Seq<char>
    decreases ts.len(),
{
    if ts.len() == 0 {
        Seq::<char>::empty()
    } else if ts.len() == 1 {
        spec_render_value(ts[0])
    } else {
        spec_render_path(ts.drop_last()) + seq!['/'] + spec_render_value(ts.last())
    }
}

/// The grammar position that stands after the given path: the root when the
/// path is empty, else the continuation of its last resolved value.
pub open spec fn node_after(ts: Seq<TokenValue>) -> NodeType {
    if ts.len() == 0 {
        NodeType::Open(TokenKind::Root)
    } else {
        next_open(ts.drop_last(), ts.last())
    }
}

/// The canonical (first) alias of an enumerable value, for rendering a
/// finished command.
fn display_str(v: &TokenValue) -> (r: &'static str)
    requires
        !(*v is Lfo),
        !(*v is Sequence),
        !(*v is Amount),
    ensures
        r@ == display_name(*v),
{
    match *v {
        TokenValue::Context(CmdContext::Organ) => "organ",
        TokenValue::Context(CmdContext::SubSynth) => "synth",
        TokenValue::Context(CmdContext::Reverb) => "reverb",
        TokenValue::Context(CmdContext::Chorus) => "chorus",
        TokenValue::Context(CmdContext::Lfo) => "lfo",
        TokenValue::Context(CmdContext::Matrix) => "mod-matrix",
        TokenValue::Context(CmdContext::GoTo) => "goto",
        TokenValue::Organ(OrganParam::Db1) => "1",
        TokenValue::Organ(OrganParam::Db2) => "2",
        TokenValue::Organ(OrganParam::Db3) => "3",
        TokenValue::Organ(OrganParam::Db4) => "4",
        TokenValue::Organ(OrganParam::Db5) => "5",
        TokenValue::Organ(OrganParam::Db6) => "6",
        TokenValue::Organ(OrganParam::Db7) => "7",
        TokenValue::Organ(OrganParam::Db8) => "8",
        TokenValue::Organ(OrganParam::SpeakerSpeed) => "speed",
        TokenValue::DrawBar(OrganDrawBarParam::Level1) => "1",
        TokenValue::DrawBar(OrganDrawBarParam::Level2) => "2",
        TokenValue::DrawBar(OrganDrawBarParam::Level3) => "3",
        TokenValue::DrawBar(OrganDrawBarParam::Level4) => "4",
        TokenValue::DrawBar(OrganDrawBarParam::Level5) => "5",
        TokenValue::DrawBar(OrganDrawBarParam::Level6) => "6",
        TokenValue::DrawBar(OrganDrawBarParam::Level7) => "7",
        TokenValue::DrawBar(OrganDrawBarParam::Level8) => "8",
        TokenValue::SubSynth(SubSynthParam::Osc1Type) => "osc1-type",
        TokenValue::SubSynth(SubSynthParam::Mix) => "mix",
        TokenValue::SubSynth(SubSynthParam::Osc2Type) => "osc2-type",
        TokenValue::SubSynth(SubSynthParam::Detune) => "detune",
        TokenValue::SubSynth(SubSynthParam::DetuneFine) => "detune-fine",
        TokenValue::SubSynth(SubSynthParam::Atk) => "attack",
        TokenValue::SubSynth(SubSynthParam::Dcy) => "decay",
        TokenValue::SubSynth(SubSynthParam::Sus) => "sustain",
        TokenValue::SubSynth(SubSynthParam::Rel) => "release",
        TokenValue::SubSynth(SubSynthParam::CutOff) => "cutoff",
        TokenValue::SubSynth(SubSynthParam::Res) => "resonance",
        TokenValue::Detune(SemitoneDetune::Semi1) => "1",
        TokenValue::Detune(SemitoneDetune::Semi2) => "2",
        TokenValue::Detune(SemitoneDetune::Semi3) => "3",
        TokenValue::Detune(SemitoneDetune::Semi4) => "4",
        TokenValue::Detune(SemitoneDetune::Semi5) => "5",
        TokenValue::Detune(SemitoneDetune::Semi6) => "6",
        TokenValue::Detune(SemitoneDetune::Semi7) => "7",
        TokenValue::Detune(SemitoneDetune::Semi8) => "8",
        TokenValue::Detune(SemitoneDetune::Semi9) => "9",
        TokenValue::Detune(SemitoneDetune::Semi10) => "10",
        TokenValue::Detune(SemitoneDetune::Semi11) => "11",
        TokenValue::Detune(SemitoneDetune::Semi12) => "12",
        TokenValue::Wave(WaveformType::Sine) => "sine",
        TokenValue::Wave(WaveformType::Saw) => "saw",
        TokenValue::Reverb(ReverbParams::Gain) => "gain",
        TokenValue::Reverb(ReverbParams::Decay) => "decay",
        TokenValue::Reverb(ReverbParams::Cutoff) => "cutoff",
        TokenValue::Reverb(ReverbParams::Damping) => "tone",
        TokenValue::Reverb(ReverbParams::PowerState) => "power",
        TokenValue::Power(PowerState::On) => "on",
        TokenValue::Power(PowerState::Off) => "off",
        TokenValue::Matrix(MatrixCmdArgs::Connect) => "con",
        TokenValue::Matrix(MatrixCmdArgs::Disconnect) => "dcon",
        TokenValue::Screen(Screen::Wurlitzer) => "wurlitzer",
        TokenValue::Screen(Screen::Synth) => "synth",
        TokenValue::Screen(Screen::Effect) => "effects",
        TokenValue::Screen(Screen::LFO) => "lfo",
        TokenValue::Screen(Screen::ModMatrix) => "mod",
        TokenValue::Screen(Screen::Sequencer) => "sequencer",
        TokenValue::Engine(EngineType::Organ) => "organ",
        TokenValue::Engine(EngineType::SubtractiveSynth) => "synth",
        TokenValue::Effect(EffectType::Reverb) => "reverb",
        TokenValue::Effect(EffectType::Chorus) => "chorus",
        TokenValue::Generic(GenericParam::Knob(Knob::K1)) => "k1",
        TokenValue::Generic(GenericParam::Knob(Knob::K2)) => "k2",
        TokenValue::Generic(GenericParam::Knob(Knob::K3)) => "k3",
        TokenValue::Generic(GenericParam::Knob(Knob::K4)) => "k4",
        TokenValue::Generic(GenericParam::Knob(Knob::K5)) => "k5",
        TokenValue::Generic(GenericParam::Knob(Knob::K6)) => "k6",
        TokenValue::Generic(GenericParam::Knob(Knob::K7)) => "k7",
        TokenValue::Generic(GenericParam::Knob(Knob::K8)) => "k8",
        TokenValue::Generic(GenericParam::Gui(Gui::G1)) => "g1",
        TokenValue::Generic(GenericParam::Gui(Gui::G2)) => "g2",
        TokenValue::Generic(GenericParam::Gui(Gui::G3)) => "g3",
        TokenValue::Generic(GenericParam::Gui(Gui::G4)) => "g4",
        TokenValue::Generic(GenericParam::Gui(Gui::G5)) => "g5",
        TokenValue::Generic(GenericParam::Gui(Gui::G6)) => "g6",
        TokenValue::Generic(GenericParam::Gui(Gui::G7)) => "g7",
        TokenValue::Generic(GenericParam::Gui(Gui::G8)) => "g8",
        TokenValue::Omitted => "none",
        TokenValue::Lfo(_) => "",
        TokenValue::Sequence(_) => "",
        TokenValue::Amount(_) => "",
    }
}

/// Appends one resolved value in its written form.
fn push_value(out: &mut String, v: &TokenValue)
    ensures
        final(out)@ == old(out)@ + spec_render_value(*v),
{
    match v {
        TokenValue::Amount(d) => push_decimal(out, d),
        TokenValue::Lfo(n) => push_digits(out, n.0),
        TokenValue::Sequence(n) => push_digits(out, n.0),
        _ => out.append(display_str(v)),
    }
}

/// One in-progress command: the ordered, append-only path of resolved
/// values, and the grammar position that follows it.
pub struct Command {
    /// The resolved values, in the order they were collapsed.
    pub tokens: Vec<TokenValue>,
    /// The current grammar position: open over a candidate set, or `Done`.
    pub node: NodeType,
}

impl Command {
    /// The position always is the one the transition graph assigns to the
    /// path.
    pub open spec fn wf(self) -> bool {
        self.node == node_after(self.tokens@)
    }

    /// A fresh command: empty path, open at the root.
    pub fn new() -> (c: Command)
        ensures
            c.wf(),
            c.tokens@ == Seq::<TokenValue>::empty(),
            c.node == NodeType::Open(TokenKind::Root),
    {
        Command { tokens: Vec::new(), node: NodeType::Open(TokenKind::Root) }
    }

    /// Discards the path: back to a fresh command at the root.
    pub fn reset(&mut self)
        ensures
            final(self).wf(),
            final(self).tokens@ == Seq::<TokenValue>::empty(),
            final(self).node == NodeType::Open(TokenKind::Root),
    {
        self.tokens = Vec::new();
        self.node = NodeType::Open(TokenKind::Root);
    }

    /// Is the command syntactically complete and ready for submission?
    pub fn is_done(&self) -> (b: bool)
        ensures
            b == (self.node is Done),
    {
        matches!(self.node, NodeType::Done)
    }

    /// Offers one fragment of operator input to the current open position.
    /// On the unique match (or a successful numeric parse) the resolved
    /// value is appended and the position advances along the transition
    /// graph; on any failure — including input after `Done` — the command is
    /// left exactly as it was.
    pub fn feed(&mut self, input: &str) -> (r: Result<(), CmdError>)
        requires
            old(self).wf(),
        ensures
            final(self).wf(),
            match old(self).node {
                NodeType::Open(k) => match spec_collapse(k, normalize(input@)) {
                    Ok(v) => r is Ok && final(self).tokens@ == old(self).tokens@.push(v)
                        && final(self).node == next_open(old(self).tokens@, v),
                    Err(e) => r == Err::<(), CmdError>(e) && *final(self) == *old(self),
                },
                _ => r == Err::<(), CmdError>(CmdError::NoMatch) && *final(self) == *old(self),
            },
    {
        let node = self.node;
        match node {
            NodeType::Open(k) => {
                let cs = open_node(k);
                match cs.collapse(input) {
                    Ok(v) => {
                        let resolved = NodeType::Resolved(v);
                        let next = resolved.transition(&self.tokens);
                        self.tokens.push(v);
                        self.node = next;
                        proof {
                            assert(self.tokens@.drop_last() =~= old(self).tokens@);
                        }
                        Ok(())
                    },
                    Err(e) => Err(e),
                }
            },
            _ => Err(CmdError::NoMatch),
        }
    }

    /// The current position's candidate rows, filtered by the in-progress
    /// partial token; nothing once the command is complete.
    pub fn candidates(&self, prefix: &str) -> (r: Vec<(&'static str, &'static str)>)
        requires
            self.wf(),
        ensures
            r@.map_values(|q: (&'static str, &'static str)| (q.0@, q.1@)) == (match self.node {
                NodeType::Open(k) => spec_candidates(k, normalize(prefix@)),
                _ => Seq::<(Seq<char>, Seq<char>)>::empty(),
            }),
    {
        let node = self.node;
        match node {
            NodeType::Open(k) => {
                let cs = open_node(k);
                cs.candidates(prefix)
            },
            _ => {
                let r: Vec<(&'static str, &'static str)> = Vec::new();
                proof {
                    assert(r@.map_values(|q: (&'static str, &'static str)| (q.0@, q.1@)) =~= Seq::<
                        (Seq<char>, Seq<char>),
                    >::empty());
                }
                r
            },
        }
    }

    /// Renders the path as an api path: the canonical names of the resolved
    /// values, joined by '/'.
    pub fn to_api(&self) -> (r: String)
        ensures
            r@ == spec_render_path(self.tokens@),
    {
        let mut out = String::new();
        let n = self.tokens.len();
        let mut i: usize = 0;
        proof {
            assert(self.tokens@.take(0) =~= Seq::<TokenValue>::empty());
        }
        while i < n
            invariant
                n == self.tokens@.len(),
                0 <= i <= n,
                out@ == spec_render_path(self.tokens@.take(i as int)),
            decreases n - i,
        {
            if i > 0 {
                out.append("/");
                proof {
                    reveal_strlit("/");
                    assert("/"@ =~= seq!['/']);
                }
            }
            push_value(&mut out, &self.tokens[i]);
            i = i + 1;
            proof {
                assert(self.tokens@.take(i as int).drop_last() =~= self.tokens@.take(i - 1));
                assert(self.tokens@.take(i as int).last() == self.tokens@[i - 1]);
                assert(out@ =~= spec_render_path(self.tokens@.take(i as int)));
            }
        }
        proof {
            assert(self.tokens@.take(n as int) =~= self.tokens@);
        }
        out
    }
}

/// Determinism: what a fragment does to a command — the collapse outcome at
/// the current position and the transition that follows — is a function of
/// the accumulated path and the input string alone; equal (path, input)
/// pairs always agree.
pub proof fn lemma_deterministic(
    ts1: Seq<TokenValue>,
    ts2: Seq<TokenValue>,
    s1: Seq<char>,
    s2: Seq<char>,
)
    requires
        ts1 == ts2,
        s1 == s2,
    ensures
        node_after(ts1) == node_after(ts2),
        forall|k: TokenKind| spec_collapse(k, s1) == spec_collapse(k, s2),
        forall|v: TokenValue| next_open(ts1, v) == next_open(ts2, v),
{
}

} // verus!
