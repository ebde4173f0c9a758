//! The Token Catalog: every kind of command token, its instances, their
//! aliases and descriptions.
//!
//! Each enumerable kind is a closed enum; the open (numeric) kinds are
//! represented by the value types [`Decimal`], [`LfoNum`] and [`SeqNum`].
//! [`TokenValue`] is the tagged union of every value a grammar position can
//! resolve to; [`value_names`] and [`value_desc`] are the catalog's
//! mathematical content, which every executable accessor is proved against.
//! Aliases are stored lower case and matching is case-insensitive: input is
//! folded before any comparison.

use vstd::prelude::*;

use crate::numeric::Decimal;

verus! {

/// A root command: the first word of every command line.
#[derive(Clone, Copy, PartialEq, Eq, Structural, Debug)]
pub enum CmdContext {
    /// set organ params
    Organ,
    /// set params for the subtractive synth
    SubSynth,
    /// set reverb effect params
    Reverb,
    /// set chorus effect params
    Chorus,
    /// change LFO parameters
    Lfo,
    /// make-new/break-old connections in the mod matrix
    Matrix,
    /// go to a display
    GoTo,
}

/// A parameter of the organ engine.
#[derive(Clone, Copy, PartialEq, Eq, Structural, Debug)]
pub enum OrganParam {
    Db1,
    Db2,
    Db3,
    Db4,
    Db5,
    Db6,
    Db7,
    Db8,
    SpeakerSpeed,
}

/// A draw-bar level of the organ.
#[derive(Clone, Copy, PartialEq, Eq, Structural, Debug)]
pub enum OrganDrawBarParam {
    Level1,
    Level2,
    Level3,
    Level4,
    Level5,
    Level6,
    Level7,
    Level8,
}

/// A parameter of the subtractive synth engine.
#[derive(Clone, Copy, PartialEq, Eq, Structural, Debug)]
pub enum SubSynthParam {
    /// the waveform type for osc one
    Osc1Type,
    /// how much of osc 1 vs osc 2 gets heard
    Mix,
    /// the waveform type for osc two
    Osc2Type,
    /// how many steps out of tune is osc 2
    Detune,
    /// what percentage of a note is osc 2 out of tune
    DetuneFine,
    /// the attack of the adsr filter
    Atk,
    /// the decay of the adsr
    Dcy,
    /// sustain of the adsr
    Sus,
    /// release of the adsr
    Rel,
    /// lowpass cutoff
    CutOff,
    /// lowpass resonance
    Res,
}

/// A whole-step detune amount for the second oscillator.
#[derive(Clone, Copy, PartialEq, Eq, Structural, Debug)]
pub enum SemitoneDetune {
    Semi1,
    Semi2,
    Semi3,
    Semi4,
    Semi5,
    Semi6,
    Semi7,
    Semi8,
    Semi9,
    Semi10,
    Semi11,
    Semi12,
}

/// An oscillator waveform.
#[derive(Clone, Copy, PartialEq, Eq, Structural, Debug)]
pub enum WaveformType {
    Sine,
    Saw,
}

/// A parameter of the reverb effect.
#[derive(Clone, Copy, PartialEq, Eq, Structural, Debug)]
pub enum ReverbParams {
    Gain,
    Decay,
    Cutoff,
    Damping,
    PowerState,
}

/// An on/off switch value.
#[derive(Clone, Copy, PartialEq, Eq, Structural, Debug)]
pub enum PowerState {
    On,
    Off,
}

/// A mod-matrix command.
#[derive(Clone, Copy, PartialEq, Eq, Structural, Debug)]
pub enum MatrixCmdArgs {
    Connect,
    Disconnect,
}

/// A display that the console can switch to.
#[derive(Clone, Copy, PartialEq, Eq, Structural, Debug)]
pub enum Screen {
    Wurlitzer,
    Synth,
    Effect,
    LFO,
    ModMatrix,
    Sequencer,
}

/// A synth engine, as an optional argument of the synth screen.
#[derive(Clone, Copy, PartialEq, Eq, Structural, Debug)]
pub enum EngineType {
    Organ,
    SubtractiveSynth,
}

/// An effect, as an optional argument of the effects screen.
#[derive(Clone, Copy, PartialEq, Eq, Structural, Debug)]
pub enum EffectType {
    Reverb,
    Chorus,
}

/// A midi-controlled knob.
#[derive(Clone, Copy, PartialEq, Eq, Structural, Debug)]
pub enum Knob {
    K1,
    K2,
    K3,
    K4,
    K5,
    K6,
    K7,
    K8,
}

/// A parameter that is edited on the gui rather than a knob.
#[derive(Clone, Copy, PartialEq, Eq, Structural, Debug)]
pub enum Gui {
    G1,
    G2,
    G3,
    G4,
    G5,
    G6,
    G7,
    G8,
}

/// Either kind of controller-mapped parameter.
#[derive(Clone, Copy, PartialEq, Eq, Structural, Debug)]
pub enum GenericParam {
    Knob(Knob),
    Gui(Gui),
}

/// An LFO number, chosen by index.
#[derive(Clone, Copy, PartialEq, Eq, Structural, Debug)]
pub struct LfoNum(pub u64);

/// A midi-sequence number, chosen by index.
#[derive(Clone, Copy, PartialEq, Eq, Structural, Debug)]
pub struct SeqNum(pub u64);

/// Every value a grammar position can resolve to.
#[derive(Clone, Copy, PartialEq, Eq, Structural, Debug)]
pub enum TokenValue {
    Context(CmdContext),
    Organ(OrganParam),
    DrawBar(OrganDrawBarParam),
    SubSynth(SubSynthParam),
    Detune(SemitoneDetune),
    Wave(WaveformType),
    Reverb(ReverbParams),
    Power(PowerState),
    Matrix(MatrixCmdArgs),
    Screen(Screen),
    Engine(EngineType),
    Effect(EffectType),
    Generic(GenericParam),
    /// The explicit "none" sentinel of an optional argument.
    Omitted,
    Lfo(LfoNum),
    Sequence(SeqNum),
    Amount(Decimal),
}

/// The catalog's alias sets: every display alias of a token value, lower
/// case, in catalog order.  Numeric values carry no aliases — they are
/// matched by parsing, never by alias lookup.
pub open spec fn value_names(v: TokenValue) -> Seq<Seq<char>> {
    match v {
        TokenValue::Context(c) => match c {
            CmdContext::Organ => seq!["organ"@, "org"@],
            CmdContext::SubSynth => seq!["synth"@],
            CmdContext::Reverb => seq!["reverb"@, "verb"@],
            CmdContext::Chorus => seq!["chorus"@],
            CmdContext::Lfo => seq!["lfo"@],
            CmdContext::Matrix => seq!["mod-matrix"@, "patch"@, "mod-m"@],
            CmdContext::GoTo => seq!["goto"@, "screen"@, "view"@],
        },
        TokenValue::Organ(p) => match p {
            OrganParam::Db1 => seq!["1"@],
            OrganParam::Db2 => seq!["2"@],
            OrganParam::Db3 => seq!["3"@],
            OrganParam::Db4 => seq!["4"@],
            OrganParam::Db5 => seq!["5"@],
            OrganParam::Db6 => seq!["6"@],
            OrganParam::Db7 => seq!["7"@],
            OrganParam::Db8 => seq!["8"@],
            OrganParam::SpeakerSpeed => seq!["speed"@, "rpm"@],
        },
        TokenValue::DrawBar(p) => match p {
            OrganDrawBarParam::Level1 => seq!["1"@],
            OrganDrawBarParam::Level2 => seq!["2"@],
            OrganDrawBarParam::Level3 => seq!["3"@],
            OrganDrawBarParam::Level4 => seq!["4"@],
            OrganDrawBarParam::Level5 => seq!["5"@],
            OrganDrawBarParam::Level6 => seq!["6"@],
            OrganDrawBarParam::Level7 => seq!["7"@],
            OrganDrawBarParam::Level8 => seq!["8"@],
        },
        TokenValue::SubSynth(p) => match p {
            SubSynthParam::Osc1Type => seq!["osc1-type"@, "main-wf"@],
            SubSynthParam::Mix => seq!["mix"@],
            SubSynthParam::Osc2Type => seq!["osc2-type"@, "second-wf"@],
            SubSynthParam::Detune => seq!["detune"@],
            SubSynthParam::DetuneFine => seq!["detune-fine"@, "fine-tune"@],
            SubSynthParam::Atk => seq!["attack"@, "atk"@],
            SubSynthParam::Dcy => seq!["decay"@, "dcy"@],
            SubSynthParam::Sus => seq!["sustain"@, "sus"@],
            SubSynthParam::Rel => seq!["release"@, "rel"@],
            SubSynthParam::CutOff => seq!["cutoff"@],
            SubSynthParam::Res => seq!["resonance"@, "res"@],
        },
        TokenValue::Detune(p) => match p {
            SemitoneDetune::Semi1 => seq!["1"@],
            SemitoneDetune::Semi2 => seq!["2"@],
            SemitoneDetune::Semi3 => seq!["3"@],
            SemitoneDetune::Semi4 => seq!["4"@],
            SemitoneDetune::Semi5 => seq!["5"@],
            SemitoneDetune::Semi6 => seq!["6"@],
            SemitoneDetune::Semi7 => seq!["7"@],
            SemitoneDetune::Semi8 => seq!["8"@],
            SemitoneDetune::Semi9 => seq!["9"@],
            SemitoneDetune::Semi10 => seq!["10"@],
            SemitoneDetune::Semi11 => seq!["11"@],
            SemitoneDetune::Semi12 => seq!["12"@],
        },
        TokenValue::Wave(p) => match p {
            WaveformType::Sine => seq!["sine"@, "sin"@],
            WaveformType::Saw => seq!["saw"@, "saw-tooth"@],
        },
        TokenValue::Reverb(p) => match p {
            ReverbParams::Gain => seq!["gain"@],
            ReverbParams::Decay => seq!["decay"@],
            ReverbParams::Cutoff => seq!["cutoff"@],
            ReverbParams::Damping => seq!["tone"@, "damping"@],
            ReverbParams::PowerState => seq!["power"@],
        },
        TokenValue::Power(p) => match p {
            PowerState::On => seq!["on"@, "1"@],
            PowerState::Off => seq!["off"@, "0"@],
        },
        TokenValue::Matrix(p) => match p {
            MatrixCmdArgs::Connect => seq!["con"@, "connect"@],
            MatrixCmdArgs::Disconnect => seq!["dcon"@, "disconnect"@, "discon"@],
        },
        TokenValue::Screen(p) => match p {
            Screen::Wurlitzer => seq!["wurlitzer"@, "wurli"@],
            Screen::Synth => seq!["synth"@],
            Screen::Effect => seq!["effects"@, "effect"@, "ef"@],
            Screen::LFO => seq!["lfo"@],
            Screen::ModMatrix => seq!["mod"@, "matrix"@, "mod-matrix"@],
            Screen::Sequencer => seq!["sequencer"@, "seq"@],
        },
        TokenValue::Engine(p) => match p {
            EngineType::Organ => seq!["organ"@],
            EngineType::SubtractiveSynth => seq!["synth"@, "subtractive-synth"@],
        },
        TokenValue::Effect(p) => match p {
            EffectType::Reverb => seq!["reverb"@, "verb"@],
            EffectType::Chorus => seq!["chorus"@, "delay"@],
        },
        TokenValue::Generic(p) => match p {
            GenericParam::Knob(k) => match k {
                Knob::K1 => seq!["k1"@, "1"@],
                Knob::K2 => seq!["k2"@, "2"@],
                Knob::K3 => seq!["k3"@, "3"@],
                Knob::K4 => seq!["k4"@, "4"@],
                Knob::K5 => seq!["k5"@, "5"@],
                Knob::K6 => seq!["k6"@, "6"@],
                Knob::K7 => seq!["k7"@, "7"@],
                Knob::K8 => seq!["k8"@, "8"@],
            },
            GenericParam::Gui(g) => match g {
                Gui::G1 => seq!["g1"@, "9"@],
                Gui::G2 => seq!["g2"@, "10"@],
                Gui::G3 => seq!["g3"@, "11"@],
                Gui::G4 => seq!["g4"@, "12"@],
                Gui::G5 => seq!["g5"@, "13"@],
                Gui::G6 => seq!["g6"@, "14"@],
                Gui::G7 => seq!["g7"@, "15"@],
                Gui::G8 => seq!["g8"@, "16"@],
            },
        },
        TokenValue::Omitted => seq!["none"@],
        TokenValue::Lfo(_) => seq![],
        TokenValue::Sequence(_) => seq![],
        TokenValue::Amount(_) => seq![],
    }
}

/// The catalog's descriptions, for suggestion rendering only; never consulted
/// for matching.
pub open spec fn value_desc(v: TokenValue) -> Seq<char> {
    match v {
        TokenValue::Context(c) => match c {
            CmdContext::Organ => "Organ synth engine params"@,
            CmdContext::SubSynth => "Subtractive synth engine params"@,
            CmdContext::Reverb => "Reverb effect params"@,
            CmdContext::Chorus => "Chorus effect params"@,
            CmdContext::Lfo => "Controls over the LFOs"@,
            CmdContext::Matrix => "Edit the mod-matrix"@,
            CmdContext::GoTo => "Change the active screen"@,
        },
        TokenValue::Organ(p) => match p {
            OrganParam::Db1 => "Draw bar 1"@,
            OrganParam::Db2 => "Draw bar 2"@,
            OrganParam::Db3 => "Draw bar 3"@,
            OrganParam::Db4 => "Draw bar 4"@,
            OrganParam::Db5 => "Draw bar 5"@,
            OrganParam::Db6 => "Draw bar 6"@,
            OrganParam::Db7 => "Draw bar 7"@,
            OrganParam::Db8 => "Draw bar 8"@,
            OrganParam::SpeakerSpeed => "Speed of the leslie speaker"@,
        },
        TokenValue::DrawBar(p) => match p {
            OrganDrawBarParam::Level1 => "Draw bar value of 1"@,
            OrganDrawBarParam::Level2 => "Draw bar value of 2"@,
            OrganDrawBarParam::Level3 => "Draw bar value of 3"@,
            OrganDrawBarParam::Level4 => "Draw bar value of 4"@,
            OrganDrawBarParam::Level5 => "Draw bar value of 5"@,
            OrganDrawBarParam::Level6 => "Draw bar value of 6"@,
            OrganDrawBarParam::Level7 => "Draw bar value of 7"@,
            OrganDrawBarParam::Level8 => "Draw bar value of 8"@,
        },
        TokenValue::SubSynth(p) => match p {
            SubSynthParam::Osc1Type => "Waveform type for main osc"@,
            SubSynthParam::Mix => "How much of osc 1 vs osc 2 gets heard"@,
            SubSynthParam::Osc2Type => "Waveform type for secondary osc"@,
            SubSynthParam::Detune => "How many steps out of tune is osc 2"@,
            SubSynthParam::DetuneFine => "What percentage of a note is osc 2 out of tune"@,
            SubSynthParam::Atk => "ADSR Attack"@,
            SubSynthParam::Dcy => "ADSR Decay"@,
            SubSynthParam::Sus => "ADSR Sustain"@,
            SubSynthParam::Rel => "ADSR Release"@,
            SubSynthParam::CutOff => "Low-pass filter cutoff"@,
            SubSynthParam::Res => "Low-pass filter resonance"@,
        },
        TokenValue::Detune(p) => match p {
            SemitoneDetune::Semi1 => "1 semi-tone"@,
            SemitoneDetune::Semi2 => "2 semi-tone"@,
            SemitoneDetune::Semi3 => "3 semi-tone"@,
            SemitoneDetune::Semi4 => "4 semi-tone"@,
            SemitoneDetune::Semi5 => "5 semi-tone"@,
            SemitoneDetune::Semi6 => "6 semi-tone"@,
            SemitoneDetune::Semi7 => "7 semi-tone"@,
            SemitoneDetune::Semi8 => "8 semi-tone"@,
            SemitoneDetune::Semi9 => "9 semi-tone"@,
            SemitoneDetune::Semi10 => "10 semi-tone"@,
            SemitoneDetune::Semi11 => "11 semi-tone"@,
            SemitoneDetune::Semi12 => "12 semi-tone"@,
        },
        TokenValue::Wave(p) => match p {
            WaveformType::Sine => "Sine waveform"@,
            WaveformType::Saw => "SawTooth waveform"@,
        },
        TokenValue::Reverb(p) => match p {
            ReverbParams::Gain => "Reverb gain"@,
            ReverbParams::Decay => "Reverb decay"@,
            ReverbParams::Cutoff => "Cutoff of the reverb's internal lowpass filter"@,
            ReverbParams::Damping => "Tone change of the reverb"@,
            ReverbParams::PowerState => "Is the reverb on or off"@,
        },
        TokenValue::Power(p) => match p {
            PowerState::On => "Makes the thing on"@,
            PowerState::Off => "Makes the thing off"@,
        },
        TokenValue::Matrix(p) => match p {
            MatrixCmdArgs::Connect => "Make a new connection in the mod-matrix"@,
            MatrixCmdArgs::Disconnect => "Remove a connection from the mod-matrix"@,
        },
        TokenValue::Screen(p) => match p {
            Screen::Wurlitzer => "The Wurlitzer screen (powered by Vital)"@,
            Screen::Synth => "Multiple synth engines"@,
            Screen::Effect => "Effects modifying screen"@,
            Screen::LFO => "LFO modifying screen"@,
            Screen::ModMatrix => "Mod-Matrix screen"@,
            Screen::Sequencer => "Midi Sequencer"@,
        },
        TokenValue::Engine(p) => match p {
            EngineType::Organ => "The organ synth engine"@,
            EngineType::SubtractiveSynth => "The subtractive synth engine"@,
        },
        TokenValue::Effect(p) => match p {
            EffectType::Reverb => "The reverb effect"@,
            EffectType::Chorus => "The chorus effect"@,
        },
        TokenValue::Generic(p) => match p {
            GenericParam::Knob(k) => match k {
                Knob::K1 => "Midi controlled knob K1"@,
                Knob::K2 => "Midi controlled knob K2"@,
                Knob::K3 => "Midi controlled knob K3"@,
                Knob::K4 => "Midi controlled knob K4"@,
                Knob::K5 => "Midi controlled knob K5"@,
                Knob::K6 => "Midi controlled knob K6"@,
                Knob::K7 => "Midi controlled knob K7"@,
                Knob::K8 => "Midi controlled knob K8"@,
            },
            GenericParam::Gui(g) => match g {
                Gui::G1 => "Gui editable parameter G1"@,
                Gui::G2 => "Gui editable parameter G2"@,
                Gui::G3 => "Gui editable parameter G3"@,
                Gui::G4 => "Gui editable parameter G4"@,
                Gui::G5 => "Gui editable parameter G5"@,
                Gui::G6 => "Gui editable parameter G6"@,
                Gui::G7 => "Gui editable parameter G7"@,
                Gui::G8 => "Gui editable parameter G8"@,
            },
        },
        TokenValue::Omitted => "Leave the optional argument out"@,
        TokenValue::Lfo(_) => "Which LFO"@,
        TokenValue::Sequence(_) => "Which MIDI sequence"@,
        TokenValue::Amount(_) => "decimal amount"@,
    }
}

/// The canonical display name of a value: its first alias.
pub open spec fn display_name(v: TokenValue) -> Seq<char> {
    value_names(v)[0]
}

/// A kind of command token, as static catalog data.
///
/// The executable accessors are proved against [`value_names`],
/// [`value_desc`] and the per-type instance list, so a caller reasons purely
/// over the catalog's mathematical content.
pub trait CmdToken: Sized + Copy {
    /// The engine-level value this token stands for.
    spec fn spec_value(self) -> TokenValue;

    /// The kind's instances, in definition order, as engine values.
    spec fn spec_values() -> Seq<TokenValue>;

    /// Wraps the token as an engine value.
    fn to_value(self) -> (v: TokenValue)
        ensures
            v == self.spec_value(),
    ;

    /// Every display alias of this instance, lower case, in catalog order.
    fn get_desc_name(&self) -> (r: Vec<&'static str>)
        ensures
            r@.map_values(|a: &'static str| a@) == value_names(self.spec_value()),
            r@.len() > 0,
    ;

    /// A one-line description, for suggestion rendering only.
    fn get_one_desc(&self) -> (r: &'static str)
        ensures
            r@ == value_desc(self.spec_value()),
    ;

    /// Every instance of the kind, in stable definition order.
    fn into_vec() -> (r: Vec<Self>)
        ensures
            r@.map_values(|t: Self| t.spec_value()) == Self::spec_values(),
    ;
}

impl CmdToken for CmdContext {
    open spec fn spec_value(self) -> TokenValue {
        TokenValue::Context(self)
    }

    open spec fn spec_values() -> Seq<TokenValue> {
        seq![
            TokenValue::Context(CmdContext::Organ),
            TokenValue::Context(CmdContext::SubSynth),
            TokenValue::Context(CmdContext::Reverb),
            TokenValue::Context(CmdContext::Chorus),
            TokenValue::Context(CmdContext::Lfo),
            TokenValue::Context(CmdContext::Matrix),
            TokenValue::Context(CmdContext::GoTo),
        ]
    }

    fn to_value(self) -> (v: TokenValue) {
        TokenValue::Context(self)
    }

    fn get_desc_name(&self) -> (r: Vec<&'static str>) {
        let r: Vec<&'static str> = match *self {
            CmdContext::Organ => vec!["organ", "org"],
            CmdContext::SubSynth => vec!["synth"],
            CmdContext::Reverb => vec!["reverb", "verb"],
            CmdContext::Chorus => vec!["chorus"],
            CmdContext::Lfo => vec!["lfo"],
            CmdContext::Matrix => vec!["mod-matrix", "patch", "mod-m"],
            CmdContext::GoTo => vec!["goto", "screen", "view"],
        };
        proof {
            assert(r@.map_values(|a: &'static str| a@) =~= value_names(self.spec_value()));
        }
        r
    }

    fn get_one_desc(&self) -> (r: &'static str) {
        match *self {
            CmdContext::Organ => "Organ synth engine params",
            CmdContext::SubSynth => "Subtractive synth engine params",
            CmdContext::Reverb => "Reverb effect params",
            CmdContext::Chorus => "Chorus effect params",
            CmdContext::Lfo => "Controls over the LFOs",
            CmdContext::Matrix => "Edit the mod-matrix",
            CmdContext::GoTo => "Change the active screen",
        }
    }

    fn into_vec() -> (r: Vec<Self>) {
        let r: Vec<Self> = vec![
            CmdContext::Organ,
            CmdContext::SubSynth,
            CmdContext::Reverb,
            CmdContext::Chorus,
            CmdContext::Lfo,
            CmdContext::Matrix,
            CmdContext::GoTo,
        ];
        proof {
            assert(r@.map_values(|t: Self| t.spec_value()) =~= Self::spec_values());
        }
        r
    }
}

impl CmdToken for PowerState {
    open spec fn spec_value(self) -> TokenValue {
        TokenValue::Power(self)
    }

    open spec fn spec_values() -> Seq<TokenValue> {
        seq![TokenValue::Power(PowerState::On), TokenValue::Power(PowerState::Off)]
    }

    fn to_value(self) -> (v: TokenValue) {
        TokenValue::Power(self)
    }

    fn get_desc_name(&self) -> (r: Vec<&'static str>) {
        let r: Vec<&'static str> = match *self {
            PowerState::On => vec!["on", "1"],
            PowerState::Off => vec!["off", "0"],
        };
        proof {
            assert(r@.map_values(|a: &'static str| a@) =~= value_names(self.spec_value()));
        }
        r
    }

    fn get_one_desc(&self) -> (r: &'static str) {
        match *self {
            PowerState::On => "Makes the thing on",
            PowerState::Off => "Makes the thing off",
        }
    }

    fn into_vec() -> (r: Vec<Self>) {
        let r: Vec<Self> = vec![PowerState::On, PowerState::Off];
        proof {
            assert(r@.map_values(|t: Self| t.spec_value()) =~= Self::spec_values());
        }
        r
    }
}

impl CmdToken for OrganParam {
    open spec fn spec_value(self) -> TokenValue {
        TokenValue::Organ(self)
    }

    open spec fn spec_values() -> Seq<TokenValue> {
        seq![
            TokenValue::Organ(OrganParam::Db1),
            TokenValue::Organ(OrganParam::Db2),
            TokenValue::Organ(OrganParam::Db3),
            TokenValue::Organ(OrganParam::Db4),
            TokenValue::Organ(OrganParam::Db5),
            TokenValue::Organ(OrganParam::Db6),
            TokenValue::Organ(OrganParam::Db7),
            TokenValue::Organ(OrganParam::Db8),
            TokenValue::Organ(OrganParam::SpeakerSpeed),
        ]
    }

    fn to_value(self) -> (v: TokenValue) {
        TokenValue::Organ(self)
    }

    fn get_desc_name(&self) -> (r: Vec<&'static str>) {
        let r: Vec<&'static str> = match *self {
            OrganParam::Db1 => vec!["1"],
            OrganParam::Db2 => vec!["2"],
            OrganParam::Db3 => vec!["3"],
            OrganParam::Db4 => vec!["4"],
            OrganParam::Db5 => vec!["5"],
            OrganParam::Db6 => vec!["6"],
            OrganParam::Db7 => vec!["7"],
            OrganParam::Db8 => vec!["8"],
            OrganParam::SpeakerSpeed => vec!["speed", "rpm"],
        };
        proof {
            assert(r@.map_values(|a: &'static str| a@) =~= value_names(self.spec_value()));
        }
        r
    }

    fn get_one_desc(&self) -> (r: &'static str) {
        match *self {
            OrganParam::Db1 => "Draw bar 1",
            OrganParam::Db2 => "Draw bar 2",
            OrganParam::Db3 => "Draw bar 3",
            OrganParam::Db4 => "Draw bar 4",
            OrganParam::Db5 => "Draw bar 5",
            OrganParam::Db6 => "Draw bar 6",
            OrganParam::Db7 => "Draw bar 7",
            OrganParam::Db8 => "Draw bar 8",
            OrganParam::SpeakerSpeed => "Speed of the leslie speaker",
        }
    }

    fn into_vec() -> (r: Vec<Self>) {
        let r: Vec<Self> = vec![
            OrganParam::Db1,
            OrganParam::Db2,
            OrganParam::Db3,
            OrganParam::Db4,
            OrganParam::Db5,
            OrganParam::Db6,
            OrganParam::Db7,
            OrganParam::Db8,
            OrganParam::SpeakerSpeed,
        ];
        proof {
            assert(r@.map_values(|t: Self| t.spec_value()) =~= Self::spec_values());
        }
        r
    }
}

impl CmdToken for OrganDrawBarParam {
    open spec fn spec_value(self) -> TokenValue {
        TokenValue::DrawBar(self)
    }

    open spec fn spec_values() -> Seq<TokenValue> {
        seq![
            TokenValue::DrawBar(OrganDrawBarParam::Level1),
            TokenValue::DrawBar(OrganDrawBarParam::Level2),
            TokenValue::DrawBar(OrganDrawBarParam::Level3),
            TokenValue::DrawBar(OrganDrawBarParam::Level4),
            TokenValue::DrawBar(OrganDrawBarParam::Level5),
            TokenValue::DrawBar(OrganDrawBarParam::Level6),
            TokenValue::DrawBar(OrganDrawBarParam::Level7),
            TokenValue::DrawBar(OrganDrawBarParam::Level8),
        ]
    }

    fn to_value(self) -> (v: TokenValue) {
        TokenValue::DrawBar(self)
    }

    fn get_desc_name(&self) -> (r: Vec<&'static str>) {
        let r: Vec<&'static str> = match *self {
            OrganDrawBarParam::Level1 => vec!["1"],
            OrganDrawBarParam::Level2 => vec!["2"],
            OrganDrawBarParam::Level3 => vec!["3"],
            OrganDrawBarParam::Level4 => vec!["4"],
            OrganDrawBarParam::Level5 => vec!["5"],
            OrganDrawBarParam::Level6 => vec!["6"],
            OrganDrawBarParam::Level7 => vec!["7"],
            OrganDrawBarParam::Level8 => vec!["8"],
        };
        proof {
            assert(r@.map_values(|a: &'static str| a@) =~= value_names(self.spec_value()));
        }
        r
    }

    fn get_one_desc(&self) -> (r: &'static str) {
        match *self {
            OrganDrawBarParam::Level1 => "Draw bar value of 1",
            OrganDrawBarParam::Level2 => "Draw bar value of 2",
            OrganDrawBarParam::Level3 => "Draw bar value of 3",
            OrganDrawBarParam::Level4 => "Draw bar value of 4",
            OrganDrawBarParam::Level5 => "Draw bar value of 5",
            OrganDrawBarParam::Level6 => "Draw bar value of 6",
            OrganDrawBarParam::Level7 => "Draw bar value of 7",
            OrganDrawBarParam::Level8 => "Draw bar value of 8",
        }
    }

    fn into_vec() -> (r: Vec<Self>) {
        let r: Vec<Self> = vec![
            OrganDrawBarParam::Level1,
            OrganDrawBarParam::Level2,
            OrganDrawBarParam::Level3,
            OrganDrawBarParam::Level4,
            OrganDrawBarParam::Level5,
            OrganDrawBarParam::Level6,
            OrganDrawBarParam::Level7,
            OrganDrawBarParam::Level8,
        ];
        proof {
            assert(r@.map_values(|t: Self| t.spec_value()) =~= Self::spec_values());
        }
        r
    }
}

impl CmdToken for SubSynthParam {
    open spec fn spec_value(self) -> TokenValue {
        TokenValue::SubSynth(self)
    }

    open spec fn spec_values() -> Seq<TokenValue> {
        seq![
            TokenValue::SubSynth(SubSynthParam::Osc1Type),
            TokenValue::SubSynth(SubSynthParam::Mix),
            TokenValue::SubSynth(SubSynthParam::Osc2Type),
            TokenValue::SubSynth(SubSynthParam::Detune),
            TokenValue::SubSynth(SubSynthParam::DetuneFine),
            TokenValue::SubSynth(SubSynthParam::Atk),
            TokenValue::SubSynth(SubSynthParam::Dcy),
            TokenValue::SubSynth(SubSynthParam::Sus),
            TokenValue::SubSynth(SubSynthParam::Rel),
            TokenValue::SubSynth(SubSynthParam::CutOff),
            TokenValue::SubSynth(SubSynthParam::Res),
        ]
    }

    fn to_value(self) -> (v: TokenValue) {
        TokenValue::SubSynth(self)
    }

    fn get_desc_name(&self) -> (r: Vec<&'static str>) {
        let r: Vec<&'static str> = match *self {
            SubSynthParam::Osc1Type => vec!["osc1-type", "main-wf"],
            SubSynthParam::Mix => vec!["mix"],
            SubSynthParam::Osc2Type => vec!["osc2-type", "second-wf"],
            SubSynthParam::Detune => vec!["detune"],
            SubSynthParam::DetuneFine => vec!["detune-fine", "fine-tune"],
            SubSynthParam::Atk => vec!["attack", "atk"],
            SubSynthParam::Dcy => vec!["decay", "dcy"],
            SubSynthParam::Sus => vec!["sustain", "sus"],
            SubSynthParam::Rel => vec!["release", "rel"],
            SubSynthParam::CutOff => vec!["cutoff"],
            SubSynthParam::Res => vec!["resonance", "res"],
        };
        proof {
            assert(r@.map_values(|a: &'static str| a@) =~= value_names(self.spec_value()));
        }
        r
    }

    fn get_one_desc(&self) -> (r: &'static str) {
        match *self {
            SubSynthParam::Osc1Type => "Waveform type for main osc",
            SubSynthParam::Mix => "How much of osc 1 vs osc 2 gets heard",
            SubSynthParam::Osc2Type => "Waveform type for secondary osc",
            SubSynthParam::Detune => "How many steps out of tune is osc 2",
            SubSynthParam::DetuneFine => "What percentage of a note is osc 2 out of tune",
            SubSynthParam::Atk => "ADSR Attack",
            SubSynthParam::Dcy => "ADSR Decay",
            SubSynthParam::Sus => "ADSR Sustain",
            SubSynthParam::Rel => "ADSR Release",
            SubSynthParam::CutOff => "Low-pass filter cutoff",
            SubSynthParam::Res => "Low-pass filter resonance",
        }
    }

    fn into_vec() -> (r: Vec<Self>) {
        let r: Vec<Self> = vec![
            SubSynthParam::Osc1Type,
            SubSynthParam::Mix,
            SubSynthParam::Osc2Type,
            SubSynthParam::Detune,
            SubSynthParam::DetuneFine,
            SubSynthParam::Atk,
            SubSynthParam::Dcy,
            SubSynthParam::Sus,
            SubSynthParam::Rel,
            SubSynthParam::CutOff,
            SubSynthParam::Res,
        ];
        proof {
            assert(r@.map_values(|t: Self| t.spec_value()) =~= Self::spec_values());
        }
        r
    }
}

impl CmdToken for SemitoneDetune {
    open spec fn spec_value(self) -> TokenValue {
        TokenValue::Detune(self)
    }

    open spec fn spec_values() -> Seq<TokenValue> {
        seq![
            TokenValue::Detune(SemitoneDetune::Semi1),
            TokenValue::Detune(SemitoneDetune::Semi2),
            TokenValue::Detune(SemitoneDetune::Semi3),
            TokenValue::Detune(SemitoneDetune::Semi4),
            TokenValue::Detune(SemitoneDetune::Semi5),
            TokenValue::Detune(SemitoneDetune::Semi6),
            TokenValue::Detune(SemitoneDetune::Semi7),
            TokenValue::Detune(SemitoneDetune::Semi8),
            TokenValue::Detune(SemitoneDetune::Semi9),
            TokenValue::Detune(SemitoneDetune::Semi10),
            TokenValue::Detune(SemitoneDetune::Semi11),
            TokenValue::Detune(SemitoneDetune::Semi12),
        ]
    }

    fn to_value(self) -> (v: TokenValue) {
        TokenValue::Detune(self)
    }

    fn get_desc_name(&self) -> (r: Vec<&'static str>) {
        let r: Vec<&'static str> = match *self {
            SemitoneDetune::Semi1 => vec!["1"],
            SemitoneDetune::Semi2 => vec!["2"],
            SemitoneDetune::Semi3 => vec!["3"],
            SemitoneDetune::Semi4 => vec!["4"],
            SemitoneDetune::Semi5 => vec!["5"],
            SemitoneDetune::Semi6 => vec!["6"],
            SemitoneDetune::Semi7 => vec!["7"],
            SemitoneDetune::Semi8 => vec!["8"],
            SemitoneDetune::Semi9 => vec!["9"],
            SemitoneDetune::Semi10 => vec!["10"],
            SemitoneDetune::Semi11 => vec!["11"],
            SemitoneDetune::Semi12 => vec!["12"],
        };
        proof {
            assert(r@.map_values(|a: &'static str| a@) =~= value_names(self.spec_value()));
        }
        r
    }

    fn get_one_desc(&self) -> (r: &'static str) {
        match *self {
            SemitoneDetune::Semi1 => "1 semi-tone",
            SemitoneDetune::Semi2 => "2 semi-tone",
            SemitoneDetune::Semi3 => "3 semi-tone",
            SemitoneDetune::Semi4 => "4 semi-tone",
            SemitoneDetune::Semi5 => "5 semi-tone",
            SemitoneDetune::Semi6 => "6 semi-tone",
            SemitoneDetune::Semi7 => "7 semi-tone",
            SemitoneDetune::Semi8 => "8 semi-tone",
            SemitoneDetune::Semi9 => "9 semi-tone",
            SemitoneDetune::Semi10 => "10 semi-tone",
            SemitoneDetune::Semi11 => "11 semi-tone",
            SemitoneDetune::Semi12 => "12 semi-tone",
        }
    }

    fn into_vec() -> (r: Vec<Self>) {
        let r: Vec<Self> = vec![
            SemitoneDetune::Semi1,
            SemitoneDetune::Semi2,
            SemitoneDetune::Semi3,
            SemitoneDetune::Semi4,
            SemitoneDetune::Semi5,
            SemitoneDetune::Semi6,
            SemitoneDetune::Semi7,
            SemitoneDetune::Semi8,
            SemitoneDetune::Semi9,
            SemitoneDetune::Semi10,
            SemitoneDetune::Semi11,
            SemitoneDetune::Semi12,
        ];
        proof {
            assert(r@.map_values(|t: Self| t.spec_value()) =~= Self::spec_values());
        }
        r
    }
}

impl CmdToken for WaveformType {
    open spec fn spec_value(self) -> TokenValue {
        TokenValue::Wave(self)
    }

    open spec fn spec_values() -> Seq<TokenValue> {
        seq![
            TokenValue::Wave(WaveformType::Sine),
            TokenValue::Wave(WaveformType::Saw),
        ]
    }

    fn to_value(self) -> (v: TokenValue) {
        TokenValue::Wave(self)
    }

    fn get_desc_name(&self) -> (r: Vec<&'static str>) {
        let r: Vec<&'static str> = match *self {
            WaveformType::Sine => vec!["sine", "sin"],
            WaveformType::Saw => vec!["saw", "saw-tooth"],
        };
        proof {
            assert(r@.map_values(|a: &'static str| a@) =~= value_names(self.spec_value()));
        }
        r
    }

    fn get_one_desc(&self) -> (r: &'static str) {
        match *self {
            WaveformType::Sine => "Sine waveform",
            WaveformType::Saw => "SawTooth waveform",
        }
    }

    fn into_vec() -> (r: Vec<Self>) {
        let r: Vec<Self> = vec![
            WaveformType::Sine,
            WaveformType::Saw,
        ];
        proof {
            assert(r@.map_values(|t: Self| t.spec_value()) =~= Self::spec_values());
        }
        r
    }
}

impl CmdToken for ReverbParams {
    open spec fn spec_value(self) -> TokenValue {
        TokenValue::Reverb(self)
    }

    open spec fn spec_values() -> Seq<TokenValue> {
        seq![
            TokenValue::Reverb(ReverbParams::Gain),
            TokenValue::Reverb(ReverbParams::Decay),
            TokenValue::Reverb(ReverbParams::Cutoff),
            TokenValue::Reverb(ReverbParams::Damping),
            TokenValue::Reverb(ReverbParams::PowerState),
        ]
    }

    fn to_value(self) -> (v: TokenValue) {
        TokenValue::Reverb(self)
    }

    fn get_desc_name(&self) -> (r: Vec<&'static str>) {
        let r: Vec<&'static str> = match *self {
            ReverbParams::Gain => vec!["gain"],
            ReverbParams::Decay => vec!["decay"],
            ReverbParams::Cutoff => vec!["cutoff"],
            ReverbParams::Damping => vec!["tone", "damping"],
            ReverbParams::PowerState => vec!["power"],
        };
        proof {
            assert(r@.map_values(|a: &'static str| a@) =~= value_names(self.spec_value()));
        }
        r
    }

    fn get_one_desc(&self) -> (r: &'static str) {
        match *self {
            ReverbParams::Gain => "Reverb gain",
            ReverbParams::Decay => "Reverb decay",
            ReverbParams::Cutoff => "Cutoff of the reverb's internal lowpass filter",
            ReverbParams::Damping => "Tone change of the reverb",
            ReverbParams::PowerState => "Is the reverb on or off",
        }
    }

    fn into_vec() -> (r: Vec<Self>) {
        let r: Vec<Self> = vec![
            ReverbParams::Gain,
            ReverbParams::Decay,
            ReverbParams::Cutoff,
            ReverbParams::Damping,
            ReverbParams::PowerState,
        ];
        proof {
            assert(r@.map_values(|t: Self| t.spec_value()) =~= Self::spec_values());
        }
        r
    }
}

impl CmdToken for MatrixCmdArgs {
    open spec fn spec_value(self) -> TokenValue {
        TokenValue::Matrix(self)
    }

    open spec fn spec_values() -> Seq<TokenValue> {
        seq![
            TokenValue::Matrix(MatrixCmdArgs::Connect),
            TokenValue::Matrix(MatrixCmdArgs::Disconnect),
        ]
    }

    fn to_value(self) -> (v: TokenValue) {
        TokenValue::Matrix(self)
    }

    fn get_desc_name(&self) -> (r: Vec<&'static str>) {
        let r: Vec<&'static str> = match *self {
            MatrixCmdArgs::Connect => vec!["con", "connect"],
            MatrixCmdArgs::Disconnect => vec!["dcon", "disconnect", "discon"],
        };
        proof {
            assert(r@.map_values(|a: &'static str| a@) =~= value_names(self.spec_value()));
        }
        r
    }

    fn get_one_desc(&self) -> (r: &'static str) {
        match *self {
            MatrixCmdArgs::Connect => "Make a new connection in the mod-matrix",
            MatrixCmdArgs::Disconnect => "Remove a connection from the mod-matrix",
        }
    }

    fn into_vec() -> (r: Vec<Self>) {
        let r: Vec<Self> = vec![
            MatrixCmdArgs::Connect,
            MatrixCmdArgs::Disconnect,
        ];
        proof {
            assert(r@.map_values(|t: Self| t.spec_value()) =~= Self::spec_values());
        }
        r
    }
}

impl CmdToken for Screen {
    open spec fn spec_value(self) -> TokenValue {
        TokenValue::Screen(self)
    }

    open spec fn spec_values() -> Seq<TokenValue> {
        seq![
            TokenValue::Screen(Screen::Wurlitzer),
            TokenValue::Screen(Screen::Synth),
            TokenValue::Screen(Screen::Effect),
            TokenValue::Screen(Screen::LFO),
            TokenValue::Screen(Screen::ModMatrix),
            TokenValue::Screen(Screen::Sequencer),
        ]
    }

    fn to_value(self) -> (v: TokenValue) {
        TokenValue::Screen(self)
    }

    fn get_desc_name(&self) -> (r: Vec<&'static str>) {
        let r: Vec<&'static str> = match *self {
            Screen::Wurlitzer => vec!["wurlitzer", "wurli"],
            Screen::Synth => vec!["synth"],
            Screen::Effect => vec!["effects", "effect", "ef"],
            Screen::LFO => vec!["lfo"],
            Screen::ModMatrix => vec!["mod", "matrix", "mod-matrix"],
            Screen::Sequencer => vec!["sequencer", "seq"],
        };
        proof {
            assert(r@.map_values(|a: &'static str| a@) =~= value_names(self.spec_value()));
        }
        r
    }

    fn get_one_desc(&self) -> (r: &'static str) {
        match *self {
            Screen::Wurlitzer => "The Wurlitzer screen (powered by Vital)",
            Screen::Synth => "Multiple synth engines",
            Screen::Effect => "Effects modifying screen",
            Screen::LFO => "LFO modifying screen",
            Screen::ModMatrix => "Mod-Matrix screen",
            Screen::Sequencer => "Midi Sequencer",
        }
    }

    fn into_vec() -> (r: Vec<Self>) {
        let r: Vec<Self> = vec![
            Screen::Wurlitzer,
            Screen::Synth,
            Screen::Effect,
            Screen::LFO,
            Screen::ModMatrix,
            Screen::Sequencer,
        ];
        proof {
            assert(r@.map_values(|t: Self| t.spec_value()) =~= Self::spec_values());
        }
        r
    }
}

impl CmdToken for EngineType {
    open spec fn spec_value(self) -> TokenValue {
        TokenValue::Engine(self)
    }

    open spec fn spec_values() -> Seq<TokenValue> {
        seq![
            TokenValue::Engine(EngineType::Organ),
            TokenValue::Engine(EngineType::SubtractiveSynth),
        ]
    }

    fn to_value(self) -> (v: TokenValue) {
        TokenValue::Engine(self)
    }

    fn get_desc_name(&self) -> (r: Vec<&'static str>) {
        let r: Vec<&'static str> = match *self {
            EngineType::Organ => vec!["organ"],
            EngineType::SubtractiveSynth => vec!["synth", "subtractive-synth"],
        };
        proof {
            assert(r@.map_values(|a: &'static str| a@) =~= value_names(self.spec_value()));
        }
        r
    }

    fn get_one_desc(&self) -> (r: &'static str) {
        match *self {
            EngineType::Organ => "The organ synth engine",
            EngineType::SubtractiveSynth => "The subtractive synth engine",
        }
    }

    fn into_vec() -> (r: Vec<Self>) {
        let r: Vec<Self> = vec![
            EngineType::Organ,
            EngineType::SubtractiveSynth,
        ];
        proof {
            assert(r@.map_values(|t: Self| t.spec_value()) =~= Self::spec_values());
        }
        r
    }
}

impl CmdToken for EffectType {
    open spec fn spec_value(self) -> TokenValue {
        TokenValue::Effect(self)
    }

    open spec fn spec_values() -> Seq<TokenValue> {
        seq![
            TokenValue::Effect(EffectType::Reverb),
            TokenValue::Effect(EffectType::Chorus),
        ]
    }

    fn to_value(self) -> (v: TokenValue) {
        TokenValue::Effect(self)
    }

    fn get_desc_name(&self) -> (r: Vec<&'static str>) {
        let r: Vec<&'static str> = match *self {
            EffectType::Reverb => vec!["reverb", "verb"],
            EffectType::Chorus => vec!["chorus", "delay"],
        };
        proof {
            assert(r@.map_values(|a: &'static str| a@) =~= value_names(self.spec_value()));
        }
        r
    }

    fn get_one_desc(&self) -> (r: &'static str) {
        match *self {
            EffectType::Reverb => "The reverb effect",
            EffectType::Chorus => "The chorus effect",
        }
    }

    fn into_vec() -> (r: Vec<Self>) {
        let r: Vec<Self> = vec![
            EffectType::Reverb,
            EffectType::Chorus,
        ];
        proof {
            assert(r@.map_values(|t: Self| t.spec_value()) =~= Self::spec_values());
        }
        r
    }
}

impl CmdToken for Knob {
    open spec fn spec_value(self) -> TokenValue {
        TokenValue::Generic(GenericParam::Knob(self))
    }

    open spec fn spec_values() -> Seq<TokenValue> {
        seq![
            TokenValue::Generic(GenericParam::Knob(Knob::K1)),
            TokenValue::Generic(GenericParam::Knob(Knob::K2)),
            TokenValue::Generic(GenericParam::Knob(Knob::K3)),
            TokenValue::Generic(GenericParam::Knob(Knob::K4)),
            TokenValue::Generic(GenericParam::Knob(Knob::K5)),
            TokenValue::Generic(GenericParam::Knob(Knob::K6)),
            TokenValue::Generic(GenericParam::Knob(Knob::K7)),
            TokenValue::Generic(GenericParam::Knob(Knob::K8)),
        ]
    }

    fn to_value(self) -> (v: TokenValue) {
        TokenValue::Generic(GenericParam::Knob(self))
    }

    fn get_desc_name(&self) -> (r: Vec<&'static str>) {
        let r: Vec<&'static str> = match *self {
            Knob::K1 => vec!["k1", "1"],
            Knob::K2 => vec!["k2", "2"],
            Knob::K3 => vec!["k3", "3"],
            Knob::K4 => vec!["k4", "4"],
            Knob::K5 => vec!["k5", "5"],
            Knob::K6 => vec!["k6", "6"],
            Knob::K7 => vec!["k7", "7"],
            Knob::K8 => vec!["k8", "8"],
        };
        proof {
            assert(r@.map_values(|a: &'static str| a@) =~= value_names(self.spec_value()));
        }
        r
    }

    fn get_one_desc(&self) -> (r: &'static str) {
        match *self {
            Knob::K1 => "Midi controlled knob K1",
            Knob::K2 => "Midi controlled knob K2",
            Knob::K3 => "Midi controlled knob K3",
            Knob::K4 => "Midi controlled knob K4",
            Knob::K5 => "Midi controlled knob K5",
            Knob::K6 => "Midi controlled knob K6",
            Knob::K7 => "Midi controlled knob K7",
            Knob::K8 => "Midi controlled knob K8",
        }
    }

    fn into_vec() -> (r: Vec<Self>) {
        let r: Vec<Self> = vec![
            Knob::K1,
            Knob::K2,
            Knob::K3,
            Knob::K4,
            Knob::K5,
            Knob::K6,
            Knob::K7,
            Knob::K8,
        ];
        proof {
            assert(r@.map_values(|t: Self| t.spec_value()) =~= Self::spec_values());
        }
        r
    }
}

impl CmdToken for Gui {
    open spec fn spec_value(self) -> TokenValue {
        TokenValue::Generic(GenericParam::Gui(self))
    }

    open spec fn spec_values() -> Seq<TokenValue> {
        seq![
            TokenValue::Generic(GenericParam::Gui(Gui::G1)),
            TokenValue::Generic(GenericParam::Gui(Gui::G2)),
            TokenValue::Generic(GenericParam::Gui(Gui::G3)),
            TokenValue::Generic(GenericParam::Gui(Gui::G4)),
            TokenValue::Generic(GenericParam::Gui(Gui::G5)),
            TokenValue::Generic(GenericParam::Gui(Gui::G6)),
            TokenValue::Generic(GenericParam::Gui(Gui::G7)),
            TokenValue::Generic(GenericParam::Gui(Gui::G8)),
        ]
    }

    fn to_value(self) -> (v: TokenValue) {
        TokenValue::Generic(GenericParam::Gui(self))
    }

    fn get_desc_name(&self) -> (r: Vec<&'static str>) {
        let r: Vec<&'static str> = match *self {
            Gui::G1 => vec!["g1", "9"],
            Gui::G2 => vec!["g2", "10"],
            Gui::G3 => vec!["g3", "11"],
            Gui::G4 => vec!["g4", "12"],
            Gui::G5 => vec!["g5", "13"],
            Gui::G6 => vec!["g6", "14"],
            Gui::G7 => vec!["g7", "15"],
            Gui::G8 => vec!["g8", "16"],
        };
        proof {
            assert(r@.map_values(|a: &'static str| a@) =~= value_names(self.spec_value()));
        }
        r
    }

    fn get_one_desc(&self) -> (r: &'static str) {
        match *self {
            Gui::G1 => "Gui editable parameter G1",
            Gui::G2 => "Gui editable parameter G2",
            Gui::G3 => "Gui editable parameter G3",
            Gui::G4 => "Gui editable parameter G4",
            Gui::G5 => "Gui editable parameter G5",
            Gui::G6 => "Gui editable parameter G6",
            Gui::G7 => "Gui editable parameter G7",
            Gui::G8 => "Gui editable parameter G8",
        }
    }

    fn into_vec() -> (r: Vec<Self>) {
        let r: Vec<Self> = vec![
            Gui::G1,
            Gui::G2,
            Gui::G3,
            Gui::G4,
            Gui::G5,
            Gui::G6,
            Gui::G7,
            Gui::G8,
        ];
        proof {
            assert(r@.map_values(|t: Self| t.spec_value()) =~= Self::spec_values());
        }
        r
    }
}

impl GenericParam {
    /// Every controller-mapped parameter: the knobs first, then the gui
    /// parameters, each in its own definition order.
    pub fn iter() -> (r: Vec<GenericParam>)
        ensures
            r@.map_values(|t: GenericParam| t.spec_value()) == GenericParam::spec_values(),
    {
        let r: Vec<GenericParam> = vec![
            GenericParam::Knob(Knob::K1),
            GenericParam::Knob(Knob::K2),
            GenericParam::Knob(Knob::K3),
            GenericParam::Knob(Knob::K4),
            GenericParam::Knob(Knob::K5),
            GenericParam::Knob(Knob::K6),
            GenericParam::Knob(Knob::K7),
            GenericParam::Knob(Knob::K8),
            GenericParam::Gui(Gui::G1),
            GenericParam::Gui(Gui::G2),
            GenericParam::Gui(Gui::G3),
            GenericParam::Gui(Gui::G4),
            GenericParam::Gui(Gui::G5),
            GenericParam::Gui(Gui::G6),
            GenericParam::Gui(Gui::G7),
            GenericParam::Gui(Gui::G8),
        ];
        proof {
            assert(r@.map_values(|t: GenericParam| t.spec_value())
                =~= GenericParam::spec_values());
        }
        r
    }
}

impl CmdToken for GenericParam {
    open spec fn spec_value(self) -> TokenValue {
        TokenValue::Generic(self)
    }

    open spec fn spec_values() -> Seq<TokenValue> {
        Knob::spec_values() + Gui::spec_values()
    }

    fn to_value(self) -> (v: TokenValue) {
        TokenValue::Generic(self)
    }

    fn get_desc_name(&self) -> (r: Vec<&'static str>) {
        match *self {
            GenericParam::Knob(knob) => knob.get_desc_name(),
            GenericParam::Gui(gui) => gui.get_desc_name(),
        }
    }

    fn get_one_desc(&self) -> (r: &'static str) {
        match *self {
            GenericParam::Knob(knob) => knob.get_one_desc(),
            GenericParam::Gui(gui) => gui.get_one_desc(),
        }
    }

    fn into_vec() -> (r: Vec<Self>) {
        Self::iter()
    }
}

} // verus!
