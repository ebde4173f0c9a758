//! Grammar positions: candidate sets, the matcher/collapser, and the
//! transition graph.
//!
//! A grammar position is either *open* — holding the candidate set of every
//! legal next token — or already *resolved* to one concrete value; `Done`
//! marks a syntactically complete command.  `collapse` is the single choke
//! point through which raw operator text enters the engine: input is trimmed
//! and case-folded, then matched against the candidates' alias sets, or
//! parsed when the position follows a numeric rule.  The transition graph
//! maps each resolved value (in the context of the accumulated command path)
//! to the next open position or to `Done`.

use vstd::prelude::*;

use crate::numeric::spec_parse_decimal;
use crate::numeric::spec_parse_index;
use crate::numeric::parse_decimal;
use crate::numeric::parse_index;
use crate::text::normalize;
use crate::text::normalize_str;
use crate::text::str_eq_chars;
use crate::text::str_starts_with_chars;
use crate::tokens::CmdContext;
use crate::tokens::CmdToken;
use crate::tokens::EffectType;
use crate::tokens::EngineType;
use crate::tokens::LfoNum;
use crate::tokens::MatrixCmdArgs;
use crate::tokens::OrganDrawBarParam;
use crate::tokens::OrganParam;
use crate::tokens::PowerState;
use crate::tokens::ReverbParams;
use crate::tokens::Screen;
use crate::tokens::SemitoneDetune;
use crate::tokens::SeqNum;
use crate::tokens::SubSynthParam;
use crate::tokens::TokenValue;
use crate::tokens::WaveformType;
use crate::tokens::value_desc;
use crate::tokens::value_names;
use crate::tokens::display_name;

verus! {

/// A kind of grammar position: which candidates are legal there.
#[derive(Clone, Copy, PartialEq, Eq, Structural, Debug)]
pub enum TokenKind {
    /// The root position: a command context.
    Root,
    /// An organ parameter.
    OrganParam,
    /// A draw-bar level.
    DrawBarLevel,
    /// A subtractive-synth parameter.
    SubSynthParam,
    /// A whole-step detune amount.
    SemitoneDetune,
    /// An oscillator waveform.
    Waveform,
    /// A reverb parameter.
    ReverbParam,
    /// An on/off value.
    Power,
    /// A mod-matrix command.
    MatrixCmd,
    /// A modulation source.  No sources are defined yet, so this position
    /// offers no candidates and no input collapses here.
    ModSource,
    /// A display to switch to.
    Screen,
    /// An optional synth engine: an engine, or the "none" sentinel.
    EngineChoice,
    /// An optional effect: an effect, or the "none" sentinel.
    EffectChoice,
    /// An optional LFO index: a number, or the "none" sentinel.
    LfoSlot,
    /// An optional sequence index: a number, or the "none" sentinel.
    SeqSlot,
    /// A decimal amount.
    Amount,
    /// An LFO parameter.  The LFO command interface defines no parameters,
    /// so this position offers no candidates.
    LfoParam,
    /// A chorus parameter.  The chorus command interface defines no
    /// parameters, so this position offers no candidates.
    ChorusParam,
}

/// The numeric rule of an open (non-enumerable) position.
#[derive(Clone, Copy, PartialEq, Eq, Structural, Debug)]
pub enum NumericKind {
    /// A decimal amount, kept as typed.
    Amount,
    /// An LFO index.
    LfoIndex,
    /// A sequence index.
    SeqIndex,
}

/// The enumerable instances of a kind, in catalog order.
pub open spec fn kind_values(k: TokenKind) -> Seq<TokenValue> {
    match k {
        TokenKind::Root => CmdContext::spec_values(),
        TokenKind::OrganParam => OrganParam::spec_values(),
        TokenKind::DrawBarLevel => OrganDrawBarParam::spec_values(),
        TokenKind::SubSynthParam => SubSynthParam::spec_values(),
        TokenKind::SemitoneDetune => SemitoneDetune::spec_values(),
        TokenKind::Waveform => WaveformType::spec_values(),
        TokenKind::ReverbParam => ReverbParams::spec_values(),
        TokenKind::Power => PowerState::spec_values(),
        TokenKind::MatrixCmd => MatrixCmdArgs::spec_values(),
        TokenKind::ModSource => Seq::<TokenValue>::empty(),
        TokenKind::Screen => Screen::spec_values(),
        TokenKind::EngineChoice => EngineType::spec_values() + seq![TokenValue::Omitted],
        TokenKind::EffectChoice => EffectType::spec_values() + seq![TokenValue::Omitted],
        TokenKind::LfoSlot => seq![TokenValue::Omitted],
        TokenKind::SeqSlot => seq![TokenValue::Omitted],
        TokenKind::Amount => Seq::<TokenValue>::empty(),
        TokenKind::LfoParam => Seq::<TokenValue>::empty(),
        TokenKind::ChorusParam => Seq::<TokenValue>::empty(),
    }
}

/// The numeric rule of a kind, where it has one.
pub open spec fn kind_numeric(k: TokenKind) -> Option<NumericKind> {
    match k {
        TokenKind::Amount => Some(NumericKind::Amount),
        TokenKind::LfoSlot => Some(NumericKind::LfoIndex),
        TokenKind::SeqSlot => Some(NumericKind::SeqIndex),
        _ => None,
    }
}

/// The display name of a numeric placeholder.
pub open spec fn numeric_name(rule: NumericKind) -> Seq<char> {
    match rule {
        NumericKind::Amount => "float"@,
        NumericKind::LfoIndex => "number"@,
        NumericKind::SeqIndex => "sequence"@,
    }
}

/// The description of a numeric placeholder.
pub open spec fn numeric_desc(rule: NumericKind) -> Seq<char> {
    match rule {
        NumericKind::Amount => "decimal amount"@,
        NumericKind::LfoIndex => "Which LFO"@,
        NumericKind::SeqIndex => "Which MIDI sequence"@,
    }
}

/// One legal value at a grammar position, with its aliases and description.
pub struct Candidate {
    /// The display aliases, lower case; the first is the display name.
    pub names: Vec<&'static str>,
    /// A one-line description for suggestion rendering.
    pub desc: &'static str,
    /// The value this candidate resolves to.
    pub value: TokenValue,
}

/// A candidate carries exactly the catalog's aliases and description of its
/// value.
pub open spec fn candidate_wf(c: Candidate) -> bool {
    &&& c.names@.map_values(|a: &'static str| a@) == value_names(c.value)
    &&& c.desc@ == value_desc(c.value)
    &&& c.names@.len() > 0
}

/// The placeholder of a numeric rule, shown among the suggestions.
pub struct NumericSlot {
    /// Which numeral the position accepts.
    pub rule: NumericKind,
    /// The placeholder's display name.
    pub name: &'static str,
    /// The placeholder's description.
    pub desc: &'static str,
}

/// The full, yet-undetermined candidate set of one open grammar position.
pub struct CandidateSet {
    /// The kind of the position.
    pub kind: TokenKind,
    /// The enumerable candidates, in catalog order.
    pub entries: Vec<Candidate>,
    /// The numeric rule, where the position accepts numerals.
    pub numeric: Option<NumericSlot>,
}

impl CandidateSet {
    /// The set holds exactly the catalog's candidates for its kind.
    pub open spec fn wf(self) -> bool {
        &&& self.entries@.len() == kind_values(self.kind).len()
        &&& (forall|i: int|
            0 <= i < self.entries@.len() ==> candidate_wf(#[trigger] self.entries@[i])
                && self.entries@[i].value == kind_values(self.kind)[i])
        &&& match self.numeric {
            Some(slot) => kind_numeric(self.kind) == Some(slot.rule) && slot.name@
                == numeric_name(slot.rule) && slot.desc@ == numeric_desc(slot.rule),
            None => kind_numeric(self.kind) is None,
        }
    }
}

/// Builds the candidates of one enumerable kind from its token type.
fn entries_of<T: CmdToken>() -> (r: Vec<Candidate>)
    ensures
        r@.len() == T::spec_values().len(),
        forall|i: int|
            0 <= i < r@.len() ==> candidate_wf(#[trigger] r@[i]) && r@[i].value
                == T::spec_values()[i],
{
    let items = T::into_vec();
    let ghost values: Seq<TokenValue> = T::spec_values();
    let mut r: Vec<Candidate> = Vec::new();
    let mut i: usize = 0;
    proof {
        assert(items@.len() == values.len()) by {
            assert(items@.map_values(|t: T| t.spec_value()).len() == items@.len());
        }
    }
    while i < items.len()
        invariant
            items@.map_values(|t: T| t.spec_value()) == values,
            values == T::spec_values(),
            items@.len() == values.len(),
            0 <= i <= items@.len(),
            r@.len() == i,
            forall|k: int|
                0 <= k < i ==> candidate_wf(#[trigger] r@[k]) && r@[k].value == values[k],
        decreases items@.len() - i,
    {
        let t = items[i];
        proof {
            assert(items@.map_values(|t: T| t.spec_value())[i as int] == items@[i as int]
                .spec_value());
        }
        let names = t.get_desc_name();
        let desc = t.get_one_desc();
        let value = t.to_value();
        r.push(Candidate { names, desc, value });
        i = i + 1;
    }
    r
}

/// The candidate of the explicit "none" sentinel of an optional argument.
fn omitted_candidate() -> (c: Candidate)
    ensures
        candidate_wf(c),
        c.value == TokenValue::Omitted,
{
    let names: Vec<&'static str> = vec!["none"];
    let c = Candidate { names, desc: "Leave the optional argument out", value: TokenValue::Omitted };
    proof {
        assert(c.names@.map_values(|a: &'static str| a@) =~= value_names(TokenValue::Omitted));
    }
    c
}

/// The placeholder row of a numeric rule.
fn numeric_slot(rule: NumericKind) -> (s: NumericSlot)
    ensures
        s.rule == rule,
        s.name@ == numeric_name(rule),
        s.desc@ == numeric_desc(rule),
{
    match rule {
        NumericKind::Amount => NumericSlot { rule, name: "float", desc: "decimal amount" },
        NumericKind::LfoIndex => NumericSlot { rule, name: "number", desc: "Which LFO" },
        NumericKind::SeqIndex => NumericSlot {
            rule,
            name: "sequence",
            desc: "Which MIDI sequence",
        },
    }
}

/// Builds the full candidate set of an open position of the given kind.
pub fn open_node(kind: TokenKind) -> (cs: CandidateSet)
    ensures
        cs.wf(),
        cs.kind == kind,
{
    match kind {
        TokenKind::Root => CandidateSet { kind, entries: entries_of::<CmdContext>(), numeric: None },
        TokenKind::OrganParam => CandidateSet {
            kind,
            entries: entries_of::<OrganParam>(),
            numeric: None,
        },
        TokenKind::DrawBarLevel => CandidateSet {
            kind,
            entries: entries_of::<OrganDrawBarParam>(),
            numeric: None,
        },
        TokenKind::SubSynthParam => CandidateSet {
            kind,
            entries: entries_of::<SubSynthParam>(),
            numeric: None,
        },
        TokenKind::SemitoneDetune => CandidateSet {
            kind,
            entries: entries_of::<SemitoneDetune>(),
            numeric: None,
        },
        TokenKind::Waveform => CandidateSet {
            kind,
            entries: entries_of::<WaveformType>(),
            numeric: None,
        },
        TokenKind::ReverbParam => CandidateSet {
            kind,
            entries: entries_of::<ReverbParams>(),
            numeric: None,
        },
        TokenKind::Power => CandidateSet {
            kind,
            entries: entries_of::<PowerState>(),
            numeric: None,
        },
        TokenKind::MatrixCmd => CandidateSet {
            kind,
            entries: entries_of::<MatrixCmdArgs>(),
            numeric: None,
        },
        TokenKind::ModSource => CandidateSet { kind, entries: Vec::new(), numeric: None },
        TokenKind::Screen => CandidateSet { kind, entries: entries_of::<Screen>(), numeric: None },
        TokenKind::EngineChoice => {
            let mut entries = entries_of::<EngineType>();
            entries.push(omitted_candidate());
            let cs = CandidateSet { kind, entries, numeric: None };
            proof {
                assert(cs.entries@.len() == kind_values(kind).len());
            }
            cs
        },
        TokenKind::EffectChoice => {
            let mut entries = entries_of::<EffectType>();
            entries.push(omitted_candidate());
            let cs = CandidateSet { kind, entries, numeric: None };
            proof {
                assert(cs.entries@.len() == kind_values(kind).len());
            }
            cs
        },
        TokenKind::LfoSlot => {
            let entries: Vec<Candidate> = vec![omitted_candidate()];
            CandidateSet { kind, entries, numeric: Some(numeric_slot(NumericKind::LfoIndex)) }
        },
        TokenKind::SeqSlot => {
            let entries: Vec<Candidate> = vec![omitted_candidate()];
            CandidateSet { kind, entries, numeric: Some(numeric_slot(NumericKind::SeqIndex)) }
        },
        TokenKind::Amount => CandidateSet {
            kind,
            entries: Vec::new(),
            numeric: Some(numeric_slot(NumericKind::Amount)),
        },
        TokenKind::LfoParam => CandidateSet { kind, entries: Vec::new(), numeric: None },
        TokenKind::ChorusParam => CandidateSet { kind, entries: Vec::new(), numeric: None },
    }
}

/// Does some alias in the list equal the string?
pub open spec fn name_match(names: Seq<Seq<char>>, s: Seq<char>) -> bool {
    exists|i: int| 0 <= i < names.len() && names[i] == s
}

/// How many of the values' alias sets contain the string.
pub open spec fn match_count(vs: Seq<TokenValue>, s: Seq<char>) -> nat
    decreases vs.len(),
{
    if vs.len() == 0 {
        0
    } else {
        match_count(vs.drop_last(), s) + (if name_match(value_names(vs.last()), s) {
            1nat
        } else {
            0nat
        })
    }
}

/// The two recoverable failures of a collapse.
#[derive(Clone, Copy, PartialEq, Eq, Structural, Debug)]
pub enum CmdError {
    /// The input matched no candidate's alias set at an enumerable position.
    NoMatch,
    /// The input failed the numeric rule at an open numeric position.
    NumericParseError,
}

/// What a collapse of the given kind returns on the (already normalised)
/// input: the unique alias match; else, at a numeric position with no alias
/// match at all, the parsed numeral; else the appropriate error.
pub open spec fn spec_collapse(kind: TokenKind, s: Seq<char>) -> Result<TokenValue, CmdError> {
    let vs = kind_values(kind);
    if match_count(vs, s) == 1 {
        Ok(vs[choose|i: int| 0 <= i < vs.len() && name_match(value_names(vs[i]), s)])
    } else if match_count(vs, s) == 0 {
        match kind_numeric(kind) {
            Some(NumericKind::Amount) => match spec_parse_decimal(s) {
                Some(d) => Ok(TokenValue::Amount(d)),
                None => Err(CmdError::NumericParseError),
            },
            Some(NumericKind::LfoIndex) => match spec_parse_index(s) {
                Some(n) => Ok(TokenValue::Lfo(LfoNum(n))),
                None => Err(CmdError::NumericParseError),
            },
            Some(NumericKind::SeqIndex) => match spec_parse_index(s) {
                Some(n) => Ok(TokenValue::Sequence(SeqNum(n))),
                None => Err(CmdError::NumericParseError),
            },
            None => Err(CmdError::NoMatch),
        }
    } else {
        Err(CmdError::NoMatch)
    }
}

/// A value whose alias set contains the string contributes one to the count.
proof fn lemma_match_count_at(vs: Seq<TokenValue>, s: Seq<char>, i: int)
    requires
        0 <= i < vs.len(),
        name_match(value_names(vs[i]), s),
    ensures
        match_count(vs, s) >= 1,
    decreases vs.len(),
{
    if i == vs.len() - 1 {
        assert(vs.last() == vs[i]);
    } else {
        assert(vs.drop_last()[i] == vs[i]);
        lemma_match_count_at(vs.drop_last(), s, i);
    }
}

/// Two different matching values make the count at least two.
proof fn lemma_match_count_two(vs: Seq<TokenValue>, s: Seq<char>, i: int, j: int)
    requires
        0 <= i < j < vs.len(),
        name_match(value_names(vs[i]), s),
        name_match(value_names(vs[j]), s),
    ensures
        match_count(vs, s) >= 2,
    decreases vs.len(),
{
    if j == vs.len() - 1 {
        assert(vs.last() == vs[j]);
        assert(vs.drop_last()[i] == vs[i]);
        lemma_match_count_at(vs.drop_last(), s, i);
    } else {
        assert(vs.drop_last()[i] == vs[i]);
        assert(vs.drop_last()[j] == vs[j]);
        lemma_match_count_two(vs.drop_last(), s, i, j);
    }
}

/// A positive count exhibits a matching value.
proof fn lemma_match_count_pos(vs: Seq<TokenValue>, s: Seq<char>)
    requires
        match_count(vs, s) >= 1,
    ensures
        exists|i: int| 0 <= i < vs.len() && name_match(value_names(#[trigger] vs[i]), s),
    decreases vs.len(),
{
    if vs.len() > 0 {
        if name_match(value_names(vs.last()), s) {
            assert(vs[vs.len() - 1] == vs.last());
        } else {
            lemma_match_count_pos(vs.drop_last(), s);
            let i = choose|i: int|
                0 <= i < vs.drop_last().len() && name_match(
                    value_names(#[trigger] vs.drop_last()[i]),
                    s,
                );
            assert(vs[i] == vs.drop_last()[i]);
        }
    }
}

impl CandidateSet {
    /// Resolves raw operator text against this open position: trims and
    /// case-folds the input, then collapses to the unique alias match or, at
    /// a numeric position, to the parsed numeral.  A failure reports
    /// `NoMatch` or `NumericParseError` and changes nothing.
    pub fn collapse(&self, input: &str) -> (r: Result<TokenValue, CmdError>)
        requires
            self.wf(),
        ensures
            r == spec_collapse(self.kind, normalize(input@)),
    {
        let s = normalize_str(input);
        let ghost vs: Seq<TokenValue> = kind_values(self.kind);
        let n = self.entries.len();
        let mut count: usize = 0;
        let mut found: usize = 0;
        let mut i: usize = 0;
        proof {
            assert(vs.take(0) =~= Seq::<TokenValue>::empty());
        }
        while i < n
            invariant
                self.wf(),
                s@ == normalize(input@),
                vs == kind_values(self.kind),
                n == self.entries@.len(),
                0 <= i <= n,
                count <= i,
                count == match_count(vs.take(i as int), s@),
                count > 0 ==> found < i && name_match(value_names(vs[found as int]), s@),
            decreases n - i,
        {
            let entry_match = names_contain(&self.entries[i].names, &s);
            proof {
                assert(vs.take(i + 1).drop_last() =~= vs.take(i as int));
                assert(vs.take(i + 1).last() == vs[i as int]);
                assert(self.entries@[i as int].names@.map_values(|a: &'static str| a@)
                    == value_names(vs[i as int]));
            }
            if entry_match {
                if count == 0 {
                    found = i;
                }
                count = count + 1;
            }
            i = i + 1;
        }
        proof {
            assert(vs.take(n as int) =~= vs);
        }
        if count == 1 {
            proof {
                let c = choose|k: int| 0 <= k < vs.len() && name_match(value_names(vs[k]), s@);
                assert(name_match(value_names(vs[found as int]), s@));
                if c != found {
                    if c < found {
                        lemma_match_count_two(vs, s@, c, found as int);
                    } else {
                        lemma_match_count_two(vs, s@, found as int, c);
                    }
                }
            }
            Ok(self.entries[found].value)
        } else if count == 0 {
            match &self.numeric {
                Some(slot) => match slot.rule {
                    NumericKind::Amount => match parse_decimal(&s) {
                        Some(d) => Ok(TokenValue::Amount(d)),
                        None => Err(CmdError::NumericParseError),
                    },
                    NumericKind::LfoIndex => match parse_index(&s) {
                        Some(v) => Ok(TokenValue::Lfo(LfoNum(v))),
                        None => Err(CmdError::NumericParseError),
                    },
                    NumericKind::SeqIndex => match parse_index(&s) {
                        Some(v) => Ok(TokenValue::Sequence(SeqNum(v))),
                        None => Err(CmdError::NumericParseError),
                    },
                },
                None => Err(CmdError::NoMatch),
            }
        } else {
            Err(CmdError::NoMatch)
        }
    }
}

/// Does some alias in the candidate's list equal the normalised input?
fn names_contain(names: &Vec<&'static str>, s: &Vec<char>) -> (b: bool)
    ensures
        b == name_match(names@.map_values(|a: &'static str| a@), s@),
{
    let ghost nss: Seq<Seq<char>> = names@.map_values(|a: &'static str| a@);
    let n = names.len();
    let mut i: usize = 0;
    while i < n
        invariant
            n == names@.len(),
            nss == names@.map_values(|a: &'static str| a@),
            0 <= i <= n,
            forall|k: int| 0 <= k < i ==> nss[k] != s@,
        decreases n - i,
    {
        if str_eq_chars(names[i], s) {
            assert(nss[i as int] == s@);
            return true;
        }
        i = i + 1;
    }
    false
}

/// Does some alias in the list start with the prefix?
pub open spec fn prefix_match(names: Seq<Seq<char>>, p: Seq<char>) -> bool {
    exists|i: int| 0 <= i < names.len() && p.is_prefix_of(names[i])
}

/// The suggestion rows of the values whose alias sets match the prefix, in
/// catalog order: display name (the first alias) and description.
pub open spec fn spec_suggest(vs: Seq<TokenValue>, p: Seq<char>) -> Seq<(Seq<char>, Seq<char>)>
    decreases vs.len(),
{
    if vs.len() == 0 {
        Seq::<(Seq<char>, Seq<char>)>::empty()
    } else {
        spec_suggest(vs.drop_last(), p) + (if prefix_match(value_names(vs.last()), p) {
            seq![(display_name(vs.last()), value_desc(vs.last()))]
        } else {
            Seq::<(Seq<char>, Seq<char>)>::empty()
        })
    }
}

/// Every suggestion row of a kind on the (already normalised) prefix: the
/// matching enumerable candidates, then the numeric placeholder when its
/// name matches too.
pub open spec fn spec_candidates(kind: TokenKind, p: Seq<char>) -> Seq<(Seq<char>, Seq<char>)> {
    spec_suggest(kind_values(kind), p) + (match kind_numeric(kind) {
        Some(rule) => if p.is_prefix_of(numeric_name(rule)) {
            seq![(numeric_name(rule), numeric_desc(rule))]
        } else {
            Seq::<(Seq<char>, Seq<char>)>::empty()
        },
        None => Seq::<(Seq<char>, Seq<char>)>::empty(),
    })
}

/// Does some alias in the candidate's list start with the normalised prefix?
fn names_prefix(names: &Vec<&'static str>, p: &Vec<char>) -> (b: bool)
    ensures
        b == prefix_match(names@.map_values(|a: &'static str| a@), p@),
{
    let ghost nss: Seq<Seq<char>> = names@.map_values(|a: &'static str| a@);
    let n = names.len();
    let mut i: usize = 0;
    while i < n
        invariant
            n == names@.len(),
            nss == names@.map_values(|a: &'static str| a@),
            0 <= i <= n,
            forall|k: int| 0 <= k < i ==> !p@.is_prefix_of(#[trigger] nss[k]),
        decreases n - i,
    {
        if str_starts_with_chars(names[i], p) {
            assert(p@.is_prefix_of(nss[i as int]));
            return true;
        }
        i = i + 1;
    }
    false
}

impl CandidateSet {
    /// Every candidate whose display name or any alias starts with the
    /// case-folded prefix, in catalog order, as (display name, description)
    /// rows; the empty prefix returns all candidates.
    pub fn candidates(&self, prefix: &str) -> (r: Vec<(&'static str, &'static str)>)
        requires
            self.wf(),
        ensures
            r@.map_values(|q: (&'static str, &'static str)| (q.0@, q.1@)) == spec_candidates(
                self.kind,
                normalize(prefix@),
            ),
    {
        let p = normalize_str(prefix);
        let ghost vs: Seq<TokenValue> = kind_values(self.kind);
        let n = self.entries.len();
        let mut r: Vec<(&'static str, &'static str)> = Vec::new();
        let mut i: usize = 0;
        proof {
            assert(vs.take(0) =~= Seq::<TokenValue>::empty());
            assert(r@.map_values(|q: (&'static str, &'static str)| (q.0@, q.1@)) =~= spec_suggest(
                vs.take(0),
                p@,
            ));
        }
        while i < n
            invariant
                self.wf(),
                p@ == normalize(prefix@),
                vs == kind_values(self.kind),
                n == self.entries@.len(),
                0 <= i <= n,
                r@.map_values(|q: (&'static str, &'static str)| (q.0@, q.1@)) == spec_suggest(
                    vs.take(i as int),
                    p@,
                ),
            decreases n - i,
        {
            let entry = &self.entries[i];
            proof {
                assert(vs.take(i + 1).drop_last() =~= vs.take(i as int));
                assert(vs.take(i + 1).last() == vs[i as int]);
                assert(self.entries@[i as int].names@.map_values(|a: &'static str| a@)
                    == value_names(vs[i as int]));
            }
            if names_prefix(&entry.names, &p) {
                let row = (entry.names[0], entry.desc);
                proof {
                    assert(entry.names@.map_values(|a: &'static str| a@)[0] == entry.names@[0]@);
                }
                r.push(row);
            }
            proof {
                assert(r@.map_values(|q: (&'static str, &'static str)| (q.0@, q.1@)) =~= spec_suggest(
                    vs.take(i + 1),
                    p@,
                ));
            }
            i = i + 1;
        }
        proof {
            assert(vs.take(n as int) =~= vs);
        }
        match &self.numeric {
            Some(slot) => {
                if str_starts_with_chars(slot.name, &p) {
                    r.push((slot.name, slot.desc));
                }
            },
            None => {},
        }
        proof {
            assert(r@.map_values(|q: (&'static str, &'static str)| (q.0@, q.1@)) =~= spec_candidates(
                self.kind,
                p@,
            ));
        }
        r
    }
}

/// One grammar position: still open over a candidate set, resolved to one
/// concrete value, or the terminal marker of a complete command.
#[derive(Clone, Copy, PartialEq, Eq, Structural, Debug)]
pub enum NodeType {
    /// An undetermined position holding the candidate set of its kind.
    Open(TokenKind),
    /// A position collapsed to one concrete value.  A resolved node never
    /// mutates; a new node is created instead of re-resolving.
    Resolved(TokenValue),
    /// The terminal marker: the command is syntactically complete.
    Done,
}

/// The transition graph: the position that follows a resolved value.  The
/// accumulated command path is passed for context-sensitive continuations;
/// the present grammar is decided by the resolved value alone, and a numeric
/// leaf transitions the same way whatever its magnitude.
pub open spec fn next_open(path: Seq<TokenValue>, v: TokenValue) -> NodeType {
    match v {
        TokenValue::Context(c) => match c {
            CmdContext::Organ => NodeType::Open(TokenKind::OrganParam),
            CmdContext::SubSynth => NodeType::Open(TokenKind::SubSynthParam),
            CmdContext::Reverb => NodeType::Open(TokenKind::ReverbParam),
            CmdContext::Chorus => NodeType::Open(TokenKind::ChorusParam),
            CmdContext::Lfo => NodeType::Open(TokenKind::LfoParam),
            CmdContext::Matrix => NodeType::Open(TokenKind::MatrixCmd),
            CmdContext::GoTo => NodeType::Open(TokenKind::Screen),
        },
        TokenValue::Organ(p) => match p {
            OrganParam::SpeakerSpeed => NodeType::Open(TokenKind::Amount),
            _ => NodeType::Open(TokenKind::DrawBarLevel),
        },
        TokenValue::DrawBar(_) => NodeType::Done,
        TokenValue::SubSynth(p) => match p {
            SubSynthParam::Osc1Type => NodeType::Open(TokenKind::Waveform),
            SubSynthParam::Osc2Type => NodeType::Open(TokenKind::Waveform),
            SubSynthParam::Detune => NodeType::Open(TokenKind::SemitoneDetune),
            _ => NodeType::Open(TokenKind::Amount),
        },
        TokenValue::Detune(_) => NodeType::Done,
        TokenValue::Wave(_) => NodeType::Done,
        TokenValue::Reverb(p) => match p {
            ReverbParams::PowerState => NodeType::Open(TokenKind::Power),
            _ => NodeType::Open(TokenKind::Amount),
        },
        TokenValue::Power(_) => NodeType::Done,
        TokenValue::Matrix(p) => match p {
            MatrixCmdArgs::Connect => NodeType::Open(TokenKind::ModSource),
            MatrixCmdArgs::Disconnect => NodeType::Done,
        },
        TokenValue::Screen(p) => match p {
            Screen::Wurlitzer => NodeType::Done,
            Screen::Synth => NodeType::Open(TokenKind::EngineChoice),
            Screen::Effect => NodeType::Open(TokenKind::EffectChoice),
            Screen::LFO => NodeType::Open(TokenKind::LfoSlot),
            Screen::ModMatrix => NodeType::Done,
            Screen::Sequencer => NodeType::Open(TokenKind::SeqSlot),
        },
        TokenValue::Engine(_) => NodeType::Done,
        TokenValue::Effect(_) => NodeType::Done,
        TokenValue::Generic(_) => NodeType::Open(TokenKind::Amount),
        TokenValue::Omitted => NodeType::Done,
        TokenValue::Lfo(_) => NodeType::Done,
        TokenValue::Sequence(_) => NodeType::Done,
        TokenValue::Amount(_) => NodeType::Done,
    }
}

/// The transition of a whole node: a resolved node moves along the graph, an
/// open node stays where it is, and `Done` has no outgoing transition.
pub open spec fn spec_transition(path: Seq<TokenValue>, node: NodeType) -> NodeType {
    match node {
        NodeType::Open(k) => NodeType::Open(k),
        NodeType::Resolved(v) => next_open(path, v),
        NodeType::Done => NodeType::Done,
    }
}

impl NodeType {
    /// Requests the next grammar position.  Transitioning from `Done` is a
    /// no-op yielding `Done` again; an open node is left as it stands.
    pub fn transition(&self, path: &Vec<TokenValue>) -> (n: NodeType)
        ensures
            n == spec_transition(path@, *self),
            *self is Done ==> n is Done,
    {
        match self {
            NodeType::Open(k) => NodeType::Open(*k),
            NodeType::Resolved(v) => match v {
                TokenValue::Context(c) => match c {
                    CmdContext::Organ => NodeType::Open(TokenKind::OrganParam),
                    CmdContext::SubSynth => NodeType::Open(TokenKind::SubSynthParam),
                    CmdContext::Reverb => NodeType::Open(TokenKind::ReverbParam),
                    CmdContext::Chorus => NodeType::Open(TokenKind::ChorusParam),
                    CmdContext::Lfo => NodeType::Open(TokenKind::LfoParam),
                    CmdContext::Matrix => NodeType::Open(TokenKind::MatrixCmd),
                    CmdContext::GoTo => NodeType::Open(TokenKind::Screen),
                },
                TokenValue::Organ(p) => match p {
                    OrganParam::SpeakerSpeed => NodeType::Open(TokenKind::Amount),
                    _ => NodeType::Open(TokenKind::DrawBarLevel),
                },
                TokenValue::DrawBar(_) => NodeType::Done,
                TokenValue::SubSynth(p) => match p {
                    SubSynthParam::Osc1Type => NodeType::Open(TokenKind::Waveform),
                    SubSynthParam::Osc2Type => NodeType::Open(TokenKind::Waveform),
                    SubSynthParam::Detune => NodeType::Open(TokenKind::SemitoneDetune),
                    _ => NodeType::Open(TokenKind::Amount),
                },
                TokenValue::Detune(_) => NodeType::Done,
                TokenValue::Wave(_) => NodeType::Done,
                TokenValue::Reverb(p) => match p {
                    ReverbParams::PowerState => NodeType::Open(TokenKind::Power),
                    _ => NodeType::Open(TokenKind::Amount),
                },
                TokenValue::Power(_) => NodeType::Done,
                TokenValue::Matrix(p) => match p {
                    MatrixCmdArgs::Connect => NodeType::Open(TokenKind::ModSource),
                    MatrixCmdArgs::Disconnect => NodeType::Done,
                },
                TokenValue::Screen(p) => match p {
                    Screen::Wurlitzer => NodeType::Done,
                    Screen::Synth => NodeType::Open(TokenKind::EngineChoice),
                    Screen::Effect => NodeType::Open(TokenKind::EffectChoice),
                    Screen::LFO => NodeType::Open(TokenKind::LfoSlot),
                    Screen::ModMatrix => NodeType::Done,
                    Screen::Sequencer => NodeType::Open(TokenKind::SeqSlot),
                },
                TokenValue::Engine(_) => NodeType::Done,
                TokenValue::Effect(_) => NodeType::Done,
                TokenValue::Generic(_) => NodeType::Open(TokenKind::Amount),
                TokenValue::Omitted => NodeType::Done,
                TokenValue::Lfo(_) => NodeType::Done,
                TokenValue::Sequence(_) => NodeType::Done,
                TokenValue::Amount(_) => NodeType::Done,
            },
            NodeType::Done => NodeType::Done,
        }
    }
}

/// Alias sets of distinct candidates share no string.
pub open spec fn aliases_disjoint(vs: Seq<TokenValue>) -> bool {
    forall|i: int, j: int|
        0 <= i < j < vs.len() ==> crate::text::disjoint_names(
            value_names(#[trigger] vs[i]),
            value_names(#[trigger] vs[j]),
        )
}

/// Every candidate has at least one alias.
pub open spec fn names_nonempty(vs: Seq<TokenValue>) -> bool {
    forall|i: int| 0 <= i < vs.len() ==> value_names(#[trigger] vs[i]).len() > 0
}

/// A healthy kind: its candidate set has pairwise-disjoint, non-empty alias
/// sets.
pub open spec fn kind_wf(k: TokenKind) -> bool {
    aliases_disjoint(kind_values(k)) && names_nonempty(kind_values(k))
}

/// Decidable check that the alias set of `vs[i]` shares nothing with any
/// later candidate's.
spec fn no_common_with_later(vs: Seq<TokenValue>, i: int, j: int) -> bool
    decreases vs.len() - j,
{
    if j < 0 || j >= vs.len() {
        true
    } else {
        crate::text::no_common_from(value_names(vs[i]), value_names(vs[j]), 0)
            && no_common_with_later(vs, i, j + 1)
    }
}

/// Decidable pairwise disjointness from index `i` on.
spec fn all_disjoint_from(vs: Seq<TokenValue>, i: int) -> bool
    decreases vs.len() - i,
{
    if i < 0 || i >= vs.len() {
        true
    } else {
        no_common_with_later(vs, i, i + 1) && all_disjoint_from(vs, i + 1)
    }
}

/// Decidable check that every alias set from index `i` on is non-empty.
spec fn all_nonempty_from(vs: Seq<TokenValue>, i: int) -> bool
    decreases vs.len() - i,
{
    if i < 0 || i >= vs.len() {
        true
    } else {
        value_names(vs[i]).len() > 0 && all_nonempty_from(vs, i + 1)
    }
}

proof fn lemma_no_common_with_later(vs: Seq<TokenValue>, i: int, j: int)
    requires
        0 <= i < vs.len(),
        i < j,
        no_common_with_later(vs, i, j),
    ensures
        forall|k: int|
            j <= k < vs.len() ==> crate::text::disjoint_names(
                value_names(vs[i]),
                value_names(#[trigger] vs[k]),
            ),
    decreases vs.len() - j,
{
    if j < vs.len() {
        crate::text::lemma_no_common(value_names(vs[i]), value_names(vs[j]), 0);
        lemma_no_common_with_later(vs, i, j + 1);
    }
}

proof fn lemma_all_disjoint(vs: Seq<TokenValue>, i: int)
    requires
        0 <= i,
        all_disjoint_from(vs, i),
    ensures
        forall|a: int, b: int|
            i <= a < b < vs.len() ==> crate::text::disjoint_names(
                value_names(#[trigger] vs[a]),
                value_names(#[trigger] vs[b]),
            ),
    decreases vs.len() - i,
{
    if i < vs.len() {
        lemma_no_common_with_later(vs, i, i + 1);
        lemma_all_disjoint(vs, i + 1);
    }
}

proof fn lemma_all_nonempty(vs: Seq<TokenValue>, i: int)
    requires
        0 <= i,
        all_nonempty_from(vs, i),
    ensures
        forall|k: int| i <= k < vs.len() ==> value_names(#[trigger] vs[k]).len() > 0,
    decreases vs.len() - i,
{
    if i < vs.len() {
        lemma_all_nonempty(vs, i + 1);
    }
}

proof fn lemma_wf_root()
    ensures
        all_disjoint_from(kind_values(TokenKind::Root), 0),
        all_nonempty_from(kind_values(TokenKind::Root), 0),
{
    reveal_with_fuel(crate::text::seq_eq_from, 12);
    reveal_with_fuel(crate::text::seq_has_from, 4);
    reveal_with_fuel(crate::text::no_common_from, 4);
    reveal_with_fuel(no_common_with_later, 9);
    reveal_with_fuel(all_disjoint_from, 9);
    reveal_with_fuel(all_nonempty_from, 9);
    reveal_strlit("organ");
    assert("organ"@ =~= seq!['o', 'r', 'g', 'a', 'n']);
    reveal_strlit("org");
    assert("org"@ =~= seq!['o', 'r', 'g']);
    reveal_strlit("synth");
    assert("synth"@ =~= seq!['s', 'y', 'n', 't', 'h']);
    reveal_strlit("reverb");
    assert("reverb"@ =~= seq!['r', 'e', 'v', 'e', 'r', 'b']);
    reveal_strlit("verb");
    assert("verb"@ =~= seq!['v', 'e', 'r', 'b']);
    reveal_strlit("chorus");
    assert("chorus"@ =~= seq!['c', 'h', 'o', 'r', 'u', 's']);
    reveal_strlit("lfo");
    assert("lfo"@ =~= seq!['l', 'f', 'o']);
    reveal_strlit("mod-matrix");
    assert("mod-matrix"@ =~= seq!['m', 'o', 'd', '-', 'm', 'a', 't', 'r', 'i', 'x']);
    reveal_strlit("patch");
    assert("patch"@ =~= seq!['p', 'a', 't', 'c', 'h']);
    reveal_strlit("mod-m");
    assert("mod-m"@ =~= seq!['m', 'o', 'd', '-', 'm']);
    reveal_strlit("goto");
    assert("goto"@ =~= seq!['g', 'o', 't', 'o']);
    reveal_strlit("screen");
    assert("screen"@ =~= seq!['s', 'c', 'r', 'e', 'e', 'n']);
    reveal_strlit("view");
    assert("view"@ =~= seq!['v', 'i', 'e', 'w']);
    assert(all_disjoint_from(kind_values(TokenKind::Root), 0));
    assert(all_nonempty_from(kind_values(TokenKind::Root), 0));
}

proof fn lemma_wf_organparam()
    ensures
        all_disjoint_from(kind_values(TokenKind::OrganParam), 0),
        all_nonempty_from(kind_values(TokenKind::OrganParam), 0),
{
    reveal_with_fuel(crate::text::seq_eq_from, 7);
    reveal_with_fuel(crate::text::seq_has_from, 4);
    reveal_with_fuel(crate::text::no_common_from, 4);
    reveal_with_fuel(no_common_with_later, 11);
    reveal_with_fuel(all_disjoint_from, 11);
    reveal_with_fuel(all_nonempty_from, 11);
    reveal_strlit("1");
    assert("1"@ =~= seq!['1']);
    reveal_strlit("2");
    assert("2"@ =~= seq!['2']);
    reveal_strlit("3");
    assert("3"@ =~= seq!['3']);
    reveal_strlit("4");
    assert("4"@ =~= seq!['4']);
    reveal_strlit("5");
    assert("5"@ =~= seq!['5']);
    reveal_strlit("6");
    assert("6"@ =~= seq!['6']);
    reveal_strlit("7");
    assert("7"@ =~= seq!['7']);
    reveal_strlit("8");
    assert("8"@ =~= seq!['8']);
    reveal_strlit("speed");
    assert("speed"@ =~= seq!['s', 'p', 'e', 'e', 'd']);
    reveal_strlit("rpm");
    assert("rpm"@ =~= seq!['r', 'p', 'm']);
    assert(all_disjoint_from(kind_values(TokenKind::OrganParam), 0));
    assert(all_nonempty_from(kind_values(TokenKind::OrganParam), 0));
}

proof fn lemma_wf_drawbarlevel()
    ensures
        all_disjoint_from(kind_values(TokenKind::DrawBarLevel), 0),
        all_nonempty_from(kind_values(TokenKind::DrawBarLevel), 0),
{
    reveal_with_fuel(crate::text::seq_eq_from, 3);
    reveal_with_fuel(crate::text::seq_has_from, 4);
    reveal_with_fuel(crate::text::no_common_from, 4);
    reveal_with_fuel(no_common_with_later, 10);
    reveal_with_fuel(all_disjoint_from, 10);
    reveal_with_fuel(all_nonempty_from, 10);
    reveal_strlit("1");
    assert("1"@ =~= seq!['1']);
    reveal_strlit("2");
    assert("2"@ =~= seq!['2']);
    reveal_strlit("3");
    assert("3"@ =~= seq!['3']);
    reveal_strlit("4");
    assert("4"@ =~= seq!['4']);
    reveal_strlit("5");
    assert("5"@ =~= seq!['5']);
    reveal_strlit("6");
    assert("6"@ =~= seq!['6']);
    reveal_strlit("7");
    assert("7"@ =~= seq!['7']);
    reveal_strlit("8");
    assert("8"@ =~= seq!['8']);
    assert(all_disjoint_from(kind_values(TokenKind::DrawBarLevel), 0));
    assert(all_nonempty_from(kind_values(TokenKind::DrawBarLevel), 0));
}

proof fn lemma_wf_subsynthparam()
    ensures
        all_disjoint_from(kind_values(TokenKind::SubSynthParam), 0),
        all_nonempty_from(kind_values(TokenKind::SubSynthParam), 0),
{
    reveal_with_fuel(crate::text::seq_eq_from, 13);
    reveal_with_fuel(crate::text::seq_has_from, 4);
    reveal_with_fuel(crate::text::no_common_from, 4);
    reveal_with_fuel(no_common_with_later, 13);
    reveal_with_fuel(all_disjoint_from, 13);
    reveal_with_fuel(all_nonempty_from, 13);
    reveal_strlit("osc1-type");
    assert("osc1-type"@ =~= seq!['o', 's', 'c', '1', '-', 't', 'y', 'p', 'e']);
    reveal_strlit("main-wf");
    assert("main-wf"@ =~= seq!['m', 'a', 'i', 'n', '-', 'w', 'f']);
    reveal_strlit("mix");
    assert("mix"@ =~= seq!['m', 'i', 'x']);
    reveal_strlit("osc2-type");
    assert("osc2-type"@ =~= seq!['o', 's', 'c', '2', '-', 't', 'y', 'p', 'e']);
    reveal_strlit("second-wf");
    assert("second-wf"@ =~= seq!['s', 'e', 'c', 'o', 'n', 'd', '-', 'w', 'f']);
    reveal_strlit("detune");
    assert("detune"@ =~= seq!['d', 'e', 't', 'u', 'n', 'e']);
    reveal_strlit("detune-fine");
    assert("detune-fine"@ =~= seq!['d', 'e', 't', 'u', 'n', 'e', '-', 'f', 'i', 'n', 'e']);
    reveal_strlit("fine-tune");
    assert("fine-tune"@ =~= seq!['f', 'i', 'n', 'e', '-', 't', 'u', 'n', 'e']);
    reveal_strlit("attack");
    assert("attack"@ =~= seq!['a', 't', 't', 'a', 'c', 'k']);
    reveal_strlit("atk");
    assert("atk"@ =~= seq!['a', 't', 'k']);
    reveal_strlit("decay");
    assert("decay"@ =~= seq!['d', 'e', 'c', 'a', 'y']);
    reveal_strlit("dcy");
    assert("dcy"@ =~= seq!['d', 'c', 'y']);
    reveal_strlit("sustain");
    assert("sustain"@ =~= seq!['s', 'u', 's', 't', 'a', 'i', 'n']);
    reveal_strlit("sus");
    assert("sus"@ =~= seq!['s', 'u', 's']);
    reveal_strlit("release");
    assert("release"@ =~= seq!['r', 'e', 'l', 'e', 'a', 's', 'e']);
    reveal_strlit("rel");
    assert("rel"@ =~= seq!['r', 'e', 'l']);
    reveal_strlit("cutoff");
    assert("cutoff"@ =~= seq!['c', 'u', 't', 'o', 'f', 'f']);
    reveal_strlit("resonance");
    assert("resonance"@ =~= seq!['r', 'e', 's', 'o', 'n', 'a', 'n', 'c', 'e']);
    reveal_strlit("res");
    assert("res"@ =~= seq!['r', 'e', 's']);
    assert(all_disjoint_from(kind_values(TokenKind::SubSynthParam), 0));
    assert(all_nonempty_from(kind_values(TokenKind::SubSynthParam), 0));
}

proof fn lemma_wf_semitonedetune()
    ensures
        all_disjoint_from(kind_values(TokenKind::SemitoneDetune), 0),
        all_nonempty_from(kind_values(TokenKind::SemitoneDetune), 0),
{
    reveal_with_fuel(crate::text::seq_eq_from, 4);
    reveal_with_fuel(crate::text::seq_has_from, 4);
    reveal_with_fuel(crate::text::no_common_from, 4);
    reveal_with_fuel(no_common_with_later, 14);
    reveal_with_fuel(all_disjoint_from, 14);
    reveal_with_fuel(all_nonempty_from, 14);
    reveal_strlit("1");
    assert("1"@ =~= seq!['1']);
    reveal_strlit("2");
    assert("2"@ =~= seq!['2']);
    reveal_strlit("3");
    assert("3"@ =~= seq!['3']);
    reveal_strlit("4");
    assert("4"@ =~= seq!['4']);
    reveal_strlit("5");
    assert("5"@ =~= seq!['5']);
    reveal_strlit("6");
    assert("6"@ =~= seq!['6']);
    reveal_strlit("7");
    assert("7"@ =~= seq!['7']);
    reveal_strlit("8");
    assert("8"@ =~= seq!['8']);
    reveal_strlit("9");
    assert("9"@ =~= seq!['9']);
    reveal_strlit("10");
    assert("10"@ =~= seq!['1', '0']);
    reveal_strlit("11");
    assert("11"@ =~= seq!['1', '1']);
    reveal_strlit("12");
    assert("12"@ =~= seq!['1', '2']);
    assert(all_disjoint_from(kind_values(TokenKind::SemitoneDetune), 0));
    assert(all_nonempty_from(kind_values(TokenKind::SemitoneDetune), 0));
}

proof fn lemma_wf_waveform()
    ensures
        all_disjoint_from(kind_values(TokenKind::Waveform), 0),
        all_nonempty_from(kind_values(TokenKind::Waveform), 0),
{
    reveal_with_fuel(crate::text::seq_eq_from, 11);
    reveal_with_fuel(crate::text::seq_has_from, 4);
    reveal_with_fuel(crate::text::no_common_from, 4);
    reveal_with_fuel(no_common_with_later, 4);
    reveal_with_fuel(all_disjoint_from, 4);
    reveal_with_fuel(all_nonempty_from, 4);
    reveal_strlit("sine");
    assert("sine"@ =~= seq!['s', 'i', 'n', 'e']);
    reveal_strlit("sin");
    assert("sin"@ =~= seq!['s', 'i', 'n']);
    reveal_strlit("saw");
    assert("saw"@ =~= seq!['s', 'a', 'w']);
    reveal_strlit("saw-tooth");
    assert("saw-tooth"@ =~= seq!['s', 'a', 'w', '-', 't', 'o', 'o', 't', 'h']);
    assert(all_disjoint_from(kind_values(TokenKind::Waveform), 0));
    assert(all_nonempty_from(kind_values(TokenKind::Waveform), 0));
}

proof fn lemma_wf_reverbparam()
    ensures
        all_disjoint_from(kind_values(TokenKind::ReverbParam), 0),
        all_nonempty_from(kind_values(TokenKind::ReverbParam), 0),
{
    reveal_with_fuel(crate::text::seq_eq_from, 9);
    reveal_with_fuel(crate::text::seq_has_from, 4);
    reveal_with_fuel(crate::text::no_common_from, 4);
    reveal_with_fuel(no_common_with_later, 7);
    reveal_with_fuel(all_disjoint_from, 7);
    reveal_with_fuel(all_nonempty_from, 7);
    reveal_strlit("gain");
    assert("gain"@ =~= seq!['g', 'a', 'i', 'n']);
    reveal_strlit("decay");
    assert("decay"@ =~= seq!['d', 'e', 'c', 'a', 'y']);
    reveal_strlit("cutoff");
    assert("cutoff"@ =~= seq!['c', 'u', 't', 'o', 'f', 'f']);
    reveal_strlit("tone");
    assert("tone"@ =~= seq!['t', 'o', 'n', 'e']);
    reveal_strlit("damping");
    assert("damping"@ =~= seq!['d', 'a', 'm', 'p', 'i', 'n', 'g']);
    reveal_strlit("power");
    assert("power"@ =~= seq!['p', 'o', 'w', 'e', 'r']);
    assert(all_disjoint_from(kind_values(TokenKind::ReverbParam), 0));
    assert(all_nonempty_from(kind_values(TokenKind::ReverbParam), 0));
}

proof fn lemma_wf_power()
    ensures
        all_disjoint_from(kind_values(TokenKind::Power), 0),
        all_nonempty_from(kind_values(TokenKind::Power), 0),
{
    reveal_with_fuel(crate::text::seq_eq_from, 5);
    reveal_with_fuel(crate::text::seq_has_from, 4);
    reveal_with_fuel(crate::text::no_common_from, 4);
    reveal_with_fuel(no_common_with_later, 4);
    reveal_with_fuel(all_disjoint_from, 4);
    reveal_with_fuel(all_nonempty_from, 4);
    reveal_strlit("on");
    assert("on"@ =~= seq!['o', 'n']);
    reveal_strlit("1");
    assert("1"@ =~= seq!['1']);
    reveal_strlit("off");
    assert("off"@ =~= seq!['o', 'f', 'f']);
    reveal_strlit("0");
    assert("0"@ =~= seq!['0']);
    assert(all_disjoint_from(kind_values(TokenKind::Power), 0));
    assert(all_nonempty_from(kind_values(TokenKind::Power), 0));
}

proof fn lemma_wf_matrixcmd()
    ensures
        all_disjoint_from(kind_values(TokenKind::MatrixCmd), 0),
        all_nonempty_from(kind_values(TokenKind::MatrixCmd), 0),
{
    reveal_with_fuel(crate::text::seq_eq_from, 12);
    reveal_with_fuel(crate::text::seq_has_from, 4);
    reveal_with_fuel(crate::text::no_common_from, 4);
    reveal_with_fuel(no_common_with_later, 4);
    reveal_with_fuel(all_disjoint_from, 4);
    reveal_with_fuel(all_nonempty_from, 4);
    reveal_strlit("con");
    assert("con"@ =~= seq!['c', 'o', 'n']);
    reveal_strlit("connect");
    assert("connect"@ =~= seq!['c', 'o', 'n', 'n', 'e', 'c', 't']);
    reveal_strlit("dcon");
    assert("dcon"@ =~= seq!['d', 'c', 'o', 'n']);
    reveal_strlit("disconnect");
    assert("disconnect"@ =~= seq!['d', 'i', 's', 'c', 'o', 'n', 'n', 'e', 'c', 't']);
    reveal_strlit("discon");
    assert("discon"@ =~= seq!['d', 'i', 's', 'c', 'o', 'n']);
    assert(all_disjoint_from(kind_values(TokenKind::MatrixCmd), 0));
    assert(all_nonempty_from(kind_values(TokenKind::MatrixCmd), 0));
}

proof fn lemma_wf_modsource()
    ensures
        all_disjoint_from(kind_values(TokenKind::ModSource), 0),
        all_nonempty_from(kind_values(TokenKind::ModSource), 0),
{
    assert(all_disjoint_from(kind_values(TokenKind::ModSource), 0));
    assert(all_nonempty_from(kind_values(TokenKind::ModSource), 0));
}

proof fn lemma_wf_screen()
    ensures
        all_disjoint_from(kind_values(TokenKind::Screen), 0),
        all_nonempty_from(kind_values(TokenKind::Screen), 0),
{
    reveal_with_fuel(crate::text::seq_eq_from, 12);
    reveal_with_fuel(crate::text::seq_has_from, 4);
    reveal_with_fuel(crate::text::no_common_from, 4);
    reveal_with_fuel(no_common_with_later, 8);
    reveal_with_fuel(all_disjoint_from, 8);
    reveal_with_fuel(all_nonempty_from, 8);
    reveal_strlit("wurlitzer");
    assert("wurlitzer"@ =~= seq!['w', 'u', 'r', 'l', 'i', 't', 'z', 'e', 'r']);
    reveal_strlit("wurli");
    assert("wurli"@ =~= seq!['w', 'u', 'r', 'l', 'i']);
    reveal_strlit("synth");
    assert("synth"@ =~= seq!['s', 'y', 'n', 't', 'h']);
    reveal_strlit("effects");
    assert("effects"@ =~= seq!['e', 'f', 'f', 'e', 'c', 't', 's']);
    reveal_strlit("effect");
    assert("effect"@ =~= seq!['e', 'f', 'f', 'e', 'c', 't']);
    reveal_strlit("ef");
    assert("ef"@ =~= seq!['e', 'f']);
    reveal_strlit("lfo");
    assert("lfo"@ =~= seq!['l', 'f', 'o']);
    reveal_strlit("mod");
    assert("mod"@ =~= seq!['m', 'o', 'd']);
    reveal_strlit("matrix");
    assert("matrix"@ =~= seq!['m', 'a', 't', 'r', 'i', 'x']);
    reveal_strlit("mod-matrix");
    assert("mod-matrix"@ =~= seq!['m', 'o', 'd', '-', 'm', 'a', 't', 'r', 'i', 'x']);
    reveal_strlit("sequencer");
    assert("sequencer"@ =~= seq!['s', 'e', 'q', 'u', 'e', 'n', 'c', 'e', 'r']);
    reveal_strlit("seq");
    assert("seq"@ =~= seq!['s', 'e', 'q']);
    assert(all_disjoint_from(kind_values(TokenKind::Screen), 0));
    assert(all_nonempty_from(kind_values(TokenKind::Screen), 0));
}

proof fn lemma_wf_enginechoice()
    ensures
        all_disjoint_from(kind_values(TokenKind::EngineChoice), 0),
        all_nonempty_from(kind_values(TokenKind::EngineChoice), 0),
{
    reveal_with_fuel(crate::text::seq_eq_from, 19);
    reveal_with_fuel(crate::text::seq_has_from, 4);
    reveal_with_fuel(crate::text::no_common_from, 4);
    reveal_with_fuel(no_common_with_later, 5);
    reveal_with_fuel(all_disjoint_from, 5);
    reveal_with_fuel(all_nonempty_from, 5);
    reveal_strlit("organ");
    assert("organ"@ =~= seq!['o', 'r', 'g', 'a', 'n']);
    reveal_strlit("synth");
    assert("synth"@ =~= seq!['s', 'y', 'n', 't', 'h']);
    reveal_strlit("subtractive-synth");
    assert("subtractive-synth"@ =~= seq!['s', 'u', 'b', 't', 'r', 'a', 'c', 't', 'i', 'v', 'e', '-', 's', 'y', 'n', 't', 'h']);
    reveal_strlit("none");
    assert("none"@ =~= seq!['n', 'o', 'n', 'e']);
    assert(all_disjoint_from(kind_values(TokenKind::EngineChoice), 0));
    assert(all_nonempty_from(kind_values(TokenKind::EngineChoice), 0));
}

proof fn lemma_wf_effectchoice()
    ensures
        all_disjoint_from(kind_values(TokenKind::EffectChoice), 0),
        all_nonempty_from(kind_values(TokenKind::EffectChoice), 0),
{
    reveal_with_fuel(crate::text::seq_eq_from, 8);
    reveal_with_fuel(crate::text::seq_has_from, 4);
    reveal_with_fuel(crate::text::no_common_from, 4);
    reveal_with_fuel(no_common_with_later, 5);
    reveal_with_fuel(all_disjoint_from, 5);
    reveal_with_fuel(all_nonempty_from, 5);
    reveal_strlit("reverb");
    assert("reverb"@ =~= seq!['r', 'e', 'v', 'e', 'r', 'b']);
    reveal_strlit("verb");
    assert("verb"@ =~= seq!['v', 'e', 'r', 'b']);
    reveal_strlit("chorus");
    assert("chorus"@ =~= seq!['c', 'h', 'o', 'r', 'u', 's']);
    reveal_strlit("delay");
    assert("delay"@ =~= seq!['d', 'e', 'l', 'a', 'y']);
    reveal_strlit("none");
    assert("none"@ =~= seq!['n', 'o', 'n', 'e']);
    assert(all_disjoint_from(kind_values(TokenKind::EffectChoice), 0));
    assert(all_nonempty_from(kind_values(TokenKind::EffectChoice), 0));
}

proof fn lemma_wf_lfoslot()
    ensures
        all_disjoint_from(kind_values(TokenKind::LfoSlot), 0),
        all_nonempty_from(kind_values(TokenKind::LfoSlot), 0),
{
    reveal_with_fuel(crate::text::seq_eq_from, 6);
    reveal_with_fuel(crate::text::seq_has_from, 4);
    reveal_with_fuel(crate::text::no_common_from, 4);
    reveal_with_fuel(no_common_with_later, 3);
    reveal_with_fuel(all_disjoint_from, 3);
    reveal_with_fuel(all_nonempty_from, 3);
    reveal_strlit("none");
    assert("none"@ =~= seq!['n', 'o', 'n', 'e']);
    assert(all_disjoint_from(kind_values(TokenKind::LfoSlot), 0));
    assert(all_nonempty_from(kind_values(TokenKind::LfoSlot), 0));
}

proof fn lemma_wf_seqslot()
    ensures
        all_disjoint_from(kind_values(TokenKind::SeqSlot), 0),
        all_nonempty_from(kind_values(TokenKind::SeqSlot), 0),
{
    reveal_with_fuel(crate::text::seq_eq_from, 6);
    reveal_with_fuel(crate::text::seq_has_from, 4);
    reveal_with_fuel(crate::text::no_common_from, 4);
    reveal_with_fuel(no_common_with_later, 3);
    reveal_with_fuel(all_disjoint_from, 3);
    reveal_with_fuel(all_nonempty_from, 3);
    reveal_strlit("none");
    assert("none"@ =~= seq!['n', 'o', 'n', 'e']);
    assert(all_disjoint_from(kind_values(TokenKind::SeqSlot), 0));
    assert(all_nonempty_from(kind_values(TokenKind::SeqSlot), 0));
}

proof fn lemma_wf_amount()
    ensures
        all_disjoint_from(kind_values(TokenKind::Amount), 0),
        all_nonempty_from(kind_values(TokenKind::Amount), 0),
{
    assert(all_disjoint_from(kind_values(TokenKind::Amount), 0));
    assert(all_nonempty_from(kind_values(TokenKind::Amount), 0));
}

proof fn lemma_wf_lfoparam()
    ensures
        all_disjoint_from(kind_values(TokenKind::LfoParam), 0),
        all_nonempty_from(kind_values(TokenKind::LfoParam), 0),
{
    assert(all_disjoint_from(kind_values(TokenKind::LfoParam), 0));
    assert(all_nonempty_from(kind_values(TokenKind::LfoParam), 0));
}

proof fn lemma_wf_chorusparam()
    ensures
        all_disjoint_from(kind_values(TokenKind::ChorusParam), 0),
        all_nonempty_from(kind_values(TokenKind::ChorusParam), 0),
{
    assert(all_disjoint_from(kind_values(TokenKind::ChorusParam), 0));
    assert(all_nonempty_from(kind_values(TokenKind::ChorusParam), 0));
}

/// Every candidate set the grammar can produce is healthy: alias sets are
/// pairwise disjoint (case-insensitively) and no candidate is nameless.
pub proof fn lemma_kind_wf(k: TokenKind)
    ensures
        kind_wf(k),
{
    match k {
        TokenKind::Root => lemma_wf_root(),
        TokenKind::OrganParam => lemma_wf_organparam(),
        TokenKind::DrawBarLevel => lemma_wf_drawbarlevel(),
        TokenKind::SubSynthParam => lemma_wf_subsynthparam(),
        TokenKind::SemitoneDetune => lemma_wf_semitonedetune(),
        TokenKind::Waveform => lemma_wf_waveform(),
        TokenKind::ReverbParam => lemma_wf_reverbparam(),
        TokenKind::Power => lemma_wf_power(),
        TokenKind::MatrixCmd => lemma_wf_matrixcmd(),
        TokenKind::ModSource => lemma_wf_modsource(),
        TokenKind::Screen => lemma_wf_screen(),
        TokenKind::EngineChoice => lemma_wf_enginechoice(),
        TokenKind::EffectChoice => lemma_wf_effectchoice(),
        TokenKind::LfoSlot => lemma_wf_lfoslot(),
        TokenKind::SeqSlot => lemma_wf_seqslot(),
        TokenKind::Amount => lemma_wf_amount(),
        TokenKind::LfoParam => lemma_wf_lfoparam(),
        TokenKind::ChorusParam => lemma_wf_chorusparam(),
    }
    lemma_all_disjoint(kind_values(k), 0);
    lemma_all_nonempty(kind_values(k), 0);
}

/// A count of two exhibits two distinct matching values.
proof fn lemma_match_count_ge2(vs: Seq<TokenValue>, s: Seq<char>)
    requires
        match_count(vs, s) >= 2,
    ensures
        exists|i: int, j: int|
            0 <= i < j < vs.len() && name_match(value_names(#[trigger] vs[i]), s) && name_match(
                value_names(#[trigger] vs[j]),
                s,
            ),
    decreases vs.len(),
{
    if name_match(value_names(vs.last()), s) {
        lemma_match_count_pos(vs.drop_last(), s);
        let i = choose|i: int|
            0 <= i < vs.drop_last().len() && name_match(
                value_names(#[trigger] vs.drop_last()[i]),
                s,
            );
        assert(vs[i] == vs.drop_last()[i]);
        assert(vs[vs.len() - 1] == vs.last());
        assert(0 <= i < vs.len() - 1 < vs.len() && name_match(value_names(vs[i]), s) && name_match(
            value_names(vs[vs.len() - 1]),
            s,
        ));
    } else {
        lemma_match_count_ge2(vs.drop_last(), s);
        let (i, j): (int, int) = choose|i: int, j: int|
            0 <= i < j < vs.drop_last().len() && name_match(
                value_names(#[trigger] vs.drop_last()[i]),
                s,
            ) && name_match(value_names(#[trigger] vs.drop_last()[j]), s);
        assert(vs[i] == vs.drop_last()[i]);
        assert(vs[j] == vs.drop_last()[j]);
        assert(0 <= i < j < vs.len() && name_match(value_names(vs[i]), s) && name_match(
            value_names(vs[j]),
            s,
        ));
    }
}

/// The match count is one exactly when one single candidate's alias set
/// contains the string.
pub proof fn lemma_match_count_one(vs: Seq<TokenValue>, s: Seq<char>)
    ensures
        (match_count(vs, s) == 1) <==> exists|i: int|
            {
                &&& 0 <= i < vs.len()
                &&& name_match(value_names(#[trigger] vs[i]), s)
                &&& forall|j: int|
                    0 <= j < vs.len() && name_match(value_names(#[trigger] vs[j]), s) ==> j == i
            },
{
    if match_count(vs, s) == 1 {
        lemma_match_count_pos(vs, s);
        let i = choose|i: int|
            0 <= i < vs.len() && name_match(value_names(#[trigger] vs[i]), s);
        assert forall|j: int|
            0 <= j < vs.len() && name_match(value_names(#[trigger] vs[j]), s) implies j == i by {
            if j != i {
                if j < i {
                    lemma_match_count_two(vs, s, j, i);
                } else {
                    lemma_match_count_two(vs, s, i, j);
                }
            }
        }
        assert({
            &&& 0 <= i < vs.len()
            &&& name_match(value_names(vs[i]), s)
            &&& forall|j: int|
                0 <= j < vs.len() && name_match(value_names(#[trigger] vs[j]), s) ==> j == i
        });
    }
    if exists|i: int|
        {
            &&& 0 <= i < vs.len()
            &&& name_match(value_names(#[trigger] vs[i]), s)
            &&& forall|j: int|
                0 <= j < vs.len() && name_match(value_names(#[trigger] vs[j]), s) ==> j == i
        } {
        let i = choose|i: int|
            {
                &&& 0 <= i < vs.len()
                &&& name_match(value_names(#[trigger] vs[i]), s)
                &&& forall|j: int|
                    0 <= j < vs.len() && name_match(value_names(#[trigger] vs[j]), s) ==> j == i
            };
        lemma_match_count_at(vs, s, i);
        if match_count(vs, s) >= 2 {
            lemma_match_count_ge2(vs, s);
            let (a, b): (int, int) = choose|a: int, b: int|
                0 <= a < b < vs.len() && name_match(value_names(#[trigger] vs[a]), s) && name_match(
                    value_names(#[trigger] vs[b]),
                    s,
                );
            assert(a == i && b == i);
        }
    }
}

/// A collapse succeeds exactly when the folded input belongs to exactly one
/// candidate's alias set or — with no alias match at all — parses under the
/// kind's numeric rule; otherwise it fails with `NoMatch` at an enumerable
/// position and `NumericParseError` at a numeric one.
pub proof fn lemma_collapse_iff(kind: TokenKind, s: Seq<char>)
    ensures
        spec_collapse(kind, s) is Ok <==> ({
            ||| match_count(kind_values(kind), s) == 1
            ||| (match_count(kind_values(kind), s) == 0 && (match kind_numeric(kind) {
                Some(NumericKind::Amount) => spec_parse_decimal(s) is Some,
                Some(NumericKind::LfoIndex) => spec_parse_index(s) is Some,
                Some(NumericKind::SeqIndex) => spec_parse_index(s) is Some,
                None => false,
            }))
        }),
        spec_collapse(kind, s) == Err::<TokenValue, CmdError>(CmdError::NumericParseError) ==> (
        match_count(kind_values(kind), s) == 0 && kind_numeric(kind) is Some),
        spec_collapse(kind, s) == Err::<TokenValue, CmdError>(CmdError::NoMatch) ==> (match_count(
            kind_values(kind),
            s,
        ) != 1 && (match_count(kind_values(kind), s) != 0 || kind_numeric(kind) is None)),
{
}

/// Totality of the transition graph: every value that a position can resolve
/// to has a defined continuation — the terminal marker or a further open
/// position whose candidate set is itself healthy.  A transition never
/// yields a dangling or already-resolved node.
pub proof fn lemma_transition_total(path: Seq<TokenValue>, v: TokenValue)
    ensures
        next_open(path, v) is Done || next_open(path, v) is Open,
        next_open(path, v) matches NodeType::Open(k) ==> kind_wf(k),
{
    let n = next_open(path, v);
    if let NodeType::Open(k) = n {
        lemma_kind_wf(k);
    }
}

/// Idempotence at the terminal: a transition from `Done` yields `Done`.
pub proof fn lemma_done_idempotent(path: Seq<TokenValue>)
    ensures
        spec_transition(path, NodeType::Done) == NodeType::Done,
{
}


/// The match count is zero exactly when no candidate's alias set contains
/// the string.
pub proof fn lemma_match_count_zero(vs: Seq<TokenValue>, s: Seq<char>)
    ensures
        (match_count(vs, s) == 0) <==> (forall|i: int|
            0 <= i < vs.len() ==> !name_match(value_names(#[trigger] vs[i]), s)),
{
    if match_count(vs, s) == 0 {
        assert forall|i: int|
            0 <= i < vs.len() implies !name_match(value_names(#[trigger] vs[i]), s) by {
            if name_match(value_names(vs[i]), s) {
                lemma_match_count_at(vs, s, i);
            }
        }
    } else {
        lemma_match_count_pos(vs, s);
    }
}

/// The healthy catalog makes an alias hit decisive: when the normalised
/// input lies in one candidate's alias set, that candidate is the unique
/// match and the collapse returns exactly its value.
pub proof fn lemma_collapse_hits_the_alias(k: TokenKind, s: Seq<char>, i: int)
    requires
        0 <= i < kind_values(k).len(),
        name_match(value_names(kind_values(k)[i]), s),
    ensures
        spec_collapse(k, s) == Ok::<TokenValue, CmdError>(kind_values(k)[i]),
{
    lemma_kind_wf(k);
    let vs = kind_values(k);
    assert forall|j: int|
        0 <= j < vs.len() && name_match(value_names(#[trigger] vs[j]), s) implies j == i by {
        if j != i {
            let a = choose|a: int|
                0 <= a < value_names(vs[i]).len() && value_names(vs[i])[a] == s;
            let b = choose|b: int|
                0 <= b < value_names(vs[j]).len() && value_names(vs[j])[b] == s;
            if i < j {
                assert(crate::text::disjoint_names(value_names(vs[i]), value_names(vs[j])));
                assert(value_names(vs[i])[a] != value_names(vs[j])[b]);
            } else {
                assert(crate::text::disjoint_names(value_names(vs[j]), value_names(vs[i])));
                assert(value_names(vs[j])[b] != value_names(vs[i])[a]);
            }
        }
    }
    lemma_match_count_one(vs, s);
    assert(match_count(vs, s) == 1);
    let c = choose|c: int| 0 <= c < vs.len() && name_match(value_names(vs[c]), s);
    assert(c == i);
}

} // verus!
