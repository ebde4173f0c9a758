use synth_cli::command::Command;
use synth_cli::grammar::CmdError;
use synth_cli::grammar::TokenKind;
use synth_cli::grammar::open_node;
use synth_cli::numeric::Decimal;
use synth_cli::tokens::CmdContext;
use synth_cli::tokens::EffectType;
use synth_cli::tokens::LfoNum;
use synth_cli::tokens::OrganDrawBarParam;
use synth_cli::tokens::OrganParam;
use synth_cli::tokens::PowerState;
use synth_cli::tokens::ReverbParams;
use synth_cli::tokens::Screen;
use synth_cli::tokens::SemitoneDetune;
use synth_cli::tokens::SeqNum;
use synth_cli::tokens::SubSynthParam;
use synth_cli::tokens::TokenValue;
use synth_cli::tokens::WaveformType;

fn displays(rows: &[(&'static str, &'static str)]) -> Vec<&'static str> {
    rows.iter().map(|r| r.0).collect()
}

#[test]
fn organ_collapse_opens_organ_params() {
    let mut cmd = Command::new();
    assert_eq!(cmd.feed("organ"), Ok(()));
    assert_eq!(cmd.tokens, vec![TokenValue::Context(CmdContext::Organ)]);
    let rows = cmd.candidates("");
    let names = displays(&rows);
    assert_eq!(names, vec!["1", "2", "3", "4", "5", "6", "7", "8", "speed"]);
    // the speaker-speed candidate answers to "rpm" as well
    let rpm = cmd.candidates("rpm");
    assert_eq!(displays(&rpm), vec!["speed"]);
}

#[test]
fn reverb_gain_amount_walks_to_done() {
    let mut cmd = Command::new();
    assert_eq!(cmd.feed("reverb"), Ok(()));
    assert_eq!(cmd.feed("gain"), Ok(()));
    assert!(!cmd.is_done());
    assert_eq!(cmd.feed("0.5"), Ok(()));
    assert!(cmd.is_done());
    assert_eq!(
        cmd.tokens,
        vec![
            TokenValue::Context(CmdContext::Reverb),
            TokenValue::Reverb(ReverbParams::Gain),
            TokenValue::Amount(Decimal { negative: false, int_part: 0, frac_part: 5, frac_len: 1 }),
        ]
    );
    assert_eq!(cmd.to_api(), "reverb/gain/0.5");
}

#[test]
fn unknown_input_leaves_root_unchanged() {
    let mut cmd = Command::new();
    assert_eq!(cmd.feed("xyz"), Err(CmdError::NoMatch));
    assert!(cmd.tokens.is_empty());
    let names = displays(&cmd.candidates(""));
    assert_eq!(
        names,
        vec!["organ", "synth", "reverb", "chorus", "lfo", "mod-matrix", "goto"]
    );
}

#[test]
fn prefix_filter_keeps_catalog_order() {
    let cmd = Command::new();
    let rows = cmd.candidates("re");
    assert_eq!(rows.len(), 1);
    assert_eq!(rows[0].0, "reverb");
    assert_eq!(rows[0].1, "Reverb effect params");
}

#[test]
fn matching_folds_case_and_trims() {
    let mut cmd = Command::new();
    assert_eq!(cmd.feed("  ORGAN  "), Ok(()));
    assert_eq!(cmd.tokens, vec![TokenValue::Context(CmdContext::Organ)]);
    let mut other = Command::new();
    assert_eq!(other.feed("\tReVeRb\n"), Ok(()));
    assert_eq!(other.tokens, vec![TokenValue::Context(CmdContext::Reverb)]);
}

#[test]
fn candidates_filter_folds_case() {
    let cmd = Command::new();
    let rows = cmd.candidates("RE");
    assert_eq!(displays(&rows), vec!["reverb"]);
}

#[test]
fn numeric_position_rejects_non_numerals() {
    let mut cmd = Command::new();
    assert_eq!(cmd.feed("reverb"), Ok(()));
    assert_eq!(cmd.feed("gain"), Ok(()));
    assert_eq!(cmd.feed("abc"), Err(CmdError::NumericParseError));
    assert_eq!(cmd.feed(""), Err(CmdError::NumericParseError));
    assert_eq!(cmd.feed("1.2.3"), Err(CmdError::NumericParseError));
    assert_eq!(cmd.feed("."), Err(CmdError::NumericParseError));
    assert_eq!(cmd.feed("-"), Err(CmdError::NumericParseError));
    // the failures left the position open
    assert_eq!(cmd.tokens.len(), 2);
    assert!(!cmd.is_done());
    assert_eq!(cmd.feed("0.25"), Ok(()));
    assert!(cmd.is_done());
}

#[test]
fn numeric_forms_parse_exactly() {
    for (input, expect) in [
        ("12", Decimal { negative: false, int_part: 12, frac_part: 0, frac_len: 0 }),
        ("-3.5", Decimal { negative: true, int_part: 3, frac_part: 5, frac_len: 1 }),
        (".5", Decimal { negative: false, int_part: 0, frac_part: 5, frac_len: 1 }),
        ("5.", Decimal { negative: false, int_part: 5, frac_part: 0, frac_len: 0 }),
        ("0.0625", Decimal { negative: false, int_part: 0, frac_part: 625, frac_len: 4 }),
        ("10.010", Decimal { negative: false, int_part: 10, frac_part: 10, frac_len: 3 }),
        (
            "18446744073709551615",
            Decimal { negative: false, int_part: 18446744073709551615, frac_part: 0, frac_len: 0 },
        ),
    ] {
        let mut cmd = Command::new();
        assert_eq!(cmd.feed("reverb"), Ok(()));
        assert_eq!(cmd.feed("gain"), Ok(()));
        assert_eq!(cmd.feed(input), Ok(()), "input {input:?}");
        assert_eq!(cmd.tokens[2], TokenValue::Amount(expect), "input {input:?}");
    }
}

#[test]
fn numeric_overflow_is_a_parse_error() {
    let mut cmd = Command::new();
    assert_eq!(cmd.feed("reverb"), Ok(()));
    assert_eq!(cmd.feed("gain"), Ok(()));
    assert_eq!(cmd.feed("18446744073709551616"), Err(CmdError::NumericParseError));
    assert_eq!(cmd.feed("99999999999999999999.1"), Err(CmdError::NumericParseError));
    assert_eq!(cmd.feed("1.99999999999999999999"), Err(CmdError::NumericParseError));
}

#[test]
fn amount_rendering_keeps_digits() {
    let mut cmd = Command::new();
    assert_eq!(cmd.feed("synth"), Ok(()));
    assert_eq!(cmd.feed("attack"), Ok(()));
    assert_eq!(cmd.feed("-12.05"), Ok(()));
    assert_eq!(cmd.to_api(), "synth/attack/-12.05");
}

#[test]
fn done_stays_done() {
    let mut cmd = Command::new();
    assert_eq!(cmd.feed("reverb"), Ok(()));
    assert_eq!(cmd.feed("gain"), Ok(()));
    assert_eq!(cmd.feed("0.5"), Ok(()));
    assert!(cmd.is_done());
    let before = cmd.tokens.clone();
    assert_eq!(cmd.feed("reverb"), Err(CmdError::NoMatch));
    assert_eq!(cmd.feed("0.5"), Err(CmdError::NoMatch));
    assert!(cmd.is_done());
    assert_eq!(cmd.tokens, before);
    assert!(cmd.candidates("").is_empty());
}

#[test]
fn reset_returns_to_the_root() {
    let mut cmd = Command::new();
    assert_eq!(cmd.feed("organ"), Ok(()));
    cmd.reset();
    assert!(cmd.tokens.is_empty());
    assert_eq!(displays(&cmd.candidates("")).len(), 7);
}

#[test]
fn organ_draw_bar_walk() {
    let mut cmd = Command::new();
    assert_eq!(cmd.feed("org"), Ok(()));
    assert_eq!(cmd.feed("3"), Ok(()));
    assert_eq!(cmd.feed("7"), Ok(()));
    assert!(cmd.is_done());
    assert_eq!(
        cmd.tokens,
        vec![
            TokenValue::Context(CmdContext::Organ),
            TokenValue::Organ(OrganParam::Db3),
            TokenValue::DrawBar(OrganDrawBarParam::Level7),
        ]
    );
    assert_eq!(cmd.to_api(), "organ/3/7");
}

#[test]
fn organ_speed_takes_an_amount() {
    let mut cmd = Command::new();
    assert_eq!(cmd.feed("organ"), Ok(()));
    assert_eq!(cmd.feed("rpm"), Ok(()));
    assert_eq!(cmd.tokens[1], TokenValue::Organ(OrganParam::SpeakerSpeed));
    assert_eq!(cmd.feed("120"), Ok(()));
    assert!(cmd.is_done());
    assert_eq!(cmd.to_api(), "organ/speed/120");
}

#[test]
fn subsynth_detune_and_waveform() {
    let mut cmd = Command::new();
    assert_eq!(cmd.feed("synth"), Ok(()));
    assert_eq!(cmd.feed("detune"), Ok(()));
    assert_eq!(cmd.feed("12"), Ok(()));
    assert!(cmd.is_done());
    assert_eq!(cmd.tokens[2], TokenValue::Detune(SemitoneDetune::Semi12));
    assert_eq!(cmd.to_api(), "synth/detune/12");

    let mut wf = Command::new();
    assert_eq!(wf.feed("synth"), Ok(()));
    assert_eq!(wf.feed("main-wf"), Ok(()));
    assert_eq!(wf.tokens[1], TokenValue::SubSynth(SubSynthParam::Osc1Type));
    assert_eq!(wf.feed("saw-tooth"), Ok(()));
    assert_eq!(wf.tokens[2], TokenValue::Wave(WaveformType::Saw));
    assert_eq!(wf.to_api(), "synth/osc1-type/saw");
}

#[test]
fn reverb_power_switch() {
    let mut cmd = Command::new();
    assert_eq!(cmd.feed("verb"), Ok(()));
    assert_eq!(cmd.feed("power"), Ok(()));
    assert_eq!(cmd.feed("1"), Ok(()));
    assert!(cmd.is_done());
    assert_eq!(cmd.tokens[2], TokenValue::Power(PowerState::On));
    assert_eq!(cmd.to_api(), "reverb/power/on");
    let mut off = Command::new();
    assert_eq!(off.feed("reverb"), Ok(()));
    assert_eq!(off.feed("power"), Ok(()));
    assert_eq!(off.feed("OFF"), Ok(()));
    assert_eq!(off.to_api(), "reverb/power/off");
}

#[test]
fn matrix_disconnect_ends_connect_dead_ends() {
    let mut cmd = Command::new();
    assert_eq!(cmd.feed("patch"), Ok(()));
    assert_eq!(cmd.feed("dcon"), Ok(()));
    assert!(cmd.is_done());
    assert_eq!(cmd.to_api(), "mod-matrix/dcon");

    // no modulation sources are defined: the connect position offers nothing
    let mut con = Command::new();
    assert_eq!(con.feed("mod-m"), Ok(()));
    assert_eq!(con.feed("connect"), Ok(()));
    assert!(!con.is_done());
    assert!(con.candidates("").is_empty());
    assert_eq!(con.feed("anything"), Err(CmdError::NoMatch));
}

#[test]
fn chorus_and_lfo_offer_no_parameters() {
    for root in ["chorus", "lfo"] {
        let mut cmd = Command::new();
        assert_eq!(cmd.feed(root), Ok(()));
        assert!(!cmd.is_done());
        assert!(cmd.candidates("").is_empty());
        assert_eq!(cmd.feed("x"), Err(CmdError::NoMatch));
        assert_eq!(cmd.tokens.len(), 1);
    }
}

#[test]
fn goto_wurlitzer_is_terminal() {
    let mut cmd = Command::new();
    assert_eq!(cmd.feed("goto"), Ok(()));
    assert_eq!(cmd.feed("wurli"), Ok(()));
    assert!(cmd.is_done());
    assert_eq!(cmd.tokens[1], TokenValue::Screen(Screen::Wurlitzer));
    assert_eq!(cmd.to_api(), "goto/wurlitzer");
}

#[test]
fn goto_effects_takes_an_optional_effect() {
    let mut cmd = Command::new();
    assert_eq!(cmd.feed("view"), Ok(()));
    assert_eq!(cmd.feed("ef"), Ok(()));
    assert_eq!(cmd.tokens[1], TokenValue::Screen(Screen::Effect));
    let names = displays(&cmd.candidates(""));
    assert_eq!(names, vec!["reverb", "chorus", "none"]);
    assert_eq!(cmd.feed("delay"), Ok(()));
    assert!(cmd.is_done());
    assert_eq!(cmd.tokens[2], TokenValue::Effect(EffectType::Chorus));
    assert_eq!(cmd.to_api(), "goto/effects/chorus");
}

#[test]
fn goto_screen_none_sentinel_still_advances() {
    let mut cmd = Command::new();
    assert_eq!(cmd.feed("goto"), Ok(()));
    assert_eq!(cmd.feed("synth"), Ok(()));
    assert_eq!(cmd.tokens[1], TokenValue::Screen(Screen::Synth));
    assert_eq!(cmd.feed("none"), Ok(()));
    assert!(cmd.is_done());
    assert_eq!(cmd.tokens[2], TokenValue::Omitted);
    assert_eq!(cmd.to_api(), "goto/synth/none");
}

#[test]
fn goto_lfo_slot_takes_none_or_an_index() {
    let mut cmd = Command::new();
    assert_eq!(cmd.feed("goto"), Ok(()));
    assert_eq!(cmd.feed("lfo"), Ok(()));
    assert_eq!(cmd.tokens[1], TokenValue::Screen(Screen::LFO));
    let rows = cmd.candidates("");
    assert_eq!(displays(&rows), vec!["none", "number"]);
    assert_eq!(cmd.feed("7"), Ok(()));
    assert!(cmd.is_done());
    assert_eq!(cmd.tokens[2], TokenValue::Lfo(LfoNum(7)));
    assert_eq!(cmd.to_api(), "goto/lfo/7");
}

#[test]
fn goto_sequencer_slot() {
    let mut cmd = Command::new();
    assert_eq!(cmd.feed("goto"), Ok(()));
    assert_eq!(cmd.feed("seq"), Ok(()));
    assert_eq!(cmd.feed("3"), Ok(()));
    assert!(cmd.is_done());
    assert_eq!(cmd.tokens[2], TokenValue::Sequence(SeqNum(3)));
    assert_eq!(cmd.to_api(), "goto/sequencer/3");

    let mut none = Command::new();
    assert_eq!(none.feed("goto"), Ok(()));
    assert_eq!(none.feed("sequencer"), Ok(()));
    assert_eq!(none.feed("none"), Ok(()));
    assert!(none.is_done());
    assert_eq!(none.tokens[2], TokenValue::Omitted);

    let mut bad = Command::new();
    assert_eq!(bad.feed("goto"), Ok(()));
    assert_eq!(bad.feed("seq"), Ok(()));
    assert_eq!(bad.feed("3.5"), Err(CmdError::NumericParseError));
}

#[test]
fn amount_placeholder_row_is_filtered_too() {
    let mut cmd = Command::new();
    assert_eq!(cmd.feed("reverb"), Ok(()));
    assert_eq!(cmd.feed("tone"), Ok(()));
    let rows = cmd.candidates("");
    assert_eq!(rows, vec![("float", "decimal amount")]);
    assert!(cmd.candidates("fl").len() == 1);
    assert!(cmd.candidates("x").is_empty());
}

#[test]
fn collapse_needs_the_whole_alias() {
    let root = open_node(TokenKind::Root);
    assert_eq!(root.collapse("org"), Ok(TokenValue::Context(CmdContext::Organ)));
    assert_eq!(root.collapse("o"), Err(CmdError::NoMatch));
    assert_eq!(root.collapse("organx"), Err(CmdError::NoMatch));
    assert_eq!(root.collapse("  GOTO "), Ok(TokenValue::Context(CmdContext::GoTo)));
}

#[test]
fn shared_alias_text_is_fine_across_positions() {
    // "lfo" names a root command, and also a screen at the goto position
    let root = open_node(TokenKind::Root);
    assert_eq!(root.collapse("lfo"), Ok(TokenValue::Context(CmdContext::Lfo)));
    let screens = open_node(TokenKind::Screen);
    assert_eq!(screens.collapse("lfo"), Ok(TokenValue::Screen(Screen::LFO)));
}

#[test]
fn empty_command_renders_nothing() {
    let cmd = Command::new();
    assert_eq!(cmd.to_api(), "");
    assert!(!cmd.is_done());
}

#[test]
fn goto_synth_engine_choice() {
    let mut cmd = Command::new();
    assert_eq!(cmd.feed("screen"), Ok(()));
    assert_eq!(cmd.feed("synth"), Ok(()));
    let names = displays(&cmd.candidates(""));
    assert_eq!(names, vec!["organ", "synth", "none"]);
    assert_eq!(cmd.feed("subtractive-synth"), Ok(()));
    assert!(cmd.is_done());
    assert_eq!(cmd.to_api(), "goto/synth/synth");
}
