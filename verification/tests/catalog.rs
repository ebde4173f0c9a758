use synth_cli::tokens::CmdContext;
use synth_cli::tokens::CmdToken;
use synth_cli::tokens::GenericParam;
use synth_cli::tokens::Gui;
use synth_cli::tokens::Knob;
use synth_cli::tokens::MatrixCmdArgs;
use synth_cli::tokens::OrganParam;
use synth_cli::tokens::PowerState;
use synth_cli::tokens::ReverbParams;
use synth_cli::tokens::SubSynthParam;
use synth_cli::tokens::TokenValue;

#[test]
fn context_catalog_data() {
    assert_eq!(CmdContext::Organ.get_desc_name(), vec!["organ", "org"]);
    assert_eq!(CmdContext::GoTo.get_desc_name(), vec!["goto", "screen", "view"]);
    assert_eq!(CmdContext::Matrix.get_one_desc(), "Edit the mod-matrix");
    let all = CmdContext::into_vec();
    assert_eq!(all.len(), 7);
    assert_eq!(all[0], CmdContext::Organ);
    assert_eq!(all[6], CmdContext::GoTo);
}

#[test]
fn organ_param_catalog_data() {
    assert_eq!(OrganParam::SpeakerSpeed.get_desc_name(), vec!["speed", "rpm"]);
    assert_eq!(OrganParam::Db1.get_desc_name(), vec!["1"]);
    assert_eq!(OrganParam::into_vec().len(), 9);
}

#[test]
fn subsynth_catalog_data() {
    assert_eq!(SubSynthParam::Osc2Type.get_desc_name(), vec!["osc2-type", "second-wf"]);
    assert_eq!(SubSynthParam::Res.get_one_desc(), "Low-pass filter resonance");
    assert_eq!(SubSynthParam::into_vec().len(), 11);
}

#[test]
fn reverb_and_power_catalog_data() {
    assert_eq!(ReverbParams::Damping.get_desc_name(), vec!["tone", "damping"]);
    assert_eq!(PowerState::On.get_desc_name(), vec!["on", "1"]);
    assert_eq!(PowerState::Off.get_desc_name(), vec!["off", "0"]);
    assert_eq!(MatrixCmdArgs::Disconnect.get_desc_name(), vec!["dcon", "disconnect", "discon"]);
}

#[test]
fn generic_params_enumerate_knobs_then_guis() {
    let all = GenericParam::iter();
    assert_eq!(all.len(), 16);
    assert_eq!(all[0], GenericParam::Knob(Knob::K1));
    assert_eq!(all[7], GenericParam::Knob(Knob::K8));
    assert_eq!(all[8], GenericParam::Gui(Gui::G1));
    assert_eq!(all[15], GenericParam::Gui(Gui::G8));
    assert_eq!(GenericParam::into_vec(), all);
    assert_eq!(Knob::K2.get_desc_name(), vec!["k2", "2"]);
    assert_eq!(Gui::G2.get_desc_name(), vec!["g2", "10"]);
    assert_eq!(GenericParam::Gui(Gui::G3).get_desc_name(), vec!["g3", "11"]);
    assert_eq!(GenericParam::Knob(Knob::K4).get_one_desc(), "Midi controlled knob K4");
}

#[test]
fn alias_sets_are_disjoint_within_each_listed_kind() {
    // a runtime check of the proved catalog invariant, on the trait data
    fn check<T: CmdToken>() {
        let mut seen: Vec<(String, TokenValue)> = Vec::new();
        for item in T::into_vec() {
            for alias in item.get_desc_name() {
                for (other, owner) in &seen {
                    assert!(
                        !(other.as_str() == alias && *owner != item.to_value()),
                        "alias {alias:?} is shared by two candidates"
                    );
                }
                seen.push((alias.to_string(), item.to_value()));
            }
        }
    }
    check::<CmdContext>();
    check::<OrganParam>();
    check::<SubSynthParam>();
    check::<ReverbParams>();
    check::<PowerState>();
    check::<MatrixCmdArgs>();
    check::<GenericParam>();
}
