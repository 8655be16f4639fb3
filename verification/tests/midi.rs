use std::collections::HashMap;
use ym38x6::effects::{ChorusType, ReverbType};
use ym38x6::midi::{
    apply_at_modulation, bank_number, combine_f_number, data_entry_action, f_number_operator,
    operator_key_action, program_parameter, select_parameter, wms1_data_entry_action,
    AtDestination, DataEntryAction, OperatorKeyAction, RpnSelection,
};
use ym38x6::params::{LfoDestination, LfoWaveform, Ym38x6LfoDestination, Ym38x6Patch};
use ym38x6::preset::gm2_bank0_patch;

fn base_patch() -> Ym38x6Patch {
    let mut p = gm2_bank0_patch(4).unwrap();
    p.channel.tone_lfo_pmd = 10;
    p.channel.tone_lfo_amd = 20;
    p.channel.filter_cutoff = 200;
    p.channel.filter_resonance = 250;
    p
}

#[test]
fn at_destination_mapping() {
    assert_eq!(AtDestination::default(), AtDestination::LfoPmd);
    assert_eq!(AtDestination::from_u8(0), AtDestination::LfoPmd);
    assert_eq!(AtDestination::from_u8(3), AtDestination::FilterResonance);
    assert_eq!(AtDestination::from_u8(4), AtDestination::TlAllOps);
    assert_eq!(AtDestination::from_u8(5), AtDestination::TlCarriers);
    assert_eq!(AtDestination::from_u8(200), AtDestination::TlCarriers);
}

#[test]
fn channel_and_poly_pressure_add_on_the_same_destination() {
    let mut poly = HashMap::new();
    poly.insert(60u8, 30u8);
    let mut p = base_patch();
    apply_at_modulation(60, AtDestination::FilterCutoff, AtDestination::FilterCutoff, 40, &poly, &mut p);
    assert_eq!(p.channel.filter_cutoff, 255);
    let mut q = base_patch();
    apply_at_modulation(60, AtDestination::LfoPmd, AtDestination::LfoPmd, 40, &poly, &mut q);
    assert_eq!(q.channel.tone_lfo_pmd, 80);
    assert_eq!(q.channel.tone_lfo_amd, 20);
    assert_eq!(q.operators, base_patch().operators);
}

#[test]
fn poly_pressure_only_counts_for_its_note() {
    let mut poly = HashMap::new();
    poly.insert(61u8, 100u8);
    let mut p = base_patch();
    apply_at_modulation(60, AtDestination::LfoAmd, AtDestination::LfoPmd, 5, &poly, &mut p);
    assert_eq!(p.channel.tone_lfo_amd, 25);
    assert_eq!(p.channel.tone_lfo_pmd, 10);
}

#[test]
fn tl_pressure_reaches_carriers_or_all_operators() {
    let poly = HashMap::new();
    let base = base_patch(); // algorithm 4: carriers 1 and 3
    let mut c = base;
    apply_at_modulation(60, AtDestination::TlCarriers, AtDestination::LfoPmd, 20, &poly, &mut c);
    assert_eq!(c.operators[0].tl, base.operators[0].tl);
    assert_eq!(c.operators[1].tl, base.operators[1].tl + 20);
    assert_eq!(c.operators[2].tl, base.operators[2].tl);
    assert_eq!(c.operators[3].tl, 255);
    let mut a = base;
    apply_at_modulation(60, AtDestination::TlAllOps, AtDestination::LfoPmd, 20, &poly, &mut a);
    assert_eq!(a.operators[0].tl, 250);
    assert_eq!(a.operators[1].tl, 180);
    assert_eq!(a.operators[2].tl, 200);
    assert_eq!(a.operators[3].tl, 255);
}

#[test]
fn zero_pressure_leaves_the_patch_unchanged() {
    let poly = HashMap::new();
    let mut p = base_patch();
    apply_at_modulation(1, AtDestination::TlAllOps, AtDestination::FilterCutoff, 0, &poly, &mut p);
    assert_eq!(p, base_patch());
}

#[test]
fn parameter_selection_and_null() {
    assert_eq!(select_parameter(true, 0, 9), RpnSelection::Nrpn(0, 9));
    assert_eq!(select_parameter(false, 0, 5), RpnSelection::Rpn(0, 5));
    assert_eq!(select_parameter(true, 127, 127), RpnSelection::Unselected);
    assert_eq!(select_parameter(false, 127, 127), RpnSelection::Unselected);
    assert_eq!(select_parameter(true, 127, 0), RpnSelection::Nrpn(127, 0));
    assert_eq!(RpnSelection::default(), RpnSelection::Unselected);
}

#[test]
fn data_entry_rules() {
    let n = |l| RpnSelection::Nrpn(0, l);
    assert_eq!(data_entry_action(RpnSelection::Rpn(0, 5), 90, 180), DataEntryAction::ModDepthRange(90));
    assert_eq!(data_entry_action(RpnSelection::Rpn(0, 6), 90, 180), DataEntryAction::Ignore);
    assert_eq!(data_entry_action(n(0), 2, 4), DataEntryAction::LfoDestination(Ym38x6LfoDestination::TlCarrier));
    assert_eq!(data_entry_action(n(1), 3, 6), DataEntryAction::LfoWaveform(LfoWaveform::SampleHold));
    assert_eq!(data_entry_action(n(2), 5, 10), DataEntryAction::ReverbType(ReverbType::Plate));
    assert_eq!(data_entry_action(n(3), 5, 10), DataEntryAction::ChorusType(ChorusType::Flanger));
    assert_eq!(data_entry_action(n(4), 64, 129), DataEntryAction::ReverbTime(129));
    assert_eq!(data_entry_action(n(8), 64, 129), DataEntryAction::ChorusSendToReverb(129));
    assert_eq!(data_entry_action(n(9), 100, 200), DataEntryAction::Algorithm(7));
    assert_eq!(data_entry_action(n(12), 100, 200), DataEntryAction::OperatorWaveform(2, 200));
    assert_eq!(data_entry_action(n(14), 100, 200), DataEntryAction::FilterType(2));
    assert_eq!(data_entry_action(n(15), 0, 0), DataEntryAction::FilterSelfOscillation(false));
    assert_eq!(data_entry_action(n(16), 1, 2), DataEntryAction::AtDestination(AtDestination::LfoAmd));
    assert_eq!(data_entry_action(n(17), 4, 8), DataEntryAction::PolyAtDestination(AtDestination::TlAllOps));
    assert_eq!(data_entry_action(n(21), 4, 8), DataEntryAction::OperatorFNumber(3));
    assert_eq!(data_entry_action(n(22), 4, 8), DataEntryAction::Ignore);
    assert_eq!(data_entry_action(RpnSelection::Nrpn(1, 0), 4, 8), DataEntryAction::Ignore);
    assert_eq!(data_entry_action(RpnSelection::Unselected, 4, 8), DataEntryAction::Ignore);
}

#[test]
fn wms1_data_entry_rules() {
    let n = |l| RpnSelection::Nrpn(0, l);
    assert_eq!(wms1_data_entry_action(n(0), 2, 4), DataEntryAction::Wms1LfoDestination(LfoDestination::Volume));
    assert_eq!(wms1_data_entry_action(n(0), 0, 0), DataEntryAction::Wms1LfoDestination(LfoDestination::Pitch));
    assert_eq!(wms1_data_entry_action(n(7), 1, 2), DataEntryAction::ChorusFeedback(2));
    assert_eq!(wms1_data_entry_action(n(9), 1, 2), DataEntryAction::Ignore);
    assert_eq!(wms1_data_entry_action(RpnSelection::Rpn(0, 5), 1, 2), DataEntryAction::ModDepthRange(1));
}

#[test]
fn f_number_and_bank_arithmetic() {
    assert_eq!(combine_f_number(32, 0), 4096);
    assert_eq!(combine_f_number(127, 127), 8191);
    assert_eq!(combine_f_number(63, 127), 8191);
    assert_eq!(combine_f_number(64, 0), 8191);
    assert_eq!(combine_f_number(1, 5), 133);
    assert_eq!(bank_number(127, 127), 16383);
    assert_eq!(bank_number(0, 1), 1);
    assert_eq!(f_number_operator(RpnSelection::Nrpn(0, 18)), Some(0));
    assert_eq!(f_number_operator(RpnSelection::Nrpn(0, 17)), None);
    assert_eq!(f_number_operator(RpnSelection::Rpn(0, 18)), None);
}

#[test]
fn program_parameter_and_operator_keys() {
    assert_eq!(program_parameter(0), None);
    assert_eq!(program_parameter(1), Some(0));
    assert_eq!(program_parameter(128), Some(127));
    assert_eq!(operator_key_action(102, 64), OperatorKeyAction::KeyOn(0));
    assert_eq!(operator_key_action(104, 63), OperatorKeyAction::KeyOff(2));
    assert_eq!(operator_key_action(105, 63), OperatorKeyAction::ReleaseNotes);
    assert_eq!(operator_key_action(105, 127), OperatorKeyAction::KeyOn(3));
}

#[test]
fn aftertouch_leaves_unknown_algorithm_alone_without_carrier_pressure() {
    let poly: HashMap<u8, u8> = HashMap::new();
    let mut p = base_patch();
    p.channel.algorithm = 9;
    let before = p;
    apply_at_modulation(60, AtDestination::TlAllOps, AtDestination::LfoPmd, 7, &poly, &mut p);
    for i in 0..4 {
        let expected = (before.operators[i].tl as u16 + 7).min(255) as u8;
        assert_eq!(p.operators[i].tl, expected);
    }
    assert_eq!(p.channel, before.channel);
}
