use std::collections::HashMap;
use ym38x6::controller::{
    ControlAction, NoteChannels, NoteOnStep, EffectSetting, MasterValues, OperatorHostValues, RpnRegisters, Wms1Controls,
    Wms1HostValues, Ym38x6Controller, Ym38x6HostValues,
};
use ym38x6::effects::{ChorusType, ReverbType};
use ym38x6::midi::{AtDestination, OperatorKeyAction, RpnSelection, F_NUMBER_CENTER};
use ym38x6::params::{AdsrParams, LfoDestination, LfoWaveform, Ym38x6LfoDestination};
use ym38x6::preset::{gm2_bank0_patch, placeholder_patch, PresetBank};

fn select_nrpn(k: &mut Ym38x6Controller, msb: u8, lsb: u8) {
    assert_eq!(k.control_change(99, msb, 0), ControlAction::Nothing);
    assert_eq!(k.control_change(98, lsb, 0), ControlAction::Nothing);
}

#[test]
fn fresh_controller_state() {
    let k = Ym38x6Controller::new();
    let c = k.controls;
    assert_eq!(c.rpn.selection, RpnSelection::Unselected);
    assert_eq!(c.mod_depth_range, 64);
    assert_eq!(c.lfo_destination, Ym38x6LfoDestination::Pitch);
    assert_eq!(c.lfo_waveform, LfoWaveform::Triangle);
    assert_eq!(c.operator_f_numbers, [F_NUMBER_CENTER; 4]);
    assert!(c.filter_self_oscillation);
    assert_eq!(c.program_patch, None);
    assert!(k.poly_pressure.is_empty());
}

#[test]
fn rpn_registers_select_and_null_clears() {
    let mut r = RpnRegisters::new();
    r.receive(101, 0);
    r.receive(100, 5);
    assert_eq!(r.selection, RpnSelection::Rpn(0, 5));
    r.receive(99, 0);
    assert_eq!(r.selection, RpnSelection::Nrpn(0, 0));
    r.receive(98, 3);
    assert_eq!(r.selection, RpnSelection::Nrpn(0, 3));
    r.receive(99, 127);
    r.receive(98, 127);
    assert_eq!(r.selection, RpnSelection::Unselected);
}

#[test]
fn lfo_controllers_refresh_voices() {
    let mut k = Ym38x6Controller::new();
    assert_eq!(k.control_change(1, 50, 100), ControlAction::RefreshLfo);
    assert_eq!(k.control_change(76, 50, 101), ControlAction::RefreshLfo);
    assert_eq!(k.control_change(77, 50, 102), ControlAction::RefreshLfo);
    assert_eq!(k.control_change(78, 50, 103), ControlAction::RefreshLfo);
    assert_eq!(k.controls.mod_wheel, 100);
    assert_eq!(k.controls.lfo_rate, 101);
    assert_eq!(k.controls.lfo_depth, 102);
    assert_eq!(k.controls.lfo_delay, 103);
    assert_eq!(k.control_change(2, 50, 100), ControlAction::Nothing);
}

#[test]
fn data_entry_sets_nrpn_parameters() {
    let mut k = Ym38x6Controller::new();
    assert_eq!(k.control_change(6, 40, 80), ControlAction::Nothing);
    assert_eq!(k.controls.data_entry_msb, 40);
    select_nrpn(&mut k, 0, 0);
    assert_eq!(k.control_change(6, 2, 4), ControlAction::RefreshLfo);
    assert_eq!(k.controls.lfo_destination, Ym38x6LfoDestination::TlCarrier);
    select_nrpn(&mut k, 0, 2);
    assert_eq!(
        k.control_change(6, 5, 10),
        ControlAction::Effect(EffectSetting::ReverbType(ReverbType::Plate))
    );
    select_nrpn(&mut k, 0, 3);
    assert_eq!(
        k.control_change(6, 5, 10),
        ControlAction::Effect(EffectSetting::ChorusType(ChorusType::Flanger))
    );
    select_nrpn(&mut k, 0, 4);
    assert_eq!(k.control_change(6, 64, 129), ControlAction::Effect(EffectSetting::ReverbTime(129)));
    select_nrpn(&mut k, 0, 9);
    assert_eq!(k.control_change(6, 100, 200), ControlAction::Nothing);
    assert_eq!(k.controls.algorithm, 7);
    select_nrpn(&mut k, 0, 11);
    k.control_change(6, 100, 200);
    assert_eq!(k.controls.operator_waveforms, [0, 200, 0, 0]);
    select_nrpn(&mut k, 0, 14);
    k.control_change(6, 1, 2);
    assert_eq!(k.controls.filter_type, 1);
    select_nrpn(&mut k, 0, 15);
    k.control_change(6, 0, 0);
    assert!(!k.controls.filter_self_oscillation);
    select_nrpn(&mut k, 0, 17);
    k.control_change(6, 5, 10);
    assert_eq!(k.controls.poly_at_destination, AtDestination::TlCarriers);
    assert_eq!(k.controls.at_destination, AtDestination::LfoPmd);
    assert_eq!(k.control_change(101, 0, 0), ControlAction::Nothing);
    assert_eq!(k.control_change(100, 5, 10), ControlAction::Nothing);
    assert_eq!(k.control_change(6, 90, 180), ControlAction::RefreshLfo);
    assert_eq!(k.controls.mod_depth_range, 90);
}

#[test]
fn f_number_from_data_entry_pair() {
    let mut k = Ym38x6Controller::new();
    select_nrpn(&mut k, 0, 19);
    assert_eq!(k.control_change(6, 32, 64), ControlAction::OperatorFNumber(1, 4096));
    assert_eq!(k.control_change(38, 5, 10), ControlAction::OperatorFNumber(1, 4101));
    assert_eq!(k.control_change(6, 127, 255), ControlAction::OperatorFNumber(1, 8191));
    assert_eq!(k.controls.operator_f_numbers, [4096, 8191, 4096, 4096]);
    select_nrpn(&mut k, 0, 17);
    assert_eq!(k.control_change(38, 1, 2), ControlAction::Nothing);
    assert_eq!(k.controls.data_entry_lsb, 1);
}

#[test]
fn sends_and_operator_keys() {
    let mut k = Ym38x6Controller::new();
    assert_eq!(k.control_change(91, 10, 20), ControlAction::Effect(EffectSetting::ReverbSend(20)));
    assert_eq!(k.control_change(93, 10, 21), ControlAction::Effect(EffectSetting::ChorusSend(21)));
    assert_eq!(
        k.control_change(103, 64, 128),
        ControlAction::OperatorKey(OperatorKeyAction::KeyOn(1))
    );
    assert_eq!(
        k.control_change(105, 10, 20),
        ControlAction::OperatorKey(OperatorKeyAction::ReleaseNotes)
    );
}

#[test]
fn program_change_uses_bank_select() {
    let presets = PresetBank::new();
    let mut k = Ym38x6Controller::new();
    k.program_change(&presets, 4);
    assert_eq!(k.controls.program_patch, gm2_bank0_patch(4));
    k.control_change(0, 1, 2);
    k.control_change(32, 3, 6);
    k.program_change(&presets, 9);
    assert_eq!(k.controls.program_patch, Some(placeholder_patch(131, 9)));
}

#[test]
fn host_values_apply_only_when_they_move() {
    let presets = PresetBank::new();
    let mut k = Ym38x6Controller::new();
    let mut h = Ym38x6HostValues::default();
    assert!(k.sync_host(&h, &presets).is_empty());
    // NRPN sets the reverb time and the algorithm; unchanged host values keep them.
    select_nrpn(&mut k, 0, 9);
    k.control_change(6, 3, 6);
    assert!(k.sync_host(&h, &presets).is_empty());
    assert_eq!(k.controls.algorithm, 3);
    // The host moves.
    h.algorithm = 5;
    h.lfo_depth = 9;
    h.chorus_send = 30;
    h.master.reverb_time = 7;
    h.master.chorus_send_to_reverb = 8;
    let acts = k.sync_host(&h, &presets);
    assert_eq!(
        acts,
        vec![
            ControlAction::RefreshLfo,
            ControlAction::Effect(EffectSetting::ChorusSend(30)),
            ControlAction::Effect(EffectSetting::ReverbTime(7)),
            ControlAction::Effect(EffectSetting::ChorusSendToReverb(8)),
        ]
    );
    assert_eq!(k.controls.algorithm, 5);
    assert_eq!(k.controls.lfo_depth, 9);
    // CC77 overrides the host depth until the host moves again.
    k.control_change(77, 10, 20);
    assert!(k.sync_host(&h, &presets).is_empty());
    assert_eq!(k.controls.lfo_depth, 20);
}

#[test]
fn program_parameter_selects_and_returns_to_manual() {
    let presets = PresetBank::new();
    let mut k = Ym38x6Controller::new();
    let mut h = Ym38x6HostValues::default();
    h.program = 5;
    k.sync_host(&h, &presets);
    assert_eq!(k.controls.program_patch, gm2_bank0_patch(4));
    assert_eq!(k.block_patch(&h), gm2_bank0_patch(4).unwrap());
    h.program = 0;
    k.sync_host(&h, &presets);
    assert_eq!(k.controls.program_patch, None);
    let p = k.block_patch(&h);
    assert_eq!(p.operators[0].tl, 200);
    assert_eq!(p.operators[2].ar, 255);
    assert_eq!(p.operators[3].mul, 1);
    assert_eq!(p.operators[1].op_fine_tune, 128);
    assert_eq!(p.channel.filter_cutoff, 255);
    assert_eq!(p.channel.algorithm, 0);
}

#[test]
fn manual_patch_takes_nrpn_settings() {
    let mut k = Ym38x6Controller::new();
    let mut h = Ym38x6HostValues::default();
    h.feedback = 33;
    h.operators[2] = OperatorHostValues { tl: 1, ..OperatorHostValues::default() };
    select_nrpn(&mut k, 0, 13);
    k.control_change(6, 9, 18);
    select_nrpn(&mut k, 0, 14);
    k.control_change(6, 9, 18);
    let p = k.block_patch(&h);
    assert_eq!(p.channel.feedback, 33);
    assert_eq!(p.channel.filter_type, 2);
    assert_eq!(p.operators[2].tl, 1);
    assert_eq!(p.operators[3].waveform, 18);
    assert_eq!(p.operators[0].waveform, 0);
}

#[test]
fn voice_patch_adds_pressures() {
    let mut k = Ym38x6Controller::new();
    select_nrpn(&mut k, 0, 16);
    k.control_change(6, 2, 4);
    select_nrpn(&mut k, 0, 17);
    k.control_change(6, 2, 4);
    k.channel_pressure(30);
    k.poly_pressure(60, 40);
    let mut h = Ym38x6HostValues::default();
    h.filter_cutoff = 100;
    let base = k.block_patch(&h);
    assert_eq!(k.voice_patch(base, 60).channel.filter_cutoff, 170);
    assert_eq!(k.voice_patch(base, 61).channel.filter_cutoff, 130);
    assert_eq!(k.note_off(60), None);
    assert_eq!(k.voice_patch(base, 60).channel.filter_cutoff, 130);
    let expected: HashMap<u8, u8> = HashMap::new();
    assert_eq!(k.poly_pressure, expected);
}

#[test]
fn reset_keeps_nrpn_patch_settings() {
    let presets = PresetBank::new();
    let mut k = Ym38x6Controller::new();
    select_nrpn(&mut k, 0, 9);
    k.control_change(6, 4, 8);
    select_nrpn(&mut k, 0, 20);
    k.control_change(6, 1, 2);
    k.control_change(1, 9, 9);
    k.poly_pressure(60, 40);
    k.program_change(&presets, 1);
    k.note_started(60, 4);
    k.reset();
    assert_eq!(k.note_channels.channel_of(60), None);
    assert_eq!(k.controls.algorithm, 4);
    assert_eq!(k.controls.operator_f_numbers, [F_NUMBER_CENTER; 4]);
    assert_eq!(k.controls.mod_wheel, 0);
    assert_eq!(k.controls.rpn.selection, RpnSelection::Unselected);
    assert_eq!(k.controls.program_patch, None);
    assert!(k.poly_pressure.is_empty());
}

#[test]
fn wms1_controls() {
    let mut w = Wms1Controls::new();
    assert_eq!(w.control_change(77, 10, 20), ControlAction::RefreshLfo);
    assert_eq!(w.lfo_depth, 20);
    w.control_change(99, 0, 0);
    w.control_change(98, 0, 0);
    assert_eq!(w.control_change(6, 2, 4), ControlAction::RefreshLfo);
    assert_eq!(w.lfo_destination, LfoDestination::Volume);
    w.control_change(98, 9, 18);
    assert_eq!(w.control_change(6, 2, 4), ControlAction::Nothing);
    w.control_change(98, 7, 14);
    assert_eq!(w.control_change(6, 2, 4), ControlAction::Effect(EffectSetting::ChorusFeedback(4)));
    assert_eq!(w.control_change(93, 2, 5), ControlAction::Effect(EffectSetting::ChorusSend(5)));
    assert_eq!(w.control_change(0, 2, 5), ControlAction::Nothing);
    let mut h = Wms1HostValues::default();
    assert!(w.sync_host(&h).is_empty());
    h.master = MasterValues { chorus_mod_rate: 1, ..MasterValues::default() };
    assert_eq!(w.sync_host(&h), vec![ControlAction::Effect(EffectSetting::ChorusModRate(1))]);
    assert!(w.sync_host(&h).is_empty());
    assert_eq!(h.adsr(), AdsrParams::default());
    w.reset();
    assert_eq!(w.lfo_destination, LfoDestination::Pitch);
    assert_eq!(w.mod_depth_range, 64);
    assert_eq!(w.seen_master, MasterValues::default());
}

#[test]
fn voice_patch_unchanged_without_pressure() {
    let mut k = Ym38x6Controller::new();
    select_nrpn(&mut k, 0, 16);
    k.control_change(6, 5, 10);
    let base = gm2_bank0_patch(80).unwrap();
    assert_eq!(k.voice_patch(base, 64), base);
}

#[test]
fn note_bookkeeping() {
    let mut k = Ym38x6Controller::new();
    assert_eq!(k.note_on(60, true), NoteOnStep::Start(None));
    k.note_started(60, 0);
    k.poly_pressure(60, 30);
    // The same key struck again while held: the old channel is released first.
    assert_eq!(k.note_on(60, true), NoteOnStep::Start(Some(0)));
    k.note_started(60, 1);
    k.note_started(64, 2);
    // Velocity 0 is a Note-Off.
    assert_eq!(k.note_on(60, false), NoteOnStep::Released(Some(1)));
    assert!(k.poly_pressure.is_empty());
    assert_eq!(k.note_off(60), None);
    k.note_started(50, 7);
    k.poly_pressure(64, 9);
    k.poly_pressure(70, 4);
    // Operator 3 key-off ends every held note, in ascending note order.
    assert_eq!(k.release_all_notes(), vec![7, 2]);
    assert_eq!(k.note_channels.channel_of(64), None);
    assert_eq!(k.poly_pressure.get(&70), Some(&4));
    assert_eq!(k.poly_pressure.get(&64), None);
    assert_eq!(k.release_all_notes(), Vec::<usize>::new());
}

#[test]
fn wms1_note_channels() {
    let mut n = NoteChannels::new();
    assert_eq!(n.note_on(48, true), NoteOnStep::Start(None));
    n.start(48, 3);
    assert_eq!(n.channel_of(48), Some(3));
    assert_eq!(n.note_on(48, true), NoteOnStep::Start(Some(3)));
    assert_eq!(n.release(48), Some(3));
    assert_eq!(n.release(48), None);
    n.start(50, 4);
    assert_eq!(n.note_on(50, false), NoteOnStep::Released(Some(4)));
    assert_eq!(n.channel_of(50), None);
}
