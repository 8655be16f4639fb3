//! Controller state of the two plugin front ends. The host's audio loop
//! hands every MIDI event and, once per block, the host parameter values to
//! a controller; the controller updates its state and answers with what the
//! sound engine and the master effects must be told. Rendering itself stays
//! with the engine.

use vstd::prelude::*;
use std::collections::HashMap;
use crate::effects::{ChorusType, ReverbType};
use crate::midi::{
    AtDestination, DataEntryAction, OperatorKeyAction, RpnSelection, apply_at_modulation,
    bank_number, combine_f_number, data_entry_action, f_number_operator, operator_key_action,
    poly_pressure_of, pressure_for, program_parameter, select_parameter, spec_at_modulated,
    spec_combine_f_number, spec_data_entry_action, spec_f_number_operator,
    spec_operator_key_action, spec_select_parameter, spec_wms1_data_entry_action,
    wms1_data_entry_action, F_NUMBER_CENTER,
};
use crate::params::{
    AdsrParams, ChannelParams, LfoDestination, LfoWaveform, OperatorParams, Ym38x6LfoDestination,
    Ym38x6Patch,
};
use crate::preset::{Preset, PresetBank, spec_patch_for_program};

verus! {

broadcast use vstd::std_specs::hash::group_hash_axioms;

/// A setting of the master effects.
#[derive(Clone, Copy, Debug, PartialEq, Eq, Structural)]
pub enum EffectSetting {
    ReverbType(ReverbType),
    ChorusType(ChorusType),
    ReverbTime(u8),
    ChorusModRate(u8),
    ChorusModDepth(u8),
    ChorusFeedback(u8),
    ChorusSendToReverb(u8),
    ReverbSend(u8),
    ChorusSend(u8),
}

/// What the audio loop must do after the controller has seen an event.
#[derive(Clone, Copy, Debug, PartialEq, Eq, Structural)]
pub enum ControlAction {
    /// Nothing outside the controller changes.
    Nothing,
    /// Hand the current performance LFO settings to every sounding voice.
    RefreshLfo,
    /// Apply a setting to the master effects.
    Effect(EffectSetting),
    /// Set operator `.0`'s F-Number to `.1` in every sounding voice.
    OperatorFNumber(usize, u16),
    /// Key an operator on or off, or release the held notes.
    OperatorKey(OperatorKeyAction),
}

/// The RPN and NRPN number registers and the selection they make.
#[derive(Clone, Copy, Debug)]
pub struct RpnRegisters {
    pub rpn_msb: u8,
    pub rpn_lsb: u8,
    pub nrpn_msb: u8,
    pub nrpn_lsb: u8,
    pub selection: RpnSelection,
}

/// Registers at start-up: all zero, nothing selected.
pub open spec fn spec_rpn_initial() -> RpnRegisters {
    RpnRegisters { rpn_msb: 0, rpn_lsb: 0, nrpn_msb: 0, nrpn_lsb: 0, selection: RpnSelection::Unselected }
}

/// Registers after CC98 (NRPN LSB), CC99 (NRPN MSB), CC100 (RPN LSB) or
/// CC101 (RPN MSB): the register takes the 7-bit value and the selection
/// becomes the number the pair of that kind now holds.
pub open spec fn spec_rpn_after(r: RpnRegisters, cc: u8, value7: u8) -> RpnRegisters {
    if cc == 98 {
        RpnRegisters { nrpn_lsb: value7, selection: spec_select_parameter(true, r.nrpn_msb, value7), ..r }
    } else if cc == 99 {
        RpnRegisters { nrpn_msb: value7, selection: spec_select_parameter(true, value7, r.nrpn_lsb), ..r }
    } else if cc == 100 {
        RpnRegisters { rpn_lsb: value7, selection: spec_select_parameter(false, r.rpn_msb, value7), ..r }
    } else {
        RpnRegisters { rpn_msb: value7, selection: spec_select_parameter(false, value7, r.rpn_lsb), ..r }
    }
}

impl RpnRegisters {
    pub fn new() -> (r: Self)
        ensures
            r == spec_rpn_initial(),
    {
        RpnRegisters { rpn_msb: 0, rpn_lsb: 0, nrpn_msb: 0, nrpn_lsb: 0, selection: RpnSelection::Unselected }
    }

    /// Receives CC98..=CC101 with its 7-bit value.
    pub fn receive(&mut self, cc: u8, value7: u8)
        requires
            98 <= cc <= 101,
        ensures
            *final(self) == spec_rpn_after(*old(self), cc, value7),
    {
        if cc == 98 {
            self.nrpn_lsb = value7;
            self.selection = select_parameter(true, self.nrpn_msb, value7);
        } else if cc == 99 {
            self.nrpn_msb = value7;
            self.selection = select_parameter(true, value7, self.nrpn_lsb);
        } else if cc == 100 {
            self.rpn_lsb = value7;
            self.selection = select_parameter(false, self.rpn_msb, value7);
        } else {
            self.rpn_msb = value7;
            self.selection = select_parameter(false, value7, self.rpn_lsb);
        }
    }
}

/// The five master-effect parameters of the host (each 0..=255).
#[derive(Clone, Copy, Debug, PartialEq, Eq, Structural)]
pub struct MasterValues {
    pub reverb_time: u8,
    pub chorus_mod_rate: u8,
    pub chorus_mod_depth: u8,
    pub chorus_feedback: u8,
    pub chorus_send_to_reverb: u8,
}

/// Host defaults of the master parameters, equal to the effects' own
/// start-up settings: 128, 128, 128, 0, 0.
pub open spec fn spec_default_master() -> MasterValues {
    MasterValues {
        reverb_time: 128,
        chorus_mod_rate: 128,
        chorus_mod_depth: 128,
        chorus_feedback: 0,
        chorus_send_to_reverb: 0,
    }
}

impl Default for MasterValues {
    fn default() -> (r: Self)
        ensures
            r == spec_default_master(),
    {
        MasterValues {
            reverb_time: 128,
            chorus_mod_rate: 128,
            chorus_mod_depth: 128,
            chorus_feedback: 0,
            chorus_send_to_reverb: 0,
        }
    }
}

/// `a` when `changed`, else nothing.
pub open spec fn action_if(changed: bool, a: ControlAction) -> Seq<ControlAction> {
    if changed {
        seq![a]
    } else {
        Seq::empty()
    }
}

/// Master settings owed when the host values `v` are compared with the
/// last ones seen, `last`: each parameter whose value changed, in the order
/// reverb time, chorus rate, chorus depth, chorus feedback, chorus to reverb.
/// A value set by NRPN meanwhile stays in force until the host value moves.
pub open spec fn spec_master_actions(last: MasterValues, v: MasterValues) -> Seq<ControlAction> {
    action_if(v.reverb_time != last.reverb_time, ControlAction::Effect(EffectSetting::ReverbTime(v.reverb_time)))
        + action_if(
        v.chorus_mod_rate != last.chorus_mod_rate,
        ControlAction::Effect(EffectSetting::ChorusModRate(v.chorus_mod_rate)),
    ) + action_if(
        v.chorus_mod_depth != last.chorus_mod_depth,
        ControlAction::Effect(EffectSetting::ChorusModDepth(v.chorus_mod_depth)),
    ) + action_if(
        v.chorus_feedback != last.chorus_feedback,
        ControlAction::Effect(EffectSetting::ChorusFeedback(v.chorus_feedback)),
    ) + action_if(
        v.chorus_send_to_reverb != last.chorus_send_to_reverb,
        ControlAction::Effect(EffectSetting::ChorusSendToReverb(v.chorus_send_to_reverb)),
    )
}

/// Appends `a` to `out` when `changed`.
fn push_when(out: &mut Vec<ControlAction>, changed: bool, a: ControlAction)
    ensures
        final(out)@ == old(out)@ + action_if(changed, a),
{
    if changed {
        out.push(a);
    } else {
        assert(old(out)@ + action_if(changed, a) =~= old(out)@);
    }
}

/// Appends the master settings owed for `v` to `out`.
fn push_master_actions(out: &mut Vec<ControlAction>, last: MasterValues, v: MasterValues)
    ensures
        final(out)@ == old(out)@ + spec_master_actions(last, v),
{
    let ghost start = out@;
    push_when(out, v.reverb_time != last.reverb_time, ControlAction::Effect(EffectSetting::ReverbTime(v.reverb_time)));
    push_when(
        out,
        v.chorus_mod_rate != last.chorus_mod_rate,
        ControlAction::Effect(EffectSetting::ChorusModRate(v.chorus_mod_rate)),
    );
    push_when(
        out,
        v.chorus_mod_depth != last.chorus_mod_depth,
        ControlAction::Effect(EffectSetting::ChorusModDepth(v.chorus_mod_depth)),
    );
    push_when(
        out,
        v.chorus_feedback != last.chorus_feedback,
        ControlAction::Effect(EffectSetting::ChorusFeedback(v.chorus_feedback)),
    );
    push_when(
        out,
        v.chorus_send_to_reverb != last.chorus_send_to_reverb,
        ControlAction::Effect(EffectSetting::ChorusSendToReverb(v.chorus_send_to_reverb)),
    );
    assert(out@ =~= start + spec_master_actions(last, v));
}

/// The effect setting a Data Entry decision makes, if any.
pub open spec fn spec_entry_effect(d: DataEntryAction) -> Option<EffectSetting> {
    match d {
        DataEntryAction::ReverbType(t) => Some(EffectSetting::ReverbType(t)),
        DataEntryAction::ChorusType(t) => Some(EffectSetting::ChorusType(t)),
        DataEntryAction::ReverbTime(v) => Some(EffectSetting::ReverbTime(v)),
        DataEntryAction::ChorusModRate(v) => Some(EffectSetting::ChorusModRate(v)),
        DataEntryAction::ChorusModDepth(v) => Some(EffectSetting::ChorusModDepth(v)),
        DataEntryAction::ChorusFeedback(v) => Some(EffectSetting::ChorusFeedback(v)),
        DataEntryAction::ChorusSendToReverb(v) => Some(EffectSetting::ChorusSendToReverb(v)),
        _ => None,
    }
}

fn entry_effect(d: DataEntryAction) -> (r: Option<EffectSetting>)
    ensures
        r == spec_entry_effect(d),
{
    match d {
        DataEntryAction::ReverbType(t) => Some(EffectSetting::ReverbType(t)),
        DataEntryAction::ChorusType(t) => Some(EffectSetting::ChorusType(t)),
        DataEntryAction::ReverbTime(v) => Some(EffectSetting::ReverbTime(v)),
        DataEntryAction::ChorusModRate(v) => Some(EffectSetting::ChorusModRate(v)),
        DataEntryAction::ChorusModDepth(v) => Some(EffectSetting::ChorusModDepth(v)),
        DataEntryAction::ChorusFeedback(v) => Some(EffectSetting::ChorusFeedback(v)),
        DataEntryAction::ChorusSendToReverb(v) => Some(EffectSetting::ChorusSendToReverb(v)),
        _ => None,
    }
}

/// `a` with element `i` replaced by `v` (for `i` in 0..4).
pub open spec fn spec_set4_u8(a: [u8; 4], i: usize, v: u8) -> [u8; 4] {
    [
        if i == 0 { v } else { a[0] },
        if i == 1 { v } else { a[1] },
        if i == 2 { v } else { a[2] },
        if i == 3 { v } else { a[3] },
    ]
}

/// `a` with element `i` replaced by `v` (for `i` in 0..4).
pub open spec fn spec_set4_u16(a: [u16; 4], i: usize, v: u16) -> [u16; 4] {
    [
        if i == 0 { v } else { a[0] },
        if i == 1 { v } else { a[1] },
        if i == 2 { v } else { a[2] },
        if i == 3 { v } else { a[3] },
    ]
}

fn set4_u8(a: [u8; 4], i: usize, v: u8) -> (r: [u8; 4])
    ensures
        r == spec_set4_u8(a, i, v),
{
    [
        if i == 0 { v } else { a[0] },
        if i == 1 { v } else { a[1] },
        if i == 2 { v } else { a[2] },
        if i == 3 { v } else { a[3] },
    ]
}

fn set4_u16(a: [u16; 4], i: usize, v: u16) -> (r: [u16; 4])
    ensures
        r == spec_set4_u16(a, i, v),
{
    [
        if i == 0 { v } else { a[0] },
        if i == 1 { v } else { a[1] },
        if i == 2 { v } else { a[2] },
        if i == 3 { v } else { a[3] },
    ]
}

/// Host parameter values of one 38x6 operator.
#[derive(Clone, Copy, Debug, PartialEq, Eq, Structural)]
pub struct OperatorHostValues {
    pub tl: u8,
    pub ar: u8,
    pub d1r: u8,
    pub d2r: u8,
    pub d1l: u8,
    pub rr: u8,
    pub mul: u8,
    pub dt1: u8,
    pub ksr: u8,
    pub am_enable: bool,
    pub velocity_sensitivity: u8,
}

/// Host defaults of an operator, chosen so that a fresh instance sounds:
/// TL 200, AR 255, D1R 100, D2R 80, D1L 180, RR 150, MUL 1, DT1 128,
/// KSR 64, AM off, velocity sensitivity 0.
pub open spec fn spec_default_operator_host() -> OperatorHostValues {
    OperatorHostValues {
        tl: 200,
        ar: 255,
        d1r: 100,
        d2r: 80,
        d1l: 180,
        rr: 150,
        mul: 1,
        dt1: 128,
        ksr: 64,
        am_enable: false,
        velocity_sensitivity: 0,
    }
}

impl Default for OperatorHostValues {
    fn default() -> (r: Self)
        ensures
            r == spec_default_operator_host(),
    {
        OperatorHostValues {
            tl: 200,
            ar: 255,
            d1r: 100,
            d2r: 80,
            d1l: 180,
            rr: 150,
            mul: 1,
            dt1: 128,
            ksr: 64,
            am_enable: false,
            velocity_sensitivity: 0,
        }
    }
}

/// Host parameter values of the 38x6 plugin, read once per block.
#[derive(Clone, Copy, Debug)]
pub struct Ym38x6HostValues {
    /// 0 = manual patch, n = program n - 1 of the selected bank.
    pub program: u8,
    pub algorithm: u8,
    pub feedback: u8,
    pub lfo_rate: u8,
    pub lfo_depth: u8,
    pub lfo_delay: u8,
    pub tone_lfo_freq: u8,
    pub tone_lfo_pmd: u8,
    pub tone_lfo_amd: u8,
    pub tone_lfo_delay: u8,
    pub pms: u8,
    pub ams: u8,
    pub filter_cutoff: u8,
    pub filter_resonance: u8,
    pub filter_eg_attack: u8,
    pub filter_eg_decay: u8,
    pub filter_eg_sustain: u8,
    pub filter_eg_release: u8,
    pub filter_eg_depth: u8,
    pub reverb_send: u8,
    pub chorus_send: u8,
    pub operators: [OperatorHostValues; 4],
    pub master: MasterValues,
}

/// Host defaults: manual patch, algorithm 0, filter fully open, the
/// sounding operator defaults, everything else 0.
pub open spec fn spec_default_ym_host() -> Ym38x6HostValues {
    Ym38x6HostValues {
        program: 0,
        algorithm: 0,
        feedback: 0,
        lfo_rate: 0,
        lfo_depth: 0,
        lfo_delay: 0,
        tone_lfo_freq: 0,
        tone_lfo_pmd: 0,
        tone_lfo_amd: 0,
        tone_lfo_delay: 0,
        pms: 0,
        ams: 0,
        filter_cutoff: 255,
        filter_resonance: 0,
        filter_eg_attack: 0,
        filter_eg_decay: 0,
        filter_eg_sustain: 0,
        filter_eg_release: 0,
        filter_eg_depth: 0,
        reverb_send: 0,
        chorus_send: 0,
        operators: [
            spec_default_operator_host(),
            spec_default_operator_host(),
            spec_default_operator_host(),
            spec_default_operator_host(),
        ],
        master: spec_default_master(),
    }
}

impl Default for Ym38x6HostValues {
    fn default() -> (r: Self)
        ensures
            r == spec_default_ym_host(),
    {
        let op = OperatorHostValues::default();
        Ym38x6HostValues {
            program: 0,
            algorithm: 0,
            feedback: 0,
            lfo_rate: 0,
            lfo_depth: 0,
            lfo_delay: 0,
            tone_lfo_freq: 0,
            tone_lfo_pmd: 0,
            tone_lfo_amd: 0,
            tone_lfo_delay: 0,
            pms: 0,
            ams: 0,
            filter_cutoff: 255,
            filter_resonance: 0,
            filter_eg_attack: 0,
            filter_eg_decay: 0,
            filter_eg_sustain: 0,
            filter_eg_release: 0,
            filter_eg_depth: 0,
            reverb_send: 0,
            chorus_send: 0,
            operators: [op, op, op, op],
            master: MasterValues::default(),
        }
    }
}

/// The host values the 38x6 controller saw last, for the parameters that
/// MIDI can also set.
#[derive(Clone, Copy, Debug)]
pub struct Ym38x6HostShadow {
    pub algorithm: u8,
    pub program: u8,
    pub lfo_rate: u8,
    pub lfo_depth: u8,
    pub lfo_delay: u8,
    pub reverb_send: u8,
    pub chorus_send: u8,
    pub master: MasterValues,
}

/// Everything the 38x6 front end decides with, but the poly pressures.
#[derive(Clone, Copy, Debug)]
pub struct Ym38x6Controls {
    pub rpn: RpnRegisters,
    /// CC1, added to the LFO depth.
    pub mod_wheel: u8,
    /// RPN (0,5), 0..=127.
    pub mod_depth_range: u8,
    pub lfo_destination: Ym38x6LfoDestination,
    pub lfo_waveform: LfoWaveform,
    /// LFO rate, depth and delay in force (host parameter or CC76/77/78).
    pub lfo_rate: u8,
    pub lfo_depth: u8,
    pub lfo_delay: u8,
    pub algorithm: u8,
    pub filter_type: u8,
    pub filter_self_oscillation: bool,
    pub operator_waveforms: [u8; 4],
    pub at_destination: AtDestination,
    pub poly_at_destination: AtDestination,
    pub channel_pressure: u8,
    pub data_entry_msb: u8,
    pub data_entry_lsb: u8,
    /// F-Number override of each operator; `F_NUMBER_CENTER` = none.
    pub operator_f_numbers: [u16; 4],
    pub bank_select_msb: u8,
    pub bank_select_lsb: u8,
    /// Patch chosen by program; `None` plays the manual patch.
    pub program_patch: Option<Ym38x6Patch>,
    pub seen: Ym38x6HostShadow,
}

/// The 38x6 controls of a fresh instance.
pub open spec fn spec_ym_initial() -> Ym38x6Controls {
    Ym38x6Controls {
        rpn: spec_rpn_initial(),
        mod_wheel: 0,
        mod_depth_range: 64,
        lfo_destination: Ym38x6LfoDestination::Pitch,
        lfo_waveform: LfoWaveform::Triangle,
        lfo_rate: 0,
        lfo_depth: 0,
        lfo_delay: 0,
        algorithm: 0,
        filter_type: 0,
        filter_self_oscillation: true,
        operator_waveforms: [0, 0, 0, 0],
        at_destination: AtDestination::LfoPmd,
        poly_at_destination: AtDestination::LfoPmd,
        channel_pressure: 0,
        data_entry_msb: 0,
        data_entry_lsb: 0,
        operator_f_numbers: [F_NUMBER_CENTER, F_NUMBER_CENTER, F_NUMBER_CENTER, F_NUMBER_CENTER],
        bank_select_msb: 0,
        bank_select_lsb: 0,
        program_patch: None,
        seen: Ym38x6HostShadow {
            algorithm: 0,
            program: 0,
            lfo_rate: 0,
            lfo_depth: 0,
            lfo_delay: 0,
            reverb_send: 0,
            chorus_send: 0,
            master: spec_default_master(),
        },
    }
}

/// After a host reset: the fresh controls, except that the algorithm, the
/// filter type and self-oscillation, the operator waveforms and the last
/// host algorithm seen are kept.
pub open spec fn spec_ym_reset(c: Ym38x6Controls) -> Ym38x6Controls {
    let fresh = spec_ym_initial();
    Ym38x6Controls {
        algorithm: c.algorithm,
        filter_type: c.filter_type,
        filter_self_oscillation: c.filter_self_oscillation,
        operator_waveforms: c.operator_waveforms,
        seen: Ym38x6HostShadow { algorithm: c.seen.algorithm, ..fresh.seen },
        ..fresh
    }
}

/// Selected bank: Bank Select MSB * 128 + LSB.
pub open spec fn spec_selected_bank(c: Ym38x6Controls) -> u16 {
    (c.bank_select_msb * 128 + c.bank_select_lsb) as u16
}

/// Data Entry reaching an F-Number NRPN: operator `op` takes the 13-bit
/// F-Number of the Data Entry pair.
pub open spec fn spec_set_f_number(c: Ym38x6Controls, op: usize) -> (Ym38x6Controls, ControlAction) {
    let f = spec_combine_f_number(c.data_entry_msb, c.data_entry_lsb);
    (
        Ym38x6Controls { operator_f_numbers: spec_set4_u16(c.operator_f_numbers, op, f), ..c },
        ControlAction::OperatorFNumber(op, f),
    )
}

/// How a 38x6 Data Entry decision changes the controls, and what it asks of
/// the loop: the LFO settings are refreshed, effects are set, F-Numbers are
/// sent; the rest only changes the patch of the next block.
pub open spec fn spec_ym_data_entry(c: Ym38x6Controls, d: DataEntryAction) -> (Ym38x6Controls, ControlAction) {
    match d {
        DataEntryAction::ModDepthRange(v) => (Ym38x6Controls { mod_depth_range: v, ..c }, ControlAction::RefreshLfo),
        DataEntryAction::LfoDestination(x) => (Ym38x6Controls { lfo_destination: x, ..c }, ControlAction::RefreshLfo),
        DataEntryAction::LfoWaveform(w) => (Ym38x6Controls { lfo_waveform: w, ..c }, ControlAction::RefreshLfo),
        DataEntryAction::Algorithm(a) => (Ym38x6Controls { algorithm: a, ..c }, ControlAction::Nothing),
        DataEntryAction::OperatorWaveform(i, v) => (
            Ym38x6Controls { operator_waveforms: spec_set4_u8(c.operator_waveforms, i, v), ..c },
            ControlAction::Nothing,
        ),
        DataEntryAction::FilterType(t) => (Ym38x6Controls { filter_type: t, ..c }, ControlAction::Nothing),
        DataEntryAction::FilterSelfOscillation(b) => (
            Ym38x6Controls { filter_self_oscillation: b, ..c },
            ControlAction::Nothing,
        ),
        DataEntryAction::AtDestination(x) => (Ym38x6Controls { at_destination: x, ..c }, ControlAction::Nothing),
        DataEntryAction::PolyAtDestination(x) => (
            Ym38x6Controls { poly_at_destination: x, ..c },
            ControlAction::Nothing,
        ),
        DataEntryAction::OperatorFNumber(i) => spec_set_f_number(c, i),
        _ => (
            c,
            match spec_entry_effect(d) {
                Some(e) => ControlAction::Effect(e),
                None => ControlAction::Nothing,
            },
        ),
    }
}

/// The 38x6 rule for a Control Change `cc` whose value reads `value7` on
/// the 7-bit and `value8` on the 8-bit scale.
pub open spec fn spec_ym_cc(c: Ym38x6Controls, cc: u8, value7: u8, value8: u8) -> (Ym38x6Controls, ControlAction) {
    if cc == 1 {
        (Ym38x6Controls { mod_wheel: value8, ..c }, ControlAction::RefreshLfo)
    } else if cc == 76 {
        (Ym38x6Controls { lfo_rate: value8, ..c }, ControlAction::RefreshLfo)
    } else if cc == 77 {
        (Ym38x6Controls { lfo_depth: value8, ..c }, ControlAction::RefreshLfo)
    } else if cc == 78 {
        (Ym38x6Controls { lfo_delay: value8, ..c }, ControlAction::RefreshLfo)
    } else if cc == 0 {
        (Ym38x6Controls { bank_select_msb: value7, ..c }, ControlAction::Nothing)
    } else if cc == 32 {
        (Ym38x6Controls { bank_select_lsb: value7, ..c }, ControlAction::Nothing)
    } else if 98 <= cc <= 101 {
        (Ym38x6Controls { rpn: spec_rpn_after(c.rpn, cc, value7), ..c }, ControlAction::Nothing)
    } else if cc == 6 {
        spec_ym_data_entry(
            Ym38x6Controls { data_entry_msb: value7, ..c },
            spec_data_entry_action(c.rpn.selection, value7, value8),
        )
    } else if cc == 38 {
        let c2 = Ym38x6Controls { data_entry_lsb: value7, ..c };
        match spec_f_number_operator(c.rpn.selection) {
            Some(op) => spec_set_f_number(c2, op),
            None => (c2, ControlAction::Nothing),
        }
    } else if cc == 91 {
        (c, ControlAction::Effect(EffectSetting::ReverbSend(value8)))
    } else if cc == 93 {
        (c, ControlAction::Effect(EffectSetting::ChorusSend(value8)))
    } else if 102 <= cc <= 105 {
        (c, ControlAction::OperatorKey(spec_operator_key_action(cc, value7)))
    } else {
        (c, ControlAction::Nothing)
    }
}

fn set_f_number(c: Ym38x6Controls, op: usize) -> (r: (Ym38x6Controls, ControlAction))
    ensures
        r == spec_set_f_number(c, op),
{
    let f = combine_f_number(c.data_entry_msb, c.data_entry_lsb);
    (
        Ym38x6Controls { operator_f_numbers: set4_u16(c.operator_f_numbers, op, f), ..c },
        ControlAction::OperatorFNumber(op, f),
    )
}

fn ym_data_entry(c: Ym38x6Controls, d: DataEntryAction) -> (r: (Ym38x6Controls, ControlAction))
    ensures
        r == spec_ym_data_entry(c, d),
{
    match d {
        DataEntryAction::ModDepthRange(v) => (Ym38x6Controls { mod_depth_range: v, ..c }, ControlAction::RefreshLfo),
        DataEntryAction::LfoDestination(x) => (Ym38x6Controls { lfo_destination: x, ..c }, ControlAction::RefreshLfo),
        DataEntryAction::LfoWaveform(w) => (Ym38x6Controls { lfo_waveform: w, ..c }, ControlAction::RefreshLfo),
        DataEntryAction::Algorithm(a) => (Ym38x6Controls { algorithm: a, ..c }, ControlAction::Nothing),
        DataEntryAction::OperatorWaveform(i, v) => (
            Ym38x6Controls { operator_waveforms: set4_u8(c.operator_waveforms, i, v), ..c },
            ControlAction::Nothing,
        ),
        DataEntryAction::FilterType(t) => (Ym38x6Controls { filter_type: t, ..c }, ControlAction::Nothing),
        DataEntryAction::FilterSelfOscillation(b) => (
            Ym38x6Controls { filter_self_oscillation: b, ..c },
            ControlAction::Nothing,
        ),
        DataEntryAction::AtDestination(x) => (Ym38x6Controls { at_destination: x, ..c }, ControlAction::Nothing),
        DataEntryAction::PolyAtDestination(x) => (
            Ym38x6Controls { poly_at_destination: x, ..c },
            ControlAction::Nothing,
        ),
        DataEntryAction::OperatorFNumber(i) => set_f_number(c, i),
        _ => (
            c,
            match entry_effect(d) {
                Some(e) => ControlAction::Effect(e),
                None => ControlAction::Nothing,
            },
        ),
    }
}

/// The patch the host parameters describe: operator and channel values
/// from the host, with the algorithm, filter type, self-oscillation and
/// operator waveforms that NRPN sets, and no extra operator tuning.
pub open spec fn spec_build_patch(h: Ym38x6HostValues, c: Ym38x6Controls) -> Ym38x6Patch {
    Ym38x6Patch {
        operators: [
            spec_host_operator(h.operators[0], c.operator_waveforms[0]),
            spec_host_operator(h.operators[1], c.operator_waveforms[1]),
            spec_host_operator(h.operators[2], c.operator_waveforms[2]),
            spec_host_operator(h.operators[3], c.operator_waveforms[3]),
        ],
        channel: ChannelParams {
            algorithm: c.algorithm,
            feedback: h.feedback,
            tone_lfo_freq: h.tone_lfo_freq,
            tone_lfo_pmd: h.tone_lfo_pmd,
            tone_lfo_amd: h.tone_lfo_amd,
            tone_lfo_delay: h.tone_lfo_delay,
            pms: h.pms,
            ams: h.ams,
            filter_cutoff: h.filter_cutoff,
            filter_resonance: h.filter_resonance,
            filter_type: c.filter_type,
            filter_self_oscillation: c.filter_self_oscillation,
            filter_eg_attack: h.filter_eg_attack,
            filter_eg_decay: h.filter_eg_decay,
            filter_eg_sustain: h.filter_eg_sustain,
            filter_eg_release: h.filter_eg_release,
            filter_eg_depth: h.filter_eg_depth,
        },
    }
}

/// One operator from its host values and wave slot.
pub open spec fn spec_host_operator(o: OperatorHostValues, waveform: u8) -> OperatorParams {
    OperatorParams {
        tl: o.tl,
        ar: o.ar,
        d1r: o.d1r,
        d2r: o.d2r,
        d1l: o.d1l,
        rr: o.rr,
        mul: o.mul,
        dt1: o.dt1,
        ksr: o.ksr,
        am_enable: o.am_enable,
        velocity_sensitivity: o.velocity_sensitivity,
        waveform,
        op_fine_tune: 128,
    }
}

fn host_operator(o: OperatorHostValues, waveform: u8) -> (r: OperatorParams)
    ensures
        r == spec_host_operator(o, waveform),
{
    OperatorParams {
        tl: o.tl,
        ar: o.ar,
        d1r: o.d1r,
        d2r: o.d2r,
        d1l: o.d1l,
        rr: o.rr,
        mul: o.mul,
        dt1: o.dt1,
        ksr: o.ksr,
        am_enable: o.am_enable,
        velocity_sensitivity: o.velocity_sensitivity,
        waveform,
        op_fine_tune: 128,
    }
}

/// The patch of a block: the program's patch when one is chosen, else the
/// manual patch of the host parameters.
pub open spec fn spec_block_patch(c: Ym38x6Controls, h: Ym38x6HostValues) -> Ym38x6Patch {
    match c.program_patch {
        Some(p) => p,
        None => spec_build_patch(h, c),
    }
}

/// Settings owed for a block's host values: an LFO refresh for each of
/// rate, depth and delay that moved, the send levels that moved, then the
/// master parameters that moved.
pub open spec fn spec_ym_host_actions(c: Ym38x6Controls, h: Ym38x6HostValues) -> Seq<ControlAction> {
    action_if(h.lfo_rate != c.seen.lfo_rate, ControlAction::RefreshLfo)
        + action_if(h.lfo_depth != c.seen.lfo_depth, ControlAction::RefreshLfo)
        + action_if(h.lfo_delay != c.seen.lfo_delay, ControlAction::RefreshLfo)
        + action_if(h.reverb_send != c.seen.reverb_send, ControlAction::Effect(EffectSetting::ReverbSend(h.reverb_send)))
        + action_if(h.chorus_send != c.seen.chorus_send, ControlAction::Effect(EffectSetting::ChorusSend(h.chorus_send)))
        + spec_master_actions(c.seen.master, h.master)
}

/// Controls after a block's host values: a host value that moved takes
/// over (the program resolving in the selected bank), one that did not
/// leaves in force what MIDI set meanwhile.
pub open spec fn spec_ym_after_host(
    c: Ym38x6Controls,
    h: Ym38x6HostValues,
    presets: Map<(u16, u8), Preset>,
) -> Ym38x6Controls {
    Ym38x6Controls {
        algorithm: if h.algorithm != c.seen.algorithm { h.algorithm } else { c.algorithm },
        program_patch: if h.program == c.seen.program {
            c.program_patch
        } else if h.program == 0 {
            None
        } else {
            Some(spec_patch_for_program(presets, spec_selected_bank(c), (h.program - 1) as u8))
        },
        lfo_rate: if h.lfo_rate != c.seen.lfo_rate { h.lfo_rate } else { c.lfo_rate },
        lfo_depth: if h.lfo_depth != c.seen.lfo_depth { h.lfo_depth } else { c.lfo_depth },
        lfo_delay: if h.lfo_delay != c.seen.lfo_delay { h.lfo_delay } else { c.lfo_delay },
        seen: Ym38x6HostShadow {
            algorithm: h.algorithm,
            program: h.program,
            lfo_rate: h.lfo_rate,
            lfo_depth: h.lfo_depth,
            lfo_delay: h.lfo_delay,
            reverb_send: h.reverb_send,
            chorus_send: h.chorus_send,
            master: h.master,
        },
        ..c
    }
}

/// The channel `note` sounds on, if any.
pub open spec fn spec_channel_of(m: Map<u8, usize>, note: u8) -> Option<usize> {
    if m.contains_key(note) {
        Some(m[note])
    } else {
        None
    }
}

/// Channels of the held notes below `n`, in ascending note order.
pub open spec fn spec_channels_below(m: Map<u8, usize>, n: int) -> Seq<usize>
    decreases n,
{
    if n <= 0 {
        Seq::empty()
    } else {
        spec_channels_below(m, n - 1) + (if m.contains_key((n - 1) as u8) {
            seq![m[(n - 1) as u8]]
        } else {
            Seq::empty()
        })
    }
}

/// What a Note-On asks of the engine.
#[derive(Clone, Copy, Debug, PartialEq, Eq, Structural)]
pub enum NoteOnStep {
    /// Velocity 0 is a Note-Off: release this channel, if the note held one.
    Released(Option<usize>),
    /// Start a voice for the note (then record it with `note_started`);
    /// first release this channel, if the key was still held.
    Start(Option<usize>),
}

/// The engine channel each held MIDI note sounds on.
pub struct NoteChannels {
    channels: HashMap<u8, usize>,
}

impl View for NoteChannels {
    type V = Map<u8, usize>;

    closed spec fn view(&self) -> Map<u8, usize> {
        self.channels@
    }
}

impl NoteChannels {
    /// No note held.
    pub fn new() -> (r: Self)
        ensures
            r@ == Map::<u8, usize>::empty(),
    {
        NoteChannels { channels: HashMap::new() }
    }

    /// The channel `note` sounds on.
    pub fn channel_of(&self, note: u8) -> (r: Option<usize>)
        ensures
            r == spec_channel_of(self@, note),
    {
        match self.channels.get(&note) {
            Some(c) => Some(*c),
            None => None,
        }
    }

    /// `note` is released: its channel, if it held one, is returned and forgotten.
    pub fn release(&mut self, note: u8) -> (r: Option<usize>)
        ensures
            r == spec_channel_of(old(self)@, note),
            final(self)@ == old(self)@.remove(note),
    {
        let r = self.channel_of(note);
        self.channels.remove(&note);
        r
    }

    /// `note` now sounds on `channel`.
    pub fn start(&mut self, note: u8, channel: usize)
        ensures
            final(self)@ == old(self)@.insert(note, channel),
    {
        self.channels.insert(note, channel);
    }

    /// Note-On of `note`; `sounding` is whether its velocity is above zero.
    /// A Note-On of velocity zero releases the note; otherwise the key's
    /// earlier channel, if still held, is to be released before the new
    /// voice starts.
    pub fn note_on(&mut self, note: u8, sounding: bool) -> (r: NoteOnStep)
        ensures
            !sounding ==> r == NoteOnStep::Released(spec_channel_of(old(self)@, note))
                && final(self)@ == old(self)@.remove(note),
            sounding ==> r == NoteOnStep::Start(spec_channel_of(old(self)@, note))
                && final(self)@ == old(self)@,
    {
        if !sounding {
            NoteOnStep::Released(self.release(note))
        } else {
            NoteOnStep::Start(self.channel_of(note))
        }
    }
}

/// The 38x6 front end's controller: the controls, the poly pressure of
/// each held note and the channel each held note sounds on.
pub struct Ym38x6Controller {
    pub controls: Ym38x6Controls,
    pub poly_pressure: HashMap<u8, u8>,
    pub note_channels: NoteChannels,
}

impl Ym38x6Controller {
    pub fn new() -> (r: Self)
        ensures
            r.controls == spec_ym_initial(),
            r.poly_pressure@ == Map::<u8, u8>::empty(),
            r.note_channels@ == Map::<u8, usize>::empty(),
    {
        let c = F_NUMBER_CENTER;
        Ym38x6Controller {
            controls: Ym38x6Controls {
                rpn: RpnRegisters::new(),
                mod_wheel: 0,
                mod_depth_range: 64,
                lfo_destination: Ym38x6LfoDestination::Pitch,
                lfo_waveform: LfoWaveform::Triangle,
                lfo_rate: 0,
                lfo_depth: 0,
                lfo_delay: 0,
                algorithm: 0,
                filter_type: 0,
                filter_self_oscillation: true,
                operator_waveforms: [0, 0, 0, 0],
                at_destination: AtDestination::LfoPmd,
                poly_at_destination: AtDestination::LfoPmd,
                channel_pressure: 0,
                data_entry_msb: 0,
                data_entry_lsb: 0,
                operator_f_numbers: [c, c, c, c],
                bank_select_msb: 0,
                bank_select_lsb: 0,
                program_patch: None,
                seen: Ym38x6HostShadow {
                    algorithm: 0,
                    program: 0,
                    lfo_rate: 0,
                    lfo_depth: 0,
                    lfo_delay: 0,
                    reverb_send: 0,
                    chorus_send: 0,
                    master: MasterValues::default(),
                },
            },
            poly_pressure: HashMap::new(),
            note_channels: NoteChannels::new(),
        }
    }

    /// Host reset: back to the fresh state but for the NRPN-only patch
    /// settings and the algorithm; poly pressures and held notes are forgotten.
    pub fn reset(&mut self)
        ensures
            final(self).controls == spec_ym_reset(old(self).controls),
            final(self).poly_pressure@ == Map::<u8, u8>::empty(),
            final(self).note_channels@ == Map::<u8, usize>::empty(),
    {
        let old_controls = self.controls;
        let fresh = Ym38x6Controller::new();
        self.controls = Ym38x6Controls {
            algorithm: old_controls.algorithm,
            filter_type: old_controls.filter_type,
            filter_self_oscillation: old_controls.filter_self_oscillation,
            operator_waveforms: old_controls.operator_waveforms,
            seen: Ym38x6HostShadow { algorithm: old_controls.seen.algorithm, ..fresh.controls.seen },
            ..fresh.controls
        };
        self.poly_pressure.clear();
        self.note_channels = NoteChannels::new();
    }

    /// Handles Control Change `cc`; `value7` and `value8` are its value on
    /// the 7-bit and 8-bit scales.
    pub fn control_change(&mut self, cc: u8, value7: u8, value8: u8) -> (a: ControlAction)
        ensures
            (final(self).controls, a) == spec_ym_cc(old(self).controls, cc, value7, value8),
            final(self).poly_pressure@ == old(self).poly_pressure@,
            final(self).note_channels@ == old(self).note_channels@,
    {
        let c = self.controls;
        let (next, a) = if cc == 1 {
            (Ym38x6Controls { mod_wheel: value8, ..c }, ControlAction::RefreshLfo)
        } else if cc == 76 {
            (Ym38x6Controls { lfo_rate: value8, ..c }, ControlAction::RefreshLfo)
        } else if cc == 77 {
            (Ym38x6Controls { lfo_depth: value8, ..c }, ControlAction::RefreshLfo)
        } else if cc == 78 {
            (Ym38x6Controls { lfo_delay: value8, ..c }, ControlAction::RefreshLfo)
        } else if cc == 0 {
            (Ym38x6Controls { bank_select_msb: value7, ..c }, ControlAction::Nothing)
        } else if cc == 32 {
            (Ym38x6Controls { bank_select_lsb: value7, ..c }, ControlAction::Nothing)
        } else if 98 <= cc && cc <= 101 {
            let mut rpn = c.rpn;
            rpn.receive(cc, value7);
            (Ym38x6Controls { rpn, ..c }, ControlAction::Nothing)
        } else if cc == 6 {
            let d = data_entry_action(c.rpn.selection, value7, value8);
            ym_data_entry(Ym38x6Controls { data_entry_msb: value7, ..c }, d)
        } else if cc == 38 {
            let c2 = Ym38x6Controls { data_entry_lsb: value7, ..c };
            match f_number_operator(c.rpn.selection) {
                Some(op) => set_f_number(c2, op),
                None => (c2, ControlAction::Nothing),
            }
        } else if cc == 91 {
            (c, ControlAction::Effect(EffectSetting::ReverbSend(value8)))
        } else if cc == 93 {
            (c, ControlAction::Effect(EffectSetting::ChorusSend(value8)))
        } else if 102 <= cc && cc <= 105 {
            (c, ControlAction::OperatorKey(operator_key_action(cc, value7)))
        } else {
            (c, ControlAction::Nothing)
        };
        self.controls = next;
        a
    }

    /// Channel Pressure, on the 8-bit scale.
    pub fn channel_pressure(&mut self, value8: u8)
        ensures
            final(self).controls == (Ym38x6Controls { channel_pressure: value8, ..old(self).controls }),
            final(self).poly_pressure@ == old(self).poly_pressure@,
            final(self).note_channels@ == old(self).note_channels@,
    {
        self.controls.channel_pressure = value8;
    }

    /// Poly Key Pressure of `note`, on the 8-bit scale.
    pub fn poly_pressure(&mut self, note: u8, value8: u8)
        ensures
            final(self).controls == old(self).controls,
            final(self).poly_pressure@ == old(self).poly_pressure@.insert(note, value8),
            final(self).note_channels@ == old(self).note_channels@,
    {
        self.poly_pressure.insert(note, value8);
    }

    /// Note-Off of `note` (or CC105 keying off its master operator): the
    /// channel it sounded on, if any, is returned for release, and the note's
    /// channel and poly pressure are forgotten.
    pub fn note_off(&mut self, note: u8) -> (released: Option<usize>)
        ensures
            released == spec_channel_of(old(self).note_channels@, note),
            final(self).note_channels@ == old(self).note_channels@.remove(note),
            final(self).poly_pressure@ == old(self).poly_pressure@.remove(note),
            final(self).controls == old(self).controls,
    {
        let released = self.note_channels.release(note);
        self.poly_pressure.remove(&note);
        released
    }

    /// Note-On of `note`; `sounding` is whether its velocity is above zero.
    /// A Note-On of velocity zero is a Note-Off. Otherwise nothing changes
    /// yet: the step names the channel still held by the key, to be released
    /// before the new voice starts.
    pub fn note_on(&mut self, note: u8, sounding: bool) -> (r: NoteOnStep)
        ensures
            !sounding ==> {
                &&& r == NoteOnStep::Released(spec_channel_of(old(self).note_channels@, note))
                &&& final(self).note_channels@ == old(self).note_channels@.remove(note)
                &&& final(self).poly_pressure@ == old(self).poly_pressure@.remove(note)
            },
            sounding ==> {
                &&& r == NoteOnStep::Start(spec_channel_of(old(self).note_channels@, note))
                &&& final(self).note_channels@ == old(self).note_channels@
                &&& final(self).poly_pressure@ == old(self).poly_pressure@
            },
            final(self).controls == old(self).controls,
    {
        if !sounding {
            NoteOnStep::Released(self.note_off(note))
        } else {
            NoteOnStep::Start(self.note_channels.channel_of(note))
        }
    }

    /// The engine started `note` on `channel`.
    pub fn note_started(&mut self, note: u8, channel: usize)
        ensures
            final(self).note_channels@ == old(self).note_channels@.insert(note, channel),
            final(self).poly_pressure@ == old(self).poly_pressure@,
            final(self).controls == old(self).controls,
    {
        self.note_channels.start(note, channel);
    }

    /// Operator 3 keyed off (CC105 below 64): every held note ends. Returns
    /// the channels of the held notes, in ascending note order, whose
    /// operator 3 is to be keyed off; their notes and poly pressures are
    /// forgotten.
    pub fn release_all_notes(&mut self) -> (released: Vec<usize>)
        ensures
            released@ == spec_channels_below(old(self).note_channels@, 256),
            final(self).note_channels@ == Map::<u8, usize>::empty(),
            final(self).poly_pressure@ == old(self).poly_pressure@.remove_keys(
                old(self).note_channels@.dom(),
            ),
            final(self).controls == old(self).controls,
    {
        let ghost notes0 = self.note_channels@;
        let ghost poly0 = self.poly_pressure@;
        let ghost controls0 = self.controls;
        let mut released: Vec<usize> = Vec::new();
        let mut n: u16 = 0;
        assert(self.note_channels@ =~= notes0.remove_keys(Set::new(|k: u8| (k as int) < 0)));
        assert(self.poly_pressure@ =~= poly0.remove_keys(notes0.dom().filter(|k: u8| (k as int) < 0)));
        while n < 256
            invariant
                n <= 256,
                self.controls == controls0,
                self.note_channels@ == notes0.remove_keys(Set::new(|k: u8| (k as int) < n)),
                self.poly_pressure@ == poly0.remove_keys(notes0.dom().filter(|k: u8| (k as int) < n)),
                released@ == spec_channels_below(notes0, n as int),
            decreases 256 - n,
        {
            let note = n as u8;
            assert(note as int == n as int);
            let held = self.note_channels.channel_of(note);
            let ghost before_notes = self.note_channels@;
            let ghost before_poly = self.poly_pressure@;
            match held {
                Some(ch) => {
                    self.note_off(note);
                    released.push(ch);
                    assert(self.poly_pressure@ =~= poly0.remove_keys(
                        notes0.dom().filter(|k: u8| (k as int) < n + 1),
                    ));
                },
                None => {
                    assert(self.poly_pressure@ =~= poly0.remove_keys(
                        notes0.dom().filter(|k: u8| (k as int) < n + 1),
                    ));
                },
            }
            assert(self.note_channels@ =~= notes0.remove_keys(Set::new(|k: u8| (k as int) < n + 1)));
            assert(released@ =~= spec_channels_below(notes0, n + 1));
            n = n + 1;
        }
        assert(self.note_channels@ =~= Map::<u8, usize>::empty());
        assert(notes0.dom().filter(|k: u8| (k as int) < 256) =~= notes0.dom());
        released
    }

    /// Program Change: the program's patch in the bank chosen by Bank Select.
    pub fn program_change(&mut self, presets: &PresetBank, program: u8)
        ensures
            final(self).controls == (Ym38x6Controls {
                program_patch: Some(
                    spec_patch_for_program(presets@, spec_selected_bank(old(self).controls), program),
                ),
                ..old(self).controls
            }),
            final(self).poly_pressure@ == old(self).poly_pressure@,
            final(self).note_channels@ == old(self).note_channels@,
    {
        let bank = bank_number(self.controls.bank_select_msb, self.controls.bank_select_lsb);
        self.controls.program_patch = Some(presets.patch_for_program(bank, program));
    }

    /// Takes in a block's host values and returns the settings they call for.
    pub fn sync_host(&mut self, host: &Ym38x6HostValues, presets: &PresetBank) -> (actions: Vec<ControlAction>)
        ensures
            final(self).controls == spec_ym_after_host(old(self).controls, *host, presets@),
            actions@ == spec_ym_host_actions(old(self).controls, *host),
            final(self).poly_pressure@ == old(self).poly_pressure@,
            final(self).note_channels@ == old(self).note_channels@,
    {
        let c = self.controls;
        let seen = c.seen;
        let algorithm = if host.algorithm != seen.algorithm {
            host.algorithm
        } else {
            c.algorithm
        };
        let program_patch = if host.program == seen.program {
            c.program_patch
        } else {
            match program_parameter(host.program) {
                None => None,
                Some(program) => {
                    let bank = bank_number(c.bank_select_msb, c.bank_select_lsb);
                    Some(presets.patch_for_program(bank, program))
                },
            }
        };
        let mut actions: Vec<ControlAction> = Vec::new();
        push_when(&mut actions, host.lfo_rate != seen.lfo_rate, ControlAction::RefreshLfo);
        push_when(&mut actions, host.lfo_depth != seen.lfo_depth, ControlAction::RefreshLfo);
        push_when(&mut actions, host.lfo_delay != seen.lfo_delay, ControlAction::RefreshLfo);
        push_when(
            &mut actions,
            host.reverb_send != seen.reverb_send,
            ControlAction::Effect(EffectSetting::ReverbSend(host.reverb_send)),
        );
        push_when(
            &mut actions,
            host.chorus_send != seen.chorus_send,
            ControlAction::Effect(EffectSetting::ChorusSend(host.chorus_send)),
        );
        push_master_actions(&mut actions, seen.master, host.master);
        self.controls = Ym38x6Controls {
            algorithm,
            program_patch,
            lfo_rate: if host.lfo_rate != seen.lfo_rate { host.lfo_rate } else { c.lfo_rate },
            lfo_depth: if host.lfo_depth != seen.lfo_depth { host.lfo_depth } else { c.lfo_depth },
            lfo_delay: if host.lfo_delay != seen.lfo_delay { host.lfo_delay } else { c.lfo_delay },
            seen: Ym38x6HostShadow {
                algorithm: host.algorithm,
                program: host.program,
                lfo_rate: host.lfo_rate,
                lfo_depth: host.lfo_depth,
                lfo_delay: host.lfo_delay,
                reverb_send: host.reverb_send,
                chorus_send: host.chorus_send,
                master: host.master,
            },
            ..c
        };
        assert(actions@ =~= spec_ym_host_actions(c, *host));
        actions
    }

    /// The patch a block plays.
    pub fn block_patch(&self, host: &Ym38x6HostValues) -> (p: Ym38x6Patch)
        ensures
            p == spec_block_patch(self.controls, *host),
    {
        match self.controls.program_patch {
            Some(p) => p,
            None => {
                let c = self.controls;
                let w = c.operator_waveforms;
                Ym38x6Patch {
                    operators: [
                        host_operator(host.operators[0], w[0]),
                        host_operator(host.operators[1], w[1]),
                        host_operator(host.operators[2], w[2]),
                        host_operator(host.operators[3], w[3]),
                    ],
                    channel: ChannelParams {
                        algorithm: c.algorithm,
                        feedback: host.feedback,
                        tone_lfo_freq: host.tone_lfo_freq,
                        tone_lfo_pmd: host.tone_lfo_pmd,
                        tone_lfo_amd: host.tone_lfo_amd,
                        tone_lfo_delay: host.tone_lfo_delay,
                        pms: host.pms,
                        ams: host.ams,
                        filter_cutoff: host.filter_cutoff,
                        filter_resonance: host.filter_resonance,
                        filter_type: c.filter_type,
                        filter_self_oscillation: c.filter_self_oscillation,
                        filter_eg_attack: host.filter_eg_attack,
                        filter_eg_decay: host.filter_eg_decay,
                        filter_eg_sustain: host.filter_eg_sustain,
                        filter_eg_release: host.filter_eg_release,
                        filter_eg_depth: host.filter_eg_depth,
                    },
                }
            },
        }
    }

    /// The patch held note `note` plays: `patch` with the channel pressure
    /// and the note's poly pressure added at their destinations.
    pub fn voice_patch(&self, patch: Ym38x6Patch, note: u8) -> (r: Ym38x6Patch)
        requires
            patch.channel.algorithm < 8 || pressure_for(
                AtDestination::TlCarriers,
                self.controls.at_destination,
                self.controls.poly_at_destination,
                self.controls.channel_pressure,
                poly_pressure_of(self.poly_pressure@, note),
            ) == 0,
        ensures
            r == spec_at_modulated(
                patch,
                self.controls.at_destination,
                self.controls.poly_at_destination,
                self.controls.channel_pressure,
                poly_pressure_of(self.poly_pressure@, note),
            ),
    {
        let mut p = patch;
        apply_at_modulation(
            note,
            self.controls.at_destination,
            self.controls.poly_at_destination,
            self.controls.channel_pressure,
            &self.poly_pressure,
            &mut p,
        );
        p
    }
}

/// Host parameter values of the WMS-1 plugin, read once per block.
#[derive(Clone, Copy, Debug, PartialEq, Eq, Structural)]
pub struct Wms1HostValues {
    /// Built-in wave: 0 sine, 1 square, 2 saw, 3 triangle.
    pub wave_slot: u8,
    pub attack: u8,
    pub decay: u8,
    pub sustain: u8,
    pub release: u8,
    pub master: MasterValues,
}

/// Host defaults: sine, envelope 200/150/180/100, default master values.
pub open spec fn spec_default_wms1_host() -> Wms1HostValues {
    Wms1HostValues {
        wave_slot: 0,
        attack: 200,
        decay: 150,
        sustain: 180,
        release: 100,
        master: spec_default_master(),
    }
}

impl Default for Wms1HostValues {
    fn default() -> (r: Self)
        ensures
            r == spec_default_wms1_host(),
    {
        Wms1HostValues {
            wave_slot: 0,
            attack: 200,
            decay: 150,
            sustain: 180,
            release: 100,
            master: MasterValues::default(),
        }
    }
}

impl Wms1HostValues {
    /// Envelope of the notes started in this block.
    pub fn adsr(&self) -> (r: AdsrParams)
        ensures
            r == (AdsrParams {
                attack: self.attack,
                decay: self.decay,
                sustain: self.sustain,
                release: self.release,
            }),
    {
        AdsrParams { attack: self.attack, decay: self.decay, sustain: self.sustain, release: self.release }
    }
}

/// Everything the WMS-1 front end decides with.
#[derive(Clone, Copy, Debug)]
pub struct Wms1Controls {
    pub rpn: RpnRegisters,
    /// CC1, added to the LFO depth.
    pub mod_wheel: u8,
    /// CC76.
    pub lfo_rate: u8,
    /// CC77, the base LFO depth.
    pub lfo_depth: u8,
    /// CC78.
    pub lfo_delay: u8,
    /// RPN (0,5), 0..=127.
    pub mod_depth_range: u8,
    pub lfo_destination: LfoDestination,
    pub lfo_waveform: LfoWaveform,
    /// Master values the host had last.
    pub seen_master: MasterValues,
}

/// The WMS-1 controls of a fresh instance, and after a reset.
pub open spec fn spec_wms1_initial() -> Wms1Controls {
    Wms1Controls {
        rpn: spec_rpn_initial(),
        mod_wheel: 0,
        lfo_rate: 0,
        lfo_depth: 0,
        lfo_delay: 0,
        mod_depth_range: 64,
        lfo_destination: LfoDestination::Pitch,
        lfo_waveform: LfoWaveform::Triangle,
        seen_master: spec_default_master(),
    }
}

/// How a WMS-1 Data Entry decision changes the controls and what it asks
/// of the loop.
pub open spec fn spec_wms1_data_entry(c: Wms1Controls, d: DataEntryAction) -> (Wms1Controls, ControlAction) {
    match d {
        DataEntryAction::ModDepthRange(v) => (Wms1Controls { mod_depth_range: v, ..c }, ControlAction::RefreshLfo),
        DataEntryAction::Wms1LfoDestination(x) => (Wms1Controls { lfo_destination: x, ..c }, ControlAction::RefreshLfo),
        DataEntryAction::LfoWaveform(w) => (Wms1Controls { lfo_waveform: w, ..c }, ControlAction::RefreshLfo),
        _ => (
            c,
            match spec_entry_effect(d) {
                Some(e) => ControlAction::Effect(e),
                None => ControlAction::Nothing,
            },
        ),
    }
}

/// The WMS-1 rule for a Control Change `cc` whose value reads `value7` on
/// the 7-bit and `value8` on the 8-bit scale.
pub open spec fn spec_wms1_cc(c: Wms1Controls, cc: u8, value7: u8, value8: u8) -> (Wms1Controls, ControlAction) {
    if cc == 1 {
        (Wms1Controls { mod_wheel: value8, ..c }, ControlAction::RefreshLfo)
    } else if cc == 76 {
        (Wms1Controls { lfo_rate: value8, ..c }, ControlAction::RefreshLfo)
    } else if cc == 77 {
        (Wms1Controls { lfo_depth: value8, ..c }, ControlAction::RefreshLfo)
    } else if cc == 78 {
        (Wms1Controls { lfo_delay: value8, ..c }, ControlAction::RefreshLfo)
    } else if 98 <= cc <= 101 {
        (Wms1Controls { rpn: spec_rpn_after(c.rpn, cc, value7), ..c }, ControlAction::Nothing)
    } else if cc == 6 {
        spec_wms1_data_entry(c, spec_wms1_data_entry_action(c.rpn.selection, value7, value8))
    } else if cc == 91 {
        (c, ControlAction::Effect(EffectSetting::ReverbSend(value8)))
    } else if cc == 93 {
        (c, ControlAction::Effect(EffectSetting::ChorusSend(value8)))
    } else {
        (c, ControlAction::Nothing)
    }
}

fn wms1_data_entry(c: Wms1Controls, d: DataEntryAction) -> (r: (Wms1Controls, ControlAction))
    ensures
        r == spec_wms1_data_entry(c, d),
{
    match d {
        DataEntryAction::ModDepthRange(v) => (Wms1Controls { mod_depth_range: v, ..c }, ControlAction::RefreshLfo),
        DataEntryAction::Wms1LfoDestination(x) => (Wms1Controls { lfo_destination: x, ..c }, ControlAction::RefreshLfo),
        DataEntryAction::LfoWaveform(w) => (Wms1Controls { lfo_waveform: w, ..c }, ControlAction::RefreshLfo),
        _ => (
            c,
            match entry_effect(d) {
                Some(e) => ControlAction::Effect(e),
                None => ControlAction::Nothing,
            },
        ),
    }
}

impl Wms1Controls {
    pub fn new() -> (r: Self)
        ensures
            r == spec_wms1_initial(),
    {
        Wms1Controls {
            rpn: RpnRegisters::new(),
            mod_wheel: 0,
            lfo_rate: 0,
            lfo_depth: 0,
            lfo_delay: 0,
            mod_depth_range: 64,
            lfo_destination: LfoDestination::Pitch,
            lfo_waveform: LfoWaveform::Triangle,
            seen_master: MasterValues::default(),
        }
    }

    /// Host reset: everything back to the fresh state.
    pub fn reset(&mut self)
        ensures
            *final(self) == spec_wms1_initial(),
    {
        *self = Wms1Controls::new();
    }

    /// Handles Control Change `cc`; `value7` and `value8` are its value on
    /// the 7-bit and 8-bit scales.
    pub fn control_change(&mut self, cc: u8, value7: u8, value8: u8) -> (a: ControlAction)
        ensures
            (*final(self), a) == spec_wms1_cc(*old(self), cc, value7, value8),
    {
        let c = *self;
        let (next, a) = if cc == 1 {
            (Wms1Controls { mod_wheel: value8, ..c }, ControlAction::RefreshLfo)
        } else if cc == 76 {
            (Wms1Controls { lfo_rate: value8, ..c }, ControlAction::RefreshLfo)
        } else if cc == 77 {
            (Wms1Controls { lfo_depth: value8, ..c }, ControlAction::RefreshLfo)
        } else if cc == 78 {
            (Wms1Controls { lfo_delay: value8, ..c }, ControlAction::RefreshLfo)
        } else if 98 <= cc && cc <= 101 {
            let mut rpn = c.rpn;
            rpn.receive(cc, value7);
            (Wms1Controls { rpn, ..c }, ControlAction::Nothing)
        } else if cc == 6 {
            wms1_data_entry(c, wms1_data_entry_action(c.rpn.selection, value7, value8))
        } else if cc == 91 {
            (c, ControlAction::Effect(EffectSetting::ReverbSend(value8)))
        } else if cc == 93 {
            (c, ControlAction::Effect(EffectSetting::ChorusSend(value8)))
        } else {
            (c, ControlAction::Nothing)
        };
        *self = next;
        a
    }

    /// Takes in a block's host values and returns the master settings that
    /// moved.
    pub fn sync_host(&mut self, host: &Wms1HostValues) -> (actions: Vec<ControlAction>)
        ensures
            *final(self) == (Wms1Controls { seen_master: host.master, ..*old(self) }),
            actions@ == spec_master_actions(old(self).seen_master, host.master),
    {
        let mut actions: Vec<ControlAction> = Vec::new();
        push_master_actions(&mut actions, self.seen_master, host.master);
        assert(actions@ =~= spec_master_actions(self.seen_master, host.master));
        self.seen_master = host.master;
        actions
    }
}

/// Control Changes never touch the host values last seen.
pub proof fn lemma_cc_keeps_seen(c: Ym38x6Controls, cc: u8, value7: u8, value8: u8)
    ensures
        spec_ym_cc(c, cc, value7, value8).0.seen == c.seen,
{
}

/// A setting made by MIDI between two blocks whose host values did not
/// move stays in force: the second block changes nothing and asks for
/// nothing.
pub proof fn lemma_ym_midi_setting_survives_host(
    c: Ym38x6Controls,
    h: Ym38x6HostValues,
    presets: Map<(u16, u8), Preset>,
    cc: u8,
    value7: u8,
    value8: u8,
)
    ensures
        ({
            let c1 = spec_ym_after_host(c, h, presets);
            let c2 = spec_ym_cc(c1, cc, value7, value8).0;
            &&& spec_ym_after_host(c2, h, presets) == c2
            &&& spec_ym_host_actions(c2, h) == Seq::<ControlAction>::empty()
        }),
{
    let c1 = spec_ym_after_host(c, h, presets);
    let c2 = spec_ym_cc(c1, cc, value7, value8).0;
    lemma_cc_keeps_seen(c1, cc, value7, value8);
    assert(spec_ym_host_actions(c2, h) =~= Seq::<ControlAction>::empty());
}

/// With no parameter selected (after the Null number 127/127, say), Data
/// Entry only records its value and asks for nothing.
pub proof fn lemma_ym_data_entry_unselected(c: Ym38x6Controls, value7: u8, value8: u8)
    requires
        c.rpn.selection == RpnSelection::Unselected,
    ensures
        spec_ym_cc(c, 6, value7, value8) == (Ym38x6Controls { data_entry_msb: value7, ..c }, ControlAction::Nothing),
{
}

/// Receiving the Null number (127, 127) as NRPN clears the selection,
/// whichever register came first.
pub proof fn lemma_null_number_deselects(r: RpnRegisters)
    ensures
        spec_rpn_after(spec_rpn_after(r, 99, 127), 98, 127).selection == RpnSelection::Unselected,
        spec_rpn_after(spec_rpn_after(r, 98, 127), 99, 127).selection == RpnSelection::Unselected,
        spec_rpn_after(spec_rpn_after(r, 101, 127), 100, 127).selection == RpnSelection::Unselected,
        spec_rpn_after(spec_rpn_after(r, 100, 127), 101, 127).selection == RpnSelection::Unselected,
{
}

/// On the WMS-1 too, a MIDI setting made between two blocks whose master
/// values did not move stays in force.
pub proof fn lemma_wms1_midi_setting_survives_host(
    c: Wms1Controls,
    h: MasterValues,
    cc: u8,
    value7: u8,
    value8: u8,
)
    ensures
        ({
            let c1 = Wms1Controls { seen_master: h, ..c };
            let c2 = spec_wms1_cc(c1, cc, value7, value8).0;
            &&& c2.seen_master == h
            &&& spec_master_actions(c2.seen_master, h) == Seq::<ControlAction>::empty()
        }),
{
    let c1 = Wms1Controls { seen_master: h, ..c };
    let c2 = spec_wms1_cc(c1, cc, value7, value8).0;
    assert(spec_master_actions(c2.seen_master, h) =~= Seq::<ControlAction>::empty());
}

/// With no program chosen, a block plays the host's manual patch: each
/// channel and operator setting is the host parameter of the same name,
/// except the NRPN-only ones (algorithm, filter type, self-oscillation and
/// operator waveforms), which come from the controls; fine tune is centred.
pub proof fn lemma_manual_patch_follows_host(c: Ym38x6Controls, h: Ym38x6HostValues, i: int)
    requires
        c.program_patch is None,
        0 <= i < 4,
    ensures
        ({
            let p = spec_block_patch(c, h);
            let ch = p.channel;
            let o = p.operators[i];
            let ho = h.operators[i];
            &&& ch.algorithm == c.algorithm
            &&& ch.feedback == h.feedback
            &&& ch.tone_lfo_freq == h.tone_lfo_freq
            &&& ch.tone_lfo_pmd == h.tone_lfo_pmd
            &&& ch.tone_lfo_amd == h.tone_lfo_amd
            &&& ch.tone_lfo_delay == h.tone_lfo_delay
            &&& ch.pms == h.pms
            &&& ch.ams == h.ams
            &&& ch.filter_cutoff == h.filter_cutoff
            &&& ch.filter_resonance == h.filter_resonance
            &&& ch.filter_type == c.filter_type
            &&& ch.filter_self_oscillation == c.filter_self_oscillation
            &&& ch.filter_eg_attack == h.filter_eg_attack
            &&& ch.filter_eg_decay == h.filter_eg_decay
            &&& ch.filter_eg_sustain == h.filter_eg_sustain
            &&& ch.filter_eg_release == h.filter_eg_release
            &&& ch.filter_eg_depth == h.filter_eg_depth
            &&& o.tl == ho.tl
            &&& o.ar == ho.ar
            &&& o.d1r == ho.d1r
            &&& o.d2r == ho.d2r
            &&& o.d1l == ho.d1l
            &&& o.rr == ho.rr
            &&& o.mul == ho.mul
            &&& o.dt1 == ho.dt1
            &&& o.ksr == ho.ksr
            &&& o.am_enable == ho.am_enable
            &&& o.velocity_sensitivity == ho.velocity_sensitivity
            &&& o.waveform == c.operator_waveforms[i]
            &&& o.op_fine_tune == 128
        }),
{
}

/// With a program chosen, a block plays that program's patch whatever the
/// host parameters.
pub proof fn lemma_program_patch_wins(c: Ym38x6Controls, h: Ym38x6HostValues)
    requires
        c.program_patch is Some,
    ensures
        spec_block_patch(c, h) == c.program_patch.unwrap(),
{
}

/// The 38x6 Control Change table: CC1 (mod wheel), CC76 (LFO rate), CC77
/// (LFO depth) and CC78 (LFO delay) take the 8-bit value and refresh the
/// LFO; CC0/CC32 (Bank Select MSB/LSB) take the 7-bit value; CC91/CC93 set
/// the reverb/chorus send; every other control stays as it was.
pub proof fn lemma_ym_cc_table(c: Ym38x6Controls, value7: u8, value8: u8)
    ensures
        spec_ym_cc(c, 1, value7, value8) == (Ym38x6Controls { mod_wheel: value8, ..c }, ControlAction::RefreshLfo),
        spec_ym_cc(c, 76, value7, value8) == (Ym38x6Controls { lfo_rate: value8, ..c }, ControlAction::RefreshLfo),
        spec_ym_cc(c, 77, value7, value8) == (Ym38x6Controls { lfo_depth: value8, ..c }, ControlAction::RefreshLfo),
        spec_ym_cc(c, 78, value7, value8) == (Ym38x6Controls { lfo_delay: value8, ..c }, ControlAction::RefreshLfo),
        spec_ym_cc(c, 0, value7, value8) == (Ym38x6Controls { bank_select_msb: value7, ..c }, ControlAction::Nothing),
        spec_ym_cc(c, 32, value7, value8) == (Ym38x6Controls { bank_select_lsb: value7, ..c }, ControlAction::Nothing),
        spec_ym_cc(c, 91, value7, value8) == (c, ControlAction::Effect(EffectSetting::ReverbSend(value8))),
        spec_ym_cc(c, 93, value7, value8) == (c, ControlAction::Effect(EffectSetting::ChorusSend(value8))),
{
}

/// Data Entry on the 38x6 reaches the selected parameter: the master
/// effects get the level or type named by the NRPN, and the patch settings
/// land in their own control, all else unchanged (but the Data Entry
/// register itself).
pub proof fn lemma_ym_data_entry_targets(c: Ym38x6Controls, value7: u8, value8: u8, k: usize)
    requires
        k < 4,
    ensures
        ({
            let d = Ym38x6Controls { data_entry_msb: value7, ..c };
            let at = |msb: u8, lsb: u8| spec_ym_cc(Ym38x6Controls { rpn: RpnRegisters { selection: RpnSelection::Nrpn(msb, lsb), ..c.rpn }, ..c }, 6, value7, value8);
            let d_at = |msb: u8, lsb: u8| Ym38x6Controls { data_entry_msb: value7, rpn: RpnRegisters { selection: RpnSelection::Nrpn(msb, lsb), ..c.rpn }, ..c };
            &&& at(0, 4) == (d_at(0, 4), ControlAction::Effect(EffectSetting::ReverbTime(value8)))
            &&& at(0, 5) == (d_at(0, 5), ControlAction::Effect(EffectSetting::ChorusModRate(value8)))
            &&& at(0, 6) == (d_at(0, 6), ControlAction::Effect(EffectSetting::ChorusModDepth(value8)))
            &&& at(0, 7) == (d_at(0, 7), ControlAction::Effect(EffectSetting::ChorusFeedback(value8)))
            &&& at(0, 8) == (d_at(0, 8), ControlAction::Effect(EffectSetting::ChorusSendToReverb(value8)))
            &&& at(0, 9).0 == Ym38x6Controls { algorithm: if value7 <= 7 { value7 } else { 7 }, ..d_at(0, 9) }
            &&& at(0, 14).0 == Ym38x6Controls { filter_type: if value7 <= 2 { value7 } else { 2 }, ..d_at(0, 14) }
            &&& at(0, 15).0 == Ym38x6Controls { filter_self_oscillation: value7 != 0, ..d_at(0, 15) }
            &&& at(0, (10 + k) as u8).0.operator_waveforms[k as int] == value8
            &&& forall|j: int| 0 <= j < 4 && j != k ==> #[trigger] at(0, (10 + k) as u8).0.operator_waveforms[j]
                == c.operator_waveforms[j]
        }),
{
}

/// The WMS-1 Control Change table: CC1 (mod wheel), CC76 (LFO rate), CC77
/// (LFO depth) and CC78 (LFO delay) take the 8-bit value and refresh the
/// LFO; CC91/CC93 set the sends; Bank Select has no meaning here; every
/// other control stays as it was.
pub proof fn lemma_wms1_cc_table(c: Wms1Controls, value7: u8, value8: u8)
    ensures
        spec_wms1_cc(c, 1, value7, value8) == (Wms1Controls { mod_wheel: value8, ..c }, ControlAction::RefreshLfo),
        spec_wms1_cc(c, 76, value7, value8) == (Wms1Controls { lfo_rate: value8, ..c }, ControlAction::RefreshLfo),
        spec_wms1_cc(c, 77, value7, value8) == (Wms1Controls { lfo_depth: value8, ..c }, ControlAction::RefreshLfo),
        spec_wms1_cc(c, 78, value7, value8) == (Wms1Controls { lfo_delay: value8, ..c }, ControlAction::RefreshLfo),
        spec_wms1_cc(c, 91, value7, value8) == (c, ControlAction::Effect(EffectSetting::ReverbSend(value8))),
        spec_wms1_cc(c, 93, value7, value8) == (c, ControlAction::Effect(EffectSetting::ChorusSend(value8))),
        spec_wms1_cc(c, 0, value7, value8) == (c, ControlAction::Nothing),
        spec_wms1_cc(c, 32, value7, value8) == (c, ControlAction::Nothing),
{
}

/// Data Entry on the 38x6, continued: the LFO destination and waveform, the
/// aftertouch destinations and the modulation depth range land in their own
/// control and the LFO is refreshed where it depends on them; an F-Number
/// NRPN sets its operator's F-Number from the Data Entry pair (clamped to
/// 13 bits) and sends it.
pub proof fn lemma_ym_data_entry_more_targets(c: Ym38x6Controls, value7: u8, value8: u8, k: usize)
    requires
        k < 4,
    ensures
        ({
            let at = |msb: u8, lsb: u8| spec_ym_cc(Ym38x6Controls { rpn: RpnRegisters { selection: RpnSelection::Nrpn(msb, lsb), ..c.rpn }, ..c }, 6, value7, value8);
            let d_at = |msb: u8, lsb: u8| Ym38x6Controls { data_entry_msb: value7, rpn: RpnRegisters { selection: RpnSelection::Nrpn(msb, lsb), ..c.rpn }, ..c };
            let f = if value7 * 128 + c.data_entry_lsb > 8191 { 8191 } else { value7 * 128 + c.data_entry_lsb };
            let rpn05 = spec_ym_cc(Ym38x6Controls { rpn: RpnRegisters { selection: RpnSelection::Rpn(0, 5), ..c.rpn }, ..c }, 6, value7, value8);
            &&& at(0, 0).1 == ControlAction::RefreshLfo
            &&& (value7 == 1 ==> at(0, 0).0 == Ym38x6Controls { lfo_destination: Ym38x6LfoDestination::Volume, ..d_at(0, 0) })
            &&& at(0, 1).1 == ControlAction::RefreshLfo
            &&& (value7 == 2 ==> at(0, 1).0 == Ym38x6Controls { lfo_waveform: LfoWaveform::Square, ..d_at(0, 1) })
            &&& (value7 == 2 ==> at(0, 16).0 == Ym38x6Controls { at_destination: AtDestination::FilterCutoff, ..d_at(0, 16) })
            &&& (value7 == 3 ==> at(0, 17).0 == Ym38x6Controls { poly_at_destination: AtDestination::FilterResonance, ..d_at(0, 17) })
            &&& rpn05.0.mod_depth_range == value7 && rpn05.1 == ControlAction::RefreshLfo
            &&& at(0, (18 + k) as u8).1 == ControlAction::OperatorFNumber(k, f as u16)
            &&& at(0, (18 + k) as u8).0.operator_f_numbers[k as int] == f
            &&& forall|j: int| 0 <= j < 4 && j != k ==> #[trigger] at(0, (18 + k) as u8).0.operator_f_numbers[j]
                == c.operator_f_numbers[j]
        }),
{
}

/// The number registers: CC99/CC98 set the NRPN MSB/LSB and CC101/CC100
/// the RPN MSB/LSB; the selection becomes the pair of the kind just
/// written, unless that pair is the Null number (127, 127).
pub proof fn lemma_rpn_registers(r: RpnRegisters, v: u8)
    ensures
        spec_rpn_after(r, 99, v).nrpn_msb == v && spec_rpn_after(r, 99, v).nrpn_lsb == r.nrpn_lsb,
        spec_rpn_after(r, 98, v).nrpn_lsb == v && spec_rpn_after(r, 98, v).nrpn_msb == r.nrpn_msb,
        spec_rpn_after(r, 101, v).rpn_msb == v && spec_rpn_after(r, 101, v).rpn_lsb == r.rpn_lsb,
        spec_rpn_after(r, 100, v).rpn_lsb == v && spec_rpn_after(r, 100, v).rpn_msb == r.rpn_msb,
        spec_rpn_after(r, 99, v).rpn_msb == r.rpn_msb && spec_rpn_after(r, 99, v).rpn_lsb == r.rpn_lsb,
        spec_rpn_after(r, 101, v).nrpn_msb == r.nrpn_msb && spec_rpn_after(r, 101, v).nrpn_lsb == r.nrpn_lsb,
        !(v == 127 && r.nrpn_lsb == 127) ==> spec_rpn_after(r, 99, v).selection == RpnSelection::Nrpn(v, r.nrpn_lsb),
        !(r.nrpn_msb == 127 && v == 127) ==> spec_rpn_after(r, 98, v).selection == RpnSelection::Nrpn(r.nrpn_msb, v),
        !(v == 127 && r.rpn_lsb == 127) ==> spec_rpn_after(r, 101, v).selection == RpnSelection::Rpn(v, r.rpn_lsb),
        !(r.rpn_msb == 127 && v == 127) ==> spec_rpn_after(r, 100, v).selection == RpnSelection::Rpn(r.rpn_msb, v),
{
}

/// Each master setting owed by the host is the moved parameter with its new
/// value: when only one parameter moved, exactly its setting is owed; when
/// none moved, nothing is.
pub proof fn lemma_master_actions(last: MasterValues, v: u8)
    ensures
        last.reverb_time != v ==> spec_master_actions(last, MasterValues { reverb_time: v, ..last })
            == seq![ControlAction::Effect(EffectSetting::ReverbTime(v))],
        last.chorus_mod_rate != v ==> spec_master_actions(last, MasterValues { chorus_mod_rate: v, ..last })
            == seq![ControlAction::Effect(EffectSetting::ChorusModRate(v))],
        last.chorus_mod_depth != v ==> spec_master_actions(last, MasterValues { chorus_mod_depth: v, ..last })
            == seq![ControlAction::Effect(EffectSetting::ChorusModDepth(v))],
        last.chorus_feedback != v ==> spec_master_actions(last, MasterValues { chorus_feedback: v, ..last })
            == seq![ControlAction::Effect(EffectSetting::ChorusFeedback(v))],
        last.chorus_send_to_reverb != v ==> spec_master_actions(
            last,
            MasterValues { chorus_send_to_reverb: v, ..last },
        ) == seq![ControlAction::Effect(EffectSetting::ChorusSendToReverb(v))],
        spec_master_actions(last, last) == Seq::<ControlAction>::empty(),
{
    assert(spec_master_actions(last, last) =~= Seq::<ControlAction>::empty());
    assert(last.reverb_time != v ==> spec_master_actions(last, MasterValues { reverb_time: v, ..last })
        =~= seq![ControlAction::Effect(EffectSetting::ReverbTime(v))]);
    assert(last.chorus_mod_rate != v ==> spec_master_actions(last, MasterValues { chorus_mod_rate: v, ..last })
        =~= seq![ControlAction::Effect(EffectSetting::ChorusModRate(v))]);
    assert(last.chorus_mod_depth != v ==> spec_master_actions(last, MasterValues { chorus_mod_depth: v, ..last })
        =~= seq![ControlAction::Effect(EffectSetting::ChorusModDepth(v))]);
    assert(last.chorus_feedback != v ==> spec_master_actions(last, MasterValues { chorus_feedback: v, ..last })
        =~= seq![ControlAction::Effect(EffectSetting::ChorusFeedback(v))]);
    assert(last.chorus_send_to_reverb != v ==> spec_master_actions(
        last,
        MasterValues { chorus_send_to_reverb: v, ..last },
    ) =~= seq![ControlAction::Effect(EffectSetting::ChorusSendToReverb(v))]);
}

/// A host value that moved takes over its own control: the algorithm, the
/// LFO rate, depth and delay each follow the host parameter of the same
/// name; a program parameter n > 0 chooses program n - 1 of the selected
/// bank and 0 goes back to the manual patch; the sends move only with their
/// own parameter.
pub proof fn lemma_ym_host_targets(c: Ym38x6Controls, h: Ym38x6HostValues, presets: Map<(u16, u8), Preset>)
    ensures
        ({
            let n = spec_ym_after_host(c, h, presets);
            let acts = spec_ym_host_actions(c, h);
            &&& h.algorithm != c.seen.algorithm ==> n.algorithm == h.algorithm
            &&& h.lfo_rate != c.seen.lfo_rate ==> n.lfo_rate == h.lfo_rate
            &&& h.lfo_depth != c.seen.lfo_depth ==> n.lfo_depth == h.lfo_depth
            &&& h.lfo_delay != c.seen.lfo_delay ==> n.lfo_delay == h.lfo_delay
            &&& (h.program != c.seen.program && h.program > 0) ==> n.program_patch == Some(
                spec_patch_for_program(
                    presets,
                    (c.bank_select_msb * 128 + c.bank_select_lsb) as u16,
                    (h.program - 1) as u8,
                ),
            )
            &&& (h.program != c.seen.program && h.program == 0) ==> n.program_patch is None
            &&& n.mod_wheel == c.mod_wheel && n.filter_type == c.filter_type
            &&& n.operator_waveforms == c.operator_waveforms
            &&& (h.lfo_rate == c.seen.lfo_rate && h.lfo_depth == c.seen.lfo_depth && h.lfo_delay
                == c.seen.lfo_delay && h.chorus_send == c.seen.chorus_send && h.master == c.seen.master
                && h.reverb_send != c.seen.reverb_send) ==> acts == seq![
                ControlAction::Effect(EffectSetting::ReverbSend(h.reverb_send)),
            ]
            &&& (h.lfo_rate == c.seen.lfo_rate && h.lfo_depth == c.seen.lfo_depth && h.lfo_delay
                == c.seen.lfo_delay && h.reverb_send == c.seen.reverb_send && h.master == c.seen.master
                && h.chorus_send != c.seen.chorus_send) ==> acts == seq![
                ControlAction::Effect(EffectSetting::ChorusSend(h.chorus_send)),
            ]
        }),
{
    let acts = spec_ym_host_actions(c, h);
    if h.lfo_rate == c.seen.lfo_rate && h.lfo_depth == c.seen.lfo_depth && h.lfo_delay == c.seen.lfo_delay
        && h.master == c.seen.master {
        assert(spec_master_actions(c.seen.master, h.master) =~= Seq::<ControlAction>::empty());
        if h.chorus_send == c.seen.chorus_send && h.reverb_send != c.seen.reverb_send {
            assert(acts =~= seq![ControlAction::Effect(EffectSetting::ReverbSend(h.reverb_send))]);
        }
        if h.reverb_send == c.seen.reverb_send && h.chorus_send != c.seen.chorus_send {
            assert(acts =~= seq![ControlAction::Effect(EffectSetting::ChorusSend(h.chorus_send))]);
        }
    }
}

/// Data Entry on the WMS-1 reaches the selected parameter: NRPN (0,0) the
/// LFO destination, (0,1) the LFO waveform, RPN (0,5) the depth range (each
/// refreshing the LFO), NRPN (0,2)..(0,8) the master effects; the patch
/// NRPNs of the 38x6 do nothing here.
pub proof fn lemma_wms1_data_entry_targets(c: Wms1Controls, value7: u8, value8: u8)
    ensures
        ({
            let at = |sel: RpnSelection| spec_wms1_cc(Wms1Controls { rpn: RpnRegisters { selection: sel, ..c.rpn }, ..c }, 6, value7, value8);
            let c_at = |sel: RpnSelection| Wms1Controls { rpn: RpnRegisters { selection: sel, ..c.rpn }, ..c };
            &&& at(RpnSelection::Nrpn(0, 0)) == (Wms1Controls {
                lfo_destination: if value7 == 0 { LfoDestination::Pitch } else { LfoDestination::Volume },
                ..c_at(RpnSelection::Nrpn(0, 0))
            }, ControlAction::RefreshLfo)
            &&& at(RpnSelection::Rpn(0, 5)) == (Wms1Controls { mod_depth_range: value7, ..c_at(RpnSelection::Rpn(0, 5)) }, ControlAction::RefreshLfo)
            &&& (value7 == 1 ==> at(RpnSelection::Nrpn(0, 1)) == (Wms1Controls { lfo_waveform: LfoWaveform::Sine, ..c_at(RpnSelection::Nrpn(0, 1)) }, ControlAction::RefreshLfo))
            &&& at(RpnSelection::Nrpn(0, 4)) == (c_at(RpnSelection::Nrpn(0, 4)), ControlAction::Effect(EffectSetting::ReverbTime(value8)))
            &&& at(RpnSelection::Nrpn(0, 5)) == (c_at(RpnSelection::Nrpn(0, 5)), ControlAction::Effect(EffectSetting::ChorusModRate(value8)))
            &&& at(RpnSelection::Nrpn(0, 6)) == (c_at(RpnSelection::Nrpn(0, 6)), ControlAction::Effect(EffectSetting::ChorusModDepth(value8)))
            &&& at(RpnSelection::Nrpn(0, 7)) == (c_at(RpnSelection::Nrpn(0, 7)), ControlAction::Effect(EffectSetting::ChorusFeedback(value8)))
            &&& at(RpnSelection::Nrpn(0, 8)) == (c_at(RpnSelection::Nrpn(0, 8)), ControlAction::Effect(EffectSetting::ChorusSendToReverb(value8)))
            &&& at(RpnSelection::Nrpn(0, 9)) == (c_at(RpnSelection::Nrpn(0, 9)), ControlAction::Nothing)
        }),
{
}

} // verus!
