//! MIDI controller rules of the plugin front ends: RPN/NRPN selection and
//! Data Entry, aftertouch destinations, Bank Select, operator F-Number
//! override and per-operator key on/off. Controller values arrive here
//! already converted to integers (`value7` in 0..=127, `value8` in 0..=255).

use vstd::prelude::*;
use std::collections::HashMap;
use crate::algorithm::{algorithm_def, spec_carriers};
use crate::effects::{ChorusType, ReverbType, spec_chorus_type, spec_reverb_type};
use crate::params::{
    ChannelParams, LfoDestination, LfoWaveform, OperatorParams, Ym38x6LfoDestination, Ym38x6Patch,
};

verus! {

broadcast use vstd::std_specs::hash::group_hash_axioms;

/// Destination that Channel Pressure or Poly Key Pressure is added to
/// (NRPN (0,16) / (0,17)).
#[derive(Clone, Copy, Debug, PartialEq, Eq, Structural)]
pub enum AtDestination {
    LfoPmd,
    LfoAmd,
    FilterCutoff,
    FilterResonance,
    TlAllOps,
    TlCarriers,
}

impl Default for AtDestination {
    fn default() -> (r: Self)
        ensures
            r == AtDestination::LfoPmd,
    {
        AtDestination::LfoPmd
    }
}

/// Destination numbered `value`; 5 and above give the carriers' TL.
pub open spec fn spec_at_destination(value: u8) -> AtDestination {
    if value == 0 {
        AtDestination::LfoPmd
    } else if value == 1 {
        AtDestination::LfoAmd
    } else if value == 2 {
        AtDestination::FilterCutoff
    } else if value == 3 {
        AtDestination::FilterResonance
    } else if value == 4 {
        AtDestination::TlAllOps
    } else {
        AtDestination::TlCarriers
    }
}

impl AtDestination {
    /// From the NRPN value (0..=5); larger values clamp to the carriers' TL.
    pub fn from_u8(value: u8) -> (r: Self)
        ensures
            r == spec_at_destination(value),
    {
        match value {
            0 => AtDestination::LfoPmd,
            1 => AtDestination::LfoAmd,
            2 => AtDestination::FilterCutoff,
            3 => AtDestination::FilterResonance,
            4 => AtDestination::TlAllOps,
            _ => AtDestination::TlCarriers,
        }
    }
}

/// `min(255, base + pressure)`.
pub open spec fn add_clamped(base: int, pressure: int) -> u8 {
    if base + pressure > 255 {
        255
    } else {
        (base + pressure) as u8
    }
}

/// Total pressure aimed at `d`: the channel pressure if the aftertouch
/// destination is `d`, plus the note's poly pressure if the poly destination
/// is `d`, clamped to 255.
pub open spec fn pressure_for(
    d: AtDestination,
    at_destination: AtDestination,
    poly_at_destination: AtDestination,
    channel_pressure: u8,
    poly_pressure: u8,
) -> u8 {
    add_clamped(
        if at_destination == d {
            channel_pressure as int
        } else {
            0
        },
        if poly_at_destination == d {
            poly_pressure as int
        } else {
            0
        },
    )
}

/// Poly pressure recorded for `note`, 0 when none is.
pub open spec fn poly_pressure_of(poly: Map<u8, u8>, note: u8) -> u8 {
    if poly.contains_key(note) {
        poly[note]
    } else {
        0
    }
}

/// Operator after the TL pressures: every operator gets `all`, a carrier
/// also gets `carrier`, each addition clamped to 255.
pub open spec fn spec_at_operator(op: OperatorParams, all: u8, carrier: u8, is_carrier: bool) -> OperatorParams {
    let t = add_clamped(op.tl as int, all as int);
    OperatorParams {
        tl: if is_carrier {
            add_clamped(t as int, carrier as int)
        } else {
            t
        },
        ..op
    }
}

/// The patch a held note plays with aftertouch applied:
/// `effective = clamp(base + pressure, 0, 255)` for each destination.
pub open spec fn spec_at_modulated(
    p: Ym38x6Patch,
    at_destination: AtDestination,
    poly_at_destination: AtDestination,
    channel_pressure: u8,
    poly_pressure: u8,
) -> Ym38x6Patch {
    let pr = |d: AtDestination|
        pressure_for(d, at_destination, poly_at_destination, channel_pressure, poly_pressure);
    let carriers = spec_carriers(p.channel.algorithm as int);
    let all = pr(AtDestination::TlAllOps);
    let car = pr(AtDestination::TlCarriers);
    Ym38x6Patch {
        operators: [
            spec_at_operator(p.operators[0], all, car, carriers.contains(0usize)),
            spec_at_operator(p.operators[1], all, car, carriers.contains(1usize)),
            spec_at_operator(p.operators[2], all, car, carriers.contains(2usize)),
            spec_at_operator(p.operators[3], all, car, carriers.contains(3usize)),
        ],
        channel: {
            let c = p.channel;
            let c = crate::params::ChannelParams {
                tone_lfo_pmd: add_clamped(c.tone_lfo_pmd as int, pr(AtDestination::LfoPmd) as int),
                tone_lfo_amd: add_clamped(c.tone_lfo_amd as int, pr(AtDestination::LfoAmd) as int),
                filter_cutoff: add_clamped(
                    c.filter_cutoff as int,
                    pr(AtDestination::FilterCutoff) as int,
                ),
                filter_resonance: add_clamped(
                    c.filter_resonance as int,
                    pr(AtDestination::FilterResonance) as int,
                ),
                ..c
            };
            c
        },
    }
}

fn add_pressure(base: u8, pressure: u8) -> (r: u8)
    ensures
        r == add_clamped(base as int, pressure as int),
{
    let s: u16 = base as u16 + pressure as u16;
    if s > 255 {
        255
    } else {
        s as u8
    }
}

fn pressure_toward(
    d: AtDestination,
    at_destination: AtDestination,
    poly_at_destination: AtDestination,
    channel_pressure: u8,
    poly_pressure: u8,
) -> (r: u8)
    ensures
        r == pressure_for(d, at_destination, poly_at_destination, channel_pressure, poly_pressure),
{
    let a: u8 = if at_destination == d {
        channel_pressure
    } else {
        0
    };
    let b: u8 = if poly_at_destination == d {
        poly_pressure
    } else {
        0
    };
    add_pressure(a, b)
}

fn at_operator(op: OperatorParams, all: u8, carrier: u8, is_carrier: bool) -> (r: OperatorParams)
    ensures
        r == spec_at_operator(op, all, carrier, is_carrier),
{
    let t = add_pressure(op.tl, all);
    let tl = if is_carrier {
        add_pressure(t, carrier)
    } else {
        t
    };
    OperatorParams { tl, ..op }
}

/// Which operators are carriers of `algorithm`.
fn carrier_flags(algorithm: u8) -> (r: [bool; 4])
    requires
        algorithm < 8,
    ensures
        forall|o: int| 0 <= o < 4 ==> (#[trigger] r@[o] <==> spec_carriers(algorithm as int).contains(o as usize)),
{
    let algo = algorithm_def(algorithm as usize);
    let mut is_carrier: [bool; 4] = [false, false, false, false];
    let mut k: usize = 0;
    while k < algo.carriers.len()
        invariant
            algo.carriers@ == spec_carriers(algorithm as int),
            k <= algo.carriers@.len(),
            forall|c: int| 0 <= c < algo.carriers@.len() ==> #[trigger] algo.carriers@[c] < 4,
            forall|o: int|
                0 <= o < 4 ==> (#[trigger] is_carrier@[o] <==> algo.carriers@.take(k as int).contains(
                    o as usize,
                )),
        decreases algo.carriers@.len() - k,
    {
        let c = algo.carriers[k];
        is_carrier[c] = true;
        proof {
            assert forall|o: int| 0 <= o < 4 implies (#[trigger] is_carrier@[o]
                <==> algo.carriers@.take(k + 1).contains(o as usize)) by {
                assert(algo.carriers@.take(k + 1) =~= algo.carriers@.take(k as int).push(c));
                if o as usize == c {
                    assert(algo.carriers@.take(k + 1)[k as int] == c);
                }
            }
        }
        k = k + 1;
    }
    assert(algo.carriers@.take(algo.carriers@.len() as int) =~= algo.carriers@);

    is_carrier
}

/// Applies Channel Pressure and the note's Poly Key Pressure to `patch`:
/// each chosen destination becomes `clamp(base + pressure, 0, 255)`; when
/// both pressures aim at the same destination they add up.
pub fn apply_at_modulation(
    note: u8,
    at_destination: AtDestination,
    poly_at_destination: AtDestination,
    channel_pressure: u8,
    poly_pressure: &HashMap<u8, u8>,
    patch: &mut Ym38x6Patch,
)
    requires
        old(patch).channel.algorithm < 8 || pressure_for(
            AtDestination::TlCarriers,
            at_destination,
            poly_at_destination,
            channel_pressure,
            poly_pressure_of(poly_pressure@, note),
        ) == 0,
    ensures
        *final(patch) == spec_at_modulated(
            *old(patch),
            at_destination,
            poly_at_destination,
            channel_pressure,
            poly_pressure_of(poly_pressure@, note),
        ),
{
    let pp: u8 = match poly_pressure.get(&note) {
        Some(v) => *v,
        None => 0,
    };
    let pmd = pressure_toward(AtDestination::LfoPmd, at_destination, poly_at_destination, channel_pressure, pp);
    let amd = pressure_toward(AtDestination::LfoAmd, at_destination, poly_at_destination, channel_pressure, pp);
    let cutoff = pressure_toward(AtDestination::FilterCutoff, at_destination, poly_at_destination, channel_pressure, pp);
    let resonance = pressure_toward(AtDestination::FilterResonance, at_destination, poly_at_destination, channel_pressure, pp);
    let all = pressure_toward(AtDestination::TlAllOps, at_destination, poly_at_destination, channel_pressure, pp);
    let car = pressure_toward(AtDestination::TlCarriers, at_destination, poly_at_destination, channel_pressure, pp);

    let mut is_carrier: [bool; 4] = [false, false, false, false];
    if car > 0 {
        is_carrier = carrier_flags(patch.channel.algorithm);
    }
    proof {
        if car == 0 {
            assert forall|o: int| 0 <= o < 4 implies #[trigger] add_clamped(
                add_clamped(patch.operators[o].tl as int, all as int) as int,
                car as int,
            ) == add_clamped(patch.operators[o].tl as int, all as int) by {}
        }
    }

    let ops = patch.operators;
    let c = patch.channel;
    let channel = crate::params::ChannelParams {
        tone_lfo_pmd: add_pressure(c.tone_lfo_pmd, pmd),
        tone_lfo_amd: add_pressure(c.tone_lfo_amd, amd),
        filter_cutoff: add_pressure(c.filter_cutoff, cutoff),
        filter_resonance: add_pressure(c.filter_resonance, resonance),
        ..c
    };
    *patch = Ym38x6Patch {
        operators: [
            at_operator(ops[0], all, car, is_carrier[0]),
            at_operator(ops[1], all, car, is_carrier[1]),
            at_operator(ops[2], all, car, is_carrier[2]),
            at_operator(ops[3], all, car, is_carrier[3]),
        ],
        channel,
    };
}

/// Without pressure, a voice plays its patch unchanged, whatever the
/// destinations.
pub proof fn lemma_no_pressure_no_change(
    p: Ym38x6Patch,
    at_destination: AtDestination,
    poly_at_destination: AtDestination,
)
    ensures
        spec_at_modulated(p, at_destination, poly_at_destination, 0, 0) == p,
{
    let q = spec_at_modulated(p, at_destination, poly_at_destination, 0, 0);
    assert(q.operators =~= p.operators);
}

/// The 38x6 Data Entry table: RPN (0,5) sets the modulation depth range;
/// NRPN (0,0)..(0,21) set, in order, the LFO destination and waveform, the
/// reverb and chorus types, reverb time, chorus rate, chorus depth, chorus
/// feedback, chorus-to-reverb send, algorithm, the four operator waveforms,
/// filter type, self-oscillation, the two aftertouch destinations and the
/// four operator F-Numbers. Enumerations and the algorithm read the 7-bit
/// value, levels the 8-bit value; nothing else has an effect.
pub proof fn lemma_data_entry_table(value7: u8, value8: u8, msb: u8, lsb: u8)
    ensures
        spec_data_entry_action(RpnSelection::Rpn(0, 5), value7, value8) == DataEntryAction::ModDepthRange(value7),
        value7 == 0 ==> spec_data_entry_action(RpnSelection::Nrpn(0, 0), value7, value8)
            == DataEntryAction::LfoDestination(Ym38x6LfoDestination::Pitch),
        value7 == 1 ==> spec_data_entry_action(RpnSelection::Nrpn(0, 0), value7, value8)
            == DataEntryAction::LfoDestination(Ym38x6LfoDestination::Volume),
        value7 >= 2 ==> spec_data_entry_action(RpnSelection::Nrpn(0, 0), value7, value8)
            == DataEntryAction::LfoDestination(Ym38x6LfoDestination::TlCarrier),
        value7 == 1 ==> spec_data_entry_action(RpnSelection::Nrpn(0, 1), value7, value8)
            == DataEntryAction::LfoWaveform(LfoWaveform::Sine),
        value7 == 2 ==> spec_data_entry_action(RpnSelection::Nrpn(0, 1), value7, value8)
            == DataEntryAction::LfoWaveform(LfoWaveform::Square),
        value7 == 3 ==> spec_data_entry_action(RpnSelection::Nrpn(0, 1), value7, value8)
            == DataEntryAction::LfoWaveform(LfoWaveform::SampleHold),
        (value7 == 0 || value7 > 3) ==> spec_data_entry_action(RpnSelection::Nrpn(0, 1), value7, value8)
            == DataEntryAction::LfoWaveform(LfoWaveform::Triangle),
        spec_data_entry_action(RpnSelection::Nrpn(0, 2), value7, value8)
            == DataEntryAction::ReverbType(spec_reverb_type(value7)),
        spec_data_entry_action(RpnSelection::Nrpn(0, 3), value7, value8)
            == DataEntryAction::ChorusType(spec_chorus_type(value7)),
        spec_data_entry_action(RpnSelection::Nrpn(0, 4), value7, value8) == DataEntryAction::ReverbTime(value8),
        spec_data_entry_action(RpnSelection::Nrpn(0, 5), value7, value8) == DataEntryAction::ChorusModRate(value8),
        spec_data_entry_action(RpnSelection::Nrpn(0, 6), value7, value8) == DataEntryAction::ChorusModDepth(value8),
        spec_data_entry_action(RpnSelection::Nrpn(0, 7), value7, value8) == DataEntryAction::ChorusFeedback(value8),
        spec_data_entry_action(RpnSelection::Nrpn(0, 8), value7, value8)
            == DataEntryAction::ChorusSendToReverb(value8),
        value7 <= 7 ==> spec_data_entry_action(RpnSelection::Nrpn(0, 9), value7, value8)
            == DataEntryAction::Algorithm(value7),
        value7 > 7 ==> spec_data_entry_action(RpnSelection::Nrpn(0, 9), value7, value8)
            == DataEntryAction::Algorithm(7),
        spec_data_entry_action(RpnSelection::Nrpn(0, 10), value7, value8)
            == DataEntryAction::OperatorWaveform(0, value8),
        spec_data_entry_action(RpnSelection::Nrpn(0, 11), value7, value8)
            == DataEntryAction::OperatorWaveform(1, value8),
        spec_data_entry_action(RpnSelection::Nrpn(0, 12), value7, value8)
            == DataEntryAction::OperatorWaveform(2, value8),
        spec_data_entry_action(RpnSelection::Nrpn(0, 13), value7, value8)
            == DataEntryAction::OperatorWaveform(3, value8),
        value7 <= 2 ==> spec_data_entry_action(RpnSelection::Nrpn(0, 14), value7, value8)
            == DataEntryAction::FilterType(value7),
        value7 > 2 ==> spec_data_entry_action(RpnSelection::Nrpn(0, 14), value7, value8)
            == DataEntryAction::FilterType(2),
        spec_data_entry_action(RpnSelection::Nrpn(0, 15), value7, value8)
            == DataEntryAction::FilterSelfOscillation(value7 != 0),
        spec_data_entry_action(RpnSelection::Nrpn(0, 16), value7, value8)
            == DataEntryAction::AtDestination(spec_at_destination(value7)),
        spec_data_entry_action(RpnSelection::Nrpn(0, 17), value7, value8)
            == DataEntryAction::PolyAtDestination(spec_at_destination(value7)),
        spec_data_entry_action(RpnSelection::Nrpn(0, 18), value7, value8) == DataEntryAction::OperatorFNumber(0),
        spec_data_entry_action(RpnSelection::Nrpn(0, 19), value7, value8) == DataEntryAction::OperatorFNumber(1),
        spec_data_entry_action(RpnSelection::Nrpn(0, 20), value7, value8) == DataEntryAction::OperatorFNumber(2),
        spec_data_entry_action(RpnSelection::Nrpn(0, 21), value7, value8) == DataEntryAction::OperatorFNumber(3),
        lsb >= 22 ==> spec_data_entry_action(RpnSelection::Nrpn(0, lsb), value7, value8) == DataEntryAction::Ignore,
        msb != 0 ==> spec_data_entry_action(RpnSelection::Nrpn(msb, lsb), value7, value8) == DataEntryAction::Ignore,
        !(msb == 0 && lsb == 5) ==> spec_data_entry_action(RpnSelection::Rpn(msb, lsb), value7, value8)
            == DataEntryAction::Ignore,
        spec_data_entry_action(RpnSelection::Unselected, value7, value8) == DataEntryAction::Ignore,
{
}

/// The WMS-1 Data Entry table: NRPN (0,0) chooses Pitch for 0 and Volume
/// otherwise; RPN (0,5) and NRPN (0,1)..(0,8) act as on the 38x6; NRPN
/// (0,9) and above do nothing.
pub proof fn lemma_wms1_data_entry_table(value7: u8, value8: u8, lsb: u8)
    ensures
        spec_wms1_data_entry_action(RpnSelection::Nrpn(0, 0), value7, value8) == DataEntryAction::Wms1LfoDestination(
            if value7 == 0 {
                LfoDestination::Pitch
            } else {
                LfoDestination::Volume
            },
        ),
        1 <= lsb <= 8 ==> spec_wms1_data_entry_action(RpnSelection::Nrpn(0, lsb), value7, value8)
            == spec_data_entry_action(RpnSelection::Nrpn(0, lsb), value7, value8),
        lsb >= 9 ==> spec_wms1_data_entry_action(RpnSelection::Nrpn(0, lsb), value7, value8) == DataEntryAction::Ignore,
        spec_wms1_data_entry_action(RpnSelection::Rpn(0, 5), value7, value8) == DataEntryAction::ModDepthRange(value7),
        spec_wms1_data_entry_action(RpnSelection::Nrpn(0, 5), value7, value8) == DataEntryAction::ChorusModRate(value8),
        spec_wms1_data_entry_action(RpnSelection::Nrpn(0, 6), value7, value8) == DataEntryAction::ChorusModDepth(value8),
{
}

/// Aftertouch pressure aimed at the destination `d` of `target`.
pub open spec fn aimed(target: AtDestination, d: AtDestination, pressure: u8) -> int {
    if target == d {
        pressure as int
    } else {
        0
    }
}

/// `min(255, v)`.
pub open spec fn cap255(v: int) -> int {
    if v > 255 {
        255
    } else {
        v
    }
}

/// Aftertouch raises each destination by the pressures aimed at it, capped
/// at 255, and touches nothing else: the tone-LFO depths, cutoff and
/// resonance each take only their own pressures; operator levels change only
/// when a TL destination is aimed at, and no other operator setting ever
/// changes.
pub proof fn lemma_aftertouch_targets(
    p: Ym38x6Patch,
    at_destination: AtDestination,
    poly_at_destination: AtDestination,
    channel_pressure: u8,
    poly_pressure: u8,
)
    ensures
        ({
            let r = spec_at_modulated(p, at_destination, poly_at_destination, channel_pressure, poly_pressure);
            let part = |d: AtDestination|
                aimed(at_destination, d, channel_pressure) + aimed(poly_at_destination, d, poly_pressure);
            &&& r.channel.tone_lfo_pmd == cap255(p.channel.tone_lfo_pmd + part(AtDestination::LfoPmd))
            &&& r.channel.tone_lfo_amd == cap255(p.channel.tone_lfo_amd + part(AtDestination::LfoAmd))
            &&& r.channel.filter_cutoff == cap255(p.channel.filter_cutoff + part(AtDestination::FilterCutoff))
            &&& r.channel.filter_resonance == cap255(
                p.channel.filter_resonance + part(AtDestination::FilterResonance),
            )
            &&& r.channel == (ChannelParams {
                tone_lfo_pmd: r.channel.tone_lfo_pmd,
                tone_lfo_amd: r.channel.tone_lfo_amd,
                filter_cutoff: r.channel.filter_cutoff,
                filter_resonance: r.channel.filter_resonance,
                ..p.channel
            })
            &&& forall|i: int| 0 <= i < 4 ==> #[trigger] r.operators[i] == (OperatorParams { tl: r.operators[i].tl, ..p.operators[i] })
            &&& part(AtDestination::TlCarriers) == 0 ==> forall|i: int|
                0 <= i < 4 ==> #[trigger] r.operators[i].tl == cap255(p.operators[i].tl + part(AtDestination::TlAllOps))
        }),
{
    let r = spec_at_modulated(p, at_destination, poly_at_destination, channel_pressure, poly_pressure);
    assert forall|i: int| 0 <= i < 4 implies #[trigger] r.operators[i] == (OperatorParams {
        tl: r.operators[i].tl,
        ..p.operators[i]
    }) by {
        if i == 0 {} else if i == 1 {} else if i == 2 {} else {}
    }
}

/// Parameter selected by CC99/98 (NRPN) or CC101/100 (RPN).
#[derive(Clone, Copy, Debug, PartialEq, Eq, Structural)]
pub enum RpnSelection {
    Unselected,
    Rpn(u8, u8),
    Nrpn(u8, u8),
}

impl Default for RpnSelection {
    fn default() -> (r: Self)
        ensures
            r == RpnSelection::Unselected,
    {
        RpnSelection::Unselected
    }
}

/// The selection after an (N)RPN number (msb, lsb) is received: (127, 127)
/// is the Null number and clears the selection.
pub open spec fn spec_select_parameter(is_nrpn: bool, msb: u8, lsb: u8) -> RpnSelection {
    if msb == 127 && lsb == 127 {
        RpnSelection::Unselected
    } else if is_nrpn {
        RpnSelection::Nrpn(msb, lsb)
    } else {
        RpnSelection::Rpn(msb, lsb)
    }
}

/// Selection after receiving an NRPN (`is_nrpn`) or RPN number.
pub fn select_parameter(is_nrpn: bool, msb: u8, lsb: u8) -> (r: RpnSelection)
    ensures
        r == spec_select_parameter(is_nrpn, msb, lsb),
{
    if msb == 127 && lsb == 127 {
        RpnSelection::Unselected
    } else if is_nrpn {
        RpnSelection::Nrpn(msb, lsb)
    } else {
        RpnSelection::Rpn(msb, lsb)
    }
}

/// What a Data Entry (CC6) message does under the current selection.
#[derive(Clone, Copy, Debug, PartialEq, Eq, Structural)]
pub enum DataEntryAction {
    /// RPN (0,5): modulation depth range (7-bit value).
    ModDepthRange(u8),
    /// NRPN (0,0) on the 38x6: performance LFO destination.
    LfoDestination(Ym38x6LfoDestination),
    /// NRPN (0,0) on the WMS-1: performance LFO destination.
    Wms1LfoDestination(LfoDestination),
    /// NRPN (0,1): performance LFO waveform.
    LfoWaveform(LfoWaveform),
    /// NRPN (0,2).
    ReverbType(ReverbType),
    /// NRPN (0,3).
    ChorusType(ChorusType),
    /// NRPN (0,4), 8-bit value.
    ReverbTime(u8),
    /// NRPN (0,5), 8-bit value.
    ChorusModRate(u8),
    /// NRPN (0,6), 8-bit value.
    ChorusModDepth(u8),
    /// NRPN (0,7), 8-bit value.
    ChorusFeedback(u8),
    /// NRPN (0,8), 8-bit value.
    ChorusSendToReverb(u8),
    /// NRPN (0,9): algorithm, clamped to 7.
    Algorithm(u8),
    /// NRPN (0,10)..(0,13): waveform of operator 0..=3 (8-bit value).
    OperatorWaveform(usize, u8),
    /// NRPN (0,14): filter type, clamped to 2.
    FilterType(u8),
    /// NRPN (0,15): filter self-oscillation on when the value is not 0.
    FilterSelfOscillation(bool),
    /// NRPN (0,16): aftertouch destination.
    AtDestination(AtDestination),
    /// NRPN (0,17): poly aftertouch destination.
    PolyAtDestination(AtDestination),
    /// NRPN (0,18)..(0,21): re-apply the F-Number override of operator 0..=3.
    OperatorFNumber(usize),
    /// Nothing selected, or a number without meaning.
    Ignore,
}

/// The 38x6 Data Entry rule for the selection, given the controller value
/// as a 7-bit and as an 8-bit number.
pub open spec fn spec_data_entry_action(sel: RpnSelection, value7: u8, value8: u8) -> DataEntryAction {
    match sel {
        RpnSelection::Rpn(0, 5) => DataEntryAction::ModDepthRange(value7),
        RpnSelection::Nrpn(0, lsb) => {
            if lsb == 0 {
                DataEntryAction::LfoDestination(
                    if value7 == 0 {
                        Ym38x6LfoDestination::Pitch
                    } else if value7 == 1 {
                        Ym38x6LfoDestination::Volume
                    } else {
                        Ym38x6LfoDestination::TlCarrier
                    },
                )
            } else if lsb == 1 {
                DataEntryAction::LfoWaveform(
                    if value7 == 1 {
                        LfoWaveform::Sine
                    } else if value7 == 2 {
                        LfoWaveform::Square
                    } else if value7 == 3 {
                        LfoWaveform::SampleHold
                    } else {
                        LfoWaveform::Triangle
                    },
                )
            } else if lsb == 2 {
                DataEntryAction::ReverbType(spec_reverb_type(value7))
            } else if lsb == 3 {
                DataEntryAction::ChorusType(spec_chorus_type(value7))
            } else if lsb == 4 {
                DataEntryAction::ReverbTime(value8)
            } else if lsb == 5 {
                DataEntryAction::ChorusModRate(value8)
            } else if lsb == 6 {
                DataEntryAction::ChorusModDepth(value8)
            } else if lsb == 7 {
                DataEntryAction::ChorusFeedback(value8)
            } else if lsb == 8 {
                DataEntryAction::ChorusSendToReverb(value8)
            } else if lsb == 9 {
                DataEntryAction::Algorithm(if value7 < 7 { value7 } else { 7 })
            } else if 10 <= lsb <= 13 {
                DataEntryAction::OperatorWaveform((lsb - 10) as usize, value8)
            } else if lsb == 14 {
                DataEntryAction::FilterType(if value7 < 2 { value7 } else { 2 })
            } else if lsb == 15 {
                DataEntryAction::FilterSelfOscillation(value7 != 0)
            } else if lsb == 16 {
                DataEntryAction::AtDestination(spec_at_destination(value7))
            } else if lsb == 17 {
                DataEntryAction::PolyAtDestination(spec_at_destination(value7))
            } else if 18 <= lsb <= 21 {
                DataEntryAction::OperatorFNumber((lsb - 18) as usize)
            } else {
                DataEntryAction::Ignore
            }
        },
        _ => DataEntryAction::Ignore,
    }
}

/// Decides what a Data Entry message does on the 38x6.
pub fn data_entry_action(sel: RpnSelection, value7: u8, value8: u8) -> (r: DataEntryAction)
    ensures
        r == spec_data_entry_action(sel, value7, value8),
{
    match sel {
        RpnSelection::Rpn(0, 5) => DataEntryAction::ModDepthRange(value7),
        RpnSelection::Nrpn(0, lsb) => {
            if lsb == 0 {
                DataEntryAction::LfoDestination(Ym38x6LfoDestination::from_nrpn(value7))
            } else if lsb == 1 {
                DataEntryAction::LfoWaveform(LfoWaveform::from_u8(value7))
            } else if lsb == 2 {
                DataEntryAction::ReverbType(ReverbType::from_u8(value7))
            } else if lsb == 3 {
                DataEntryAction::ChorusType(ChorusType::from_u8(value7))
            } else if lsb == 4 {
                DataEntryAction::ReverbTime(value8)
            } else if lsb == 5 {
                DataEntryAction::ChorusModRate(value8)
            } else if lsb == 6 {
                DataEntryAction::ChorusModDepth(value8)
            } else if lsb == 7 {
                DataEntryAction::ChorusFeedback(value8)
            } else if lsb == 8 {
                DataEntryAction::ChorusSendToReverb(value8)
            } else if lsb == 9 {
                DataEntryAction::Algorithm(
                    if value7 < 7 {
                        value7
                    } else {
                        7
                    },
                )
            } else if 10 <= lsb && lsb <= 13 {
                DataEntryAction::OperatorWaveform((lsb - 10) as usize, value8)
            } else if lsb == 14 {
                DataEntryAction::FilterType(
                    if value7 < 2 {
                        value7
                    } else {
                        2
                    },
                )
            } else if lsb == 15 {
                DataEntryAction::FilterSelfOscillation(value7 != 0)
            } else if lsb == 16 {
                DataEntryAction::AtDestination(AtDestination::from_u8(value7))
            } else if lsb == 17 {
                DataEntryAction::PolyAtDestination(AtDestination::from_u8(value7))
            } else if 18 <= lsb && lsb <= 21 {
                DataEntryAction::OperatorFNumber((lsb - 18) as usize)
            } else {
                DataEntryAction::Ignore
            }
        },
        _ => DataEntryAction::Ignore,
    }
}

/// The WMS-1 Data Entry rule: RPN (0,5) and NRPN (0,1)..(0,8) as on the
/// 38x6; NRPN (0,0) chooses Pitch for 0 and Volume otherwise; nothing else.
pub open spec fn spec_wms1_data_entry_action(sel: RpnSelection, value7: u8, value8: u8) -> DataEntryAction {
    match sel {
        RpnSelection::Nrpn(0, 0) => DataEntryAction::Wms1LfoDestination(
            if value7 == 0 {
                LfoDestination::Pitch
            } else {
                LfoDestination::Volume
            },
        ),
        RpnSelection::Nrpn(0, lsb) => {
            if lsb <= 8 {
                spec_data_entry_action(sel, value7, value8)
            } else {
                DataEntryAction::Ignore
            }
        },
        _ => spec_data_entry_action(sel, value7, value8),
    }
}

/// Decides what a Data Entry message does on the WMS-1.
pub fn wms1_data_entry_action(sel: RpnSelection, value7: u8, value8: u8) -> (r: DataEntryAction)
    ensures
        r == spec_wms1_data_entry_action(sel, value7, value8),
{
    match sel {
        RpnSelection::Nrpn(0, 0) => DataEntryAction::Wms1LfoDestination(
            LfoDestination::from_nrpn(value7),
        ),
        RpnSelection::Nrpn(0, lsb) => {
            if lsb <= 8 {
                data_entry_action(sel, value7, value8)
            } else {
                DataEntryAction::Ignore
            }
        },
        _ => data_entry_action(sel, value7, value8),
    }
}

/// Operator whose F-Number a Data Entry LSB (CC38) re-applies: NRPN
/// (0,18)..(0,21) select operators 0..=3.
pub open spec fn spec_f_number_operator(sel: RpnSelection) -> Option<usize> {
    match sel {
        RpnSelection::Nrpn(0, lsb) => if 18 <= lsb <= 21 {
            Some((lsb - 18) as usize)
        } else {
            None
        },
        _ => None,
    }
}

/// Operator whose F-Number a Data Entry LSB (CC38) re-applies.
pub fn f_number_operator(sel: RpnSelection) -> (r: Option<usize>)
    ensures
        r == spec_f_number_operator(sel),
{
    match sel {
        RpnSelection::Nrpn(0, lsb) => {
            if 18 <= lsb && lsb <= 21 {
                Some((lsb - 18) as usize)
            } else {
                None
            }
        },
        _ => None,
    }
}

/// Highest 13-bit F-Number.
pub const F_NUMBER_MAX: u16 = 8191;

/// F-Number with no override: ratio 1.0.
pub const F_NUMBER_CENTER: u16 = 4096;

/// Operator F-Number from Data Entry MSB/LSB: the 14-bit value
/// `msb * 128 + lsb`, clamped to 13 bits.
pub open spec fn spec_combine_f_number(msb: u8, lsb: u8) -> u16 {
    if msb * 128 + lsb > F_NUMBER_MAX {
        F_NUMBER_MAX
    } else {
        (msb * 128 + lsb) as u16
    }
}

/// Operator F-Number from Data Entry MSB/LSB.
pub fn combine_f_number(msb: u8, lsb: u8) -> (r: u16)
    ensures
        r == spec_combine_f_number(msb, lsb),
        r <= F_NUMBER_MAX,
{
    let combined: u16 = msb as u16 * 128 + lsb as u16;
    if combined > F_NUMBER_MAX {
        F_NUMBER_MAX
    } else {
        combined
    }
}

/// Bank number from Bank Select MSB (CC0) and LSB (CC32): `msb * 128 + lsb`.
pub fn bank_number(msb: u8, lsb: u8) -> (r: u16)
    ensures
        r == msb * 128 + lsb,
{
    msb as u16 * 128 + lsb as u16
}

/// The plugin's Program parameter: 0 = manual patch, n = program n - 1.
pub fn program_parameter(value: u8) -> (r: Option<u8>)
    ensures
        r == (if value == 0 {
            None
        } else {
            Some((value - 1) as u8)
        }),
{
    if value == 0 {
        None
    } else {
        Some(value - 1)
    }
}

/// Per-operator key control (CC102..CC105).
#[derive(Clone, Copy, Debug, PartialEq, Eq, Structural)]
pub enum OperatorKeyAction {
    /// Key on the operator in every sounding voice.
    KeyOn(usize),
    /// Key off the operator in every sounding voice.
    KeyOff(usize),
    /// Operator 3 (the master) keyed off: release every held note.
    ReleaseNotes,
}

/// CC102 + i controls operator i: 64 and above keys on, below keys off;
/// keying off operator 3 releases the notes.
pub open spec fn spec_operator_key_action(cc: u8, value7: u8) -> OperatorKeyAction {
    if cc == 105 && value7 < 64 {
        OperatorKeyAction::ReleaseNotes
    } else if value7 >= 64 {
        OperatorKeyAction::KeyOn((cc - 102) as usize)
    } else {
        OperatorKeyAction::KeyOff((cc - 102) as usize)
    }
}

/// Decides what CC102..=CC105 do.
pub fn operator_key_action(cc: u8, value7: u8) -> (r: OperatorKeyAction)
    requires
        102 <= cc <= 105,
    ensures
        r == spec_operator_key_action(cc, value7),
{
    let op_index = (cc - 102) as usize;
    let key_on = value7 >= 64;
    if op_index == 3 && !key_on {
        OperatorKeyAction::ReleaseNotes
    } else if key_on {
        OperatorKeyAction::KeyOn(op_index)
    } else {
        OperatorKeyAction::KeyOff(op_index)
    }
}

} // verus!
