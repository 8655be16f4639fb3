//! Patch parameters shared by the engines: ADSR, operator and channel
//! parameter blocks, and the small enumerations selected by NRPN values.

use vstd::prelude::*;

verus! {

/// ADSR envelope parameters of a waveform-memory voice (all 0..=255).
#[derive(Clone, Copy, Debug, PartialEq, Eq, Structural)]
pub struct AdsrParams {
    /// Time from key-on to peak level (0 = slowest, 255 = fastest).
    pub attack: u8,
    /// Time from peak to sustain level.
    pub decay: u8,
    /// Sustain amplitude (0..=255 maps to 0.0..=1.0).
    pub sustain: u8,
    /// Time from key-off to silence.
    pub release: u8,
}

/// The default envelope: attack 200, decay 150, sustain 180, release 100.
pub open spec fn spec_default_adsr() -> AdsrParams {
    AdsrParams { attack: 200, decay: 150, sustain: 180, release: 100 }
}

impl Default for AdsrParams {
    fn default() -> (r: Self)
        ensures
            r == spec_default_adsr(),
    {
        AdsrParams { attack: 200, decay: 150, sustain: 180, release: 100 }
    }
}

/// Parameters of one FM operator. Every field is 8 bits wide.
#[derive(Clone, Copy, Debug, PartialEq, Eq, Structural)]
pub struct OperatorParams {
    /// Output level: 0 = about -95 dB (silent), 255 = 0 dB.
    pub tl: u8,
    pub ar: u8,
    pub d1r: u8,
    pub d2r: u8,
    pub d1l: u8,
    pub rr: u8,
    /// Frequency multiple (0 = x0.5, 1..=15 = xN).
    pub mul: u8,
    /// Detune, centred on 128.
    pub dt1: u8,
    pub ksr: u8,
    pub am_enable: bool,
    pub velocity_sensitivity: u8,
    /// Wave slot: 0..=7 built in, 8..=255 user waves.
    pub waveform: u8,
    /// Extra per-operator tuning, centred on 128 (no offset).
    pub op_fine_tune: u8,
}

/// Default operator parameters: every level and rate 0, fine tune centred.
pub open spec fn spec_default_operator() -> OperatorParams {
    OperatorParams {
        tl: 0,
        ar: 0,
        d1r: 0,
        d2r: 0,
        d1l: 0,
        rr: 0,
        mul: 0,
        dt1: 0,
        ksr: 0,
        am_enable: false,
        velocity_sensitivity: 0,
        waveform: 0,
        op_fine_tune: 128,
    }
}

impl Default for OperatorParams {
    fn default() -> (r: Self)
        ensures
            r == spec_default_operator(),
    {
        OperatorParams {
            tl: 0,
            ar: 0,
            d1r: 0,
            d2r: 0,
            d1l: 0,
            rr: 0,
            mul: 0,
            dt1: 0,
            ksr: 0,
            am_enable: false,
            velocity_sensitivity: 0,
            waveform: 0,
            op_fine_tune: 128,
        }
    }
}

/// Channel-wide parameters of a 38x6 voice.
#[derive(Clone, Copy, Debug, PartialEq, Eq, Structural)]
pub struct ChannelParams {
    /// Algorithm number (0..=7).
    pub algorithm: u8,
    /// Feedback depth (0..=255).
    pub feedback: u8,
    pub tone_lfo_freq: u8,
    pub tone_lfo_pmd: u8,
    pub tone_lfo_amd: u8,
    pub tone_lfo_delay: u8,
    pub pms: u8,
    pub ams: u8,
    pub filter_cutoff: u8,
    pub filter_resonance: u8,
    /// 0 = LP, 1 = HP, 2 and above = BP.
    pub filter_type: u8,
    pub filter_self_oscillation: bool,
    pub filter_eg_attack: u8,
    pub filter_eg_decay: u8,
    pub filter_eg_sustain: u8,
    pub filter_eg_release: u8,
    pub filter_eg_depth: u8,
}

/// Default channel parameters: filter fully open with self-oscillation on,
/// everything else 0.
pub open spec fn spec_default_channel() -> ChannelParams {
    ChannelParams {
        algorithm: 0,
        feedback: 0,
        tone_lfo_freq: 0,
        tone_lfo_pmd: 0,
        tone_lfo_amd: 0,
        tone_lfo_delay: 0,
        pms: 0,
        ams: 0,
        filter_cutoff: 255,
        filter_resonance: 0,
        filter_type: 0,
        filter_self_oscillation: true,
        filter_eg_attack: 0,
        filter_eg_decay: 0,
        filter_eg_sustain: 0,
        filter_eg_release: 0,
        filter_eg_depth: 0,
    }
}

impl Default for ChannelParams {
    fn default() -> (r: Self)
        ensures
            r == spec_default_channel(),
    {
        ChannelParams {
            algorithm: 0,
            feedback: 0,
            tone_lfo_freq: 0,
            tone_lfo_pmd: 0,
            tone_lfo_amd: 0,
            tone_lfo_delay: 0,
            pms: 0,
            ams: 0,
            filter_cutoff: 255,
            filter_resonance: 0,
            filter_type: 0,
            filter_self_oscillation: true,
            filter_eg_attack: 0,
            filter_eg_decay: 0,
            filter_eg_sustain: 0,
            filter_eg_release: 0,
            filter_eg_depth: 0,
        }
    }
}

/// A complete 38x6 voice: four operators and the channel parameters.
#[derive(Clone, Copy, Debug, PartialEq, Eq)]
pub struct Ym38x6Patch {
    pub operators: [OperatorParams; 4],
    pub channel: ChannelParams,
}

/// The default patch: four default operators and the default channel.
pub open spec fn spec_default_patch() -> Ym38x6Patch {
    Ym38x6Patch {
        operators: [
            spec_default_operator(),
            spec_default_operator(),
            spec_default_operator(),
            spec_default_operator(),
        ],
        channel: spec_default_channel(),
    }
}

impl Default for Ym38x6Patch {
    fn default() -> (r: Self)
        ensures
            r == spec_default_patch(),
    {
        let op = OperatorParams::default();
        Ym38x6Patch { operators: [op, op, op, op], channel: ChannelParams::default() }
    }
}

/// Destination of the performance LFO on the 38x6: pitch, volume, or the
/// output level of all carriers.
#[derive(Clone, Copy, Debug, PartialEq, Eq, Structural)]
pub enum Ym38x6LfoDestination {
    Pitch,
    Volume,
    TlCarrier,
}

impl Default for Ym38x6LfoDestination {
    fn default() -> (r: Self)
        ensures
            r == Ym38x6LfoDestination::Pitch,
    {
        Ym38x6LfoDestination::Pitch
    }
}

impl Ym38x6LfoDestination {
    /// NRPN (0,0) value: 0 = Pitch, 1 = Volume, anything else = TL of carriers.
    pub fn from_nrpn(value: u8) -> (r: Self)
        ensures
            value == 0 ==> r == Ym38x6LfoDestination::Pitch,
            value == 1 ==> r == Ym38x6LfoDestination::Volume,
            value >= 2 ==> r == Ym38x6LfoDestination::TlCarrier,
    {
        match value {
            0 => Ym38x6LfoDestination::Pitch,
            1 => Ym38x6LfoDestination::Volume,
            _ => Ym38x6LfoDestination::TlCarrier,
        }
    }

    /// Value sent by the composition app: 1 = Volume, 2 = TL of carriers,
    /// anything else = Pitch.
    pub fn from_command(value: u8) -> (r: Self)
        ensures
            value == 1 ==> r == Ym38x6LfoDestination::Volume,
            value == 2 ==> r == Ym38x6LfoDestination::TlCarrier,
            value != 1 && value != 2 ==> r == Ym38x6LfoDestination::Pitch,
    {
        match value {
            1 => Ym38x6LfoDestination::Volume,
            2 => Ym38x6LfoDestination::TlCarrier,
            _ => Ym38x6LfoDestination::Pitch,
        }
    }
}

/// Destination of the WMS-1 performance LFO.
#[derive(Clone, Copy, Debug, PartialEq, Eq, Structural)]
pub enum LfoDestination {
    Pitch,
    Volume,
}

impl Default for LfoDestination {
    fn default() -> (r: Self)
        ensures
            r == LfoDestination::Pitch,
    {
        LfoDestination::Pitch
    }
}

impl LfoDestination {
    /// NRPN (0,0) value on the WMS-1: 0 = Pitch, anything else = Volume.
    pub fn from_nrpn(value: u8) -> (r: Self)
        ensures
            r == (if value == 0 { LfoDestination::Pitch } else { LfoDestination::Volume }),
    {
        if value == 0 {
            LfoDestination::Pitch
        } else {
            LfoDestination::Volume
        }
    }

    /// Value sent by the composition app: 1 = Volume, anything else = Pitch.
    pub fn from_command(value: u8) -> (r: Self)
        ensures
            r == (if value == 1 { LfoDestination::Volume } else { LfoDestination::Pitch }),
    {
        if value == 1 {
            LfoDestination::Volume
        } else {
            LfoDestination::Pitch
        }
    }
}

/// Waveform of the performance LFO.
#[derive(Clone, Copy, Debug, PartialEq, Eq, Structural)]
pub enum LfoWaveform {
    Triangle,
    Sine,
    Square,
    SampleHold,
}

impl Default for LfoWaveform {
    fn default() -> (r: Self)
        ensures
            r == LfoWaveform::Triangle,
    {
        LfoWaveform::Triangle
    }
}

impl LfoWaveform {
    /// NRPN (0,1) value: 1 = Sine, 2 = Square, 3 = S&H, anything else = Triangle.
    pub fn from_u8(value: u8) -> (r: Self)
        ensures
            value == 1 ==> r == LfoWaveform::Sine,
            value == 2 ==> r == LfoWaveform::Square,
            value == 3 ==> r == LfoWaveform::SampleHold,
            (value == 0 || value > 3) ==> r == LfoWaveform::Triangle,
    {
        match value {
            1 => LfoWaveform::Sine,
            2 => LfoWaveform::Square,
            3 => LfoWaveform::SampleHold,
            _ => LfoWaveform::Triangle,
        }
    }
}

/// Filter type of the per-voice state variable filter.
#[derive(Clone, Copy, Debug, PartialEq, Eq, Structural)]
pub enum FilterType {
    Lp,
    Hp,
    Bp,
}

impl Default for FilterType {
    fn default() -> (r: Self)
        ensures
            r == FilterType::Lp,
    {
        FilterType::Lp
    }
}

impl FilterType {
    /// 0 = LP, 1 = HP, 2 and above = BP.
    pub fn from_u8(value: u8) -> (r: Self)
        ensures
            value == 0 ==> r == FilterType::Lp,
            value == 1 ==> r == FilterType::Hp,
            value >= 2 ==> r == FilterType::Bp,
    {
        match value {
            0 => FilterType::Lp,
            1 => FilterType::Hp,
            _ => FilterType::Bp,
        }
    }
}

} // verus!
