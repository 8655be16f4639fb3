//! Conversion of OPQ (YM3806) voice registers into 38x6 patches and preset
//! files. Register fields keep the chip's bit widths; every scaling is
//! linear and can be undone.

use vstd::prelude::*;
use crate::params::{ChannelParams, OperatorParams, Ym38x6Patch, spec_default_channel};
use crate::preset::{PresetEntry, PresetFile, spec_file_bank, spec_file_entries};

verus! {

/// Registers of one OPQ operator, at the chip's bit widths.
#[derive(Clone, Copy, Debug, PartialEq, Eq, Structural)]
pub struct OpqOperator {
    /// Total level, 7 bits: 0 = loudest (0 dB), 127 = quietest (-95.25 dB).
    pub tl: u8,
    /// Attack rate, 5 bits.
    pub ar: u8,
    /// First decay rate, 5 bits.
    pub d1r: u8,
    /// Second decay rate, 5 bits.
    pub d2r: u8,
    /// First decay level (sustain level), 4 bits.
    pub d1l: u8,
    /// Release rate, 4 bits.
    pub rr: u8,
    /// Frequency multiple, 4 bits.
    pub mul: u8,
    /// Detune, 6 bits, centred on 32.
    pub detune: u8,
    /// Key scale rate, 2 bits.
    pub ksr: u8,
    /// Amplitude modulation enable.
    pub am_enable: bool,
}

impl Default for OpqOperator {
    fn default() -> (r: Self)
        ensures
            r == (OpqOperator {
                tl: 0,
                ar: 0,
                d1r: 0,
                d2r: 0,
                d1l: 0,
                rr: 0,
                mul: 0,
                detune: 0,
                ksr: 0,
                am_enable: false,
            }),
    {
        OpqOperator {
            tl: 0,
            ar: 0,
            d1r: 0,
            d2r: 0,
            d1l: 0,
            rr: 0,
            mul: 0,
            detune: 0,
            ksr: 0,
            am_enable: false,
        }
    }
}

/// One OPQ voice: four operators and the channel registers.
#[derive(Clone, Copy, Debug, PartialEq, Eq)]
pub struct OpqVoice {
    pub operators: [OpqOperator; 4],
    /// Algorithm (connection), 3 bits; same topology as the 38x6 algorithms.
    pub algorithm: u8,
    /// Feedback, 3 bits.
    pub feedback: u8,
}

impl Default for OpqVoice {
    fn default() -> (r: Self)
        ensures
            r.algorithm == 0,
            r.feedback == 0,
            forall|i: int| 0 <= i < 4 ==> #[trigger] r.operators[i] == OpqOperator::default_spec(),
    {
        let o = OpqOperator::default();
        OpqVoice { operators: [o, o, o, o], algorithm: 0, feedback: 0 }
    }
}

impl OpqOperator {
    /// The all-zero operator.
    pub open spec fn default_spec() -> OpqOperator {
        OpqOperator {
            tl: 0,
            ar: 0,
            d1r: 0,
            d2r: 0,
            d1l: 0,
            rr: 0,
            mul: 0,
            detune: 0,
            ksr: 0,
            am_enable: false,
        }
    }
}

/// A voice with its name.
#[derive(Clone, Debug, PartialEq)]
pub struct NamedVoice {
    pub name: String,
    pub voice: OpqVoice,
}

pub open spec fn min_u8(v: u8, m: u8) -> u8 {
    if v < m {
        v
    } else {
        m
    }
}

/// 5-bit value (0..=31) to 8 bits: times 8, input clamped to 31.
pub open spec fn spec_scale_5bit(v: u8) -> u8 {
    (min_u8(v, 31) * 8) as u8
}

/// 4-bit value (0..=15) to 8 bits: times 17, input clamped to 15.
pub open spec fn spec_scale_4bit(v: u8) -> u8 {
    (min_u8(v, 15) * 17) as u8
}

/// 3-bit value (0..=7) to 8 bits: times 36, input clamped to 7.
pub open spec fn spec_scale_3bit(v: u8) -> u8 {
    (min_u8(v, 7) * 36) as u8
}

/// 2-bit value (0..=3) to 8 bits: times 85, input clamped to 3.
pub open spec fn spec_scale_2bit(v: u8) -> u8 {
    (min_u8(v, 3) * 85) as u8
}

/// 6-bit detune (centre 32) to 8-bit DT1 (centre 128): times 4, clamped to 63.
pub open spec fn spec_detune_to_dt1(v: u8) -> u8 {
    (min_u8(v, 63) * 4) as u8
}

/// OPQ attenuation (0 = loudest) to 38x6 level (0 = quietest): `(127 - tl) * 2`,
/// input clamped to 127.
pub open spec fn spec_tl_opq_to_x6(tl: u8) -> u8 {
    ((127 - min_u8(tl, 127)) * 2) as u8
}

/// 38x6 level back to OPQ attenuation: `127 - x6 / 2`.
pub open spec fn spec_tl_x6_to_opq(x6: u8) -> u8 {
    (127 - x6 / 2) as u8
}

/// 5 bits to 8 bits (AR, D1R, D2R). Within range the scaling is undone by `/ 8`.
pub fn scale_5bit(v: u8) -> (r: u8)
    ensures
        r == spec_scale_5bit(v),
        v <= 31 ==> r / 8 == v && r % 8 == 0,
{
    let c = if v < 31 {
        v
    } else {
        31
    };
    c * 8
}

/// 4 bits to 8 bits (RR, D1L). Within range the scaling is undone by `/ 17`.
pub fn scale_4bit(v: u8) -> (r: u8)
    ensures
        r == spec_scale_4bit(v),
        v <= 15 ==> r / 17 == v && r % 17 == 0,
{
    let c = if v < 15 {
        v
    } else {
        15
    };
    c * 17
}

/// 3 bits to 8 bits (feedback). Within range the scaling is undone by `/ 36`.
pub fn scale_3bit(v: u8) -> (r: u8)
    ensures
        r == spec_scale_3bit(v),
        v <= 7 ==> r / 36 == v && r % 36 == 0,
{
    let c = if v < 7 {
        v
    } else {
        7
    };
    c * 36
}

/// 2 bits to 8 bits (KSR). Within range the scaling is undone by `/ 85`.
pub fn scale_2bit(v: u8) -> (r: u8)
    ensures
        r == spec_scale_2bit(v),
        v <= 3 ==> r / 85 == v && r % 85 == 0,
{
    let c = if v < 3 {
        v
    } else {
        3
    };
    c * 85
}

/// 6-bit detune to 8-bit DT1; the centre 32 maps to 128. Undone by `/ 4`.
pub fn detune_to_dt1(v: u8) -> (r: u8)
    ensures
        r == spec_detune_to_dt1(v),
        v <= 63 ==> r / 4 == v && r % 4 == 0,
{
    let c = if v < 63 {
        v
    } else {
        63
    };
    c * 4
}

/// Total level, OPQ to 38x6: polarity inverted and doubled.
pub fn tl_opq_to_x6(tl: u8) -> (r: u8)
    ensures
        r == spec_tl_opq_to_x6(tl),
        r % 2 == 0,
        r <= 254,
{
    let c = if tl < 127 {
        tl
    } else {
        127
    };
    (127 - c) * 2
}

/// Total level, 38x6 back to OPQ: `127 - x6 / 2`.
pub fn tl_x6_to_opq(x6: u8) -> (r: u8)
    ensures
        r == spec_tl_x6_to_opq(x6),
        r <= 127,
{
    127 - x6 / 2
}

/// Converting a total level to the 38x6 and back gives it unchanged, for
/// every OPQ level 0..=127.
pub proof fn lemma_tl_round_trip(tl: u8)
    requires
        tl <= 127,
    ensures
        spec_tl_x6_to_opq(spec_tl_opq_to_x6(tl)) == tl,
{
}

/// A louder OPQ level (smaller attenuation) never gives a quieter 38x6 level.
pub proof fn lemma_tl_polarity(a: u8, b: u8)
    requires
        a <= b,
    ensures
        spec_tl_opq_to_x6(a) >= spec_tl_opq_to_x6(b),
{
}

/// The 38x6 operator for an OPQ operator. Velocity sensitivity is 0 (the OPQ
/// has none) and the waveform is the sine (slot 0); fine tune is centred.
pub open spec fn spec_to_operator_params(op: OpqOperator) -> OperatorParams {
    OperatorParams {
        tl: spec_tl_opq_to_x6(op.tl),
        ar: spec_scale_5bit(op.ar),
        d1r: spec_scale_5bit(op.d1r),
        d2r: spec_scale_5bit(op.d2r),
        d1l: spec_scale_4bit(op.d1l),
        rr: spec_scale_4bit(op.rr),
        mul: min_u8(op.mul, 15),
        dt1: spec_detune_to_dt1(op.detune),
        ksr: spec_scale_2bit(op.ksr),
        am_enable: op.am_enable,
        velocity_sensitivity: 0,
        waveform: 0,
        op_fine_tune: 128,
    }
}

/// Whether every register of an OPQ operator is within its bit width.
pub open spec fn opq_operator_in_range(op: OpqOperator) -> bool {
    &&& op.tl <= 127
    &&& op.ar <= 31
    &&& op.d1r <= 31
    &&& op.d2r <= 31
    &&& op.d1l <= 15
    &&& op.rr <= 15
    &&& op.mul <= 15
    &&& op.detune <= 63
    &&& op.ksr <= 3
}

/// The conversion loses nothing: every register of an in-range OPQ operator
/// is recovered from the 38x6 parameters by the inverse scaling.
pub proof fn lemma_operator_conversion_reversible(op: OpqOperator)
    requires
        opq_operator_in_range(op),
    ensures
        ({
            let p = spec_to_operator_params(op);
            &&& spec_tl_x6_to_opq(p.tl) == op.tl
            &&& p.ar / 8 == op.ar
            &&& p.d1r / 8 == op.d1r
            &&& p.d2r / 8 == op.d2r
            &&& p.d1l / 17 == op.d1l
            &&& p.rr / 17 == op.rr
            &&& p.mul == op.mul
            &&& p.dt1 / 4 == op.detune
            &&& p.ksr / 85 == op.ksr
            &&& p.am_enable == op.am_enable
        }),
{
}

/// The 38x6 patch for an OPQ voice: the channel is the default except for
/// the algorithm (clamped to 7) and the scaled feedback.
pub open spec fn spec_to_ym38x6_patch(v: OpqVoice) -> Ym38x6Patch {
    Ym38x6Patch {
        operators: [
            spec_to_operator_params(v.operators[0]),
            spec_to_operator_params(v.operators[1]),
            spec_to_operator_params(v.operators[2]),
            spec_to_operator_params(v.operators[3]),
        ],
        channel: ChannelParams {
            algorithm: min_u8(v.algorithm, 7),
            feedback: spec_scale_3bit(v.feedback),
            ..spec_default_channel()
        },
    }
}

impl OpqOperator {
    /// Converts to 38x6 operator parameters.
    pub fn to_operator_params(self) -> (r: OperatorParams)
        ensures
            r == spec_to_operator_params(self),
    {
        let mul = if self.mul < 15 {
            self.mul
        } else {
            15
        };
        OperatorParams {
            tl: tl_opq_to_x6(self.tl),
            ar: scale_5bit(self.ar),
            d1r: scale_5bit(self.d1r),
            d2r: scale_5bit(self.d2r),
            d1l: scale_4bit(self.d1l),
            rr: scale_4bit(self.rr),
            mul,
            dt1: detune_to_dt1(self.detune),
            ksr: scale_2bit(self.ksr),
            am_enable: self.am_enable,
            velocity_sensitivity: 0,
            waveform: 0,
            op_fine_tune: 128,
        }
    }
}

impl OpqVoice {
    /// Converts to a 38x6 patch.
    pub fn to_ym38x6_patch(self) -> (r: Ym38x6Patch)
        ensures
            r == spec_to_ym38x6_patch(self),
    {
        let algorithm = if self.algorithm < 7 {
            self.algorithm
        } else {
            7
        };
        let base = ChannelParams::default();
        let channel = ChannelParams { algorithm, feedback: scale_3bit(self.feedback), ..base };
        Ym38x6Patch {
            operators: [
                self.operators[0].to_operator_params(),
                self.operators[1].to_operator_params(),
                self.operators[2].to_operator_params(),
                self.operators[3].to_operator_params(),
            ],
            channel,
        }
    }
}

/// Bank number of a preset file.
pub fn bank_of(file: &PresetFile) -> (r: u16)
    ensures
        r == spec_file_bank(*file),
{
    match file {
        PresetFile::Presets { bank, .. } => *bank,
        PresetFile::Programs { bank, .. } => *bank,
    }
}

/// Number of presets in a preset file.
pub fn preset_count(file: &PresetFile) -> (r: usize)
    ensures
        r == spec_file_entries(*file).len(),
{
    match file {
        PresetFile::Presets { presets, .. } => presets.len(),
        PresetFile::Programs { programs, .. } => programs.len(),
    }
}

/// Number of 128-program banks needed for `n` voices.
pub open spec fn bank_count(n: int) -> int {
    (n + 127) / 128
}

/// The entry a voice becomes at `program`.
pub open spec fn spec_voice_entry(program: int, v: NamedVoice) -> PresetEntry {
    PresetEntry { program: program as u8, name: v.name, patch: spec_to_ym38x6_patch(v.voice) }
}

/// `files` are the preset files for `voices` from `start_bank` on: one
/// `Presets` file per 128 voices, in consecutive banks, voice `k` as program
/// `k mod 128` of file `k / 128`.
pub open spec fn preset_files_for(start_bank: u16, voices: Seq<NamedVoice>, files: Seq<PresetFile>) -> bool {
    &&& files.len() == bank_count(voices.len() as int)
    &&& forall|i: int|
        0 <= i < files.len() ==> {
            &&& #[trigger] files[i] is Presets
            &&& spec_file_bank(files[i]) == start_bank + i
            &&& spec_file_entries(files[i]).len() == (if voices.len() - 128 * i < 128 {
                voices.len() - 128 * i
            } else {
                128
            })
        }
    &&& forall|k: int|
        0 <= k < voices.len() ==> spec_file_entries(files[k / 128])[k % 128]
            == #[trigger] spec_voice_entry(k % 128, voices[k])
}

/// Converts voices into preset files, 128 programs per bank, in banks
/// `start_bank`, `start_bank + 1`, ...: voice `k` becomes program `k mod 128`
/// of bank `start_bank + k / 128`. Every file is a `Presets` file.
pub fn voices_to_preset_files(start_bank: u16, voices: &[NamedVoice]) -> (r: Vec<PresetFile>)
    requires
        start_bank + bank_count(voices@.len() as int) <= u16::MAX + 1,
    ensures
        preset_files_for(start_bank, voices@, r@),
{
    let n = voices.len();
    let count: usize = n / 128 + if n % 128 != 0 {
        1
    } else {
        0
    };
    assert(count == bank_count(n as int));
    let mut files: Vec<PresetFile> = Vec::new();
    let mut bank_index: usize = 0;
    while bank_index < count
        invariant
            n == voices@.len(),
            count == bank_count(n as int),
            bank_index <= count,
            start_bank + count <= u16::MAX + 1,
            files@.len() == bank_index,
            forall|i: int|
                0 <= i < files@.len() ==> {
                    &&& #[trigger] files@[i] is Presets
                    &&& spec_file_bank(files@[i]) == start_bank + i
                    &&& spec_file_entries(files@[i]).len() == (if n - 128 * i < 128 {
                        n - 128 * i
                    } else {
                        128
                    })
                },
            forall|k: int|
                0 <= k < 128 * bank_index && k < n ==> spec_file_entries(files@[k / 128])[k % 128]
                    == #[trigger] spec_voice_entry(k % 128, voices@[k]),
        decreases count - bank_index,
    {
        let start: usize = bank_index * 128;
        assert(start < n);
        let end = if n - start < 128 {
            n
        } else {
            start + 128
        };
        let mut presets: Vec<PresetEntry> = Vec::new();
        let mut j: usize = start;
        while j < end
            invariant
                start <= j <= end,
                end <= n,
                end - start <= 128,
                n == voices@.len(),
                presets@.len() == j - start,
                forall|t: int|
                    0 <= t < presets@.len() ==> #[trigger] presets@[t] == spec_voice_entry(
                        t,
                        voices@[start + t],
                    ),
            decreases end - j,
        {
            let nv = &voices[j];
            let entry = PresetEntry {
                program: (j - start) as u8,
                name: nv.name.clone(),
                patch: nv.voice.to_ym38x6_patch(),
            };
            presets.push(entry);
            j = j + 1;
        }
        let bank = start_bank + bank_index as u16;
        let ghost old_files = files@;
        files.push(PresetFile::Presets { bank, presets });
        assert forall|k: int| 0 <= k < 128 * (bank_index + 1) && k < n implies
            spec_file_entries(files@[k / 128])[k % 128] == #[trigger] spec_voice_entry(
                k % 128,
                voices@[k],
            ) by {
            if k >= start {
                assert(k / 128 == bank_index);
                assert(k % 128 == k - start);
            } else {
                assert(k / 128 < bank_index);
                assert(files@[k / 128] == old_files[k / 128]);
            }
        }
        bank_index = bank_index + 1;
    }
    files
}

/// A converted voice keeps the OPQ's routing (algorithm, clamped to 7) and
/// its feedback scaled to 8 bits; every channel setting the OPQ has no
/// register for is the 38x6 default: a fully open low-pass filter with
/// self-oscillation, no resonance, no filter envelope, no tone LFO.
pub proof fn lemma_converted_channel(v: OpqVoice)
    ensures
        ({
            let c = spec_to_ym38x6_patch(v).channel;
            &&& c.algorithm == (if v.algorithm <= 7 { v.algorithm } else { 7 })
            &&& c.feedback == (if v.feedback <= 7 { v.feedback * 36 } else { 252 })
            &&& c.filter_type == 0
            &&& c.filter_cutoff == 255
            &&& c.filter_resonance == 0
            &&& c.filter_self_oscillation
            &&& c.filter_eg_attack == 0
            &&& c.filter_eg_decay == 0
            &&& c.filter_eg_sustain == 0
            &&& c.filter_eg_release == 0
            &&& c.filter_eg_depth == 0
            &&& c.tone_lfo_freq == 0
            &&& c.tone_lfo_pmd == 0
            &&& c.tone_lfo_amd == 0
            &&& c.tone_lfo_delay == 0
            &&& c.pms == 0
            &&& c.ams == 0
        }),
{
}

/// Operator `i` of a converted voice comes from OPQ operator `i`: every
/// in-range register reappears scaled (TL inverted), AM is kept, and the
/// 38x6-only settings are neutral (sine wave, no velocity sensitivity,
/// centred fine tune).
pub proof fn lemma_converted_operators(v: OpqVoice, i: int)
    requires
        0 <= i < 4,
        opq_operator_in_range(v.operators[i]),
    ensures
        ({
            let o = v.operators[i];
            let p = spec_to_ym38x6_patch(v).operators[i];
            &&& p.tl == (127 - o.tl) * 2
            &&& p.ar == o.ar * 8
            &&& p.d1r == o.d1r * 8
            &&& p.d2r == o.d2r * 8
            &&& p.d1l == o.d1l * 17
            &&& p.rr == o.rr * 17
            &&& p.mul == o.mul
            &&& p.dt1 == o.detune * 4
            &&& p.ksr == o.ksr * 85
            &&& p.am_enable == o.am_enable
            &&& p.waveform == 0
            &&& p.velocity_sensitivity == 0
            &&& p.op_fine_tune == 128
        }),
{
}

} // verus!
