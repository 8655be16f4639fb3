//! Built-in patches, preset files and the (bank, program) preset store.

use vstd::prelude::*;
use std::collections::HashMap;
use crate::params::{
    AdsrParams, ChannelParams, OperatorParams, Ym38x6Patch, spec_default_adsr,
    spec_default_channel,
};

verus! {

broadcast use vstd::std_specs::hash::group_hash_axioms;

/// Bank Select number reserved for waveform-memory voices: with this bank
/// the program number (0..=127) is taken as a wave slot and a single-operator
/// patch is generated.
pub const WAVEFORM_MEMORY_BANK: u16 = 16383;

/// An operator with the given envelope, level and tuning; AM off, fine tune
/// centred.
pub open spec fn spec_op(
    tl: u8,
    ar: u8,
    d1r: u8,
    d2r: u8,
    d1l: u8,
    rr: u8,
    mul: u8,
    dt1: u8,
    ksr: u8,
    velocity_sensitivity: u8,
    waveform: u8,
) -> OperatorParams {
    OperatorParams {
        tl,
        ar,
        d1r,
        d2r,
        d1l,
        rr,
        mul,
        dt1,
        ksr,
        am_enable: false,
        velocity_sensitivity,
        waveform,
        op_fine_tune: 128,
    }
}

fn op(
    tl: u8,
    ar: u8,
    d1r: u8,
    d2r: u8,
    d1l: u8,
    rr: u8,
    mul: u8,
    dt1: u8,
    ksr: u8,
    velocity_sensitivity: u8,
    waveform: u8,
) -> (r: OperatorParams)
    ensures
        r == spec_op(tl, ar, d1r, d2r, d1l, rr, mul, dt1, ksr, velocity_sensitivity, waveform),
{
    OperatorParams {
        tl,
        ar,
        d1r,
        d2r,
        d1l,
        rr,
        mul,
        dt1,
        ksr,
        am_enable: false,
        velocity_sensitivity,
        waveform,
        op_fine_tune: 128,
    }
}

/// The default channel with the given algorithm and feedback.
pub open spec fn spec_channel_with(algorithm: u8, feedback: u8) -> ChannelParams {
    ChannelParams { algorithm, feedback, ..spec_default_channel() }
}

fn channel_with(algorithm: u8, feedback: u8) -> (r: ChannelParams)
    ensures
        r == spec_channel_with(algorithm, feedback),
{
    let c = ChannelParams::default();
    ChannelParams { algorithm, feedback, ..c }
}

/// The single audible operator of a waveform-memory voice: full level, the
/// envelope mapped straight from the ADSR (AR = attack, D1R = decay,
/// D1L = sustain, RR = release, no second decay).
pub open spec fn spec_waveform_memory_operator(waveform: u8, adsr: AdsrParams) -> OperatorParams {
    spec_op(255, adsr.attack, adsr.decay, 0, adsr.sustain, adsr.release, 1, 128, 0, 0, waveform)
}

/// The waveform-memory voice: algorithm 7 (all parallel), OP1 audible with
/// the given wave and envelope, OP2..OP4 muted with TL 0.
pub open spec fn spec_waveform_memory_patch(waveform: u8, adsr: AdsrParams) -> Ym38x6Patch {
    let audible = spec_waveform_memory_operator(waveform, adsr);
    let muted = OperatorParams { tl: 0, ..audible };
    Ym38x6Patch {
        operators: [audible, muted, muted, muted],
        channel: spec_channel_with(7, 0),
    }
}

/// Builds the waveform-memory voice for a wave slot and an ADSR.
pub fn waveform_memory_patch(waveform: u8, adsr: AdsrParams) -> (r: Ym38x6Patch)
    ensures
        r == spec_waveform_memory_patch(waveform, adsr),
        r.channel.algorithm == 7,
        r.operators[0].tl == 255,
        r.operators[0].waveform == waveform,
        r.operators[1].tl == 0 && r.operators[2].tl == 0 && r.operators[3].tl == 0,
{
    let audible = op(255, adsr.attack, adsr.decay, 0, adsr.sustain, adsr.release, 1, 128, 0, 0, waveform);
    let muted = OperatorParams { tl: 0, ..audible };
    Ym38x6Patch { operators: [audible, muted, muted, muted], channel: channel_with(7, 0) }
}

/// Seed of a placeholder patch: `(program + bank) mod 256`.
pub open spec fn spec_placeholder_seed(bank: u16, program: u8) -> int {
    (program + bank) % 256
}

/// Placeholder operator `i`: instant full level, infinite sustain, wave
/// `(seed + i) mod 8`.
pub open spec fn spec_placeholder_operator(seed: int, i: int) -> OperatorParams {
    spec_op(255, 255, 0, 0, 255, 255, 1, 128, 0, 0, ((seed + i) % 8) as u8)
}

/// The deterministic placeholder patch for (bank, program): algorithm
/// `seed mod 8`, feedback `2 * seed mod 256`, filter open with
/// self-oscillation, and four placeholder operators.
pub open spec fn spec_placeholder_patch(bank: u16, program: u8) -> Ym38x6Patch {
    let seed = spec_placeholder_seed(bank, program);
    Ym38x6Patch {
        operators: [
            spec_placeholder_operator(seed, 0),
            spec_placeholder_operator(seed, 1),
            spec_placeholder_operator(seed, 2),
            spec_placeholder_operator(seed, 3),
        ],
        channel: ChannelParams {
            filter_cutoff: 255,
            filter_self_oscillation: true,
            ..spec_channel_with((seed % 8) as u8, ((2 * seed) % 256) as u8)
        },
    }
}

/// Deterministic stand-in patch for a (bank, program) that has no tuned
/// preset. The algorithm and all four waveforms are always below 8.
pub fn placeholder_patch(bank: u16, program: u8) -> (r: Ym38x6Patch)
    ensures
        r == spec_placeholder_patch(bank, program),
        r.channel.algorithm < 8,
        forall|i: int| 0 <= i < 4 ==> #[trigger] r.operators[i].waveform < 8,
{
    let b: u16 = bank % 256;
    let seed: u8 = ((program as u16 + b) % 256) as u8;
    assert(seed == spec_placeholder_seed(bank, program));
    let feedback: u8 = ((seed as u16 * 2) % 256) as u8;
    let base = channel_with(seed % 8, feedback);
    let channel = ChannelParams { filter_cutoff: 255, filter_self_oscillation: true, ..base };
    let o0 = op(255, 255, 0, 0, 255, 255, 1, 128, 0, 0, seed % 8);
    let o1 = op(255, 255, 0, 0, 255, 255, 1, 128, 0, 0, ((seed as u16 + 1) % 8) as u8);
    let o2 = op(255, 255, 0, 0, 255, 255, 1, 128, 0, 0, ((seed as u16 + 2) % 8) as u8);
    let o3 = op(255, 255, 0, 0, 255, 255, 1, 128, 0, 0, ((seed as u16 + 3) % 8) as u8);
    let r = Ym38x6Patch { operators: [o0, o1, o2, o3], channel };
    assert(r.operators@ =~= spec_placeholder_patch(bank, program).operators@);
    r
}

/// Program 0, Acoustic Grand Piano: algorithm 4 with two detuned modulator/carrier
/// pairs; the modulators decay faster than the carriers (hammer attack).
pub open spec fn spec_acoustic_grand_piano_patch() -> Ym38x6Patch {
    Ym38x6Patch {
        operators: [
            spec_op(200, 255, 180, 80, 100, 180, 1, 128, 100, 80, 0),
            spec_op(255, 255, 60, 30, 200, 120, 1, 128, 120, 40, 0),
            spec_op(150, 255, 200, 100, 60, 200, 2, 138, 100, 100, 0),
            spec_op(220, 255, 70, 35, 180, 130, 1, 118, 120, 30, 0),
        ],
        channel: spec_channel_with(4, 40),
    }
}

fn acoustic_grand_piano_patch() -> (r: Ym38x6Patch)
    ensures
        r == spec_acoustic_grand_piano_patch(),
{
    let o0 = op(200, 255, 180, 80, 100, 180, 1, 128, 100, 80, 0);
    let o1 = op(255, 255, 60, 30, 200, 120, 1, 128, 120, 40, 0);
    let o2 = op(150, 255, 200, 100, 60, 200, 2, 138, 100, 100, 0);
    let o3 = op(220, 255, 70, 35, 180, 130, 1, 118, 120, 30, 0);
    let channel = channel_with(4, 40);
    Ym38x6Patch { operators: [o0, o1, o2, o3], channel }
}

/// Program 4, Electric Piano 1: algorithm 4, O1->O2 a bell component (MUL 14,
/// strong feedback), O3->O4 the main tone.
pub open spec fn spec_electric_piano_1_patch() -> Ym38x6Patch {
    Ym38x6Patch {
        operators: [
            spec_op(230, 255, 220, 150, 40, 200, 14, 128, 80, 120, 0),
            spec_op(160, 255, 200, 120, 30, 180, 1, 128, 100, 60, 0),
            spec_op(180, 255, 100, 50, 150, 150, 1, 128, 90, 50, 0),
            spec_op(255, 255, 50, 25, 220, 120, 1, 128, 110, 20, 0),
        ],
        channel: spec_channel_with(4, 180),
    }
}

fn electric_piano_1_patch() -> (r: Ym38x6Patch)
    ensures
        r == spec_electric_piano_1_patch(),
{
    let o0 = op(230, 255, 220, 150, 40, 200, 14, 128, 80, 120, 0);
    let o1 = op(160, 255, 200, 120, 30, 180, 1, 128, 100, 60, 0);
    let o2 = op(180, 255, 100, 50, 150, 150, 1, 128, 90, 50, 0);
    let o3 = op(255, 255, 50, 25, 220, 120, 1, 128, 110, 20, 0);
    let channel = channel_with(4, 180);
    Ym38x6Patch { operators: [o0, o1, o2, o3], channel }
}

/// Program 80, Lead 1 (Square): algorithm 7, three detuned square waves and a
/// quiet square an octave up, infinite sustain, filter slightly closed with
/// resonance.
pub open spec fn spec_lead_1_square_patch() -> Ym38x6Patch {
    Ym38x6Patch {
        operators: [
            spec_op(255, 255, 0, 0, 255, 80, 1, 128, 0, 40, 3),
            spec_op(200, 255, 0, 0, 255, 80, 1, 138, 0, 40, 3),
            spec_op(200, 255, 0, 0, 255, 80, 1, 118, 0, 40, 3),
            spec_op(140, 255, 0, 0, 255, 80, 2, 128, 0, 20, 3),
        ],
        channel: ChannelParams { filter_cutoff: 180, filter_resonance: 60, ..spec_channel_with(7, 0) },
    }
}

fn lead_1_square_patch() -> (r: Ym38x6Patch)
    ensures
        r == spec_lead_1_square_patch(),
{
    let o0 = op(255, 255, 0, 0, 255, 80, 1, 128, 0, 40, 3);
    let o1 = op(200, 255, 0, 0, 255, 80, 1, 138, 0, 40, 3);
    let o2 = op(200, 255, 0, 0, 255, 80, 1, 118, 0, 40, 3);
    let o3 = op(140, 255, 0, 0, 255, 80, 2, 128, 0, 20, 3);
    let base = channel_with(7, 0);
    let channel = ChannelParams { filter_cutoff: 180, filter_resonance: 60, ..base };
    Ym38x6Patch { operators: [o0, o1, o2, o3], channel }
}

/// The hand-tuned GM2 bank-0 voices: programs 0, 4 and 80; `None` for every
/// other program.
pub open spec fn spec_gm2_bank0_patch(program: u8) -> Option<Ym38x6Patch> {
    if program == 0 {
        Some(spec_acoustic_grand_piano_patch())
    } else if program == 4 {
        Some(spec_electric_piano_1_patch())
    } else if program == 80 {
        Some(spec_lead_1_square_patch())
    } else {
        None
    }
}

/// Hand-tuned GM2 bank-0 voice for `program`, where one exists.
pub fn gm2_bank0_patch(program: u8) -> (r: Option<Ym38x6Patch>)
    ensures
        r == spec_gm2_bank0_patch(program),
        r.is_some() <==> (program == 0 || program == 4 || program == 80),
{
    match program {
        0 => Some(acoustic_grand_piano_patch()),
        4 => Some(electric_piano_1_patch()),
        80 => Some(lead_1_square_patch()),
        _ => None,
    }
}

/// One preset: a name and a patch.
#[derive(Clone, Debug)]
pub struct Preset {
    pub name: String,
    pub patch: Ym38x6Patch,
}

/// One preset of a preset file, addressed by its program number (0..=127).
#[derive(Clone, Debug, PartialEq)]
pub struct PresetEntry {
    pub program: u8,
    pub name: String,
    pub patch: Ym38x6Patch,
}

/// Contents of a preset file for one bank (0..=16383).
/// - `Presets`: on loading, the bank is cleared and rebuilt from the entries
///   (other banks are kept).
/// - `Programs`: the entries are merged in per (bank, program), nothing is
///   cleared.
#[derive(Clone, Debug, PartialEq)]
pub enum PresetFile {
    Presets { bank: u16, presets: Vec<PresetEntry> },
    Programs { bank: u16, programs: Vec<PresetEntry> },
}

/// The preset an entry stores.
pub open spec fn entry_preset(e: PresetEntry) -> Preset {
    Preset { name: e.name, patch: e.patch }
}

/// `m` with the entries inserted in order under `bank`: a later entry for the
/// same program wins.
pub open spec fn spec_insert_entries(
    m: Map<(u16, u8), Preset>,
    bank: u16,
    entries: Seq<PresetEntry>,
) -> Map<(u16, u8), Preset>
    decreases entries.len(),
{
    if entries.len() == 0 {
        m
    } else {
        let last = entries.last();
        spec_insert_entries(m, bank, entries.drop_last()).insert((bank, last.program), entry_preset(last))
    }
}

/// `m` without any preset of `bank`.
pub open spec fn spec_clear_bank(m: Map<(u16, u8), Preset>, bank: u16) -> Map<(u16, u8), Preset> {
    m.restrict(m.dom().filter(|k: (u16, u8)| k.0 != bank))
}

/// The preset store after loading one file.
pub open spec fn spec_apply_file(m: Map<(u16, u8), Preset>, file: PresetFile) -> Map<(u16, u8), Preset> {
    match file {
        PresetFile::Presets { bank, presets } => spec_insert_entries(spec_clear_bank(m, bank), bank, presets@),
        PresetFile::Programs { bank, programs } => spec_insert_entries(m, bank, programs@),
    }
}

/// The preset store after loading the files in order.
pub open spec fn spec_apply_files(m: Map<(u16, u8), Preset>, files: Seq<PresetFile>) -> Map<(u16, u8), Preset>
    decreases files.len(),
{
    if files.len() == 0 {
        m
    } else {
        spec_apply_file(spec_apply_files(m, files.drop_last()), files.last())
    }
}

/// Bank number of a preset file.
pub open spec fn spec_file_bank(file: PresetFile) -> u16 {
    match file {
        PresetFile::Presets { bank, .. } => bank,
        PresetFile::Programs { bank, .. } => bank,
    }
}

/// Entries of a preset file.
pub open spec fn spec_file_entries(file: PresetFile) -> Seq<PresetEntry> {
    match file {
        PresetFile::Presets { presets, .. } => presets@,
        PresetFile::Programs { programs, .. } => programs@,
    }
}

/// Key of (bank, program) in the store's table.
pub open spec fn preset_key(bank: u16, program: u8) -> u32 {
    (bank * 256 + program) as u32
}

/// Presets loaded from preset files, looked up by Bank Select and Program
/// Change.
#[derive(Clone, Debug)]
pub struct PresetBank {
    presets: HashMap<u32, Preset>,
}

impl PresetBank {
    /// The presets held, by (bank, program).
    pub closed spec fn view(&self) -> Map<(u16, u8), Preset> {
        Map::new(
            |k: (u16, u8)| self.presets@.contains_key(preset_key(k.0, k.1)),
            |k: (u16, u8)| self.presets@[preset_key(k.0, k.1)],
        )
    }

    /// An empty store.
    pub fn new() -> (r: Self)
        ensures
            r@ == Map::<(u16, u8), Preset>::empty(),
    {
        let r = PresetBank { presets: HashMap::new() };
        assert(r@ =~= Map::<(u16, u8), Preset>::empty());
        r
    }

    fn key(bank: u16, program: u8) -> (k: u32)
        ensures
            k == preset_key(bank, program),
    {
        bank as u32 * 256 + program as u32
    }

    proof fn lemma_key_injective(b1: u16, p1: u8, b2: u16, p2: u8)
        ensures
            preset_key(b1, p1) == preset_key(b2, p2) <==> (b1 == b2 && p1 == p2),
    {
    }

    /// The preset stored for (bank, program), if any.
    pub fn get(&self, bank: u16, program: u8) -> (r: Option<&Preset>)
        ensures
            r == (if self@.contains_key((bank, program)) {
                Some(&self@[(bank, program)])
            } else {
                None
            }),
    {
        self.presets.get(&Self::key(bank, program))
    }

    /// Stores `preset` under (bank, program), replacing any earlier one.
    pub fn insert(&mut self, bank: u16, program: u8, preset: Preset)
        ensures
            final(self)@ == old(self)@.insert((bank, program), preset),
    {
        let ghost before = self@;
        self.presets.insert(Self::key(bank, program), preset);
        assert forall|k: (u16, u8)| true implies
            (self@.contains_key(k) == before.insert((bank, program), preset).contains_key(k)) by {
            Self::lemma_key_injective(k.0, k.1, bank, program);
        }
        assert forall|k: (u16, u8)| self@.contains_key(k) implies
            self@[k] == before.insert((bank, program), preset)[k] by {
            Self::lemma_key_injective(k.0, k.1, bank, program);
        }
        assert(self@ =~= before.insert((bank, program), preset));
    }

    /// Removes `(bank, program)`.
    fn remove(&mut self, bank: u16, program: u8)
        ensures
            final(self)@ == old(self)@.remove((bank, program)),
    {
        let ghost before = self@;
        self.presets.remove(&Self::key(bank, program));
        assert forall|k: (u16, u8)| true implies
            (self@.contains_key(k) == before.remove((bank, program)).contains_key(k)) by {
            Self::lemma_key_injective(k.0, k.1, bank, program);
        }
        assert forall|k: (u16, u8)| self@.contains_key(k) implies
            self@[k] == before.remove((bank, program))[k] by {
            Self::lemma_key_injective(k.0, k.1, bank, program);
        }
        assert(self@ =~= before.remove((bank, program)));
    }

    /// Removes every preset of `bank`; other banks are kept.
    pub fn clear_bank(&mut self, bank: u16)
        ensures
            final(self)@ == spec_clear_bank(old(self)@, bank),
    {
        let ghost before = self@;
        let mut p: u16 = 0;
        while p < 256
            invariant
                p <= 256,
                self@ == before.restrict(
                    before.dom().filter(|k: (u16, u8)| !(k.0 == bank && k.1 < p)),
                ),
            decreases 256 - p,
        {
            self.remove(bank, p as u8);
            assert(self@ =~= before.restrict(
                before.dom().filter(|k: (u16, u8)| !(k.0 == bank && k.1 < p + 1)),
            ));
            p = p + 1;
        }
        assert(self@ =~= spec_clear_bank(before, bank));
    }

    /// Inserts the entries in order under `bank`.
    fn insert_entries(&mut self, bank: u16, entries: &Vec<PresetEntry>)
        ensures
            final(self)@ == spec_insert_entries(old(self)@, bank, entries@),
    {
        let ghost before = self@;
        let mut i: usize = 0;
        while i < entries.len()
            invariant
                i <= entries@.len(),
                self@ == spec_insert_entries(before, bank, entries@.take(i as int)),
            decreases entries@.len() - i,
        {
            let e = &entries[i];
            let preset = Preset { name: e.name.clone(), patch: e.patch };
            self.insert(bank, e.program, preset);
            assert(entries@.take(i + 1).drop_last() =~= entries@.take(i as int));
            i = i + 1;
        }
        assert(entries@.take(entries@.len() as int) =~= entries@);
    }

    /// Loads one preset file: a `Presets` file clears its bank and rebuilds
    /// it from the entries, a `Programs` file merges its entries in. Later
    /// entries win over earlier ones.
    pub fn apply_file(&mut self, file: &PresetFile)
        ensures
            final(self)@ == spec_apply_file(old(self)@, *file),
    {
        match file {
            PresetFile::Presets { bank, presets } => {
                self.clear_bank(*bank);
                self.insert_entries(*bank, presets);
            },
            PresetFile::Programs { bank, programs } => {
                self.insert_entries(*bank, programs);
            },
        }
    }

    /// Builds a store from preset files taken in order.
    pub fn from_files(files: &Vec<PresetFile>) -> (r: Self)
        ensures
            r@ == spec_apply_files(Map::empty(), files@),
    {
        let mut bank = PresetBank::new();
        let mut i: usize = 0;
        while i < files.len()
            invariant
                i <= files@.len(),
                bank@ == spec_apply_files(Map::empty(), files@.take(i as int)),
            decreases files@.len() - i,
        {
            bank.apply_file(&files[i]);
            assert(files@.take(i + 1).drop_last() =~= files@.take(i as int));
            i = i + 1;
        }
        assert(files@.take(files@.len() as int) =~= files@);
        bank
    }

    /// Resolves the patch for (bank, program), in order of priority: a stored
    /// preset; in the waveform-memory bank, the single-operator voice with the
    /// program as wave slot; in bank 0, a hand-tuned GM2 voice; otherwise the
    /// placeholder patch.
    pub fn patch_for_program(&self, bank: u16, program: u8) -> (r: Ym38x6Patch)
        ensures
            r == spec_patch_for_program(self@, bank, program),
    {
        match self.get(bank, program) {
            Some(preset) => preset.patch,
            None => {
                if bank == WAVEFORM_MEMORY_BANK {
                    waveform_memory_patch(program, AdsrParams::default())
                } else {
                    let tuned = if bank == 0 {
                        gm2_bank0_patch(program)
                    } else {
                        None
                    };
                    match tuned {
                        Some(patch) => patch,
                        None => placeholder_patch(bank, program),
                    }
                }
            },
        }
    }
}

impl Default for PresetBank {
    fn default() -> (r: Self)
        ensures
            r@ == Map::<(u16, u8), Preset>::empty(),
    {
        PresetBank::new()
    }
}

/// The patch resolved for (bank, program) against the stored presets `m`.
pub open spec fn spec_patch_for_program(m: Map<(u16, u8), Preset>, bank: u16, program: u8) -> Ym38x6Patch {
    if m.contains_key((bank, program)) {
        m[(bank, program)].patch
    } else if bank == WAVEFORM_MEMORY_BANK {
        spec_waveform_memory_patch(program, spec_default_adsr())
    } else if bank == 0 && spec_gm2_bank0_patch(program).is_some() {
        spec_gm2_bank0_patch(program).unwrap()
    } else {
        spec_placeholder_patch(bank, program)
    }
}


/// Inserting entries under `bank` leaves every key untouched that is in
/// another bank or whose program no entry names.
pub proof fn lemma_insert_entries_frame(
    m: Map<(u16, u8), Preset>,
    bank: u16,
    entries: Seq<PresetEntry>,
    k: (u16, u8),
)
    requires
        k.0 != bank || forall|j: int| 0 <= j < entries.len() ==> #[trigger] entries[j].program != k.1,
    ensures
        spec_insert_entries(m, bank, entries).contains_key(k) == m.contains_key(k),
        m.contains_key(k) ==> spec_insert_entries(m, bank, entries)[k] == m[k],
    decreases entries.len(),
{
    if entries.len() > 0 {
        let init = entries.drop_last();
        assert forall|j: int| 0 <= j < init.len() implies #[trigger] init[j].program != k.1 || k.0 != bank by {
            if k.0 == bank {
                assert(init[j] == entries[j]);
            }
        }
        lemma_insert_entries_frame(m, bank, init, k);
        if k.0 == bank {
            assert(entries[entries.len() - 1].program != k.1);
        }
    }
}

/// After inserting entries under `bank`, `(bank, p)` holds the preset of the
/// last entry for program `p`.
pub proof fn lemma_insert_entries_last_wins(
    m: Map<(u16, u8), Preset>,
    bank: u16,
    entries: Seq<PresetEntry>,
    j: int,
)
    requires
        0 <= j < entries.len(),
        forall|i: int| j < i < entries.len() ==> #[trigger] entries[i].program != entries[j].program,
    ensures
        spec_insert_entries(m, bank, entries).contains_key((bank, entries[j].program)),
        spec_insert_entries(m, bank, entries)[(bank, entries[j].program)] == entry_preset(entries[j]),
    decreases entries.len(),
{
    let init = entries.drop_last();
    if j < entries.len() - 1 {
        assert forall|i: int| j < i < init.len() implies #[trigger] init[i].program != init[j].program by {
            assert(init[i] == entries[i]);
        }
        lemma_insert_entries_last_wins(m, bank, init, j);
        assert(entries.last().program != entries[j].program);
    }
}

/// Loading a preset file never changes a preset of another bank.
pub proof fn lemma_file_keeps_other_banks(m: Map<(u16, u8), Preset>, file: PresetFile, k: (u16, u8))
    requires
        k.0 != spec_file_bank(file),
    ensures
        spec_apply_file(m, file).contains_key(k) == m.contains_key(k),
        m.contains_key(k) ==> spec_apply_file(m, file)[k] == m[k],
{
    match file {
        PresetFile::Presets { bank, presets } => {
            lemma_insert_entries_frame(spec_clear_bank(m, bank), bank, presets@, k);
        },
        PresetFile::Programs { bank, programs } => {
            lemma_insert_entries_frame(m, bank, programs@, k);
        },
    }
}

/// After a `Presets` file for `bank`, the bank holds a preset for program `p`
/// exactly when the file has an entry for `p`: earlier presets of the bank
/// are gone.
pub proof fn lemma_presets_file_rebuilds_bank(
    m: Map<(u16, u8), Preset>,
    bank: u16,
    presets: Vec<PresetEntry>,
    p: u8,
)
    ensures
        spec_apply_file(m, PresetFile::Presets { bank, presets }).contains_key((bank, p))
            <==> exists|j: int| 0 <= j < presets@.len() && #[trigger] presets@[j].program == p,
{
    let cleared = spec_clear_bank(m, bank);
    if exists|j: int| 0 <= j < presets@.len() && #[trigger] presets@[j].program == p {
        let j0 = choose|j: int| 0 <= j < presets@.len() && #[trigger] presets@[j].program == p;
        let j = lemma_last_index_of_program(presets@, p, j0);
        lemma_insert_entries_last_wins(cleared, bank, presets@, j);
    } else {
        lemma_insert_entries_frame(cleared, bank, presets@, (bank, p));
        assert(!cleared.contains_key((bank, p)));
    }
}

/// A `Programs` file leaves untouched every program of its bank that it has
/// no entry for.
pub proof fn lemma_programs_file_merges(
    m: Map<(u16, u8), Preset>,
    bank: u16,
    programs: Vec<PresetEntry>,
    p: u8,
)
    requires
        forall|j: int| 0 <= j < programs@.len() ==> #[trigger] programs@[j].program != p,
    ensures
        spec_apply_file(m, PresetFile::Programs { bank, programs }).contains_key((bank, p))
            == m.contains_key((bank, p)),
        m.contains_key((bank, p)) ==> spec_apply_file(m, PresetFile::Programs { bank, programs })[(
        bank,
        p,
        )] == m[(bank, p)],
{
    lemma_insert_entries_frame(m, bank, programs@, (bank, p));
}

/// Within one file, the last entry for a program is the one that is kept.
pub proof fn lemma_file_last_entry_wins(m: Map<(u16, u8), Preset>, file: PresetFile, j: int)
    requires
        0 <= j < spec_file_entries(file).len(),
        forall|i: int|
            j < i < spec_file_entries(file).len() ==> #[trigger] spec_file_entries(file)[i].program
                != spec_file_entries(file)[j].program,
    ensures
        spec_apply_file(m, file)[(spec_file_bank(file), spec_file_entries(file)[j].program)]
            == entry_preset(spec_file_entries(file)[j]),
{
    match file {
        PresetFile::Presets { bank, presets } => {
            lemma_insert_entries_last_wins(spec_clear_bank(m, bank), bank, presets@, j);
        },
        PresetFile::Programs { bank, programs } => {
            lemma_insert_entries_last_wins(m, bank, programs@, j);
        },
    }
}

/// The last index at or after `j` holding program `p`.
proof fn lemma_last_index_of_program(entries: Seq<PresetEntry>, p: u8, j: int) -> (last: int)
    requires
        0 <= j < entries.len(),
        entries[j].program == p,
    ensures
        j <= last < entries.len(),
        entries[last].program == p,
        forall|i: int| last < i < entries.len() ==> #[trigger] entries[i].program != p,
    decreases entries.len() - j,
{
    if exists|i: int| j < i < entries.len() && #[trigger] entries[i].program == p {
        let i = choose|i: int| j < i < entries.len() && #[trigger] entries[i].program == p;
        lemma_last_index_of_program(entries, p, i)
    } else {
        j
    }
}

/// A preset stored under (bank, program) is what that program resolves to,
/// whatever the bank; every other (bank, program) resolves as before.
pub proof fn lemma_stored_preset_resolves(
    m: Map<(u16, u8), Preset>,
    bank: u16,
    program: u8,
    preset: Preset,
    other_bank: u16,
    other_program: u8,
)
    requires
        (other_bank, other_program) != (bank, program),
    ensures
        spec_patch_for_program(m.insert((bank, program), preset), bank, program) == preset.patch,
        spec_patch_for_program(m.insert((bank, program), preset), other_bank, other_program)
            == spec_patch_for_program(m, other_bank, other_program),
{
}

/// How a (bank, program) without a stored preset resolves: in the
/// waveform-memory bank, a single audible operator (full level, the program
/// as its wave, the default envelope 200/150/180/100) over algorithm 7 with
/// the three others muted; in bank 0, the tuned GM2 voices of programs 0, 4
/// and 80; otherwise the placeholder whose seed `(program + bank) mod 256`
/// picks algorithm `seed mod 8`, feedback `2 seed mod 256` and wave
/// `(seed + i) mod 8` for operator `i`.
pub proof fn lemma_unstored_resolution(m: Map<(u16, u8), Preset>, bank: u16, program: u8, i: int)
    requires
        !m.contains_key((bank, program)),
        0 <= i < 4,
    ensures
        ({
            let r = spec_patch_for_program(m, bank, program);
            let seed = (program + bank) % 256;
            &&& bank == WAVEFORM_MEMORY_BANK ==> {
                &&& r.channel.algorithm == 7
                &&& r.operators[0].tl == 255
                &&& r.operators[0].waveform == program
                &&& r.operators[0].ar == 200 && r.operators[0].d1r == 150
                &&& r.operators[0].d1l == 180 && r.operators[0].rr == 100
                &&& (i > 0 ==> r.operators[i].tl == 0)
            }
            &&& (bank == 0 && program == 0) ==> r.channel.algorithm == 4 && r.channel.feedback == 40
            &&& (bank == 0 && program == 4) ==> r.channel.algorithm == 4 && r.channel.feedback == 180
                && r.operators[0].mul == 14
            &&& (bank == 0 && program == 80) ==> r.channel.algorithm == 7 && r.channel.filter_cutoff == 180
                && r.channel.filter_resonance == 60 && r.operators[i].waveform == 3
            &&& (bank != WAVEFORM_MEMORY_BANK && !(bank == 0 && (program == 0 || program == 4 || program == 80)))
                ==> {
                &&& r.channel.algorithm == seed % 8
                &&& r.channel.feedback == (2 * seed) % 256
                &&& r.operators[i].waveform == (seed + i) % 8
                &&& r.operators[i].tl == 255
            }
        }),
{
    let r = spec_patch_for_program(m, bank, program);
    if bank != WAVEFORM_MEMORY_BANK && !(bank == 0 && (program == 0 || program == 4 || program == 80)) {
        let seed = (program + bank) % 256;
        if i == 0 {} else if i == 1 {} else if i == 2 {} else {}
        assert(r.operators[i].waveform == (seed + i) % 8);
    }
}

} // verus!
