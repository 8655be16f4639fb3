//! Wave tables in the chip's log format, the 32-sample user-wave resampling
//! step, and the 256-slot wave store of the engines.
//!
//! A table entry is a `u16`: bits 14..0 hold -log2|amplitude| in 4.8 fixed
//! point (0 = full scale, 0x7FFF = silence) and bit 15 is the sign.

use vstd::prelude::*;

verus! {

/// Entries per wave table.
pub const WAVE_SIZE: usize = 1024;

/// Log value of silence.
pub const LOG_SILENCE: u16 = 0x7FFF;

/// Sign flag of an entry.
pub const SIGN_FLAG: u16 = 0x8000;

/// Log values from this one up decode to silence.
pub const LOG_SILENT_FROM: u16 = 0x7E00;

/// A 1024-entry log-encoded wave table.
pub struct WaveTable {
    data: Vec<u16>,
}

impl WaveTable {
    #[verifier::type_invariant]
    spec fn inv(self) -> bool {
        self.data@.len() == WAVE_SIZE
    }

    /// The entries of the table.
    pub closed spec fn view(&self) -> Seq<u16> {
        self.data@
    }

    /// A table of silence.
    pub fn new() -> (t: Self)
        ensures
            t@ == Seq::new(WAVE_SIZE as nat, |i: int| LOG_SILENCE),
    {
        let mut data: Vec<u16> = Vec::new();
        let mut i: usize = 0;
        while i < WAVE_SIZE
            invariant
                i <= WAVE_SIZE,
                data@ == Seq::new(i as nat, |j: int| LOG_SILENCE),
            decreases WAVE_SIZE - i,
        {
            data.push(LOG_SILENCE);
            i = i + 1;
            assert(data@ =~= Seq::new(i as nat, |j: int| LOG_SILENCE));
        }
        WaveTable { data }
    }

    /// A table with the given entries; `None` unless there are exactly 1024.
    pub fn from_entries(entries: Vec<u16>) -> (r: Option<Self>)
        ensures
            r.is_some() <==> entries@.len() == WAVE_SIZE,
            r matches Some(t) ==> t@ == entries@,
    {
        if entries.len() == WAVE_SIZE {
            Some(WaveTable { data: entries })
        } else {
            None
        }
    }

    /// Number of entries (always 1024).
    pub fn len(&self) -> (r: usize)
        ensures
            r == WAVE_SIZE,
            r == self@.len(),
    {
        proof {
            use_type_invariant(self);
        }
        WAVE_SIZE
    }

    /// The entry at `idx`, wrapping around the table length.
    pub fn entry(&self, idx: usize) -> (e: u16)
        ensures
            self@.len() == WAVE_SIZE,
            e == self@[(idx % WAVE_SIZE) as int],
    {
        proof {
            use_type_invariant(self);
        }
        self.data[idx % WAVE_SIZE]
    }
}

/// The entry for a sample with the given sign and log value; the log value
/// is clamped to 0..=0x7FFF.
pub open spec fn spec_encode_log_entry(negative: bool, log_value: i32) -> u16 {
    let magnitude: int = if log_value < 0 {
        0
    } else if log_value > LOG_SILENCE {
        LOG_SILENCE as int
    } else {
        log_value as int
    };
    ((if negative {
        SIGN_FLAG as int
    } else {
        0
    }) + magnitude) as u16
}

/// Assembles an entry: sign flag or'ed with the clamped log value.
pub fn encode_log_entry(negative: bool, log_value: i32) -> (e: u16)
    ensures
        e == spec_encode_log_entry(negative, log_value),
        (e >= SIGN_FLAG) == negative,
        e % 0x8000 <= LOG_SILENCE,
{
    let magnitude: u16 = if log_value < 0 {
        0
    } else if log_value > 0x7FFF {
        LOG_SILENCE
    } else {
        log_value as u16
    };
    if negative {
        SIGN_FLAG + magnitude
    } else {
        magnitude
    }
}

/// Entry of a sample too small to encode: silence with the sample's sign.
pub fn silent_entry(negative: bool) -> (e: u16)
    ensures
        e == spec_encode_log_entry(negative, LOG_SILENCE as i32),
{
    encode_log_entry(negative, LOG_SILENCE as i32)
}

/// Whether an entry has its sign flag set.
pub fn entry_is_negative(e: u16) -> (r: bool)
    ensures
        r == (e >= SIGN_FLAG),
{
    e >= SIGN_FLAG
}

/// Log value of an entry (bits 14..0).
pub fn entry_log_value(e: u16) -> (r: u16)
    ensures
        r == e % 0x8000,
        r <= LOG_SILENCE,
{
    e % 0x8000
}

/// Whether an entry decodes to silence (log value 0x7E00 or more).
pub fn entry_is_silent(e: u16) -> (r: bool)
    ensures
        r == (e % 0x8000 >= LOG_SILENT_FROM),
{
    e % 0x8000 >= LOG_SILENT_FROM
}

/// Decoding an assembled entry gives back its sign and its clamped log value.
pub proof fn lemma_encode_decode(negative: bool, log_value: i32)
    ensures
        (spec_encode_log_entry(negative, log_value) >= SIGN_FLAG) == negative,
        spec_encode_log_entry(negative, log_value) % 0x8000 == (if log_value < 0 {
            0
        } else if log_value > LOG_SILENCE {
            LOG_SILENCE as int
        } else {
            log_value as int
        }),
{
}

/// The square wave: full scale positive for the first half, full scale
/// negative for the second.
pub open spec fn spec_square_entry(i: int) -> u16 {
    if i < 512 {
        0
    } else {
        SIGN_FLAG
    }
}

/// Square wave table: entries 0..512 are +1.0 (`0x0000`), 512..1024 are -1.0
/// (`0x8000`).
pub fn gen_square() -> (t: WaveTable)
    ensures
        t@ == Seq::new(WAVE_SIZE as nat, |i: int| spec_square_entry(i)),
{
    let mut data: Vec<u16> = Vec::new();
    let mut i: usize = 0;
    while i < WAVE_SIZE
        invariant
            i <= WAVE_SIZE,
            data@ == Seq::new(i as nat, |j: int| spec_square_entry(j)),
        decreases WAVE_SIZE - i,
    {
        let e = encode_log_entry(i >= WAVE_SIZE / 2, 0);
        data.push(e);
        i = i + 1;
        assert(data@ =~= Seq::new(i as nat, |j: int| spec_square_entry(j)));
    }
    WaveTable { data }
}

/// Built-in operator waveform 3 (square); the same table as `gen_square`.
pub fn gen_op_square() -> (t: WaveTable)
    ensures
        t@ == Seq::new(WAVE_SIZE as nat, |i: int| spec_square_entry(i)),
{
    gen_square()
}

/// Linear amplitude of entry `i` of a resampled 32-sample wave, in units of
/// 1/4096: linear interpolation between input sample `i / 32` and the next
/// one (wrapping), at fraction `(i mod 32) / 32`.
pub open spec fn spec_resampled(input: Seq<i8>, i: int) -> int {
    let k = (i / 32) % 32;
    let f = i % 32;
    32 * input[k] + f * (input[(k + 1) % 32] - input[k])
}

/// First step of the user-wave pipeline: resamples 32 samples to 1024 by
/// linear interpolation. Entry `i` is the amplitude in units of 1/4096
/// (input samples are in units of 1/128). At `i = 32k` it is input `k`
/// exactly, half way it is the mean of the two neighbours.
pub fn resample_wave_32(input: &[i8; 32]) -> (r: Vec<i32>)
    ensures
        r@.len() == WAVE_SIZE,
        forall|i: int| 0 <= i < WAVE_SIZE ==> #[trigger] r@[i] == spec_resampled(input@, i),
        forall|i: int| 0 <= i < WAVE_SIZE ==> -4096 <= #[trigger] r@[i] <= 4064,
        forall|k: int| 0 <= k < 32 ==> #[trigger] r@[32 * k] == 32 * input@[k],
        forall|k: int|
            0 <= k < 32 ==> #[trigger] r@[32 * k + 16] == 16 * input@[k] + 16 * input@[(k + 1)
                % 32],
{
    let mut out: Vec<i32> = Vec::new();
    let mut i: usize = 0;
    while i < WAVE_SIZE
        invariant
            i <= WAVE_SIZE,
            out@.len() == i,
            forall|j: int| 0 <= j < i ==> #[trigger] out@[j] == spec_resampled(input@, j),
            forall|j: int| 0 <= j < i ==> -4096 <= #[trigger] out@[j] <= 4064,
        decreases WAVE_SIZE - i,
    {
        let k: usize = (i / 32) % 32;
        let f: i32 = (i % 32) as i32;
        let a: i32 = input[k] as i32;
        let b: i32 = input[(k + 1) % 32] as i32;
        assert(-4096 <= 32 * a + f * (b - a) <= 4064) by (nonlinear_arith)
            requires
                -128 <= a <= 127,
                -128 <= b <= 127,
                0 <= f < 32,
        ;
        let v: i32 = 32 * a + f * (b - a);
        out.push(v);
        i = i + 1;
    }
    assert forall|k: int| 0 <= k < 32 implies #[trigger] out@[32 * k] == 32 * input@[k] by {
        assert((32 * k) / 32 == k);
        assert((32 * k) % 32 == 0);
    }
    assert forall|k: int| 0 <= k < 32 implies #[trigger] out@[32 * k + 16] == 16 * input@[k]
        + 16 * input@[(k + 1) % 32] by {
        assert((32 * k + 16) / 32 == k);
        assert((32 * k + 16) % 32 == 16);
    }
    out
}

/// The eight built-in operator waveforms, in slot order.
#[derive(Clone, Copy, Debug, PartialEq, Eq, Structural)]
pub enum BuiltinWaveform {
    Sine,
    HalfSine,
    AbsSine,
    Square,
    Sawtooth,
    QuantizedSine,
    PulseSine,
    OctaveSine,
}

impl BuiltinWaveform {
    /// The waveform of built-in slot `index`; 7 and above give the octave sine.
    pub fn from_index(index: u8) -> (r: Self)
        ensures
            index == 0 ==> r == BuiltinWaveform::Sine,
            index == 1 ==> r == BuiltinWaveform::HalfSine,
            index == 2 ==> r == BuiltinWaveform::AbsSine,
            index == 3 ==> r == BuiltinWaveform::Square,
            index == 4 ==> r == BuiltinWaveform::Sawtooth,
            index == 5 ==> r == BuiltinWaveform::QuantizedSine,
            index == 6 ==> r == BuiltinWaveform::PulseSine,
            index >= 7 ==> r == BuiltinWaveform::OctaveSine,
    {
        match index {
            0 => BuiltinWaveform::Sine,
            1 => BuiltinWaveform::HalfSine,
            2 => BuiltinWaveform::AbsSine,
            3 => BuiltinWaveform::Square,
            4 => BuiltinWaveform::Sawtooth,
            5 => BuiltinWaveform::QuantizedSine,
            6 => BuiltinWaveform::PulseSine,
            _ => BuiltinWaveform::OctaveSine,
        }
    }
}

/// Number of wave slots.
pub const TOTAL_SLOTS: usize = 256;

/// Number of built-in slots (0..=7); user waves go in 8..=255.
pub const BUILTIN_SLOTS: usize = 8;

/// The 256 wave slots of an engine. The built-in slots are always filled.
pub struct WaveSlots {
    slots: Vec<Option<WaveTable>>,
}

impl WaveSlots {
    /// 256 slots, the built-in ones filled.
    pub closed spec fn wf(&self) -> bool {
        &&& self.slots@.len() == TOTAL_SLOTS
        &&& forall|i: int| 0 <= i < BUILTIN_SLOTS ==> #[trigger] self.slots@[i].is_some()
    }

    /// Slot contents (`None` = unassigned user slot).
    pub closed spec fn view(&self) -> Seq<Option<Seq<u16>>> {
        self.slots@.map_values(|o: Option<WaveTable>| match o {
            Some(t) => Some(t@),
            None => None,
        })
    }

    /// Slots 0..=7 hold the given built-in tables; the user slots are empty.
    pub fn new(builtins: Vec<WaveTable>) -> (r: Self)
        requires
            builtins@.len() == BUILTIN_SLOTS,
        ensures
            r.wf(),
            r@.len() == TOTAL_SLOTS,
            forall|i: int| 0 <= i < BUILTIN_SLOTS ==> #[trigger] r@[i] == Some(builtins@[i]@),
            forall|i: int| BUILTIN_SLOTS <= i < TOTAL_SLOTS ==> #[trigger] r@[i].is_none(),
    {
        let ghost given = builtins@;
        let mut builtins = builtins;
        let mut slots: Vec<Option<WaveTable>> = Vec::new();
        while slots.len() < BUILTIN_SLOTS
            invariant
                given.len() == BUILTIN_SLOTS,
                slots@.len() <= BUILTIN_SLOTS,
                builtins@ == given.skip(slots@.len() as int),
                forall|j: int| 0 <= j < slots@.len() ==> #[trigger] slots@[j] == Some(given[j]),
            decreases BUILTIN_SLOTS - slots@.len(),
        {
            let t = builtins.remove(0);
            slots.push(Some(t));
            assert(builtins@ =~= given.skip(slots@.len() as int));
        }
        while slots.len() < TOTAL_SLOTS
            invariant
                given.len() == BUILTIN_SLOTS,
                BUILTIN_SLOTS <= slots@.len() <= TOTAL_SLOTS,
                forall|j: int| 0 <= j < BUILTIN_SLOTS ==> #[trigger] slots@[j] == Some(given[j]),
                forall|j: int| BUILTIN_SLOTS <= j < slots@.len() ==> #[trigger] slots@[j].is_none(),
            decreases TOTAL_SLOTS - slots@.len(),
        {
            slots.push(None);
        }
        let r = WaveSlots { slots };
        assert forall|i: int| 0 <= i < BUILTIN_SLOTS implies #[trigger] r@[i] == Some(given[i]@) by {
            assert(r.slots@[i] == Some(given[i]));
        }
        assert forall|i: int| BUILTIN_SLOTS <= i < TOTAL_SLOTS implies #[trigger] r@[i].is_none() by {
            assert(r.slots@[i].is_none());
        }
        r
    }

    /// Loads a user wave into `slot`; the built-in slots 0..=7 cannot be
    /// overwritten. Every other slot is kept.
    pub fn set_user_wave(&mut self, slot: u8, table: WaveTable)
        requires
            old(self).wf(),
            slot as int >= BUILTIN_SLOTS,
        ensures
            final(self).wf(),
            final(self)@ == old(self)@.update(slot as int, Some(table@)),
            forall|i: int| 0 <= i < BUILTIN_SLOTS ==> #[trigger] final(self)@[i] == old(self)@[i],
    {
        let ghost before = self@;
        let ghost tv = table@;
        self.slots.set(slot as usize, Some(table));
        assert(self@ =~= before.update(slot as int, Some(tv)));
    }

    /// The table of `slot`, or the table of slot 0 when the slot is empty.
    pub fn table_for(&self, slot: u8) -> (t: &WaveTable)
        requires
            self.wf(),
        ensures
            self@[slot as int].is_some() ==> Some(t@) == self@[slot as int],
            self@[slot as int].is_none() ==> Some(t@) == self@[0],
    {
        match &self.slots[slot as usize] {
            Some(t) => t,
            None => {
                assert(self.slots@[0].is_some());
                self.slots[0].as_ref().unwrap()
            },
        }
    }
}

} // verus!
