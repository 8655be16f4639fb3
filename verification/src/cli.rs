//! Command line of the OPQ voice converter:
//! `<input def_seqs.h> <output_dir> [--bank <N>]`.

use vstd::prelude::*;
use vstd::string::*;
use crate::preset::PresetFile;
use crate::opq::{NamedVoice, bank_count, preset_files_for, voices_to_preset_files};

verus! {

/// Value of one decimal digit, or -1 for any other character.
pub open spec fn digit_value(c: char) -> int {
    if '0' <= c <= '9' {
        (c as int) - ('0' as int)
    } else {
        -1
    }
}

/// Whether every character is an ASCII digit.
pub open spec fn all_digits(s: Seq<char>) -> bool {
    forall|i: int| 0 <= i < s.len() ==> digit_value(#[trigger] s[i]) >= 0
}

/// Decimal value of a digit string.
pub open spec fn decimal_value(s: Seq<char>) -> int
    decreases s.len(),
{
    if s.len() == 0 {
        0
    } else {
        10 * decimal_value(s.drop_last()) + digit_value(s.last())
    }
}

/// A `u16` written in decimal: an optional `+` followed by at least one
/// digit and nothing else, with a value of at most 65535.
pub open spec fn spec_parse_u16(s: Seq<char>) -> Option<u16> {
    let digits = if s.len() > 0 && s[0] == '+' {
        s.skip(1)
    } else {
        s
    };
    if digits.len() == 0 || !all_digits(digits) || decimal_value(digits) > u16::MAX {
        None
    } else {
        Some(decimal_value(digits) as u16)
    }
}

proof fn lemma_decimal_nonneg(s: Seq<char>)
    requires
        all_digits(s),
    ensures
        decimal_value(s) >= 0,
    decreases s.len(),
{
    if s.len() > 0 {
        lemma_decimal_nonneg(s.drop_last());
    }
}

/// Parses a decimal `u16`.
pub fn parse_u16(s: &str) -> (r: Option<u16>)
    ensures
        r == spec_parse_u16(s@),
{
    let n = s.unicode_len();
    let start: usize = if n > 0 && s.get_char(0) == '+' {
        1
    } else {
        0
    };
    let ghost digits = if s@.len() > 0 && s@[0] == '+' {
        s@.skip(1)
    } else {
        s@
    };
    assert(digits =~= s@.skip(start as int));
    if start == n {
        return None;
    }
    let mut acc: u32 = 0;
    let mut i: usize = start;
    while i < n
        invariant
            n == s@.len(),
            start <= i <= n,
            digits =~= s@.skip(start as int),
            digits == (if s@.len() > 0 && s@[0] == '+' {
                s@.skip(1)
            } else {
                s@
            }),
            all_digits(s@.subrange(start as int, i as int)),
            acc == (if decimal_value(s@.subrange(start as int, i as int)) > u16::MAX {
                u16::MAX + 1
            } else {
                decimal_value(s@.subrange(start as int, i as int))
            }),
        decreases n - i,
    {
        let c = s.get_char(i);
        if !('0' <= c && c <= '9') {
            proof {
                let k = (i - start) as int;
                assert(digits[k] == c);
                assert(digit_value(digits[k]) < 0);
                assert(!all_digits(digits));
            }
            return None;
        }
        let d: u32 = (c as u32) - ('0' as u32);
        let ghost prefix = s@.subrange(start as int, i as int);
        let ghost next = s@.subrange(start as int, i + 1);
        proof {
            assert(next.drop_last() =~= prefix);
            assert(next.last() == c);
            lemma_decimal_nonneg(prefix);
        }
        if acc > 65535 {
            acc = 65536;
        } else {
            acc = acc * 10 + d;
            if acc > 65535 {
                acc = 65536;
            }
        }
        i = i + 1;
        proof {
            assert(all_digits(next)) by {
                assert forall|j: int| 0 <= j < next.len() implies digit_value(#[trigger] next[j]) >= 0 by {
                    if j < prefix.len() {
                        assert(next[j] == prefix[j]);
                    }
                }
            }
        }
    }
    assert(s@.subrange(start as int, n as int) =~= digits);
    if acc > 65535 {
        None
    } else {
        Some(acc as u16)
    }
}

/// Parsed command line of the converter.
#[derive(Clone, Debug, PartialEq)]
pub struct ConvertArgs {
    pub input: String,
    pub output_dir: String,
    pub start_bank: u16,
}

/// Why a command line was refused.
#[derive(Clone, Debug, PartialEq)]
pub enum ArgsError {
    /// `--bank` is the last argument.
    MissingBankValue,
    /// The value after `--bank` is not a `u16`.
    InvalidBankValue(String),
    /// Not exactly two positional arguments.
    WrongArgumentCount,
}

/// Default first bank: the one after the waveform-memory bank (bank 0 stays
/// free for generated GM2 voices).
pub const DEFAULT_START_BANK: u16 = 16384;

/// Outcome of reading `args[i..]` with the positional arguments and bank
/// read so far. `--bank N` sets the bank (the last one wins); every other
/// argument is positional. Errors are given by kind, with the offending
/// value for an invalid bank.
pub open spec fn spec_scan_args(
    args: Seq<Seq<char>>,
    i: int,
    positional: Seq<Seq<char>>,
    bank: u16,
) -> Result<(Seq<Seq<char>>, u16), (int, Seq<char>)>
    decreases args.len() - i,
{
    if i >= args.len() {
        Ok((positional, bank))
    } else if args[i] == "--bank"@ {
        if i + 1 >= args.len() {
            Err((0, Seq::empty()))
        } else {
            match spec_parse_u16(args[i + 1]) {
                Some(b) => spec_scan_args(args, i + 2, positional, b),
                None => Err((1, args[i + 1])),
            }
        }
    } else {
        spec_scan_args(args, i + 1, positional.push(args[i]), bank)
    }
}

/// Whether `r` is the parse of the argument list `args`.
pub open spec fn parse_args_result(args: Seq<Seq<char>>, r: Result<ConvertArgs, ArgsError>) -> bool {
    match spec_scan_args(args, 0, Seq::empty(), DEFAULT_START_BANK) {
        Err((kind, v)) => if kind == 0 {
            r == Err::<ConvertArgs, ArgsError>(ArgsError::MissingBankValue)
        } else {
            r matches Err(ArgsError::InvalidBankValue(s)) && s@ == v
        },
        Ok((pos, bank)) => if pos.len() != 2 {
            r == Err::<ConvertArgs, ArgsError>(ArgsError::WrongArgumentCount)
        } else {
            r matches Ok(a) && a.input@ == pos[0] && a.output_dir@ == pos[1] && a.start_bank == bank
        },
    }
}

/// Parses `<input> <output_dir> [--bank <N>]` (options may stand anywhere).
pub fn parse_args(args: &Vec<String>) -> (r: Result<ConvertArgs, ArgsError>)
    ensures
        parse_args_result(args@.map_values(|a: String| a@), r),
{
    let ghost sargs = args@.map_values(|a: String| a@);
    let mut positional: Vec<String> = Vec::new();
    let mut bank: u16 = DEFAULT_START_BANK;
    let mut i: usize = 0;
    assert(positional@.map_values(|a: String| a@) =~= Seq::<Seq<char>>::empty());
    while i < args.len()
        invariant
            sargs == args@.map_values(|a: String| a@),
            i <= args@.len(),
            spec_scan_args(sargs, 0, Seq::empty(), DEFAULT_START_BANK) == spec_scan_args(
                sargs,
                i as int,
                positional@.map_values(|a: String| a@),
                bank,
            ),
        decreases args@.len() - i,
    {
        let flag = String::from_str("--bank");
        if args[i] == flag {
            if i + 1 >= args.len() {
                return Err(ArgsError::MissingBankValue);
            }
            match parse_u16(args[i + 1].as_str()) {
                Some(b) => {
                    bank = b;
                    i = i + 2;
                },
                None => {
                    return Err(ArgsError::InvalidBankValue(args[i + 1].clone()));
                },
            }
        } else {
            let ghost before = positional@.map_values(|a: String| a@);
            positional.push(args[i].clone());
            assert(positional@.map_values(|a: String| a@) =~= before.push(sargs[i as int]));
            i = i + 1;
        }
    }
    if positional.len() != 2 {
        return Err(ArgsError::WrongArgumentCount);
    }
    let output_dir = positional.pop().unwrap();
    let input = positional.pop().unwrap();
    Ok(ConvertArgs { input, output_dir, start_bank: bank })
}

/// Why reading the voice source failed.
#[derive(Clone, Copy, Debug, PartialEq, Eq, Structural)]
pub enum DefSeqsError {
    /// The layout of the voice data is not known yet, so no source is read.
    FormatNotSupported,
}

/// Reads OPQ voices from the `def_seqs.h` file at `input`. The byte layout
/// of its voice records has not been established, so every input is refused
/// before the file is opened.
pub fn parse_def_seqs(input: &str) -> (r: Result<Vec<NamedVoice>, DefSeqsError>)
    ensures
        r == Err::<Vec<NamedVoice>, DefSeqsError>(DefSeqsError::FormatNotSupported),
{
    Err(DefSeqsError::FormatNotSupported)
}

/// Why a conversion produced nothing.
#[derive(Clone, Copy, Debug, PartialEq, Eq, Structural)]
pub enum ConvertError {
    /// The source held no voice.
    NoVoices,
}

/// The conversion step of the converter: no voices is an error, otherwise
/// the preset files for the voices from `start_bank` on.
pub fn convert_voices(start_bank: u16, voices: &[NamedVoice]) -> (r: Result<Vec<PresetFile>, ConvertError>)
    requires
        start_bank + bank_count(voices@.len() as int) <= u16::MAX + 1,
    ensures
        voices@.len() == 0 ==> r == Err::<Vec<PresetFile>, ConvertError>(ConvertError::NoVoices),
        voices@.len() > 0 ==> (r matches Ok(files) && preset_files_for(start_bank, voices@, files@)),
{
    if voices.len() == 0 {
        Err(ConvertError::NoVoices)
    } else {
        Ok(voices_to_preset_files(start_bank, voices))
    }
}

} // verus!
