use ym38x6::cli::{parse_args, parse_u16, ArgsError, ConvertArgs, DEFAULT_START_BANK};
use ym38x6::settings::Settings;
use ym38x6::cli::{convert_voices, parse_def_seqs, ConvertError, DefSeqsError};
use ym38x6::opq::{NamedVoice, OpqVoice};

fn args(v: &[&str]) -> Vec<String> {
    v.iter().map(|s| s.to_string()).collect()
}

#[test]
fn parses_positionals_with_default_bank() {
    let r = parse_args(&args(&["in.h", "out"]));
    assert_eq!(
        r,
        Ok(ConvertArgs { input: "in.h".to_string(), output_dir: "out".to_string(), start_bank: DEFAULT_START_BANK })
    );
    assert_eq!(DEFAULT_START_BANK, 16384);
}

#[test]
fn bank_option_anywhere_last_wins() {
    let r = parse_args(&args(&["--bank", "3", "in.h", "--bank", "+12", "out"])).unwrap();
    assert_eq!(r.start_bank, 12);
    assert_eq!(r.input, "in.h");
    assert_eq!(r.output_dir, "out");
}

#[test]
fn argument_errors() {
    assert_eq!(parse_args(&args(&["in.h", "out", "--bank"])), Err(ArgsError::MissingBankValue));
    assert_eq!(
        parse_args(&args(&["in.h", "--bank", "70000", "out"])),
        Err(ArgsError::InvalidBankValue("70000".to_string()))
    );
    assert_eq!(
        parse_args(&args(&["--bank", "x1", "in.h", "out"])),
        Err(ArgsError::InvalidBankValue("x1".to_string()))
    );
    assert_eq!(parse_args(&args(&["in.h"])), Err(ArgsError::WrongArgumentCount));
    assert_eq!(parse_args(&args(&["a", "b", "c"])), Err(ArgsError::WrongArgumentCount));
    assert_eq!(parse_args(&args(&[])), Err(ArgsError::WrongArgumentCount));
}

#[test]
fn u16_parsing_matches_std() {
    for s in ["0", "7", "+7", "65535", "65536", "", "+", "-1", "1a", "00012", "999999999999", " 1"] {
        assert_eq!(parse_u16(s), s.parse::<u16>().ok(), "input {s:?}");
    }
}

#[test]
fn settings_default_and_value() {
    assert_eq!(Settings::default().engine_type, "wms1");
    assert_eq!(Settings::from_engine_value(None).engine_type, "wms1");
    assert_eq!(Settings::from_engine_value(Some("ym38x6".to_string())).engine_type, "ym38x6");
}

#[test]
fn voice_source_and_conversion_step() {
    assert_eq!(parse_def_seqs("def_seqs.h").unwrap_err(), DefSeqsError::FormatNotSupported);
    assert_eq!(convert_voices(1, &[]).unwrap_err(), ConvertError::NoVoices);
    let voices = vec![NamedVoice { name: "T".to_string(), voice: OpqVoice::default() }];
    let files = convert_voices(16384, &voices).unwrap();
    assert_eq!(files.len(), 1);
    assert_eq!(ym38x6::opq::bank_of(&files[0]), 16384);
}
