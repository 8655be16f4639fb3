use ym38x6::params::{AdsrParams, ChannelParams, Ym38x6Patch};
use ym38x6::preset::{
    gm2_bank0_patch, placeholder_patch, waveform_memory_patch, Preset, PresetBank, PresetEntry,
    PresetFile, WAVEFORM_MEMORY_BANK,
};

#[test]
fn algorithm_and_waveform_stay_in_range_for_all_programs() {
    for bank in [0u16, 1, 128] {
        for program in 0..=255u8 {
            let patch = placeholder_patch(bank, program);
            assert!(patch.channel.algorithm < 8);
            for op in patch.operators {
                assert!(op.waveform < 8);
            }
        }
    }
}

#[test]
fn gm2_bank0_patch_returns_some_for_implemented_programs_only() {
    assert!(gm2_bank0_patch(0).is_some());
    assert!(gm2_bank0_patch(4).is_some());
    assert!(gm2_bank0_patch(80).is_some());
    assert!(gm2_bank0_patch(1).is_none());
    assert!(gm2_bank0_patch(127).is_none());
}

#[test]
fn waveform_memory_patch_has_single_audible_operator() {
    let patch = waveform_memory_patch(3, AdsrParams::default());
    assert_eq!(patch.channel.algorithm, 7);
    assert!(patch.operators[0].tl > 0, "OP1 should be audible");
    assert_eq!(patch.operators[0].waveform, 3);
    for op in &patch.operators[1..] {
        assert_eq!(op.tl, 0, "OP2-4 should be muted");
    }
}

#[test]
fn patch_for_program_resolves_waveform_memory_bank() {
    let bank = PresetBank::default();
    let patch = bank.patch_for_program(WAVEFORM_MEMORY_BANK, 2);
    assert_eq!(patch, waveform_memory_patch(2, AdsrParams::default()));
}

fn entry(program: u8, name: &str, bank: u16) -> PresetEntry {
    PresetEntry { program, name: name.to_string(), patch: placeholder_patch(bank, program) }
}

#[test]
fn presets_reset_scoped_to_bank_and_programs_merge() {
    let files = vec![
        PresetFile::Presets { bank: 1, presets: vec![entry(0, "A", 1), entry(1, "B", 1)] },
        PresetFile::Presets { bank: 2, presets: vec![entry(0, "X", 2)] },
        PresetFile::Programs { bank: 1, programs: vec![entry(1, "B2", 1)] },
    ];
    let bank = PresetBank::from_files(&files);
    assert_eq!(bank.get(1, 0).unwrap().name, "A");
    assert_eq!(bank.get(1, 1).unwrap().name, "B2");
    assert_eq!(bank.get(2, 0).unwrap().name, "X");

    let mut more = files.clone();
    more.push(PresetFile::Presets { bank: 1, presets: vec![entry(5, "C", 1)] });
    let bank = PresetBank::from_files(&more);
    assert!(bank.get(1, 0).is_none());
    assert!(bank.get(1, 1).is_none());
    assert_eq!(bank.get(1, 5).unwrap().name, "C");
    assert_eq!(bank.get(2, 0).unwrap().name, "X");
}

#[test]
fn later_entry_for_same_program_wins() {
    let mut bank = PresetBank::new();
    bank.apply_file(&PresetFile::Programs {
        bank: 3,
        programs: vec![entry(7, "first", 3), entry(7, "second", 3)],
    });
    assert_eq!(bank.get(3, 7).unwrap().name, "second");
    assert!(bank.get(3, 6).is_none());
}

#[test]
fn stored_preset_takes_priority_over_builtin_voices() {
    let mut bank = PresetBank::new();
    let custom = placeholder_patch(77, 77);
    bank.insert(WAVEFORM_MEMORY_BANK, 2, Preset { name: "mine".to_string(), patch: custom });
    bank.insert(0, 0, Preset { name: "piano".to_string(), patch: custom });
    assert_eq!(bank.patch_for_program(WAVEFORM_MEMORY_BANK, 2), custom);
    assert_eq!(bank.patch_for_program(0, 0), custom);
    assert_eq!(bank.patch_for_program(0, 4), gm2_bank0_patch(4).unwrap());
    assert_eq!(bank.patch_for_program(0, 5), placeholder_patch(0, 5));
    assert_eq!(bank.patch_for_program(1, 0), placeholder_patch(1, 0));
    assert_eq!(bank.patch_for_program(1, 80), placeholder_patch(1, 80));
}

#[test]
fn clear_bank_removes_only_that_bank() {
    let mut bank = PresetBank::new();
    bank.insert(4, 0, Preset { name: "a".to_string(), patch: placeholder_patch(4, 0) });
    bank.insert(4, 255, Preset { name: "b".to_string(), patch: placeholder_patch(4, 255) });
    bank.insert(5, 0, Preset { name: "c".to_string(), patch: placeholder_patch(5, 0) });
    bank.clear_bank(4);
    assert!(bank.get(4, 0).is_none());
    assert!(bank.get(4, 255).is_none());
    assert_eq!(bank.get(5, 0).unwrap().name, "c");
}

#[test]
fn placeholder_patch_values() {
    let p = placeholder_patch(1, 42);
    let seed = 43u8;
    assert_eq!(p.channel.algorithm, seed % 8);
    assert_eq!(p.channel.feedback, 86);
    assert_eq!(p.channel.filter_cutoff, 255);
    assert!(p.channel.filter_self_oscillation);
    for (i, op) in p.operators.iter().enumerate() {
        assert_eq!(op.waveform, (seed as usize + i) as u8 % 8);
        assert_eq!(op.tl, 255);
        assert_eq!(op.ar, 255);
        assert_eq!(op.d1l, 255);
        assert_eq!(op.rr, 255);
        assert_eq!(op.mul, 1);
        assert_eq!(op.dt1, 128);
    }
    let wrapped = placeholder_patch(300, 250);
    assert_eq!(wrapped.channel.algorithm, ((250u16 + 300) % 256 % 8) as u8);
    assert_eq!(wrapped.channel.feedback, (((250u16 + 300) % 256) * 2 % 256) as u8);
}

#[test]
fn waveform_memory_patch_maps_adsr_to_first_operator() {
    let adsr = AdsrParams { attack: 1, decay: 2, sustain: 3, release: 4 };
    let p = waveform_memory_patch(200, adsr);
    let op = p.operators[0];
    assert_eq!((op.ar, op.d1r, op.d2r, op.d1l, op.rr), (1, 2, 0, 3, 4));
    assert_eq!((op.tl, op.mul, op.dt1, op.waveform), (255, 1, 128, 200));
    for muted in &p.operators[1..] {
        assert_eq!(muted.tl, 0);
        assert_eq!(muted.waveform, 200);
    }
    assert_eq!(p.channel, ChannelParams { algorithm: 7, ..ChannelParams::default() });
}

#[test]
fn gm2_voices_values() {
    let piano = gm2_bank0_patch(0).unwrap();
    assert_eq!(piano.channel.algorithm, 4);
    assert_eq!(piano.channel.feedback, 40);
    assert_eq!(piano.operators[2].mul, 2);
    assert_eq!(piano.operators[2].dt1, 138);
    assert_eq!(piano.operators[3].dt1, 118);
    let ep = gm2_bank0_patch(4).unwrap();
    assert_eq!(ep.channel.feedback, 180);
    assert_eq!(ep.operators[0].mul, 14);
    let lead = gm2_bank0_patch(80).unwrap();
    assert_eq!(lead.channel.algorithm, 7);
    assert_eq!(lead.channel.filter_cutoff, 180);
    assert_eq!(lead.channel.filter_resonance, 60);
    assert_eq!(lead.operators[0].tl, 255);
    assert_eq!(lead.operators[3].tl, 140);
    assert!(lead.operators.iter().all(|o| o.waveform == 3));
    let _: Ym38x6Patch = lead;
}
