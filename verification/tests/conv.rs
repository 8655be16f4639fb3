use ym38x6::opq::{
    bank_of, detune_to_dt1, preset_count, scale_2bit, scale_3bit, scale_4bit, scale_5bit,
    tl_opq_to_x6, tl_x6_to_opq, voices_to_preset_files, NamedVoice, OpqOperator, OpqVoice,
};
use ym38x6::preset::{PresetEntry, PresetFile};

#[test]
fn scaling_reaches_upper_bound() {
    assert_eq!(scale_5bit(31), 248);
    assert_eq!(scale_4bit(15), 255);
    assert_eq!(scale_3bit(7), 252);
    assert_eq!(scale_2bit(3), 255);
    assert_eq!(scale_5bit(0), 0);
    assert_eq!(scale_4bit(0), 0);
}

#[test]
fn scaling_clamps_out_of_range_input() {
    assert_eq!(scale_5bit(99), 248);
    assert_eq!(scale_4bit(99), 255);
    assert_eq!(scale_3bit(99), 252);
    assert_eq!(scale_2bit(99), 255);
}

#[test]
fn detune_center_maps_to_128() {
    assert_eq!(detune_to_dt1(32), 128);
    assert_eq!(detune_to_dt1(0), 0);
    assert_eq!(detune_to_dt1(63), 252);
}

#[test]
fn tl_polarity_inverts() {
    assert_eq!(tl_opq_to_x6(0), 254);
    assert_eq!(tl_opq_to_x6(127), 0);
}

#[test]
fn tl_is_fully_reversible_over_full_range() {
    for tl in 0u8..=127 {
        assert_eq!(tl_x6_to_opq(tl_opq_to_x6(tl)), tl, "tl={tl}");
    }
}

#[test]
fn operator_fills_38x6_specific_fields_with_defaults() {
    let op = OpqOperator {
        tl: 10,
        ar: 31,
        d1r: 20,
        d2r: 5,
        d1l: 8,
        rr: 15,
        mul: 3,
        detune: 40,
        ksr: 2,
        am_enable: true,
    };
    let p = op.to_operator_params();
    assert_eq!(p.tl, tl_opq_to_x6(10));
    assert_eq!(p.ar, 248);
    assert_eq!(p.mul, 3);
    assert_eq!(p.dt1, 160);
    assert_eq!(p.ksr, 170);
    assert!(p.am_enable);
    assert_eq!(p.velocity_sensitivity, 0);
    assert_eq!(p.waveform, 0);
}

#[test]
fn voice_maps_algorithm_and_feedback() {
    let voice = OpqVoice {
        operators: [OpqOperator::default(); 4],
        algorithm: 7,
        feedback: 7,
    };
    let patch = voice.to_ym38x6_patch();
    assert_eq!(patch.channel.algorithm, 7);
    assert_eq!(patch.channel.feedback, 252);
    assert_eq!(patch.channel.filter_cutoff, 255);
}

#[test]
fn chunks_into_banks_of_128() {
    let voices: Vec<NamedVoice> = (0..130)
        .map(|i| NamedVoice {
            name: format!("V{i}"),
            voice: OpqVoice::default(),
        })
        .collect();
    let files = voices_to_preset_files(1, &voices);
    assert_eq!(files.len(), 2);
    match &files[0] {
        PresetFile::Presets { bank, presets } => {
            assert_eq!(*bank, 1);
            assert_eq!(presets.len(), 128);
            assert_eq!(presets[0].program, 0);
            assert_eq!(presets[127].program, 127);
        }
        _ => panic!("expected Presets"),
    }
    match &files[1] {
        PresetFile::Presets { bank, presets } => {
            assert_eq!(*bank, 2);
            assert_eq!(presets.len(), 2);
            assert_eq!(presets[0].program, 0);
        }
        _ => panic!("expected Presets"),
    }
}

#[test]
fn scaled_values_divide_back_to_register_values() {
    for v in 0u8..=31 {
        assert_eq!(scale_5bit(v) / 8, v);
    }
    for v in 0u8..=15 {
        assert_eq!(scale_4bit(v) / 17, v);
    }
    for v in 0u8..=7 {
        assert_eq!(scale_3bit(v) / 36, v);
    }
    for v in 0u8..=3 {
        assert_eq!(scale_2bit(v) / 85, v);
    }
    for v in 0u8..=63 {
        assert_eq!(detune_to_dt1(v) / 4, v);
    }
}

#[test]
fn full_operator_conversion_values() {
    let op = OpqOperator {
        tl: 200,
        ar: 7,
        d1r: 40,
        d2r: 1,
        d1l: 16,
        rr: 3,
        mul: 20,
        detune: 70,
        ksr: 9,
        am_enable: false,
    };
    let p = op.to_operator_params();
    assert_eq!(p.tl, 0);
    assert_eq!(p.ar, 56);
    assert_eq!(p.d1r, 248);
    assert_eq!(p.d2r, 8);
    assert_eq!(p.d1l, 255);
    assert_eq!(p.rr, 51);
    assert_eq!(p.mul, 15);
    assert_eq!(p.dt1, 252);
    assert_eq!(p.ksr, 255);
    assert!(!p.am_enable);
    assert_eq!(p.op_fine_tune, 128);
}

#[test]
fn voice_clamps_algorithm_and_keeps_operator_order() {
    let mut ops = [OpqOperator::default(); 4];
    for (i, op) in ops.iter_mut().enumerate() {
        op.mul = i as u8 + 1;
    }
    let voice = OpqVoice { operators: ops, algorithm: 9, feedback: 3 };
    let patch = voice.to_ym38x6_patch();
    assert_eq!(patch.channel.algorithm, 7);
    assert_eq!(patch.channel.feedback, 108);
    for i in 0..4 {
        assert_eq!(patch.operators[i].mul, i as u8 + 1);
    }
    assert!(patch.channel.filter_self_oscillation);
}

#[test]
fn bank_of_and_preset_count_read_both_file_kinds() {
    let entry = PresetEntry {
        program: 3,
        name: "X".to_string(),
        patch: OpqVoice::default().to_ym38x6_patch(),
    };
    let a = PresetFile::Presets { bank: 9, presets: vec![entry.clone(), entry.clone()] };
    let b = PresetFile::Programs { bank: 12, programs: vec![entry] };
    assert_eq!(bank_of(&a), 9);
    assert_eq!(bank_of(&b), 12);
    assert_eq!(preset_count(&a), 2);
    assert_eq!(preset_count(&b), 1);
}

#[test]
fn voices_keep_names_and_order_across_banks() {
    let voices: Vec<NamedVoice> = (0..300)
        .map(|i| NamedVoice {
            name: format!("V{i}"),
            voice: OpqVoice { algorithm: (i % 8) as u8, ..OpqVoice::default() },
        })
        .collect();
    let files = voices_to_preset_files(40, &voices);
    assert_eq!(files.len(), 3);
    for (k, v) in voices.iter().enumerate() {
        match &files[k / 128] {
            PresetFile::Presets { bank, presets } => {
                assert_eq!(*bank as usize, 40 + k / 128);
                let e = &presets[k % 128];
                assert_eq!(e.program as usize, k % 128);
                assert_eq!(e.name, v.name);
                assert_eq!(e.patch, v.voice.to_ym38x6_patch());
            }
            _ => panic!("expected Presets"),
        }
    }
    assert!(voices_to_preset_files(5, &[]).is_empty());
}
