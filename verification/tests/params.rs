use ym38x6::mapping::effective_tl;
use ym38x6::params::{
    AdsrParams, ChannelParams, FilterType, LfoDestination, LfoWaveform, OperatorParams,
    Ym38x6LfoDestination, Ym38x6Patch,
};

#[test]
fn filter_type_from_u8_mapping() {
    assert_eq!(FilterType::from_u8(0), FilterType::Lp);
    assert_eq!(FilterType::from_u8(1), FilterType::Hp);
    assert_eq!(FilterType::from_u8(2), FilterType::Bp);
    assert_eq!(FilterType::from_u8(255), FilterType::Bp);
}

#[test]
fn effective_tl_clamps() {
    assert_eq!(effective_tl(250, 127, 255), 255);
    assert_eq!(effective_tl(0, 0, 255), 0);
    assert_eq!(effective_tl(100, 0, 100), 100);
}

#[test]
fn effective_tl_rounds_to_nearest() {
    // 10 + 64/127*100 = 60.39...
    assert_eq!(effective_tl(10, 64, 100), 60);
    // 0 + 1/127*64 = 0.503...
    assert_eq!(effective_tl(0, 1, 64), 1);
    // 0 + 1/127*63 = 0.496...
    assert_eq!(effective_tl(0, 1, 63), 0);
    assert_eq!(effective_tl(100, 127, 100), 200);
    for base in [0u8, 17, 128, 255] {
        for vel in [0u8, 1, 63, 127] {
            for sens in [0u8, 1, 99, 255] {
                let expected = ((base as f64 + vel as f64 / 127.0 * sens as f64).round()).min(255.0) as u8;
                assert_eq!(effective_tl(base, vel, sens), expected);
            }
        }
    }
}

#[test]
fn defaults() {
    let adsr = AdsrParams::default();
    assert_eq!((adsr.attack, adsr.decay, adsr.sustain, adsr.release), (200, 150, 180, 100));
    let ch = ChannelParams::default();
    assert_eq!(ch.filter_cutoff, 255);
    assert!(ch.filter_self_oscillation);
    assert_eq!(ch.algorithm, 0);
    let op = OperatorParams::default();
    assert_eq!(op.tl, 0);
    assert_eq!(op.op_fine_tune, 128);
    let patch = Ym38x6Patch::default();
    assert_eq!(patch.operators, [op; 4]);
    assert_eq!(Ym38x6LfoDestination::default(), Ym38x6LfoDestination::Pitch);
    assert_eq!(LfoWaveform::default(), LfoWaveform::Triangle);
    assert_eq!(FilterType::default(), FilterType::Lp);
}

#[test]
fn lfo_selectors() {
    assert_eq!(LfoWaveform::from_u8(0), LfoWaveform::Triangle);
    assert_eq!(LfoWaveform::from_u8(1), LfoWaveform::Sine);
    assert_eq!(LfoWaveform::from_u8(2), LfoWaveform::Square);
    assert_eq!(LfoWaveform::from_u8(3), LfoWaveform::SampleHold);
    assert_eq!(LfoWaveform::from_u8(9), LfoWaveform::Triangle);
    assert_eq!(Ym38x6LfoDestination::from_nrpn(0), Ym38x6LfoDestination::Pitch);
    assert_eq!(Ym38x6LfoDestination::from_nrpn(1), Ym38x6LfoDestination::Volume);
    assert_eq!(Ym38x6LfoDestination::from_nrpn(5), Ym38x6LfoDestination::TlCarrier);
    assert_eq!(Ym38x6LfoDestination::from_command(1), Ym38x6LfoDestination::Volume);
    assert_eq!(Ym38x6LfoDestination::from_command(2), Ym38x6LfoDestination::TlCarrier);
    assert_eq!(Ym38x6LfoDestination::from_command(5), Ym38x6LfoDestination::Pitch);
    assert_eq!(LfoDestination::from_nrpn(0), LfoDestination::Pitch);
    assert_eq!(LfoDestination::from_nrpn(2), LfoDestination::Volume);
    assert_eq!(LfoDestination::from_command(1), LfoDestination::Volume);
    assert_eq!(LfoDestination::from_command(0), LfoDestination::Pitch);
    assert_eq!(LfoDestination::from_command(2), LfoDestination::Pitch);
}
