use ym38x6::effects::{ChorusType, ReverbType};

#[test]
fn default_type_is_chorus1() {
    assert_eq!(ChorusType::default(), ChorusType::Chorus1);
}

#[test]
fn chorus_from_u8_mapping() {
    assert_eq!(ChorusType::from_u8(0), ChorusType::Chorus1);
    assert_eq!(ChorusType::from_u8(4), ChorusType::FeedbackChorus);
    assert_eq!(ChorusType::from_u8(7), ChorusType::ShortDelayFb);
    assert_eq!(ChorusType::from_u8(255), ChorusType::ShortDelayFb);
}

#[test]
fn default_type_is_hall1() {
    assert_eq!(ReverbType::default(), ReverbType::Hall1);
}

#[test]
fn reverb_from_u8_mapping() {
    assert_eq!(ReverbType::from_u8(0), ReverbType::Room1);
    assert_eq!(ReverbType::from_u8(3), ReverbType::Hall1);
    assert_eq!(ReverbType::from_u8(7), ReverbType::PanningDelay);
    assert_eq!(ReverbType::from_u8(255), ReverbType::PanningDelay);
}

#[test]
fn every_nrpn_type_value_is_covered_in_order() {
    let chorus = [
        ChorusType::Chorus1,
        ChorusType::Chorus2,
        ChorusType::Chorus3,
        ChorusType::Chorus4,
        ChorusType::FeedbackChorus,
        ChorusType::Flanger,
        ChorusType::ShortDelay,
        ChorusType::ShortDelayFb,
    ];
    let reverb = [
        ReverbType::Room1,
        ReverbType::Room2,
        ReverbType::Room3,
        ReverbType::Hall1,
        ReverbType::Hall2,
        ReverbType::Plate,
        ReverbType::Delay,
        ReverbType::PanningDelay,
    ];
    for v in 0u8..8 {
        assert_eq!(ChorusType::from_u8(v), chorus[v as usize]);
        assert_eq!(ReverbType::from_u8(v), reverb[v as usize]);
    }
    for v in 8u8..=255 {
        assert_eq!(ChorusType::from_u8(v), ChorusType::ShortDelayFb);
        assert_eq!(ReverbType::from_u8(v), ReverbType::PanningDelay);
    }
}
