//! Master effect types selected by NRPN values (GM2/GS numbering).

use vstd::prelude::*;

verus! {

/// GM2/GS chorus type. Declaration order is the NRPN value (0..=7).
#[derive(Clone, Copy, Debug, PartialEq, Eq, Structural)]
pub enum ChorusType {
    Chorus1,
    Chorus2,
    Chorus3,
    Chorus4,
    FeedbackChorus,
    Flanger,
    ShortDelay,
    ShortDelayFb,
}

impl Default for ChorusType {
    fn default() -> (r: Self)
        ensures
            r == ChorusType::Chorus1,
    {
        ChorusType::Chorus1
    }
}

/// The chorus type numbered `value`; out-of-range values clamp to the last type.
pub open spec fn spec_chorus_type(value: u8) -> ChorusType {
    if value == 0 {
        ChorusType::Chorus1
    } else if value == 1 {
        ChorusType::Chorus2
    } else if value == 2 {
        ChorusType::Chorus3
    } else if value == 3 {
        ChorusType::Chorus4
    } else if value == 4 {
        ChorusType::FeedbackChorus
    } else if value == 5 {
        ChorusType::Flanger
    } else if value == 6 {
        ChorusType::ShortDelay
    } else {
        ChorusType::ShortDelayFb
    }
}

impl ChorusType {
    /// From an NRPN value (0..=7); larger values clamp to `ShortDelayFb`.
    pub fn from_u8(value: u8) -> (r: Self)
        ensures
            r == spec_chorus_type(value),
    {
        match value {
            0 => ChorusType::Chorus1,
            1 => ChorusType::Chorus2,
            2 => ChorusType::Chorus3,
            3 => ChorusType::Chorus4,
            4 => ChorusType::FeedbackChorus,
            5 => ChorusType::Flanger,
            6 => ChorusType::ShortDelay,
            _ => ChorusType::ShortDelayFb,
        }
    }
}

/// GM2/GS reverb type. Declaration order is the NRPN value (0..=7).
#[derive(Clone, Copy, Debug, PartialEq, Eq, Structural)]
pub enum ReverbType {
    Room1,
    Room2,
    Room3,
    Hall1,
    Hall2,
    Plate,
    Delay,
    PanningDelay,
}

impl Default for ReverbType {
    fn default() -> (r: Self)
        ensures
            r == ReverbType::Hall1,
    {
        ReverbType::Hall1
    }
}

/// The reverb type numbered `value`; out-of-range values clamp to the last type.
pub open spec fn spec_reverb_type(value: u8) -> ReverbType {
    if value == 0 {
        ReverbType::Room1
    } else if value == 1 {
        ReverbType::Room2
    } else if value == 2 {
        ReverbType::Room3
    } else if value == 3 {
        ReverbType::Hall1
    } else if value == 4 {
        ReverbType::Hall2
    } else if value == 5 {
        ReverbType::Plate
    } else if value == 6 {
        ReverbType::Delay
    } else {
        ReverbType::PanningDelay
    }
}

impl ReverbType {
    /// From an NRPN value (0..=7); larger values clamp to `PanningDelay`.
    pub fn from_u8(value: u8) -> (r: Self)
        ensures
            r == spec_reverb_type(value),
    {
        match value {
            0 => ReverbType::Room1,
            1 => ReverbType::Room2,
            2 => ReverbType::Room3,
            3 => ReverbType::Hall1,
            4 => ReverbType::Hall2,
            5 => ReverbType::Plate,
            6 => ReverbType::Delay,
            _ => ReverbType::PanningDelay,
        }
    }
}

} // verus!
