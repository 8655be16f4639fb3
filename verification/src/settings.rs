//! Application settings (`settings.ini`, section `engine`, key `type`).

use vstd::prelude::*;
use vstd::string::*;

verus! {

/// Which engine the composition app runs.
#[derive(Clone, Debug)]
pub struct Settings {
    /// `"wms1"` or `"ym38x6"`.
    pub engine_type: String,
}

impl Default for Settings {
    fn default() -> (r: Self)
        ensures
            r.engine_type@ == "wms1"@,
    {
        Settings { engine_type: String::from_str("wms1") }
    }
}

impl Settings {
    /// Settings from the value of `engine.type`, `"wms1"` when it is absent.
    pub fn from_engine_value(value: Option<String>) -> (r: Self)
        ensures
            value matches Some(v) ==> r.engine_type@ == v@,
            value is None ==> r.engine_type@ == "wms1"@,
    {
        match value {
            Some(v) => Settings { engine_type: v },
            None => Settings::default(),
        }
    }
}

} // verus!
