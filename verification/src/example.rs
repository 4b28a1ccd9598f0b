//! A minimal plugin built on the lifecycle contract: it accepts every
//! default and only gives itself a name and a version.

use vstd::prelude::*;
use crate::lifecycle::XTension;

verus! {

/// A plugin that does nothing beyond the defaults.
pub struct ExampleLib {}

impl XTension for ExampleLib {
    type XTensionError = &'static str;

    fn create() -> ExampleLib {
        ExampleLib {  }
    }

    fn xtension_version(&self) -> (r: (u8, u8, u8)) {
        (0, 1, 0)
    }

    fn xtension_name(&self) -> (r: String) {
        "Example Extension".to_owned()
    }
}

} // verus!
