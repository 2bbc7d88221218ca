//! Table formats that can be added to a session.
use vstd::prelude::*;

verus! {

/// Support for Apache Hudi tables.
#[derive(Clone, Copy, Debug, Default)]
pub struct HudiExtension {}

impl HudiExtension {
    pub fn new() -> Self {
        HudiExtension {  }
    }
}

} // verus!
