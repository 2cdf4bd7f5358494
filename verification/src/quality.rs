//! The grades of soil and pseudo.
use vstd::prelude::*;

verus! {

/// A three-step grade, used for the soil of a plant and for the pseudo that
/// goes into meth.
#[derive(Clone, Copy, Debug, PartialEq, Eq, Hash, Structural)]
pub enum Quality {
    Low,
    Medium,
    High,
}

impl Default for Quality {
    fn default() -> (quality: Quality)
        ensures
            quality == Quality::Low,
    {
        Quality::Low
    }
}

} // verus!
