use vstd::prelude::*;

verus! {

/// The value that stands for "unbounded" in pixel units.
pub const UNBOUNDED: u32 = 65535;

/// Size constraints that a parent imposes on a child while it is measured.
#[derive(Clone, Copy, Debug, PartialEq, Eq, Structural)]
pub struct Constraints {
    pub min_width: u32,
    pub max_width: u32,
    pub min_height: u32,
    pub max_height: u32,
}

impl Constraints {
    /// The constraints that leave a widget free: no minimum, unbounded maximum.
    pub open spec fn unbounded() -> Constraints {
        Constraints { min_width: 0, max_width: UNBOUNDED, min_height: 0, max_height: UNBOUNDED }
    }
}

impl Default for Constraints {
    fn default() -> (r: Constraints)
        ensures
            r == Constraints::unbounded(),
    {
        Constraints { min_width: 0, max_width: UNBOUNDED, min_height: 0, max_height: UNBOUNDED }
    }
}

} // verus!
