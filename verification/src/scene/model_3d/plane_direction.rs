//! Names for the three planes a camera derives from its orientation.

use vstd::prelude::*;

verus! {

/// Which of a camera's three derived planes is meant.  The signed
/// distance to the YZ plane is the camera-local x coordinate, to the XZ
/// plane the local y, and to the XY plane the local depth.
#[derive(Clone, Copy, Debug, PartialEq, Eq, Hash, Structural)]
pub enum PlaneDirection {
    YZ,
    XZ,
    XY,
}

} // verus!
