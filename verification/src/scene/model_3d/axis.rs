//! The three coordinate axes a vector can be rotated about.

use vstd::prelude::*;

verus! {

/// A world axis.
#[derive(Clone, Copy, Debug, PartialEq, Eq, Structural)]
pub enum Axis {
    X,
    Y,
    Z,
}

} // verus!
