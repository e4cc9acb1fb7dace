//! The operations that the scene asks of a drawing surface.
//!
//! The scene does not draw. A repaint yields the commands of one frame, in the
//! order in which the host has to perform them on its surface.

use vstd::prelude::*;
use crate::geometry::{Region, Scalar};

verus! {

/// One operation on the 2D paint context of the host.
#[derive(Clone, Copy, Debug, PartialEq, Eq, Structural)]
pub enum DrawCommand {
    /// Erase the region.
    ClearRect(Region),
    /// Set the alpha of the surface. It stays set for every later command,
    /// until the next `SetGlobalAlpha`.
    SetGlobalAlpha(Scalar),
    /// Fill the region with the current fill style and alpha.
    FillRect(Region),
}

} // verus!
