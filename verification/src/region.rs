//! Scan-region input model: a planar rectangular surface, an explicit list of
//! waypoint poses, or an arc about a pivot.

use vstd::prelude::*;
use crate::quantity::{F64Bits, Quantity};

verus! {

/// A waypoint pose as authored: position + orientation quaternion `[x, y, z, w]`.
#[derive(Debug, Clone, Copy, PartialEq, Eq)]
pub struct WaypointPose {
    /// Position in R^3 (metres).
    pub position: [F64Bits; 3],
    /// Orientation unit quaternion `[x, y, z, w]`.
    pub orientation: [F64Bits; 4],
}

/// A scan region.
#[derive(Debug, Clone, PartialEq)]
pub enum ScanRegion {
    /// A planar rectangular surface of `size_u` by `size_v` in `frame`'s
    /// xy-plane, outward normal `+z`.
    Surface {
        /// The region reference frame.
        frame: String,
        /// Extent along the frame x-axis (the u direction).
        size_u: Quantity,
        /// Extent along the frame y-axis (the v direction).
        size_v: Quantity,
    },
    /// An explicit ordered list of sweep poses.
    Waypoints {
        /// The reference frame the poses are expressed in.
        frame: String,
        /// The ordered poses.
        poses: Vec<WaypointPose>,
    },
    /// A swept arc about a pivot in the frame's xy-plane.
    Arc {
        /// The region reference frame.
        frame: String,
        /// The pivot point (metres).
        pivot: [F64Bits; 3],
        /// The start angle of the arc.
        arc_start: Quantity,
        /// The angular extent of the arc.
        arc_extent: Quantity,
    },
}

} // verus!
