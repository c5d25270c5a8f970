//! The static geometry: one triangle of three fixed vertices.
//!
//! Coordinates live in normalized device space and are halves or zero, so
//! they are held exactly as integer thousandths; the host divides by 1000
//! when it fills the device buffer.

use vstd::prelude::*;

verus! {

/// One vertex: a 2D position in normalized device space, in thousandths.
#[derive(Clone, Copy, Debug, PartialEq, Eq, Structural)]
pub struct Vertex {
    /// Horizontal position times 1000.
    pub x_milli: i32,
    /// Vertical position times 1000.
    pub y_milli: i32,
}

/// The triangle's vertices: (0.5, 0.5), (-0.5, 0.5), (0.0, -0.5).
pub open spec fn spec_triangle() -> Seq<Vertex> {
    seq![
        Vertex { x_milli: 500, y_milli: 500 },
        Vertex { x_milli: -500i32, y_milli: 500 },
        Vertex { x_milli: 0, y_milli: -500i32 },
    ]
}

/// Builds the vertex data uploaded once at startup: exactly the three
/// triangle vertices, never touched again.
pub fn triangle_vertices() -> (r: Vec<Vertex>)
    ensures
        r@ == spec_triangle(),
        r@.len() == 3,
{
    let mut v: Vec<Vertex> = Vec::new();
    v.push(Vertex { x_milli: 500, y_milli: 500 });
    v.push(Vertex { x_milli: -500, y_milli: 500 });
    v.push(Vertex { x_milli: 0, y_milli: -500 });
    proof {
        assert(v@ =~= spec_triangle());
    }
    v
}

} // verus!
