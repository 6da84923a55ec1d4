//! The vertex layout shared by every mesh in the vertex buffer.

use vstd::prelude::*;

verus! {

/// Three `f32` components, each held by its IEEE-754 bit pattern (`f32::to_bits`).
pub type Vec3Bits = [u32; 3];

/// One vertex as the shaders read it: position, normal and texture coordinate.
#[derive(Debug, Clone, Copy)]
pub struct Vertex3 {
    pub position: Vec3Bits,
    pub normal: Vec3Bits,
    pub uv: Vec3Bits,
}

impl Vertex3 {
    /// Assembles a vertex from its three attributes.
    pub fn new(position: Vec3Bits, normal: Vec3Bits, uv: Vec3Bits) -> (v: Self)
        ensures
            v.position == position,
            v.normal == normal,
            v.uv == uv,
    {
        Self { position, normal, uv }
    }
}

} // verus!
