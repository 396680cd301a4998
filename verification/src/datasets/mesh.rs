//! The mesh family: triangles of three vertices and a normal.
//!
//! A coordinate is held as the bit pattern of an IEEE-754 single, so that
//! records compare bit for bit.

use vstd::prelude::*;
use crate::record::{Generate, StructuralEq};
use crate::stream::Stream;

verus! {

/// The bit pattern with exponent 127 and the draw's upper 23 bits as
/// mantissa: a single in `[1, 2)`.
pub open spec fn unit_bits(draw: u32) -> u32 {
    (0x3F80_0000 + draw / 512) as u32
}

/// The bit pattern of a single in `[1, 2)`.
pub open spec fn is_unit_bits(bits: u32) -> bool {
    0x3F80_0000 <= bits <= 0x3FFF_FFFF
}

/// Three coordinates.
#[derive(Clone, Copy, Debug, PartialEq, Eq, Structural)]
pub struct Vector3 {
    pub x: u32,
    pub y: u32,
    pub z: u32,
}

/// A triangle of a mesh.
#[derive(Clone, Copy, Debug, PartialEq, Eq, Structural)]
pub struct Triangle {
    pub v0: Vector3,
    pub v1: Vector3,
    pub v2: Vector3,
    pub normal: Vector3,
}

impl Vector3 {
    /// Every coordinate is a single in `[1, 2)`.
    pub open spec fn wf(self) -> bool {
        is_unit_bits(self.x) && is_unit_bits(self.y) && is_unit_bits(self.z)
    }
}

impl Triangle {
    /// Every coordinate of every corner and of the normal is a single in
    /// `[1, 2)`.
    pub open spec fn wf(self) -> bool {
        self.v0.wf() && self.v1.wf() && self.v2.wf() && self.normal.wf()
    }
}

impl View for Vector3 {
    type V = Vector3;

    open spec fn view(&self) -> Vector3 {
        *self
    }
}

impl View for Triangle {
    type V = Triangle;

    open spec fn view(&self) -> Triangle {
        *self
    }
}

fn draw_unit_bits(stream: &mut Stream) -> (bits: u32)
    ensures
        bits == unit_bits(old(stream).peek()),
        is_unit_bits(bits),
        *final(stream) == old(stream).skip(1),
{
    let draw = stream.next_u32();
    0x3F80_0000u32 + draw / 512
}

impl Generate for Vector3 {
    /// Three draws, one for each coordinate in the order x, y, z.
    open spec fn generated(stream: Stream) -> (Vector3, Stream) {
        (
            Vector3 {
                x: unit_bits(stream.peek()),
                y: unit_bits(stream.skip(1).peek()),
                z: unit_bits(stream.skip(2).peek()),
            },
            stream.skip(3),
        )
    }

    open spec fn well_formed(vector: Vector3) -> bool {
        vector.wf()
    }

    proof fn lemma_generated_well_formed(stream: Stream) {
    }

    fn generate(stream: &mut Stream) -> (vector: Vector3) {
        let x = draw_unit_bits(stream);
        let y = draw_unit_bits(stream);
        let z = draw_unit_bits(stream);
        proof {
            old(stream).lemma_skip_add(1, 1);
            old(stream).lemma_skip_add(2, 1);
        }
        Vector3 { x, y, z }
    }
}

impl Generate for Triangle {
    /// The three corners, then the normal.
    open spec fn generated(stream: Stream) -> (Triangle, Stream) {
        let (v0, after_v0) = Vector3::generated(stream);
        let (v1, after_v1) = Vector3::generated(after_v0);
        let (v2, after_v2) = Vector3::generated(after_v1);
        let (normal, after) = Vector3::generated(after_v2);
        (Triangle { v0, v1, v2, normal }, after)
    }

    open spec fn well_formed(triangle: Triangle) -> bool {
        triangle.wf()
    }

    proof fn lemma_generated_well_formed(stream: Stream) {
    }

    fn generate(stream: &mut Stream) -> (triangle: Triangle) {
        let v0 = Vector3::generate(stream);
        let v1 = Vector3::generate(stream);
        let v2 = Vector3::generate(stream);
        let normal = Vector3::generate(stream);
        Triangle { v0, v1, v2, normal }
    }
}

impl StructuralEq for Vector3 {
    fn same(&self, other: &Vector3) -> (equal: bool) {
        self.x == other.x && self.y == other.y && self.z == other.z
    }
}

impl StructuralEq for Triangle {
    fn same(&self, other: &Triangle) -> (equal: bool) {
        self.v0.same(&other.v0) && self.v1.same(&other.v1) && self.v2.same(&other.v2)
            && self.normal.same(&other.normal)
    }
}

} // verus!
