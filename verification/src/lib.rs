//! Decoding of the packed mesh blobs of the rocktree terrain format.
//!
//! Every function here is a pure transformation of bytes already in memory:
//! no I/O, no shared state. Each one states in its contract what it returns
//! for every input, over plain sequences of bytes.
//!
//! The stages of one mesh run in a fixed order: [`unpack_vertices`] first,
//! then [`unpack_tex_coords`] and [`unpack_indices`], then
//! [`unpack_octant_mask_and_layer_bounds`], then [`unpack_normals`].
//! [`unpack_obb`] and [`unpack_path_and_flags`] stand alone.

use vstd::prelude::*;

mod error;

pub mod bytes;
pub mod compare;
pub mod indices;
pub mod mesh;
pub mod normals;
pub mod obb;
pub mod octants;
pub mod path;
pub mod texcoords;
pub mod varint;
pub mod vertices;

pub use error::{DecodeError, DecodeResult};
pub use indices::unpack_indices;
pub use mesh::{unpack_mesh, MeshBlobs, NodeMesh};
pub use normals::{unpack_for_normals, unpack_normals};
pub use obb::unpack_obb;
pub use octants::unpack_octant_mask_and_layer_bounds;
pub use path::unpack_path_and_flags;
pub use texcoords::unpack_tex_coords;
pub use varint::read_varint;
pub use vertices::unpack_vertices;

verus! {

/// Deepest level an octree path can reach. The decoders do not rely on it.
pub const MAX_LEVEL: usize = 20;

/// One vertex of a mesh, eight bytes on the wire.
///
/// `x`, `y`, `z` are the position, `w` is the octant the vertex lies in, and
/// `u`, `v` are the texture coordinates. A freshly unpacked vertex has only
/// its position set; the later stages fill in the rest.
#[derive(Debug, Clone, Copy, PartialEq, Eq, Structural)]
pub struct Vertex {
    pub x: u8,
    pub y: u8,
    pub z: u8,
    pub w: u8,
    pub u: u16,
    pub v: u16,
}

impl Vertex {
    /// The number of bytes of a vertex on the wire.
    pub const PACKED_SIZE: usize = 8;

    /// The bytes of a vertex in wire order: `x`, `y`, `z`, `w`, then `u` and
    /// `v`, each low byte first.
    pub open spec fn wire_bytes(self) -> Seq<u8> {
        seq![
            self.x,
            self.y,
            self.z,
            self.w,
            (self.u % 256) as u8,
            (self.u / 256) as u8,
            (self.v % 256) as u8,
            (self.v / 256) as u8,
        ]
    }

    /// Lays the vertex out as it goes to the GPU, with no padding.
    pub fn to_bytes(&self) -> (r: [u8; 8])
        ensures
            r@ == self.wire_bytes(),
    {
        let r: [u8; 8] = [
            self.x,
            self.y,
            self.z,
            self.w,
            (self.u % 256) as u8,
            (self.u / 256) as u8,
            (self.v % 256) as u8,
            (self.v / 256) as u8,
        ];
        r
    }
}

impl Default for Vertex {
    /// The vertex with every field zero.
    fn default() -> (r: Self)
        ensures
            r == (Vertex { x: 0, y: 0, z: 0, w: 0, u: 0, v: 0 }),
    {
        Vertex { x: 0, y: 0, z: 0, w: 0, u: 0, v: 0 }
    }
}

/// How the raw texture coordinates of a mesh map onto the unit square.
///
/// A raw `u` runs from zero up to, but not including, `u_mod`, so the scale
/// along U is one over `u_mod`; likewise for `v`. Both bounds lie between 1
/// and 65536.
#[derive(Debug, Clone, Copy, PartialEq, Eq, Structural)]
pub struct UvTransform {
    pub u_mod: u32,
    pub v_mod: u32,
}

/// The bounding box of a node as its fifteen bytes hold it.
///
/// `center` is the offset of the middle of the box from the center of the
/// head node, and `extents` are the half-widths of the box along its own
/// axes, both in texels. `orientation` holds three Euler angles, each in
/// steps of which 65536 make a full turn.
#[derive(Debug, Clone, Copy)]
pub struct OrientedBoundingBox {
    pub center: [i16; 3],
    pub extents: [u8; 3],
    pub orientation: [u16; 3],
}

/// The path of a node, its level and its flags, as one packed integer held
/// them.
#[derive(Debug, Clone)]
pub struct PathAndFlags {
    /// One octal digit for each level, such as "53".
    pub path: String,
    /// The flags of the node. What each bit means is the caller's business.
    pub flags: u32,
    /// The number of digits of the path, 1 to 4.
    pub level: usize,
}

} // verus!
