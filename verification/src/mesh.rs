//! One mesh of a node, from its blobs to buffers that can be drawn.
//!
//! The stages depend on each other: texture coordinates and octants are
//! written into the vertices that the first stage makes, the octants need
//! the strip, and the normals need the number of vertices. `unpack_mesh`
//! runs them in that order.

use vstd::prelude::*;

use crate::error::{DecodeError, DecodeResult};
use crate::indices::{unpack_indices, unpacked_indices};
use crate::normals::{bytes_of, unpack_normals, unpacked_normals};
use crate::obb::{is_unpacked_obb, unpack_obb, PACKED_OBB_LEN};
use crate::octants::{
    layer_bound, octant_counts, octant_error, unpack_octant_mask_and_layer_bounds, with_octant,
    LAYER_BOUNDS_LEN,
};
use crate::texcoords::{unpack_tex_coords, unpacked_uv_transform, with_tex_coords};
use crate::vertices::{unpack_vertices, unpacked_vertex};
use crate::{OrientedBoundingBox, UvTransform, Vertex};

verus! {

/// The blobs of one mesh as the metadata message holds them, and the few
/// numbers that go with them.
pub struct MeshBlobs<'a> {
    /// The vertex positions.
    pub vertices: &'a [u8],
    /// The texture coordinates.
    pub tex_coords: &'a [u8],
    /// The triangle strip.
    pub indices: &'a [u8],
    /// The counts of strip positions for each layer and octant.
    pub layer_and_octant_counts: &'a [u8],
    /// For each vertex the number of its normal, where the mesh has normals.
    pub normals: Option<&'a [u8]>,
    /// The table of normals of the node, checked, where the node has one.
    pub for_normals: Option<&'a [u8]>,
    /// The bounding box.
    pub obb: &'a [u8],
    /// The width of the texture, in texels.
    pub texture_width: u32,
    /// The height of the texture, in texels.
    pub texture_height: u32,
}

/// One mesh, unpacked. It owns all of its buffers.
pub struct NodeMesh {
    pub vertices: Vec<Vertex>,
    pub indices: Vec<u16>,
    pub uv_transform: UvTransform,
    pub texture_width: u32,
    pub texture_height: u32,
    pub layer_bounds: [usize; 10],
    pub obb: OrientedBoundingBox,
    pub normals: Vec<u8>,
}

/// The number of vertices that the blobs hold.
pub open spec fn mesh_vertex_count(blobs: MeshBlobs) -> int {
    blobs.vertices@.len() as int / 3
}

/// The strip of a mesh whose index blob decodes.
pub open spec fn mesh_indices(blobs: MeshBlobs) -> Seq<u16> {
    unpacked_indices(blobs.indices@)->Ok_0
}

/// The error of the first stage that fails, in the order in which the
/// stages run: positions, texture coordinates, strip, octants and layer
/// bounds, normals, bounding box.
pub open spec fn mesh_error(blobs: MeshBlobs) -> Option<DecodeError> {
    let n = mesh_vertex_count(blobs);
    if blobs.vertices@.len() % 3 != 0 {
        Some(DecodeError::InvalidLength)
    } else if blobs.tex_coords@.len() != 4 + 4 * n {
        Some(DecodeError::InvalidLength)
    } else {
        match unpacked_indices(blobs.indices@) {
            Err(e) => Some(e),
            Ok(indices) => match octant_error(blobs.layer_and_octant_counts@, indices, n) {
                Some(e) => Some(e),
                None => match unpacked_normals(
                    bytes_of(blobs.normals),
                    bytes_of(blobs.for_normals),
                    n,
                ) {
                    Err(e) => Some(e),
                    Ok(_) => if blobs.obb@.len() != PACKED_OBB_LEN {
                        Some(DecodeError::InvalidLength)
                    } else {
                        None
                    },
                },
            },
        }
    }
}

/// Vertex `i` of the mesh when every stage has run: its position, then its
/// texture coordinates, then its octant.
pub open spec fn mesh_vertex(blobs: MeshBlobs, i: int) -> Vertex {
    with_octant(
        with_tex_coords(
            unpacked_vertex(blobs.vertices@, i),
            blobs.tex_coords@,
            mesh_vertex_count(blobs),
            i,
        ),
        i,
        octant_counts(blobs.layer_and_octant_counts@),
        mesh_indices(blobs),
        mesh_indices(blobs).len() as int,
    )
}

/// Whether `mesh` is what the blobs decode to.
pub open spec fn is_unpacked_mesh(mesh: NodeMesh, blobs: MeshBlobs) -> bool {
    &&& mesh.vertices@.len() == mesh_vertex_count(blobs)
    &&& forall|i: int|
        0 <= i < mesh.vertices@.len() ==> mesh.vertices@[i] == mesh_vertex(blobs, i)
    &&& mesh.indices@ == mesh_indices(blobs)
    &&& mesh.uv_transform == unpacked_uv_transform(blobs.tex_coords@)
    &&& mesh.texture_width == blobs.texture_width
    &&& mesh.texture_height == blobs.texture_height
    &&& forall|m: int|
        0 <= m < LAYER_BOUNDS_LEN ==> mesh.layer_bounds@[m] == layer_bound(
            octant_counts(blobs.layer_and_octant_counts@),
            m,
        )
    &&& is_unpacked_obb(mesh.obb, blobs.obb@)
    &&& unpacked_normals(
        bytes_of(blobs.normals),
        bytes_of(blobs.for_normals),
        mesh_vertex_count(blobs),
    ) == Ok::<Seq<u8>, DecodeError>(mesh.normals@)
}

/// Unpacks one mesh: every stage, in the order that their dependencies ask
/// for.
///
/// The result is a fresh mesh that owns its buffers. The first stage that
/// fails gives the error, and nothing is returned of the stages before it.
pub fn unpack_mesh(blobs: &MeshBlobs) -> (r: DecodeResult<NodeMesh>)
    ensures
        match r {
            Ok(mesh) => mesh_error(*blobs) is None && is_unpacked_mesh(mesh, *blobs),
            Err(e) => mesh_error(*blobs) == Some(e),
        },
{
    let mut vertices = match unpack_vertices(blobs.vertices) {
        Ok(vertices) => vertices,
        Err(e) => {
            return Err(e);
        },
    };
    let uv_transform = match unpack_tex_coords(blobs.tex_coords, vertices.as_mut_slice()) {
        Ok(uv_transform) => uv_transform,
        Err(e) => {
            return Err(e);
        },
    };
    let indices = match unpack_indices(blobs.indices) {
        Ok(indices) => indices,
        Err(e) => {
            return Err(e);
        },
    };
    let layer_bounds = match unpack_octant_mask_and_layer_bounds(
        blobs.layer_and_octant_counts,
        indices.as_slice(),
        vertices.as_mut_slice(),
    ) {
        Ok(layer_bounds) => layer_bounds,
        Err(e) => {
            return Err(e);
        },
    };
    let normals = match unpack_normals(blobs.normals, blobs.for_normals, vertices.len()) {
        Ok(normals) => normals,
        Err(e) => {
            return Err(e);
        },
    };
    let obb = match unpack_obb(blobs.obb) {
        Ok(obb) => obb,
        Err(e) => {
            return Err(e);
        },
    };
    Ok(
        NodeMesh {
            vertices,
            indices,
            uv_transform,
            texture_width: blobs.texture_width,
            texture_height: blobs.texture_height,
            layer_bounds,
            obb,
            normals,
        },
    )
}

} // verus!
