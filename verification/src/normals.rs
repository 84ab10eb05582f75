//! Normals: a table of three-byte normals, and for each vertex the number of
//! its entry in the table.

use vstd::prelude::*;
use vstd::slice::slice_to_vec;

use crate::bytes::le_u16;
use crate::error::{DecodeError, DecodeResult};

verus! {

/// The value of each component of a normal where a mesh has no normals.
pub const FALLBACK_NORMAL: u8 = 127;

/// The fourth byte of every normal, which only pads it to four bytes.
pub const NORMAL_PADDING: u8 = 0;

/// The bytes that a blob holds, where there is one.
pub open spec fn bytes_of(blob: Option<&[u8]>) -> Option<Seq<u8>> {
    match blob {
        Some(bytes) => Some(bytes@),
        None => None,
    }
}

/// The number of the table entry of the `i`-th of `n` vertices. The low
/// bytes of all vertices come first, then their high bytes.
pub open spec fn lookup_index(lookups: Seq<u8>, n: int, i: int) -> int {
    le_u16(lookups[i], lookups[n + i])
}

/// Whether the entry of each of `n` vertices lies in the table.
pub open spec fn lookups_in_table(lookups: Seq<u8>, table: Seq<u8>, n: int) -> bool {
    forall|i: int| 0 <= i < n ==> 3 * lookup_index(lookups, n, i) + 3 <= table.len()
}

/// Byte `k` of the normals of a mesh with a table: the three bytes of the
/// entry of vertex `k / 4`, then the padding.
pub open spec fn expanded_normal_byte(lookups: Seq<u8>, table: Seq<u8>, n: int, k: int) -> u8 {
    if k % 4 == 3 {
        NORMAL_PADDING
    } else {
        table[3 * lookup_index(lookups, n, k / 4) + k % 4]
    }
}

/// The normals of `n` vertices, four bytes each, looked up in the table.
pub open spec fn expanded_normals(lookups: Seq<u8>, table: Seq<u8>, n: int) -> Seq<u8> {
    Seq::new((4 * n) as nat, |k: int| expanded_normal_byte(lookups, table, n, k))
}

/// Byte `k` of the normals of a mesh without normals.
pub open spec fn default_normal_byte(k: int) -> u8 {
    if k % 4 == 3 {
        NORMAL_PADDING
    } else {
        FALLBACK_NORMAL
    }
}

/// The normals of `n` vertices of a mesh without normals.
pub open spec fn default_normals(n: int) -> Seq<u8> {
    Seq::new((4 * n) as nat, |k: int| default_normal_byte(k))
}

/// The normals of a mesh of `n` vertices. Without lookups or without a
/// table they are the default ones. With both, the lookups must be two bytes
/// for each vertex and the table whole entries, else the length is invalid;
/// and a lookup that lies outside the table is `Malformed`.
pub open spec fn unpacked_normals(
    mesh_normals: Option<Seq<u8>>,
    for_normals: Option<Seq<u8>>,
    n: int,
) -> Result<Seq<u8>, DecodeError> {
    match (mesh_normals, for_normals) {
        (Some(lookups), Some(table)) => if lookups.len() != 2 * n || table.len() % 3 != 0 {
            Err(DecodeError::InvalidLength)
        } else if !lookups_in_table(lookups, table, n) {
            Err(DecodeError::Malformed)
        } else {
            Ok(expanded_normals(lookups, table, n))
        },
        _ => Ok(default_normals(n)),
    }
}

/// Checks the table of normals of a node and hands it on unchanged.
///
/// The table is three bytes for each normal, so a length that is not a
/// multiple of three is refused.
pub fn unpack_for_normals(for_normals: &[u8]) -> (r: DecodeResult<Vec<u8>>)
    ensures
        for_normals@.len() % 3 != 0 ==> r == Err::<Vec<u8>, DecodeError>(
            DecodeError::InvalidLength,
        ),
        for_normals@.len() % 3 == 0 ==> r is Ok && r->Ok_0@ == for_normals@,
{
    if for_normals.len() % 3 != 0 {
        return Err(DecodeError::InvalidLength);
    }
    Ok(slice_to_vec(for_normals))
}

/// The normals of a mesh that has none.
fn fallback_normals(vertex_count: usize) -> (normals: Vec<u8>)
    ensures
        normals@ == default_normals(vertex_count as int),
{
    let mut normals: Vec<u8> = Vec::new();
    let mut i: usize = 0;
    while i < vertex_count
        invariant
            i <= vertex_count,
            normals@.len() == 4 * i,
            forall|k: int| 0 <= k < 4 * i ==> normals@[k] == default_normal_byte(k),
        decreases vertex_count - i,
    {
        normals.push(FALLBACK_NORMAL);
        normals.push(FALLBACK_NORMAL);
        normals.push(FALLBACK_NORMAL);
        normals.push(NORMAL_PADDING);
        i = i + 1;
    }
    normals
}

/// Expands the normals of a mesh to four bytes for each vertex.
///
/// `mesh_normals` holds for each vertex the number of its entry in the
/// table, `for_normals` is the table as [`unpack_for_normals`] returned it.
/// Where either is missing the mesh gets default normals and the call
/// succeeds: normals only improve the rendering.
pub fn unpack_normals(
    mesh_normals: Option<&[u8]>,
    for_normals: Option<&[u8]>,
    vertex_count: usize,
) -> (r: DecodeResult<Vec<u8>>)
    ensures
        r is Ok ==> r->Ok_0@.len() == 4 * vertex_count,
        match r {
            Ok(normals) => unpacked_normals(
                bytes_of(mesh_normals),
                bytes_of(for_normals),
                vertex_count as int,
            ) == Ok::<Seq<u8>, DecodeError>(normals@),
            Err(e) => unpacked_normals(
                bytes_of(mesh_normals),
                bytes_of(for_normals),
                vertex_count as int,
            ) == Err::<Seq<u8>, DecodeError>(e),
        },
{
    let (lookups, table) = match (mesh_normals, for_normals) {
        (Some(lookups), Some(table)) => (lookups, table),
        _ => {
            return Ok(fallback_normals(vertex_count));
        },
    };
    if lookups.len() / 2 != vertex_count || lookups.len() % 2 != 0 || table.len() % 3 != 0 {
        return Err(DecodeError::InvalidLength);
    }
    let mut normals: Vec<u8> = Vec::new();
    let mut i: usize = 0;
    while i < vertex_count
        invariant
            i <= vertex_count,
            bytes_of(mesh_normals) == Some(lookups@),
            bytes_of(for_normals) == Some(table@),
            lookups@.len() == 2 * vertex_count,
            table@.len() % 3 == 0,
            normals@.len() == 4 * i,
            forall|j: int|
                0 <= j < i ==> 3 * lookup_index(lookups@, vertex_count as int, j) + 3
                    <= table@.len(),
            forall|k: int|
                0 <= k < 4 * i ==> normals@[k] == expanded_normal_byte(
                    lookups@,
                    table@,
                    vertex_count as int,
                    k,
                ),
        decreases vertex_count - i,
    {
        let entry: usize = lookups[i] as usize + 256 * (lookups[vertex_count + i] as usize);
        if 3 * entry + 3 > table.len() {
            assert(3 * lookup_index(lookups@, vertex_count as int, i as int) + 3 > table@.len());
            return Err(DecodeError::Malformed);
        }
        normals.push(table[3 * entry]);
        normals.push(table[3 * entry + 1]);
        normals.push(table[3 * entry + 2]);
        normals.push(NORMAL_PADDING);
        i = i + 1;
    }
    assert(normals@ =~= expanded_normals(lookups@, table@, vertex_count as int));
    Ok(normals)
}

} // verus!
