//! Optimizing imported triangle lists for the GPU with meshoptimizer:
//! merging equal vertices, ordering triangles for the vertex cache, and
//! ordering vertices by first use. Vertices are handled as bytes, one
//! `VERTEX_SIZE`-byte record each.
use vstd::prelude::*;
use crate::renderer::mesh::VERTEX_SIZE;

verus! {

/// The vertex count and remap table `meshopt::generate_vertex_remap` gives
/// for an index buffer over vertex records.
pub uninterp spec fn meshopt_vertex_remap(indices: Seq<u32>, vertices: Seq<u8>) -> (usize, Seq<u32>);

/// The vertex records `meshopt::remap_vertex_buffer` gives for a remap
/// table.
pub uninterp spec fn meshopt_remapped_vertices(vertices: Seq<u8>, vertex_count: usize, remap: Seq<u32>) -> Seq<u8>;

/// The index buffer `meshopt::optimize_vertex_cache` gives.
pub uninterp spec fn meshopt_vertex_cache_order(indices: Seq<u32>, vertex_count: usize) -> Seq<u32>;

/// The marker of a vertex that no index refers to.
pub const UNUSED_VERTEX: u32 = 0xFFFF_FFFF;

/// The number of vertex records in a byte buffer.
pub open spec fn record_count(vertices: Seq<u8>) -> int {
    vertices.len() as int / VERTEX_SIZE as int
}

/// Every index names one of `count` vertices.
pub open spec fn indices_below(indices: Seq<u32>, count: int) -> bool {
    forall|i: int| 0 <= i < indices.len() ==> #[trigger] indices[i] < count
}

/// The distinct indices of an index buffer, in the order of their first use.
pub open spec fn first_uses(indices: Seq<u32>) -> Seq<u32>
    decreases indices.len(),
{
    if indices.len() == 0 {
        Seq::empty()
    } else {
        let prev = first_uses(indices.drop_last());
        if prev.contains(indices.last()) {
            prev
        } else {
            prev.push(indices.last())
        }
    }
}

/// The `v`-th vertex record of a byte buffer.
pub open spec fn record_of(bytes: Seq<u8>, v: int) -> Seq<u8> {
    bytes.subrange(v * VERTEX_SIZE, v * VERTEX_SIZE + VERTEX_SIZE)
}

/// `p` is a permutation of the `n` triangles of an index buffer.
pub open spec fn is_face_permutation(p: Seq<int>, n: nat) -> bool {
    &&& p.len() == n
    &&& forall|t: int| 0 <= t < p.len() ==> 0 <= #[trigger] p[t] < p.len()
    &&& forall|t1: int, t2: int| 0 <= t1 < p.len() && 0 <= t2 < p.len() && t1 != t2 ==> #[trigger] p[t1] != #[trigger] p[t2]
}

/// `p` sends each triangle of `out` to the triangle of `inp` it repeats,
/// vertex for vertex, and no two triangles to the same one.
pub open spec fn is_triangle_permutation(p: Seq<int>, out: Seq<u32>, inp: Seq<u32>) -> bool {
    &&& out.len() == inp.len()
    &&& inp.len() == 3 * p.len()
    &&& is_face_permutation(p, p.len())
    &&& forall|t: int, k: int| 0 <= t < p.len() && 0 <= k < 3 ==> #[trigger] out[3 * t + k] == inp[3 * p[t] + k]
}

/// The triangles of `out` are those of `inp`, each once, in some order.
pub open spec fn triangles_permuted(out: Seq<u32>, inp: Seq<u32>) -> bool {
    exists|p: Seq<int>| is_triangle_permutation(p, out, inp)
}

/// `meshopt::generate_vertex_remap` over vertex records of `VERTEX_SIZE`
/// bytes. Its source shows that the table has one entry per record, that
/// the entry of every indexed record is below the returned count and no
/// larger than the record count, that records nothing indexes get
/// `UNUSED_VERTEX`, and that two records share a new number only where they
/// are byte for byte equal; which new number each record gets is not
/// stated.
#[verifier::external_body]
fn generate_vertex_remap(indices: &Vec<u32>, vertices: &Vec<u8>) -> (r: (usize, Vec<u32>))
    requires
        vertices@.len() % (VERTEX_SIZE as nat) == 0,
        indices_below(indices@, record_count(vertices@)),
    ensures
        (r.0, r.1@) == meshopt_vertex_remap(indices@, vertices@),
        r.1@.len() == record_count(vertices@),
        r.0 <= record_count(vertices@),
        forall|v: int| 0 <= v < r.1@.len() && r.1@[v] != UNUSED_VERTEX ==> #[trigger] r.1@[v] < r.0,
        forall|i: int| 0 <= i < indices@.len() ==> #[trigger] r.1@[indices@[i] as int] != UNUSED_VERTEX,
        forall|v: int, w: int|
            0 <= v < r.1@.len() && 0 <= w < r.1@.len() && r.1@[v] != UNUSED_VERTEX && #[trigger] r.1@[v] == #[trigger] r.1@[w]
                ==> record_of(vertices@, v) == record_of(vertices@, w),
{
    let records: Vec<([u8; 32], [u8; 16])> =
        vertices.chunks_exact(48).map(|c| (c[..32].try_into().unwrap(), c[32..].try_into().unwrap())).collect();
    meshopt::generate_vertex_remap(&records, Some(indices.as_slice()))
}

/// `meshopt::remap_index_buffer`: each index replaced by its entry in the
/// remap table.
#[verifier::external_body]
fn remap_index_buffer(indices: &Vec<u32>, remap: &Vec<u32>) -> (r: Vec<u32>)
    requires
        indices_below(indices@, remap@.len() as int),
        forall|i: int| 0 <= i < indices@.len() ==> #[trigger] remap@[indices@[i] as int] != UNUSED_VERTEX,
    ensures
        r@.len() == indices@.len(),
        forall|i: int| 0 <= i < r@.len() ==> #[trigger] r@[i] == remap@[indices@[i] as int],
{
    meshopt::remap_index_buffer(Some(indices.as_slice()), remap.len(), remap.as_slice())
}

/// `meshopt::remap_vertex_buffer` over vertex records of `VERTEX_SIZE`
/// bytes: `vertex_count` records, each filled from the records that the
/// table sends there. Where the records sent to one place are all equal,
/// that place holds their bytes; the bytes of a place nothing is sent to
/// are not stated.
#[verifier::external_body]
fn remap_vertex_buffer(vertices: &Vec<u8>, vertex_count: usize, remap: &Vec<u32>) -> (r: Vec<u8>)
    requires
        vertices@.len() % (VERTEX_SIZE as nat) == 0,
        remap@.len() == record_count(vertices@),
        vertex_count <= record_count(vertices@),
        forall|v: int| 0 <= v < remap@.len() && remap@[v] != UNUSED_VERTEX ==> #[trigger] remap@[v] < vertex_count,
        forall|v: int, w: int|
            0 <= v < remap@.len() && 0 <= w < remap@.len() && remap@[v] != UNUSED_VERTEX && #[trigger] remap@[v] == #[trigger] remap@[w]
                ==> record_of(vertices@, v) == record_of(vertices@, w),
    ensures
        r@ == meshopt_remapped_vertices(vertices@, vertex_count, remap@),
        r@.len() == vertex_count * VERTEX_SIZE,
        forall|v: int|
            0 <= v < remap@.len() && remap@[v] != UNUSED_VERTEX ==> record_of(r@, #[trigger] remap@[v] as int) == record_of(vertices@, v),
{
    let records: Vec<([u8; 32], [u8; 16])> =
        vertices.chunks_exact(48).map(|c| (c[..32].try_into().unwrap(), c[32..].try_into().unwrap())).collect();
    let remapped = meshopt::remap_vertex_buffer(&records, vertex_count, remap.as_slice());
    remapped.iter().flat_map(|(a, b)| a.iter().chain(b.iter()).copied()).collect()
}

/// `meshopt::optimize_vertex_cache`: the triangles reordered for the
/// vertex cache. Its source shows that every triangle of the input is
/// output once, its vertices in their order, so every index stays below
/// the vertex count; the order of the triangles is not stated.
#[verifier::external_body]
fn optimize_vertex_cache(indices: &Vec<u32>, vertex_count: usize) -> (r: Vec<u32>)
    requires
        indices@.len() % 3 == 0,
        indices_below(indices@, vertex_count as int),
    ensures
        r@ == meshopt_vertex_cache_order(indices@, vertex_count),
        r@.len() == indices@.len(),
        indices_below(r@, vertex_count as int),
        triangles_permuted(r@, indices@),
{
    meshopt::optimize_vertex_cache(indices.as_slice(), vertex_count)
}

/// `meshopt::optimize_vertex_fetch` over vertex records of `VERTEX_SIZE`
/// bytes: the records in the order their indices are first used, and each
/// index renumbered to its record's new place.
#[verifier::external_body]
fn optimize_vertex_fetch(indices: &mut Vec<u32>, vertices: &Vec<u8>) -> (r: Vec<u8>)
    requires
        vertices@.len() % (VERTEX_SIZE as nat) == 0,
        indices_below(old(indices)@, record_count(vertices@)),
    ensures
        final(indices)@.len() == old(indices)@.len(),
        forall|i: int|
            0 <= i < final(indices)@.len() ==> #[trigger] final(indices)@[i] < first_uses(old(indices)@).len()
                && first_uses(old(indices)@)[final(indices)@[i] as int] == old(indices)@[i],
        r@.len() == first_uses(old(indices)@).len() * VERTEX_SIZE,
        forall|k: int, j: int|
            0 <= k < first_uses(old(indices)@).len() && 0 <= j < VERTEX_SIZE ==> #[trigger] r@[k * VERTEX_SIZE + j]
                == vertices@[first_uses(old(indices)@)[k] * VERTEX_SIZE + j],
{
    let records: Vec<([u8; 32], [u8; 16])> =
        vertices.chunks_exact(48).map(|c| (c[..32].try_into().unwrap(), c[32..].try_into().unwrap())).collect();
    let reordered = meshopt::optimize_vertex_fetch(indices.as_mut_slice(), &records);
    reordered.iter().flat_map(|(a, b)| a.iter().chain(b.iter()).copied()).collect()
}

/// Merges the vertex records that are byte for byte equal, renumbers the
/// indices to match, and reorders the triangles for the vertex cache.
/// Returns the new indices and vertex records.
pub fn optimize_vertex_cache_stage(indices: &Vec<u32>, vertices: &Vec<u8>) -> (r: (Vec<u32>, Vec<u8>))
    requires
        vertices@.len() % (VERTEX_SIZE as nat) == 0,
        indices@.len() % 3 == 0,
        indices_below(indices@, record_count(vertices@)),
    ensures
        ({
            let (count, remap) = meshopt_vertex_remap(indices@, vertices@);
            let remapped = Seq::new(indices@.len(), |i: int| remap[indices@[i] as int]);
            &&& r.1@ == meshopt_remapped_vertices(vertices@, count, remap)
            &&& r.0@ == meshopt_vertex_cache_order(remapped, count)
            &&& r.1@.len() == count * VERTEX_SIZE
        }),
        r.0@.len() == indices@.len(),
        r.1@.len() % (VERTEX_SIZE as nat) == 0,
        indices_below(r.0@, record_count(r.1@)),
        // The mesh is unchanged: the new triangles are the old ones in some
        // order, each drawing the bytes of the records the old one drew.
        exists|p: Seq<int>|
            #[trigger] is_face_permutation(p, (indices@.len() / 3) as nat) && forall|t: int, k: int|
                0 <= t < p.len() && 0 <= k < 3 ==> #[trigger] record_of(r.1@, r.0@[3 * t + k] as int) == record_of(
                    vertices@,
                    indices@[3 * p[t] + k] as int,
                ),
{
    let (count, remap) = generate_vertex_remap(indices, vertices);
    let remapped = remap_index_buffer(indices, &remap);
    let records = remap_vertex_buffer(vertices, count, &remap);
    proof {
        assert(remapped@ =~= Seq::new(indices@.len(), |i: int| remap@[indices@[i] as int]));
        assert(indices_below(remapped@, count as int)) by {
            assert forall|i: int| 0 <= i < remapped@.len() implies #[trigger] remapped@[i] < count by {
                assert(remap@[indices@[i] as int] != UNUSED_VERTEX);
            }
        }
        assert(records@.len() % (VERTEX_SIZE as nat) == 0) by (nonlinear_arith)
            requires
                records@.len() == count * 48,
        ;
        assert(record_count(records@) == count) by (nonlinear_arith)
            requires
                records@.len() == count * 48,
        ;
    }
    let ordered = optimize_vertex_cache(&remapped, count);
    proof {
        let p = choose|p: Seq<int>| is_triangle_permutation(p, ordered@, remapped@);
        assert forall|t: int, k: int| 0 <= t < p.len() && 0 <= k < 3 implies #[trigger] record_of(
            records@,
            ordered@[3 * t + k] as int,
        ) == record_of(vertices@, indices@[3 * p[t] + k] as int) by {
            let i = 3 * p[t] + k;
            assert(ordered@[3 * t + k] == remapped@[i]);
            assert(remapped@[i] == remap@[indices@[i] as int]);
            assert(remap@[indices@[i] as int] != UNUSED_VERTEX);
        }
        assert(is_face_permutation(p, (indices@.len() / 3) as nat));
    }
    (ordered, records)
}

/// Reorders the vertex records by the first use of their indices, drops
/// those no index uses, and renumbers the indices to match. Returns the new
/// indices and vertex records.
pub fn optimize_vertex_fetch_stage(indices: Vec<u32>, vertices: &Vec<u8>) -> (r: (Vec<u32>, Vec<u8>))
    requires
        vertices@.len() % (VERTEX_SIZE as nat) == 0,
        indices_below(indices@, record_count(vertices@)),
    ensures
        r.0@.len() == indices@.len(),
        forall|i: int|
            0 <= i < r.0@.len() ==> #[trigger] r.0@[i] < first_uses(indices@).len() && first_uses(indices@)[r.0@[i] as int]
                == indices@[i],
        r.1@.len() == first_uses(indices@).len() * VERTEX_SIZE,
        forall|k: int, j: int|
            0 <= k < first_uses(indices@).len() && 0 <= j < VERTEX_SIZE ==> #[trigger] r.1@[k * VERTEX_SIZE + j]
                == vertices@[first_uses(indices@)[k] * VERTEX_SIZE + j],
        // Every triangle still draws the same vertices: the record each new
        // index names holds the bytes of the record its old index named.
        forall|i: int, j: int|
            0 <= i < indices@.len() && 0 <= j < VERTEX_SIZE ==> #[trigger] r.1@[r.0@[i] * VERTEX_SIZE + j]
                == vertices@[indices@[i] * VERTEX_SIZE + j],
{
    let ghost original = indices@;
    let mut indices = indices;
    let records = optimize_vertex_fetch(&mut indices, vertices);
    proof {
        assert forall|i: int, j: int| 0 <= i < original.len() && 0 <= j < VERTEX_SIZE implies #[trigger] records@[
            indices@[i] * VERTEX_SIZE + j] == vertices@[original[i] * VERTEX_SIZE + j] by {
            let k = indices@[i] as int;
            assert(k < first_uses(original).len());
            assert(records@[k * VERTEX_SIZE + j] == vertices@[first_uses(original)[k] * VERTEX_SIZE + j]);
        }
    }
    (indices, records)
}

} // verus!
