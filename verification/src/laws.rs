//! Laws of the decoder, stated and proved once for every input.
//!
//! Each proof function here states a guarantee of the decoding relation
//! that callers may lean on: index validity, the synthesized defaults,
//! the shape of made-up index lists, the meaning of root resolution,
//! and determinism of the whole decode.

use vstd::prelude::*;

use crate::assets::{
    indices_in_range, material_decodes_to, materials_decode_to, mesh_decodes_to, meshes_decode_to,
    node_decodes_to, nodes_decode_to, prim_counts_fit, prim_decodable, prim_decodes_to,
    prims_decode_to, scene_decodes_to, spec_decimal, spec_digit, spec_indices, spec_is_child,
    spec_roots, spec_roots_upto, spec_texture_ref, spec_vertex_at, spec_vertex_count,
    spec_vertices, spec_widen, LoadedGltf, LoadedMaterial, LoadedMesh, LoadedNode, LoadedPrimitive,
    SourceDocument, SourceMaterial, SourceMesh, SourceNode, SourcePrimitive,
};
use crate::math::spec_default_normal;
use crate::renderer::Vertex;

verus! {

// ---------------------------------------------------------------------
// Primitive-level laws.
// ---------------------------------------------------------------------

/// Every index of a decoded primitive is a valid position in its vertex
/// list: a declared source stream is decoded only after passing the
/// range check, and a synthesized index list is in range by
/// construction. The two premises say exactly that the primitive was
/// decoded at all ([`crate::assets::load_primitive`] requires the count
/// bound and returns `Some` only for decodable primitives).
pub proof fn lemma_decoded_indices_in_bounds(p: SourcePrimitive, lp: LoadedPrimitive)
    requires
        prim_counts_fit(p),
        prim_decodable(p),
        prim_decodes_to(p, lp),
    ensures
        forall|k: int|
            0 <= k < lp.indices@.len() ==> (#[trigger] lp.indices@[k] as int) < lp.vertices@.len(),
{
    assert(lp.vertices@.len() == spec_vertex_count(p));
    if p.indices is Some {
        assert(indices_in_range(spec_widen(p.indices->0), spec_vertex_count(p)));
        assert forall|k: int| 0 <= k < lp.indices@.len() implies (#[trigger] lp.indices@[k] as int)
            < lp.vertices@.len() by {
            assert(lp.indices@[k] == spec_widen(p.indices->0)[k]);
            assert((spec_widen(p.indices->0)[k] as nat) < spec_vertex_count(p));
        }
    } else {
        assert forall|k: int| 0 <= k < lp.indices@.len() implies (#[trigger] lp.indices@[k] as int)
            < lp.vertices@.len() by {
            assert(lp.indices@[k] == k as u32);
        }
    }
}

/// The decoded vertex streams are aligned: a decoded primitive carries
/// exactly one position, one normal and one UV per vertex, so the three
/// projected streams all have the vertex count as their length.
pub proof fn lemma_vertex_streams_aligned(p: SourcePrimitive, lp: LoadedPrimitive)
    requires
        prim_decodes_to(p, lp),
    ensures
        lp.vertices@.map_values(|v: Vertex| v.position).len() == lp.vertices@.map_values(
            |v: Vertex| v.normal,
        ).len(),
        lp.vertices@.map_values(|v: Vertex| v.normal).len() == lp.vertices@.map_values(
            |v: Vertex| v.uv,
        ).len(),
        lp.vertices@.len() == spec_vertex_count(p),
{
}

/// When the source primitive declares no normals, every decoded vertex
/// normal is the synthesized default (0, 1, 0).
pub proof fn lemma_default_normals(p: SourcePrimitive, lp: LoadedPrimitive)
    requires
        prim_decodes_to(p, lp),
        p.normals is None,
    ensures
        forall|k: int|
            0 <= k < lp.vertices@.len() ==> (#[trigger] lp.vertices@[k]).normal
                == spec_default_normal(),
{
    assert forall|k: int| 0 <= k < lp.vertices@.len() implies (#[trigger] lp.vertices@[k]).normal
        == spec_default_normal() by {
        assert(lp.vertices@[k] == spec_vertex_at(p, k));
    }
}

/// When the source primitive declares no indices, the decoded index
/// list is exactly `0, 1, ..., vertex_count - 1`, in order.
pub proof fn lemma_sequential_indices(p: SourcePrimitive, lp: LoadedPrimitive)
    requires
        prim_counts_fit(p),
        prim_decodes_to(p, lp),
        p.indices is None,
    ensures
        lp.indices@.len() == lp.vertices@.len(),
        forall|k: int| 0 <= k < lp.indices@.len() ==> (#[trigger] lp.indices@[k]) == k as u32,
{
    assert forall|k: int| 0 <= k < lp.indices@.len() implies (#[trigger] lp.indices@[k]) == k
        as u32 by {
        assert(lp.indices@[k] == spec_indices(p)[k]);
    }
}

// ---------------------------------------------------------------------
// Texture-reference laws.
// ---------------------------------------------------------------------

/// A decimal rendering is never empty, and one of a number of ten or
/// more has at least two digits.
proof fn lemma_spec_decimal_len(n: nat)
    ensures
        spec_decimal(n).len() >= 1,
        n >= 10 ==> spec_decimal(n).len() >= 2,
    decreases n,
{
    if n >= 10 {
        lemma_spec_decimal_len(n / 10);
    }
}

/// The decimal rendering has no leading zeros, so it determines the
/// number.
proof fn lemma_spec_decimal_injective(a: nat, b: nat)
    requires
        spec_decimal(a) == spec_decimal(b),
    ensures
        a == b,
    decreases a + b,
{
    lemma_spec_decimal_len(a);
    lemma_spec_decimal_len(b);
    if a < 10 && b < 10 {
        assert(spec_decimal(a)[0] == spec_digit(a));
        assert(spec_decimal(b)[0] == spec_digit(b));
    } else if a < 10 || b < 10 {
        // One rendering has one digit, the other at least two.
        assert(false);
    } else {
        assert(spec_decimal(a).last() == spec_digit(a % 10));
        assert(spec_decimal(b).last() == spec_digit(b % 10));
        assert(a % 10 == b % 10);
        assert(spec_decimal(a).drop_last() =~= spec_decimal(a / 10));
        assert(spec_decimal(b).drop_last() =~= spec_decimal(b / 10));
        lemma_spec_decimal_injective(a / 10, b / 10);
        vstd::arithmetic::div_mod::lemma_fundamental_div_mod(a as int, 10);
        vstd::arithmetic::div_mod::lemma_fundamental_div_mod(b as int, 10);
    }
}

/// Texture reference strings are stable and unique per texture index:
/// two equal references name the same texture.
pub proof fn lemma_texture_ref_unique(i: nat, j: nat)
    requires
        spec_texture_ref(i) == spec_texture_ref(j),
    ensures
        i == j,
{
    let prefix = "texture_"@;
    let a = spec_decimal(i);
    let b = spec_decimal(j);
    assert((prefix + a).len() == (prefix + b).len());
    assert forall|k: int| 0 <= k < a.len() implies a[k] == b[k] by {
        assert((prefix + a)[prefix.len() + k] == a[k]);
        assert((prefix + b)[prefix.len() + k] == b[k]);
    }
    assert(a =~= b);
    lemma_spec_decimal_injective(i, j);
}

// ---------------------------------------------------------------------
// Root-resolution laws.
// ---------------------------------------------------------------------

/// Every element of the eliminated root list is below `m`, and the list
/// is strictly increasing.
proof fn lemma_roots_upto_sorted(nodes: Seq<LoadedNode>, m: int)
    requires
        0 <= m <= usize::MAX,
    ensures
        forall|a: int|
            0 <= a < spec_roots_upto(nodes, m).len() ==> (#[trigger] spec_roots_upto(nodes, m)[a]
                as int) < m,
        forall|a: int, b: int|
            0 <= a < b < spec_roots_upto(nodes, m).len() ==> spec_roots_upto(nodes, m)[a]
                < spec_roots_upto(nodes, m)[b],
    decreases m,
{
    if m > 0 {
        lemma_roots_upto_sorted(nodes, m - 1);
        let s = spec_roots_upto(nodes, m - 1);
        let r = spec_roots_upto(nodes, m);
        assert forall|a: int| 0 <= a < r.len() implies (#[trigger] r[a] as int) < m by {
            if a < s.len() {
                assert(r[a] == s[a]);
            } else {
                assert(r[a] == (m - 1) as usize);
            }
        }
        assert forall|a: int, b: int| 0 <= a < b < r.len() implies r[a] < r[b] by {
            assert(r[a] == s[a]);
            if b < s.len() {
                assert(r[b] == s[b]);
            } else {
                assert(r[b] == (m - 1) as usize);
                assert((s[a] as int) < m - 1);
            }
        }
    }
}

/// An index below `m` appears in the eliminated root list up to `m` if
/// and only if no node references it as a child.
proof fn lemma_roots_upto_contains(nodes: Seq<LoadedNode>, m: int, i: usize)
    requires
        0 <= m <= usize::MAX,
    ensures
        spec_roots_upto(nodes, m).contains(i) <==> ((i as int) < m && !spec_is_child(
            nodes,
            i as int,
        )),
    decreases m,
{
    if m > 0 {
        lemma_roots_upto_contains(nodes, m - 1, i);
        let s = spec_roots_upto(nodes, m - 1);
        let r = spec_roots_upto(nodes, m);
        if !spec_is_child(nodes, m - 1) {
            assert(r == s.push((m - 1) as usize));
            if (i as int) < m && !spec_is_child(nodes, i as int) {
                if (i as int) < m - 1 {
                    let k = choose|k: int| 0 <= k < s.len() && s[k] == i;
                    assert(r[k] == i);
                } else {
                    assert(r[r.len() - 1] == i);
                }
            }
            if r.contains(i) {
                let k = choose|k: int| 0 <= k < r.len() && r[k] == i;
                if k < s.len() {
                    assert(s[k] == i);
                }
            }
        }
    }
}

/// Root resolution by elimination is exact: an index is in the root set
/// if and only if it indexes a node and no node's child list references
/// it. Nodes with several parents are excluded once, and leaves that
/// nothing references stay in.
pub proof fn lemma_root_iff_never_child(nodes: Seq<LoadedNode>, i: usize)
    requires
        nodes.len() <= usize::MAX,
        (i as int) < nodes.len(),
    ensures
        spec_roots(nodes).contains(i) <==> !spec_is_child(nodes, i as int),
{
    lemma_roots_upto_contains(nodes, nodes.len() as int, i);
}

/// The eliminated root set is an ordered set: strictly increasing, so
/// free of duplicates, and every member indexes a node.
pub proof fn lemma_roots_sorted(nodes: Seq<LoadedNode>)
    requires
        nodes.len() <= usize::MAX,
    ensures
        forall|a: int|
            0 <= a < spec_roots(nodes).len() ==> (#[trigger] spec_roots(nodes)[a] as int)
                < nodes.len(),
        forall|a: int, b: int|
            0 <= a < b < spec_roots(nodes).len() ==> spec_roots(nodes)[a] < spec_roots(nodes)[b],
{
    lemma_roots_upto_sorted(nodes, nodes.len() as int);
}

/// Root resolution reads nothing of a node but its child list: two node
/// lists whose child lists agree pointwise resolve to the same roots.
proof fn lemma_roots_respect_children(n1: Seq<LoadedNode>, n2: Seq<LoadedNode>, m: int)
    requires
        n1.len() == n2.len(),
        forall|x: int| 0 <= x < n1.len() ==> (#[trigger] n1[x]).children@ == n2[x].children@,
    ensures
        spec_roots_upto(n1, m) == spec_roots_upto(n2, m),
    decreases m,
{
    assert forall|i: int| spec_is_child(n1, i) <==> spec_is_child(n2, i) by {
        if spec_is_child(n1, i) {
            let (j, k) = choose|j: int, k: int|
                0 <= j < n1.len() && 0 <= k < n1[j].children@.len() && #[trigger] n1[j].children@[k]
                    == i;
            assert(n2[j].children@[k] == i);
        }
        if spec_is_child(n2, i) {
            let (j, k) = choose|j: int, k: int|
                0 <= j < n2.len() && 0 <= k < n2[j].children@.len() && #[trigger] n2[j].children@[k]
                    == i;
            assert(n1[j].children@[k] == i);
        }
    }
    if m > 0 {
        lemma_roots_respect_children(n1, n2, m - 1);
    }
}

// ---------------------------------------------------------------------
// Determinism: decoding has no hidden state.
// ---------------------------------------------------------------------

/// Two decoded primitives are structurally equal field for field.
pub open spec fn prim_eq(a: LoadedPrimitive, b: LoadedPrimitive) -> bool {
    &&& a.vertices@ == b.vertices@
    &&& a.indices@ == b.indices@
    &&& a.material_index == b.material_index
}

/// Two decoded meshes are structurally equal field for field.
pub open spec fn mesh_eq(a: LoadedMesh, b: LoadedMesh) -> bool {
    &&& a.name@ == b.name@
    &&& a.primitives@.len() == b.primitives@.len()
    &&& forall|i: int|
        0 <= i < a.primitives@.len() ==> prim_eq(#[trigger] a.primitives@[i], b.primitives@[i])
}

/// Two decoded materials are structurally equal field for field.
pub open spec fn material_eq(a: LoadedMaterial, b: LoadedMaterial) -> bool {
    &&& a.name@ == b.name@
    &&& a.base_color == b.base_color
    &&& a.metallic == b.metallic
    &&& a.roughness == b.roughness
    &&& a.base_color_texture is Some <==> b.base_color_texture is Some
    &&& a.base_color_texture is Some ==> a.base_color_texture->0@ == b.base_color_texture->0@
}

/// Two decoded nodes are structurally equal field for field.
pub open spec fn node_eq(a: LoadedNode, b: LoadedNode) -> bool {
    &&& a.name@ == b.name@
    &&& a.translation == b.translation
    &&& a.rotation == b.rotation
    &&& a.scale == b.scale
    &&& a.mesh_index == b.mesh_index
    &&& a.children@ == b.children@
}

/// Two decoded scenes are structurally equal field for field.
pub open spec fn scene_eq(a: LoadedGltf, b: LoadedGltf) -> bool {
    &&& a.materials@.len() == b.materials@.len()
    &&& forall|i: int|
        0 <= i < a.materials@.len() ==> material_eq(#[trigger] a.materials@[i], b.materials@[i])
    &&& a.meshes@.len() == b.meshes@.len()
    &&& forall|i: int| 0 <= i < a.meshes@.len() ==> mesh_eq(#[trigger] a.meshes@[i], b.meshes@[i])
    &&& a.nodes@.len() == b.nodes@.len()
    &&& forall|i: int| 0 <= i < a.nodes@.len() ==> node_eq(#[trigger] a.nodes@[i], b.nodes@[i])
    &&& a.root_nodes@ == b.root_nodes@
}

/// Decoding one primitive is deterministic.
pub proof fn lemma_prim_decode_deterministic(p: SourcePrimitive, a: LoadedPrimitive, b: LoadedPrimitive)
    requires
        prim_decodes_to(p, a),
        prim_decodes_to(p, b),
    ensures
        prim_eq(a, b),
{
}

/// Decoding a primitive list is deterministic.
pub proof fn lemma_prims_decode_deterministic(
    src: Seq<SourcePrimitive>,
    o1: Seq<LoadedPrimitive>,
    o2: Seq<LoadedPrimitive>,
)
    requires
        prims_decode_to(src, o1),
        prims_decode_to(src, o2),
    ensures
        o1.len() == o2.len(),
        forall|i: int| 0 <= i < o1.len() ==> prim_eq(#[trigger] o1[i], o2[i]),
    decreases src.len(),
{
    if src.len() == 0 {
    } else if prim_decodable(src.last()) {
        lemma_prims_decode_deterministic(src.drop_last(), o1.drop_last(), o2.drop_last());
        assert forall|i: int| 0 <= i < o1.len() implies prim_eq(#[trigger] o1[i], o2[i]) by {
            if i < o1.len() - 1 {
                assert(prim_eq(o1.drop_last()[i], o2.drop_last()[i]));
                assert(o1.drop_last()[i] == o1[i]);
                assert(o2.drop_last()[i] == o2[i]);
            } else {
                assert(o1[i] == o1.last());
                assert(o2[i] == o2.last());
                assert(prim_eq(o1.last(), o2.last()));
            }
        }
    } else {
        lemma_prims_decode_deterministic(src.drop_last(), o1, o2);
    }
}

/// Decoding the same document twice yields structurally equal scenes:
/// the decode has no hidden state that changes its output across runs.
pub proof fn lemma_scene_decode_deterministic(doc: SourceDocument, a: LoadedGltf, b: LoadedGltf)
    requires
        scene_decodes_to(doc, a),
        scene_decodes_to(doc, b),
    ensures
        scene_eq(a, b),
{
    assert forall|i: int| 0 <= i < a.meshes@.len() implies mesh_eq(
        #[trigger] a.meshes@[i],
        b.meshes@[i],
    ) by {
        assert(mesh_decodes_to(doc.meshes@[i], a.meshes@[i]));
        assert(mesh_decodes_to(doc.meshes@[i], b.meshes@[i]));
        lemma_prims_decode_deterministic(
            doc.meshes@[i].primitives@,
            a.meshes@[i].primitives@,
            b.meshes@[i].primitives@,
        );
    }
    if doc.default_scene is None {
        lemma_roots_respect_children(a.nodes@, b.nodes@, a.nodes@.len() as int);
    }
}

} // verus!
