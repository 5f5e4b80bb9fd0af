//! Decoder for scene-interchange assets.
//!
//! A source document — the parsed JSON scene graph of an interchange
//! asset together with the attribute data pulled from its binary
//! buffers — is decoded into fixed-schema, engine-ready lists: meshes
//! of primitives, materials, and a node hierarchy with resolved roots.
//! All cross-references are plain integer indices into sibling lists.
//!
//! Opening and parsing the asset file is the caller's business; the
//! decoder is a pure transform over the already-extracted plain values.

use vstd::prelude::*;

use crate::math::{
    spec_default_base_color, spec_default_normal, spec_default_uv, ColorBits, QuatBits, Vec2Bits,
    Vec3Bits, F32_BITS_ONE,
};
use crate::renderer::{Mesh, Vertex};

verus! {

/// Result type for asset decoding operations.
pub type GltfResult<T> = Result<T, GltfError>;

/// Errors from asset decoding.
#[derive(Debug, Clone, PartialEq, Eq)]
pub enum GltfError {
    /// The asset could not be opened or its container could not be
    /// parsed at all.
    IoError(String),
    /// A structural decode failure inside an opened document.
    ParseError(String),
    /// Required data was absent where the contract demands it.
    MissingData(String),
}

/// The human-readable text of an error: its kind, then its detail.
pub open spec fn spec_error_message(e: GltfError) -> Seq<char> {
    match e {
        GltfError::IoError(m) => "IO error: "@ + m@,
        GltfError::ParseError(m) => "Parse error: "@ + m@,
        GltfError::MissingData(m) => "Missing data: "@ + m@,
    }
}

impl GltfError {
    /// Render the error as human-readable text.
    pub fn message(&self) -> (r: String)
        ensures
            r@ == spec_error_message(*self),
    {
        match self {
            GltfError::IoError(m) => String::from_str("IO error: ").concat(m.as_str()),
            GltfError::ParseError(m) => String::from_str("Parse error: ").concat(m.as_str()),
            GltfError::MissingData(m) => String::from_str("Missing data: ").concat(m.as_str()),
        }
    }
}

// ---------------------------------------------------------------------
// Source-side data: what the caller extracts from a parsed document.
// ---------------------------------------------------------------------

/// Index data of a source primitive, at its declared width.
#[derive(Debug, Clone)]
pub enum SourceIndices {
    /// 8-bit indices.
    U8(Vec<u8>),
    /// 16-bit indices.
    U16(Vec<u16>),
    /// 32-bit indices.
    U32(Vec<u32>),
}

/// One mesh primitive as the source document declares it: optional
/// attribute streams plus an optional index stream.
#[derive(Debug, Clone)]
pub struct SourcePrimitive {
    /// Vertex positions; a primitive without them is unusable.
    pub positions: Option<Vec<Vec3Bits>>,
    /// Vertex normals, if declared.
    pub normals: Option<Vec<Vec3Bits>>,
    /// First-channel texture coordinates, if declared.
    pub uvs: Option<Vec<Vec2Bits>>,
    /// Index stream, if declared.
    pub indices: Option<SourceIndices>,
    /// Material reference, if declared.
    pub material_index: Option<usize>,
}

/// One mesh of the source document.
#[derive(Debug, Clone)]
pub struct SourceMesh {
    /// Declared name, if any.
    pub name: Option<String>,
    /// Primitives in declaration order.
    pub primitives: Vec<SourcePrimitive>,
}

/// One material of the source document. Absent factors take the source
/// schema's own defaults during decoding.
#[derive(Debug, Clone)]
pub struct SourceMaterial {
    /// Declared name, if any.
    pub name: Option<String>,
    /// Base color factor (RGBA), if declared.
    pub base_color: Option<ColorBits>,
    /// Metallic factor, if declared.
    pub metallic: Option<u32>,
    /// Roughness factor, if declared.
    pub roughness: Option<u32>,
    /// Index of the bound base-color texture, if any.
    pub base_color_texture: Option<usize>,
}

/// One node of the source document, its local transform already
/// decomposed into translation, rotation and scale.
#[derive(Debug, Clone)]
pub struct SourceNode {
    /// Declared name, if any.
    pub name: Option<String>,
    /// Local translation.
    pub translation: Vec3Bits,
    /// Local rotation as a unit quaternion.
    pub rotation: QuatBits,
    /// Local scale.
    pub scale: Vec3Bits,
    /// Mesh binding, if any.
    pub mesh_index: Option<usize>,
    /// Child node indices in declaration order.
    pub children: Vec<usize>,
}

/// A whole parsed source document.
#[derive(Debug, Clone)]
pub struct SourceDocument {
    /// Materials in declaration order.
    pub materials: Vec<SourceMaterial>,
    /// Meshes in declaration order.
    pub meshes: Vec<SourceMesh>,
    /// Nodes in declaration order.
    pub nodes: Vec<SourceNode>,
    /// Node indices of the default scene, if the document declares one.
    pub default_scene: Option<Vec<usize>>,
}

// ---------------------------------------------------------------------
// Decoded data: the engine-ready result.
// ---------------------------------------------------------------------

/// One decoded renderable primitive.
#[derive(Debug, Clone, PartialEq, Eq)]
pub struct LoadedPrimitive {
    /// Vertices for this primitive.
    pub vertices: Vec<Vertex>,
    /// Indices for this primitive; every value is a valid position in
    /// `vertices`.
    pub indices: Vec<u32>,
    /// Material index (if any).
    pub material_index: Option<usize>,
}

/// A decoded mesh: its decodable primitives in source order.
#[derive(Debug, Clone, PartialEq, Eq)]
pub struct LoadedMesh {
    /// Mesh name.
    pub name: String,
    /// All primitives in this mesh.
    pub primitives: Vec<LoadedPrimitive>,
}

/// A decoded material.
#[derive(Debug, Clone, PartialEq, Eq)]
pub struct LoadedMaterial {
    /// Material name.
    pub name: String,
    /// Base color factor (RGBA), as `f32` bit patterns.
    pub base_color: ColorBits,
    /// Metallic factor, as an `f32` bit pattern.
    pub metallic: u32,
    /// Roughness factor, as an `f32` bit pattern.
    pub roughness: u32,
    /// Stable reference string of the base-color texture (if any).
    pub base_color_texture: Option<String>,
}

/// A decoded node of the scene hierarchy.
#[derive(Debug, Clone, PartialEq, Eq)]
pub struct LoadedNode {
    /// Node name.
    pub name: String,
    /// Local translation.
    pub translation: Vec3Bits,
    /// Local rotation.
    pub rotation: QuatBits,
    /// Local scale.
    pub scale: Vec3Bits,
    /// Mesh index (if this node has a mesh).
    pub mesh_index: Option<usize>,
    /// Child node indices.
    pub children: Vec<usize>,
}

/// A complete decoded scene.
#[derive(Debug, Clone, PartialEq, Eq)]
pub struct LoadedGltf {
    /// All meshes.
    pub meshes: Vec<LoadedMesh>,
    /// All materials.
    pub materials: Vec<LoadedMaterial>,
    /// All nodes.
    pub nodes: Vec<LoadedNode>,
    /// Root node indices.
    pub root_nodes: Vec<usize>,
}

// ---------------------------------------------------------------------
// The meaning of primitive decoding.
// ---------------------------------------------------------------------

/// The smaller of two naturals.
pub open spec fn min2(a: nat, b: nat) -> nat {
    if a <= b {
        a
    } else {
        b
    }
}

/// How many vertices a decodable primitive yields: the length of the
/// position stream, clipped to the declared normal and UV streams.
pub open spec fn spec_vertex_count(p: SourcePrimitive) -> nat {
    let n = p.positions->0@.len();
    let n1 = if p.normals is Some {
        min2(n, p.normals->0@.len())
    } else {
        n
    };
    if p.uvs is Some {
        min2(n1, p.uvs->0@.len())
    } else {
        n1
    }
}

/// The vertex decoded at position `i`: the source position, with the
/// normal defaulting to (0, 1, 0) and the UV to (0, 0) when the source
/// declares no such stream.
pub open spec fn spec_vertex_at(p: SourcePrimitive, i: int) -> Vertex {
    Vertex {
        position: p.positions->0@[i],
        normal: if p.normals is Some {
            p.normals->0@[i]
        } else {
            spec_default_normal()
        },
        uv: if p.uvs is Some {
            p.uvs->0@[i]
        } else {
            spec_default_uv()
        },
    }
}

/// The full decoded vertex list of a decodable primitive.
pub open spec fn spec_vertices(p: SourcePrimitive) -> Seq<Vertex> {
    Seq::new(spec_vertex_count(p), |i: int| spec_vertex_at(p, i))
}

/// Source indices widened to a uniform 32-bit representation.
pub open spec fn spec_widen(ix: SourceIndices) -> Seq<u32> {
    match ix {
        SourceIndices::U8(v) => Seq::new(v@.len(), |i: int| v@[i] as u32),
        SourceIndices::U16(v) => Seq::new(v@.len(), |i: int| v@[i] as u32),
        SourceIndices::U32(v) => v@,
    }
}

/// The decoded index list: the widened source stream if one is
/// declared, else the sequential list `0, 1, ..., vertex_count - 1`.
pub open spec fn spec_indices(p: SourcePrimitive) -> Seq<u32> {
    if p.indices is Some {
        spec_widen(p.indices->0)
    } else {
        Seq::new(spec_vertex_count(p), |i: int| i as u32)
    }
}

/// Every value of the index sequence is below `n`.
pub open spec fn indices_in_range(s: Seq<u32>, n: nat) -> bool {
    forall|k: int| 0 <= k < s.len() ==> (#[trigger] s[k] as nat) < n
}

/// A primitive is decodable when it has positions and its declared
/// index stream, if any, stays within the decoded vertex count. Any
/// other primitive is dropped, so every decoded index is a valid
/// vertex position.
pub open spec fn prim_decodable(p: SourcePrimitive) -> bool {
    &&& p.positions is Some
    &&& p.indices is Some ==> indices_in_range(spec_widen(p.indices->0), spec_vertex_count(p))
}

/// `lp` is exactly what decoding the decodable primitive `p` yields.
pub open spec fn prim_decodes_to(p: SourcePrimitive, lp: LoadedPrimitive) -> bool {
    &&& lp.vertices@ == spec_vertices(p)
    &&& lp.indices@ == spec_indices(p)
    &&& lp.material_index == p.material_index
}

/// A synthesized sequential index list must fit 32-bit indices; this
/// bounds the vertex count in the one case where indices are made up.
pub open spec fn prim_counts_fit(p: SourcePrimitive) -> bool {
    p.positions is Some && p.indices is None ==> spec_vertex_count(p) <= u32::MAX
}

// ---------------------------------------------------------------------
// Primitive decoding.
// ---------------------------------------------------------------------

/// Copy a `u32` vector element for element.
fn copy_u32s(v: &Vec<u32>) -> (r: Vec<u32>)
    ensures
        r@ == v@,
{
    let mut r: Vec<u32> = Vec::new();
    let mut i: usize = 0;
    while i < v.len()
        invariant
            i <= v@.len(),
            r@ == v@.take(i as int),
        decreases v@.len() - i,
    {
        r.push(v[i]);
        i += 1;
        proof {
            assert(r@ =~= v@.take(i as int));
        }
    }
    proof {
        assert(r@ =~= v@);
    }
    r
}

/// Copy a vertex vector element for element.
fn copy_vertices(v: &Vec<Vertex>) -> (r: Vec<Vertex>)
    ensures
        r@ == v@,
{
    let mut r: Vec<Vertex> = Vec::new();
    let mut i: usize = 0;
    while i < v.len()
        invariant
            i <= v@.len(),
            r@ == v@.take(i as int),
        decreases v@.len() - i,
    {
        r.push(v[i]);
        i += 1;
        proof {
            assert(r@ =~= v@.take(i as int));
        }
    }
    proof {
        assert(r@ =~= v@);
    }
    r
}

/// Widen a source index stream to 32 bits, value for value.
pub fn widen_indices(ix: &SourceIndices) -> (r: Vec<u32>)
    ensures
        r@ == spec_widen(*ix),
{
    match ix {
        SourceIndices::U8(v) => {
            let mut r: Vec<u32> = Vec::new();
            let mut i: usize = 0;
            while i < v.len()
                invariant
                    i <= v@.len(),
                    r@ == spec_widen(*ix).take(i as int),
                    ix is U8 && ix->U8_0@ == v@,
                decreases v@.len() - i,
            {
                r.push(v[i] as u32);
                i += 1;
                proof {
                    assert(r@ =~= spec_widen(*ix).take(i as int));
                }
            }
            proof {
                assert(r@ =~= spec_widen(*ix));
            }
            r
        },
        SourceIndices::U16(v) => {
            let mut r: Vec<u32> = Vec::new();
            let mut i: usize = 0;
            while i < v.len()
                invariant
                    i <= v@.len(),
                    r@ == spec_widen(*ix).take(i as int),
                    ix is U16 && ix->U16_0@ == v@,
                decreases v@.len() - i,
            {
                r.push(v[i] as u32);
                i += 1;
                proof {
                    assert(r@ =~= spec_widen(*ix).take(i as int));
                }
            }
            proof {
                assert(r@ =~= spec_widen(*ix));
            }
            r
        },
        SourceIndices::U32(v) => copy_u32s(v),
    }
}

/// Whether every index value is below `n`.
fn indices_below(v: &Vec<u32>, n: usize) -> (r: bool)
    ensures
        r == indices_in_range(v@, n as nat),
{
    let mut i: usize = 0;
    while i < v.len()
        invariant
            i <= v@.len(),
            forall|k: int| 0 <= k < i ==> (#[trigger] v@[k] as nat) < n as nat,
        decreases v@.len() - i,
    {
        if v[i] as u64 >= n as u64 {
            proof {
                assert(!((v@[i as int] as nat) < n as nat));
            }
            return false;
        }
        i += 1;
    }
    true
}

/// Decode one source primitive.
///
/// Positions are mandatory, and a declared index stream must stay
/// within the decoded vertex count: a primitive missing positions, or
/// whose indices point past its vertices, is dropped (`None`), never an
/// error — the per-primitive best-effort policy, extended to corrupt
/// index data so that every decoded index is a valid vertex position.
/// Normals default to (0, 1, 0) and UVs to (0, 0) per vertex when
/// absent; indices are widened to 32 bits when present and synthesized
/// as `0..vertex_count` when not; the material reference is carried
/// through unchanged.
pub fn load_primitive(p: &SourcePrimitive) -> (r: Option<LoadedPrimitive>)
    requires
        prim_counts_fit(*p),
    ensures
        r is Some <==> prim_decodable(*p),
        r is Some ==> prim_decodes_to(*p, r->0),
{
    let positions = match &p.positions {
        Some(v) => v,
        None => {
            return None;
        },
    };

    let mut count: usize = positions.len();
    if let Some(ns) = &p.normals {
        if ns.len() < count {
            count = ns.len();
        }
    }
    if let Some(ts) = &p.uvs {
        if ts.len() < count {
            count = ts.len();
        }
    }
    proof {
        assert(count == spec_vertex_count(*p));
    }

    let indices: Vec<u32> = match &p.indices {
        Some(src) => {
            let widened = widen_indices(src);
            if !indices_below(&widened, count) {
                return None;
            }
            widened
        },
        None => {
            let mut ix: Vec<u32> = Vec::new();
            let mut k: usize = 0;
            while k < count
                invariant
                    k <= count,
                    count == spec_vertex_count(*p),
                    count <= u32::MAX,
                    p.positions is Some,
                    p.indices is None,
                    ix@ == spec_indices(*p).take(k as int),
                decreases count - k,
            {
                ix.push(k as u32);
                k += 1;
                proof {
                    assert(ix@ =~= spec_indices(*p).take(k as int));
                }
            }
            proof {
                assert(ix@ =~= spec_indices(*p));
            }
            ix
        },
    };

    let mut vertices: Vec<Vertex> = Vec::new();
    let mut i: usize = 0;
    while i < count
        invariant
            i <= count,
            count == spec_vertex_count(*p),
            p.positions is Some,
            positions@ == p.positions->0@,
            count <= positions@.len(),
            p.normals is Some ==> count <= p.normals->0@.len(),
            p.uvs is Some ==> count <= p.uvs->0@.len(),
            vertices@ == spec_vertices(*p).take(i as int),
        decreases count - i,
    {
        let normal = match &p.normals {
            Some(ns) => ns[i],
            None => crate::math::default_normal(),
        };
        let uv = match &p.uvs {
            Some(ts) => ts[i],
            None => crate::math::default_uv(),
        };
        let v = Vertex { position: positions[i], normal, uv };
        vertices.push(v);
        i += 1;
        proof {
            assert(vertices@ =~= spec_vertices(*p).take(i as int));
        }
    }
    proof {
        assert(vertices@ =~= spec_vertices(*p));
    }

    Some(LoadedPrimitive { vertices, indices, material_index: p.material_index })
}

impl LoadedPrimitive {
    /// Convert to an engine mesh that owns copies of this primitive's
    /// vertex and index data.
    pub fn to_mesh(&self) -> (r: Mesh)
        ensures
            r.vertices@ == self.vertices@,
            r.indices@ == self.indices@,
    {
        Mesh::from_data(copy_vertices(&self.vertices), copy_u32s(&self.indices))
    }
}

// ---------------------------------------------------------------------
// Mesh aggregation.
// ---------------------------------------------------------------------

/// The name a mesh or material decodes to: the declared one, else the
/// placeholder.
pub open spec fn spec_name_or_unnamed(name: Option<String>) -> Seq<char> {
    if name is Some {
        name->0@
    } else {
        "Unnamed"@
    }
}

/// Every primitive of the mesh satisfies [`prim_counts_fit`].
pub open spec fn mesh_counts_fit(m: SourceMesh) -> bool {
    forall|j: int| 0 <= j < m.primitives@.len() ==> prim_counts_fit(#[trigger] m.primitives@[j])
}

/// `out` is exactly the decodable primitives of `src`, decoded, in
/// source order: unusable primitives (no positions, or indices out of
/// range) are dropped and every other one appears.
pub open spec fn prims_decode_to(src: Seq<SourcePrimitive>, out: Seq<LoadedPrimitive>) -> bool
    decreases src.len(),
{
    if src.len() == 0 {
        out.len() == 0
    } else if prim_decodable(src.last()) {
        &&& out.len() > 0
        &&& prim_decodes_to(src.last(), out.last())
        &&& prims_decode_to(src.drop_last(), out.drop_last())
    } else {
        prims_decode_to(src.drop_last(), out)
    }
}

/// `out` is exactly what decoding the source mesh `m` yields.
pub open spec fn mesh_decodes_to(m: SourceMesh, out: LoadedMesh) -> bool {
    &&& out.name@ == spec_name_or_unnamed(m.name)
    &&& prims_decode_to(m.primitives@, out.primitives@)
}

/// Decode one source mesh: collect its decodable primitives in source
/// order under the declared name (or the placeholder). A mesh with no
/// decodable primitive is still emitted, with an empty primitive list.
pub fn decode_mesh(m: &SourceMesh) -> (r: LoadedMesh)
    requires
        mesh_counts_fit(*m),
    ensures
        mesh_decodes_to(*m, r),
{
    let name: String = match &m.name {
        Some(s) => s.clone(),
        None => "Unnamed".to_owned(),
    };

    let mut prims: Vec<LoadedPrimitive> = Vec::new();
    let mut j: usize = 0;
    while j < m.primitives.len()
        invariant
            j <= m.primitives@.len(),
            mesh_counts_fit(*m),
            prims_decode_to(m.primitives@.take(j as int), prims@),
        decreases m.primitives@.len() - j,
    {
        proof {
            assert(prim_counts_fit(m.primitives@[j as int]));
        }
        let ghost old_prims = prims@;
        match load_primitive(&m.primitives[j]) {
            Some(lp) => {
                prims.push(lp);
            },
            None => {},
        }
        j += 1;
        proof {
            let sj = m.primitives@.take(j as int);
            assert(sj.drop_last() =~= m.primitives@.take(j as int - 1));
            assert(sj.last() == m.primitives@[j as int - 1]);
            if prim_decodable(sj.last()) {
                assert(prims@.drop_last() =~= old_prims);
            }
        }
    }
    proof {
        assert(m.primitives@.take(m.primitives@.len() as int) =~= m.primitives@);
    }
    LoadedMesh { name, primitives: prims }
}

// ---------------------------------------------------------------------
// Material conversion.
// ---------------------------------------------------------------------

/// The decimal digit character for `d` (0 through 9).
pub open spec fn spec_digit(d: nat) -> char {
    if d == 0 {
        '0'
    } else if d == 1 {
        '1'
    } else if d == 2 {
        '2'
    } else if d == 3 {
        '3'
    } else if d == 4 {
        '4'
    } else if d == 5 {
        '5'
    } else if d == 6 {
        '6'
    } else if d == 7 {
        '7'
    } else if d == 8 {
        '8'
    } else {
        '9'
    }
}

/// The decimal representation of `n`, most significant digit first,
/// with no leading zeros (and "0" for zero).
pub open spec fn spec_decimal(n: nat) -> Seq<char>
    decreases n,
{
    if n < 10 {
        seq![spec_digit(n)]
    } else {
        spec_decimal(n / 10).push(spec_digit(n % 10))
    }
}

/// The stable reference string recorded for the texture at `i`.
pub open spec fn spec_texture_ref(i: nat) -> Seq<char> {
    "texture_"@ + spec_decimal(i)
}

/// The one-character string of a single decimal digit.
fn digit_str(d: usize) -> (r: &'static str)
    requires
        d < 10,
    ensures
        r@ == seq![spec_digit(d as nat)],
{
    if d == 0 {
        proof {
            reveal_strlit("0");
            assert("0"@ =~= seq!['0']);
        }
        "0"
    } else if d == 1 {
        proof {
            reveal_strlit("1");
            assert("1"@ =~= seq!['1']);
        }
        "1"
    } else if d == 2 {
        proof {
            reveal_strlit("2");
            assert("2"@ =~= seq!['2']);
        }
        "2"
    } else if d == 3 {
        proof {
            reveal_strlit("3");
            assert("3"@ =~= seq!['3']);
        }
        "3"
    } else if d == 4 {
        proof {
            reveal_strlit("4");
            assert("4"@ =~= seq!['4']);
        }
        "4"
    } else if d == 5 {
        proof {
            reveal_strlit("5");
            assert("5"@ =~= seq!['5']);
        }
        "5"
    } else if d == 6 {
        proof {
            reveal_strlit("6");
            assert("6"@ =~= seq!['6']);
        }
        "6"
    } else if d == 7 {
        proof {
            reveal_strlit("7");
            assert("7"@ =~= seq!['7']);
        }
        "7"
    } else if d == 8 {
        proof {
            reveal_strlit("8");
            assert("8"@ =~= seq!['8']);
        }
        "8"
    } else {
        proof {
            reveal_strlit("9");
            assert("9"@ =~= seq!['9']);
        }
        "9"
    }
}

/// The decimal string of `n`.
fn decimal_string(n: usize) -> (r: String)
    ensures
        r@ == spec_decimal(n as nat),
    decreases n,
{
    if n < 10 {
        digit_str(n).to_owned()
    } else {
        let prefix = decimal_string(n / 10);
        let last = digit_str(n % 10);
        let r = prefix.concat(last);
        proof {
            assert(r@ =~= spec_decimal(n as nat));
        }
        r
    }
}

/// The reference string `texture_<i>` for the texture at index `i`.
pub fn texture_ref(i: usize) -> (r: String)
    ensures
        r@ == spec_texture_ref(i as nat),
{
    let mut s = String::from_str("texture_");
    let digits = decimal_string(i);
    s.append(digits.as_str());
    s
}

/// `lm` is exactly what decoding the source material `sm` yields: name
/// and factors with their defaults filled in, and the stable texture
/// reference string when a base-color texture is bound.
pub open spec fn material_decodes_to(sm: SourceMaterial, lm: LoadedMaterial) -> bool {
    &&& lm.name@ == spec_name_or_unnamed(sm.name)
    &&& lm.base_color == if sm.base_color is Some {
        sm.base_color->0
    } else {
        spec_default_base_color()
    }
    &&& lm.metallic == if sm.metallic is Some {
        sm.metallic->0
    } else {
        F32_BITS_ONE
    }
    &&& lm.roughness == if sm.roughness is Some {
        sm.roughness->0
    } else {
        F32_BITS_ONE
    }
    &&& match sm.base_color_texture {
        Some(ti) => lm.base_color_texture is Some && lm.base_color_texture->0@ == spec_texture_ref(
            ti as nat,
        ),
        None => lm.base_color_texture is None,
    }
}

/// Decode one source material: factors default to the source schema's
/// own defaults (opaque white base color, metallic 1, roughness 1), the
/// name to the placeholder, and a bound base-color texture is recorded
/// as its stable reference string.
pub fn decode_material(m: &SourceMaterial) -> (r: LoadedMaterial)
    ensures
        material_decodes_to(*m, r),
{
    let name: String = match &m.name {
        Some(s) => s.clone(),
        None => "Unnamed".to_owned(),
    };
    let base_color = match &m.base_color {
        Some(c) => *c,
        None => crate::math::default_base_color(),
    };
    let metallic: u32 = match &m.metallic {
        Some(v) => *v,
        None => F32_BITS_ONE,
    };
    let roughness: u32 = match &m.roughness {
        Some(v) => *v,
        None => F32_BITS_ONE,
    };
    let base_color_texture: Option<String> = match &m.base_color_texture {
        Some(ti) => Some(texture_ref(*ti)),
        None => None,
    };
    LoadedMaterial { name, base_color, metallic, roughness, base_color_texture }
}

// ---------------------------------------------------------------------
// Node decoding.
// ---------------------------------------------------------------------

/// The name a node decodes to: the declared one, else the placeholder.
pub open spec fn spec_node_name(name: Option<String>) -> Seq<char> {
    if name is Some {
        name->0@
    } else {
        "Node"@
    }
}

/// `ln` is exactly what decoding the source node `sn` yields: the
/// decomposed local transform, the mesh binding and the child list are
/// carried through unchanged, and the name defaults to the placeholder.
pub open spec fn node_decodes_to(sn: SourceNode, ln: LoadedNode) -> bool {
    &&& ln.name@ == spec_node_name(sn.name)
    &&& ln.translation == sn.translation
    &&& ln.rotation == sn.rotation
    &&& ln.scale == sn.scale
    &&& ln.mesh_index == sn.mesh_index
    &&& ln.children@ == sn.children@
}

/// Copy a `usize` vector element for element.
fn copy_usizes(v: &Vec<usize>) -> (r: Vec<usize>)
    ensures
        r@ == v@,
{
    let mut r: Vec<usize> = Vec::new();
    let mut i: usize = 0;
    while i < v.len()
        invariant
            i <= v@.len(),
            r@ == v@.take(i as int),
        decreases v@.len() - i,
    {
        r.push(v[i]);
        i += 1;
        proof {
            assert(r@ =~= v@.take(i as int));
        }
    }
    proof {
        assert(r@ =~= v@);
    }
    r
}

/// Decode one source node.
pub fn decode_node(n: &SourceNode) -> (r: LoadedNode)
    ensures
        node_decodes_to(*n, r),
{
    let name: String = match &n.name {
        Some(s) => s.clone(),
        None => "Node".to_owned(),
    };
    LoadedNode {
        name,
        translation: n.translation,
        rotation: n.rotation,
        scale: n.scale,
        mesh_index: n.mesh_index,
        children: copy_usizes(&n.children),
    }
}

// ---------------------------------------------------------------------
// Root resolution.
// ---------------------------------------------------------------------

/// Node index `i` is referenced as a child by some node of the list.
/// Out-of-range child references never make any in-range index a
/// child, so they are ignored by construction.
pub open spec fn spec_is_child(nodes: Seq<LoadedNode>, i: int) -> bool {
    exists|j: int, k: int|
        0 <= j < nodes.len() && 0 <= k < nodes[j].children@.len() && #[trigger] nodes[j].children@[k]
            == i
}

/// Like [`spec_is_child`], but counting only the child lists of the
/// first `j` nodes.
pub open spec fn spec_is_child_upto(nodes: Seq<LoadedNode>, i: int, j: int) -> bool {
    exists|j2: int, k: int|
        0 <= j2 < j && j2 < nodes.len() && 0 <= k < nodes[j2].children@.len()
            && #[trigger] nodes[j2].children@[k] == i
}

/// The root indices found by elimination among the first `i` node
/// indices, in increasing order: every index never referenced as a
/// child.
pub open spec fn spec_roots_upto(nodes: Seq<LoadedNode>, i: int) -> Seq<usize>
    decreases i,
{
    if i <= 0 {
        Seq::empty()
    } else if spec_is_child(nodes, i - 1) {
        spec_roots_upto(nodes, i - 1)
    } else {
        spec_roots_upto(nodes, i - 1).push((i - 1) as usize)
    }
}

/// The root set found by elimination: every node index that no node's
/// child list references, in increasing order.
pub open spec fn spec_roots(nodes: Seq<LoadedNode>) -> Seq<usize> {
    spec_roots_upto(nodes, nodes.len() as int)
}

/// Resolve the hierarchy roots. A declared default scene's node list
/// is used verbatim, even if some of those nodes are referenced as
/// children elsewhere; otherwise the roots are found by elimination
/// over the decoded nodes' child lists, out-of-range child references
/// being ignored.
pub fn resolve_roots(nodes: &Vec<LoadedNode>, default_scene: &Option<Vec<usize>>) -> (r: Vec<
    usize,
>)
    ensures
        match default_scene {
            Some(s) => r@ == s@,
            None => r@ == spec_roots(nodes@),
        },
{
    if let Some(s) = default_scene {
        return copy_usizes(s);
    }

    let n: usize = nodes.len();

    // Mark every in-range index that some node references as a child.
    let mut is_child: Vec<bool> = Vec::new();
    let mut i: usize = 0;
    while i < n
        invariant
            i <= n,
            is_child@.len() == i as int,
            forall|x: int| 0 <= x < i ==> !(#[trigger] is_child@[x]),
        decreases n - i,
    {
        is_child.push(false);
        i += 1;
    }

    let mut j: usize = 0;
    while j < n
        invariant
            j <= n,
            n == nodes@.len(),
            is_child@.len() == n as int,
            forall|x: int|
                0 <= x < n ==> (#[trigger] is_child@[x] <==> spec_is_child_upto(
                    nodes@,
                    x,
                    j as int,
                )),
        decreases n - j,
    {
        let children = &nodes[j].children;
        let m: usize = children.len();
        let mut k: usize = 0;
        while k < m
            invariant
                k <= m,
                j < n,
                n == nodes@.len(),
                m == nodes@[j as int].children@.len(),
                children@ == nodes@[j as int].children@,
                is_child@.len() == n as int,
                forall|x: int|
                    0 <= x < n ==> (#[trigger] is_child@[x] <==> spec_is_child_upto(
                        nodes@,
                        x,
                        j as int,
                    ) || exists|k2: int|
                        0 <= k2 < k && #[trigger] nodes@[j as int].children@[k2] == x),
            decreases m - k,
        {
            let c: usize = children[k];
            let ghost old_marks = is_child@;
            if c < n {
                is_child.set(c, true);
            }
            k += 1;
            proof {
                assert forall|x: int| 0 <= x < n implies (#[trigger] is_child@[x]
                    <==> spec_is_child_upto(nodes@, x, j as int) || exists|k2: int|
                    0 <= k2 < k && #[trigger] nodes@[j as int].children@[k2] == x) by {
                    if x == c as int {
                        assert(nodes@[j as int].children@[k - 1] == x);
                        assert(is_child@[x]);
                    } else {
                        assert(is_child@[x] == old_marks[x]);
                        if exists|k2: int|
                            0 <= k2 < k && #[trigger] nodes@[j as int].children@[k2] == x {
                            let k2 = choose|k2: int|
                                0 <= k2 < k && #[trigger] nodes@[j as int].children@[k2] == x;
                            assert(k2 < k - 1);
                        }
                    }
                }
            }
        }
        j += 1;
        proof {
            assert forall|x: int| 0 <= x < n implies (#[trigger] is_child@[x]
                <==> spec_is_child_upto(nodes@, x, j as int)) by {
                if is_child@[x] {
                    if spec_is_child_upto(nodes@, x, j - 1) {
                        let (j2, k2) = choose|j2: int, k2: int|
                            0 <= j2 < j - 1 && j2 < nodes@.len() && 0 <= k2
                                < nodes@[j2].children@.len() && #[trigger] nodes@[j2].children@[k2]
                                == x;
                        assert(0 <= j2 < j && 0 <= k2 < nodes@[j2].children@.len()
                            && nodes@[j2].children@[k2] == x);
                    } else {
                        let k2 = choose|k2: int|
                            0 <= k2 < m && #[trigger] nodes@[j - 1].children@[k2] == x;
                        assert(0 <= j - 1 < j && 0 <= k2 < nodes@[j - 1].children@.len()
                            && nodes@[j - 1].children@[k2] == x);
                    }
                }
                if spec_is_child_upto(nodes@, x, j as int) {
                    let (j2, k2) = choose|j2: int, k2: int|
                        0 <= j2 < j && j2 < nodes@.len() && 0 <= k2 < nodes@[j2].children@.len()
                            && #[trigger] nodes@[j2].children@[k2] == x;
                    if j2 < j - 1 {
                        assert(spec_is_child_upto(nodes@, x, j - 1));
                    } else {
                        assert(nodes@[j - 1].children@[k2] == x);
                    }
                }
            }
        }
    }

    proof {
        assert forall|x: int| 0 <= x < n implies (#[trigger] is_child@[x] <==> spec_is_child(
            nodes@,
            x,
        )) by {
            if is_child@[x] {
                let (j2, k2) = choose|j2: int, k2: int|
                    0 <= j2 < n && j2 < nodes@.len() && 0 <= k2 < nodes@[j2].children@.len()
                        && #[trigger] nodes@[j2].children@[k2] == x;
                assert(spec_is_child(nodes@, x));
            }
            if spec_is_child(nodes@, x) {
                let (j2, k2) = choose|j2: int, k2: int|
                    0 <= j2 < nodes@.len() && 0 <= k2 < nodes@[j2].children@.len()
                        && #[trigger] nodes@[j2].children@[k2] == x;
                assert(spec_is_child_upto(nodes@, x, n as int));
            }
        }
    }

    // Collect every unmarked index, in increasing order.
    let mut r: Vec<usize> = Vec::new();
    let mut x: usize = 0;
    while x < n
        invariant
            x <= n,
            n == nodes@.len(),
            is_child@.len() == n as int,
            forall|y: int|
                0 <= y < n ==> (#[trigger] is_child@[y] <==> spec_is_child(nodes@, y)),
            r@ == spec_roots_upto(nodes@, x as int),
        decreases n - x,
    {
        if !is_child[x] {
            r.push(x);
        }
        x += 1;
    }
    r
}

// ---------------------------------------------------------------------
// Whole-document decoding.
// ---------------------------------------------------------------------

/// Every mesh of the document satisfies [`mesh_counts_fit`].
pub open spec fn doc_counts_fit(doc: SourceDocument) -> bool {
    forall|i: int| 0 <= i < doc.meshes@.len() ==> mesh_counts_fit(#[trigger] doc.meshes@[i])
}

/// `out` is the pointwise decoding of the source material list.
pub open spec fn materials_decode_to(src: Seq<SourceMaterial>, out: Seq<LoadedMaterial>) -> bool {
    &&& out.len() == src.len()
    &&& forall|i: int| 0 <= i < src.len() ==> material_decodes_to(src[i], #[trigger] out[i])
}

/// `out` is the pointwise decoding of the source mesh list.
pub open spec fn meshes_decode_to(src: Seq<SourceMesh>, out: Seq<LoadedMesh>) -> bool {
    &&& out.len() == src.len()
    &&& forall|i: int| 0 <= i < src.len() ==> mesh_decodes_to(src[i], #[trigger] out[i])
}

/// `out` is the pointwise decoding of the source node list.
pub open spec fn nodes_decode_to(src: Seq<SourceNode>, out: Seq<LoadedNode>) -> bool {
    &&& out.len() == src.len()
    &&& forall|i: int| 0 <= i < src.len() ==> node_decodes_to(src[i], #[trigger] out[i])
}

/// `out` is exactly what decoding the whole document yields: materials,
/// meshes and nodes decoded independently into parallel lists, and the
/// root set resolved from the declared default scene if there is one,
/// else by elimination over the decoded child lists.
pub open spec fn scene_decodes_to(doc: SourceDocument, out: LoadedGltf) -> bool {
    &&& materials_decode_to(doc.materials@, out.materials@)
    &&& meshes_decode_to(doc.meshes@, out.meshes@)
    &&& nodes_decode_to(doc.nodes@, out.nodes@)
    &&& match doc.default_scene {
        Some(s) => out.root_nodes@ == s@,
        None => out.root_nodes@ == spec_roots(out.nodes@),
    }
}

/// Decode a whole parsed document into an engine-ready scene.
///
/// Materials, meshes and nodes are decoded independently, in source
/// order, into parallel index-addressable lists; the root resolver runs
/// last over the decoded node list. The result owns all of its data and
/// is a pure function of the document.
pub fn decode_document(doc: &SourceDocument) -> (r: LoadedGltf)
    requires
        doc_counts_fit(*doc),
    ensures
        scene_decodes_to(*doc, r),
{
    let mut materials: Vec<LoadedMaterial> = Vec::new();
    let mut i: usize = 0;
    while i < doc.materials.len()
        invariant
            i <= doc.materials@.len(),
            materials@.len() == i as int,
            forall|k: int|
                0 <= k < i ==> material_decodes_to(doc.materials@[k], #[trigger] materials@[k]),
        decreases doc.materials@.len() - i,
    {
        materials.push(decode_material(&doc.materials[i]));
        i += 1;
    }

    let mut meshes: Vec<LoadedMesh> = Vec::new();
    let mut j: usize = 0;
    while j < doc.meshes.len()
        invariant
            j <= doc.meshes@.len(),
            doc_counts_fit(*doc),
            meshes@.len() == j as int,
            forall|k: int| 0 <= k < j ==> mesh_decodes_to(doc.meshes@[k], #[trigger] meshes@[k]),
        decreases doc.meshes@.len() - j,
    {
        proof {
            assert(mesh_counts_fit(doc.meshes@[j as int]));
        }
        meshes.push(decode_mesh(&doc.meshes[j]));
        j += 1;
    }

    let mut nodes: Vec<LoadedNode> = Vec::new();
    let mut k: usize = 0;
    while k < doc.nodes.len()
        invariant
            k <= doc.nodes@.len(),
            nodes@.len() == k as int,
            forall|x: int| 0 <= x < k ==> node_decodes_to(doc.nodes@[x], #[trigger] nodes@[x]),
        decreases doc.nodes@.len() - k,
    {
        nodes.push(decode_node(&doc.nodes[k]));
        k += 1;
    }

    let root_nodes = resolve_roots(&nodes, &doc.default_scene);

    LoadedGltf { meshes, materials, nodes, root_nodes }
}

} // verus!
