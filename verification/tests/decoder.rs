//! Tests for the asset decoder: primitive decoding, mesh aggregation,
//! material conversion, node decoding and root resolution.

use horizon_engine::assets::{
    decode_document, decode_material, decode_mesh, decode_node, load_primitive, resolve_roots,
    texture_ref, widen_indices, GltfError, SourceDocument, SourceIndices, SourceMaterial,
    SourceMesh, SourceNode, SourcePrimitive,
};
use horizon_engine::math::{ColorBits, QuatBits, Vec2Bits, Vec3Bits};

fn v3(x: f32, y: f32, z: f32) -> Vec3Bits {
    Vec3Bits { x: x.to_bits(), y: y.to_bits(), z: z.to_bits() }
}

fn v2(x: f32, y: f32) -> Vec2Bits {
    Vec2Bits { x: x.to_bits(), y: y.to_bits() }
}

fn quat_identity() -> QuatBits {
    QuatBits { x: 0.0f32.to_bits(), y: 0.0f32.to_bits(), z: 0.0f32.to_bits(), w: 1.0f32.to_bits() }
}

fn simple_primitive() -> SourcePrimitive {
    SourcePrimitive {
        positions: Some(vec![v3(0.0, 0.0, 0.0), v3(1.0, 0.0, 0.0), v3(0.0, 1.0, 0.0)]),
        normals: None,
        uvs: None,
        indices: None,
        material_index: None,
    }
}

fn plain_node(children: Vec<usize>) -> SourceNode {
    SourceNode {
        name: None,
        translation: v3(0.0, 0.0, 0.0),
        rotation: quat_identity(),
        scale: v3(1.0, 1.0, 1.0),
        mesh_index: None,
        children,
    }
}

#[test]
fn primitive_without_positions_is_dropped() {
    let p = SourcePrimitive {
        positions: None,
        normals: Some(vec![v3(0.0, 1.0, 0.0)]),
        uvs: None,
        indices: None,
        material_index: Some(0),
    };
    assert!(load_primitive(&p).is_none());
}

#[test]
fn primitive_indices_stay_in_vertex_range() {
    let mut p = simple_primitive();
    p.indices = Some(SourceIndices::U16(vec![0, 1, 2, 2, 1, 0]));
    let lp = load_primitive(&p).unwrap();
    assert!(!lp.indices.is_empty());
    let max = lp.indices.iter().copied().max().unwrap();
    assert!((max as usize) < lp.vertices.len());
}

#[test]
fn primitive_streams_share_one_length() {
    let p = SourcePrimitive {
        positions: Some(vec![v3(0.0, 0.0, 0.0), v3(1.0, 0.0, 0.0), v3(0.0, 1.0, 0.0)]),
        normals: Some(vec![v3(0.0, 0.0, 1.0), v3(0.0, 0.0, 1.0), v3(0.0, 0.0, 1.0)]),
        uvs: Some(vec![v2(0.0, 0.0), v2(1.0, 0.0), v2(0.0, 1.0)]),
        indices: None,
        material_index: None,
    };
    let lp = load_primitive(&p).unwrap();
    // One vertex per source slot, each carrying exactly one position,
    // one normal and one UV.
    assert_eq!(lp.vertices.len(), 3);
    assert_eq!(lp.vertices[1].position, v3(1.0, 0.0, 0.0));
    assert_eq!(lp.vertices[1].normal, v3(0.0, 0.0, 1.0));
    assert_eq!(lp.vertices[1].uv, v2(1.0, 0.0));
}

#[test]
fn missing_normals_synthesize_up_vector() {
    let p = simple_primitive();
    let lp = load_primitive(&p).unwrap();
    assert_eq!(lp.vertices.len(), 3);
    for v in &lp.vertices {
        assert_eq!(v.normal, v3(0.0, 1.0, 0.0));
    }
}

#[test]
fn missing_uvs_synthesize_zero() {
    let p = simple_primitive();
    let lp = load_primitive(&p).unwrap();
    for v in &lp.vertices {
        assert_eq!(v.uv, v2(0.0, 0.0));
    }
}

#[test]
fn missing_indices_synthesize_sequence() {
    let p = simple_primitive();
    let lp = load_primitive(&p).unwrap();
    assert_eq!(lp.indices, vec![0u32, 1, 2]);
}

#[test]
fn primitive_with_out_of_range_indices_is_dropped() {
    let mut p = simple_primitive();
    p.indices = Some(SourceIndices::U32(vec![0, 5]));
    assert!(load_primitive(&p).is_none());

    let mut edge = simple_primitive();
    edge.indices = Some(SourceIndices::U8(vec![0, 1, 3]));
    assert!(load_primitive(&edge).is_none());

    let mut fine = simple_primitive();
    fine.indices = Some(SourceIndices::U8(vec![0, 1, 2]));
    assert!(load_primitive(&fine).is_some());
}

#[test]
fn mesh_drops_only_the_corrupt_primitive() {
    let mut corrupt = simple_primitive();
    corrupt.indices = Some(SourceIndices::U16(vec![7]));
    let m = SourceMesh {
        name: Some("mixed".to_string()),
        primitives: vec![simple_primitive(), corrupt, simple_primitive()],
    };
    let lm = decode_mesh(&m);
    assert_eq!(lm.primitives.len(), 2);
}

#[test]
fn indices_widen_to_u32() {
    assert_eq!(widen_indices(&SourceIndices::U8(vec![3, 0, 255])), vec![3u32, 0, 255]);
    assert_eq!(widen_indices(&SourceIndices::U16(vec![1, 65535])), vec![1u32, 65535]);
    assert_eq!(widen_indices(&SourceIndices::U32(vec![7, 9])), vec![7u32, 9]);
}

#[test]
fn shorter_attribute_stream_clips_vertex_count() {
    let p = SourcePrimitive {
        positions: Some(vec![v3(0.0, 0.0, 0.0), v3(1.0, 0.0, 0.0), v3(0.0, 1.0, 0.0)]),
        normals: Some(vec![v3(0.0, 0.0, 1.0), v3(0.0, 0.0, 1.0)]),
        uvs: None,
        indices: None,
        material_index: None,
    };
    let lp = load_primitive(&p).unwrap();
    assert_eq!(lp.vertices.len(), 2);
    assert_eq!(lp.indices, vec![0u32, 1]);
}

#[test]
fn material_reference_is_carried_through() {
    let mut p = simple_primitive();
    p.material_index = Some(4);
    let lp = load_primitive(&p).unwrap();
    assert_eq!(lp.material_index, Some(4));
}

#[test]
fn mesh_keeps_decodable_primitives_in_order() {
    let mut second = simple_primitive();
    second.material_index = Some(1);
    let m = SourceMesh {
        name: Some("hull".to_string()),
        primitives: vec![
            simple_primitive(),
            SourcePrimitive {
                positions: None,
                normals: None,
                uvs: None,
                indices: None,
                material_index: None,
            },
            second,
        ],
    };
    let lm = decode_mesh(&m);
    assert_eq!(lm.name, "hull");
    assert_eq!(lm.primitives.len(), 2);
    assert_eq!(lm.primitives[0].material_index, None);
    assert_eq!(lm.primitives[1].material_index, Some(1));
}

#[test]
fn mesh_with_no_decodable_primitive_is_kept_empty() {
    let m = SourceMesh {
        name: None,
        primitives: vec![SourcePrimitive {
            positions: None,
            normals: None,
            uvs: None,
            indices: None,
            material_index: None,
        }],
    };
    let lm = decode_mesh(&m);
    assert_eq!(lm.name, "Unnamed");
    assert!(lm.primitives.is_empty());
}

#[test]
fn material_defaults_fill_in() {
    let m = SourceMaterial {
        name: None,
        base_color: None,
        metallic: None,
        roughness: None,
        base_color_texture: None,
    };
    let lm = decode_material(&m);
    assert_eq!(lm.name, "Unnamed");
    let one = 1.0f32.to_bits();
    assert_eq!(lm.base_color, ColorBits { r: one, g: one, b: one, a: one });
    assert_eq!(lm.metallic, one);
    assert_eq!(lm.roughness, one);
    assert!(lm.base_color_texture.is_none());
}

#[test]
fn material_declared_values_survive() {
    let m = SourceMaterial {
        name: Some("gold".to_string()),
        base_color: Some(ColorBits {
            r: 1.0f32.to_bits(),
            g: 0.8f32.to_bits(),
            b: 0.2f32.to_bits(),
            a: 1.0f32.to_bits(),
        }),
        metallic: Some(0.9f32.to_bits()),
        roughness: Some(0.25f32.to_bits()),
        base_color_texture: Some(3),
    };
    let lm = decode_material(&m);
    assert_eq!(lm.name, "gold");
    assert_eq!(lm.metallic, 0.9f32.to_bits());
    assert_eq!(lm.roughness, 0.25f32.to_bits());
    assert_eq!(lm.base_color_texture, Some("texture_3".to_string()));
}

#[test]
fn texture_reference_strings_are_decimal() {
    assert_eq!(texture_ref(0), "texture_0");
    assert_eq!(texture_ref(3), "texture_3");
    assert_eq!(texture_ref(12), "texture_12");
    assert_eq!(texture_ref(105), "texture_105");
    // Unique per index, with no leading zeros to collide over.
    assert_ne!(texture_ref(1), texture_ref(10));
    assert_ne!(texture_ref(2), texture_ref(20));
}

#[test]
fn node_decodes_with_placeholder_name() {
    let n = plain_node(vec![2, 5]);
    let ln = decode_node(&n);
    assert_eq!(ln.name, "Node");
    assert_eq!(ln.children, vec![2, 5]);
    assert_eq!(ln.mesh_index, None);
    assert_eq!(ln.translation, v3(0.0, 0.0, 0.0));
    assert_eq!(ln.scale, v3(1.0, 1.0, 1.0));
}

#[test]
fn default_scene_roots_are_verbatim() {
    // Nodes whose child lists also reference the scene's members: the
    // declared member list still wins, unchecked.
    let nodes = vec![
        decode_node(&plain_node(vec![2])),
        decode_node(&plain_node(vec![5])),
        decode_node(&plain_node(vec![])),
        decode_node(&plain_node(vec![])),
        decode_node(&plain_node(vec![])),
        decode_node(&plain_node(vec![])),
    ];
    let roots = resolve_roots(&nodes, &Some(vec![2, 5]));
    assert_eq!(roots, vec![2, 5]);
}

#[test]
fn elimination_excludes_children() {
    // Node 0 has children [1, 2], node 3 has children [2]: node 2 is
    // referenced by two parents and node 1 by one, so 0 and 3 remain.
    let nodes = vec![
        decode_node(&plain_node(vec![1, 2])),
        decode_node(&plain_node(vec![])),
        decode_node(&plain_node(vec![])),
        decode_node(&plain_node(vec![2])),
    ];
    let roots = resolve_roots(&nodes, &None);
    assert_eq!(roots, vec![0, 3]);
}

#[test]
fn elimination_ignores_out_of_range_children() {
    let nodes = vec![decode_node(&plain_node(vec![9])), decode_node(&plain_node(vec![0]))];
    let roots = resolve_roots(&nodes, &None);
    assert_eq!(roots, vec![1]);
}

#[test]
fn empty_document_decodes_empty() {
    let doc = SourceDocument { materials: vec![], meshes: vec![], nodes: vec![], default_scene: None };
    let scene = decode_document(&doc);
    assert!(scene.materials.is_empty());
    assert!(scene.meshes.is_empty());
    assert!(scene.nodes.is_empty());
    assert!(scene.root_nodes.is_empty());
}

fn sample_document() -> SourceDocument {
    let mut textured = simple_primitive();
    textured.material_index = Some(0);
    textured.indices = Some(SourceIndices::U8(vec![0, 1, 2]));
    SourceDocument {
        materials: vec![SourceMaterial {
            name: Some("paint".to_string()),
            base_color: None,
            metallic: Some(0.1f32.to_bits()),
            roughness: Some(0.5f32.to_bits()),
            base_color_texture: Some(1),
        }],
        meshes: vec![SourceMesh {
            name: Some("body".to_string()),
            primitives: vec![textured, simple_primitive()],
        }],
        nodes: vec![plain_node(vec![1]), plain_node(vec![])],
        default_scene: None,
    }
}

#[test]
fn document_decodes_all_lists() {
    let scene = decode_document(&sample_document());
    assert_eq!(scene.materials.len(), 1);
    assert_eq!(scene.materials[0].name, "paint");
    assert_eq!(scene.materials[0].base_color_texture, Some("texture_1".to_string()));
    assert_eq!(scene.meshes.len(), 1);
    assert_eq!(scene.meshes[0].primitives.len(), 2);
    assert_eq!(scene.meshes[0].primitives[0].indices, vec![0u32, 1, 2]);
    assert_eq!(scene.nodes.len(), 2);
    assert_eq!(scene.root_nodes, vec![0]);
}

#[test]
fn decoding_twice_gives_equal_scenes() {
    let doc = sample_document();
    let first = decode_document(&doc);
    let second = decode_document(&doc);
    assert_eq!(first, second);
}

#[test]
fn primitive_converts_to_mesh() {
    let lp = load_primitive(&simple_primitive()).unwrap();
    let mesh = lp.to_mesh();
    assert_eq!(mesh.vertices, lp.vertices);
    assert_eq!(mesh.indices, lp.indices);
}

#[test]
fn error_values_compare_by_variant_and_text() {
    let a = GltfError::IoError("missing file".to_string());
    assert_eq!(a.clone(), GltfError::IoError("missing file".to_string()));
    assert_ne!(a, GltfError::ParseError("missing file".to_string()));
    assert_ne!(a, GltfError::MissingData("missing file".to_string()));
}

#[test]
fn error_messages_name_their_kind() {
    assert_eq!(GltfError::IoError("no such file".to_string()).message(), "IO error: no such file");
    assert_eq!(GltfError::ParseError("bad chunk".to_string()).message(), "Parse error: bad chunk");
    assert_eq!(
        GltfError::MissingData("positions".to_string()).message(),
        "Missing data: positions"
    );
}
