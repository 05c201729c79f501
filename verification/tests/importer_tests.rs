use chibi_engine::importer::obj::{
    convert_obj_file, file_lines, make_vertex_from_face, material_file_readable, parse_obj_face_idx,
    parse_obj_material_file, resolve_obj_index, ObjFace, ObjFaceIdx, ObjParser, VertexRef,
};
use chibi_engine::importer::optimize::{optimize_vertex_cache_stage, optimize_vertex_fetch_stage};
use chibi_engine::importer::text::{parse_i32, split_bytes, split_lines, starts_with};

fn b(s: &str) -> Vec<u8> {
    s.as_bytes().to_vec()
}

fn read_obj(text: &str, mtl: &str) -> ObjParser {
    let mut parser = ObjParser::new();
    for line in file_lines(text) {
        assert!(parser.can_parse_line(&line), "line {:?}", String::from_utf8_lossy(&line));
        if let Some(_lib) = parser.parse_obj_line(&line) {
            assert!(material_file_readable(mtl));
            parser.set_materials(parse_obj_material_file(mtl));
        }
    }
    parser
}

#[test]
fn split_lines_like_str_lines() {
    assert_eq!(split_lines(&b("a\r\nb\n\nc")), vec![b("a"), b("b"), b(""), b("c")]);
    assert_eq!(split_lines(&b("a\n")), vec![b("a")]);
    assert_eq!(split_lines(&b("")), Vec::<Vec<u8>>::new());
    assert_eq!(split_lines(&b("x\r")), vec![b("x\r")]);
    assert_eq!(file_lines("v 1 2 3\nf 1 2 3\n"), vec![b("v 1 2 3"), b("f 1 2 3")]);
}

#[test]
fn split_bytes_keeps_empty_pieces() {
    assert_eq!(split_bytes(&b("1//3"), b'/'), vec![b("1"), b(""), b("3")]);
    assert_eq!(split_bytes(&b(""), b'/'), vec![b("")]);
    assert!(starts_with(&b("usemtl red"), b"usemtl "));
    assert!(!starts_with(&b("use"), b"usemtl "));
}

#[test]
fn parse_i32_like_str_parse() {
    assert_eq!(parse_i32(&b("42")), Some(42));
    assert_eq!(parse_i32(&b("+5")), Some(5));
    assert_eq!(parse_i32(&b("-7")), Some(-7));
    assert_eq!(parse_i32(&b("-2147483648")), Some(i32::MIN));
    assert_eq!(parse_i32(&b("2147483647")), Some(i32::MAX));
    assert_eq!(parse_i32(&b("2147483648")), None);
    assert_eq!(parse_i32(&b("")), None);
    assert_eq!(parse_i32(&b("-")), None);
    assert_eq!(parse_i32(&b("1a")), None);
    assert_eq!(parse_i32(&b(" 1")), None);
}

#[test]
fn face_vertex_parts() {
    assert_eq!(
        parse_obj_face_idx(&b("1/2/3")),
        ObjFaceIdx { pos: Some(0), uv0: Some(1), norm: Some(2) }
    );
    assert_eq!(parse_obj_face_idx(&b("4//6")), ObjFaceIdx { pos: Some(3), uv0: None, norm: Some(5) });
    assert_eq!(parse_obj_face_idx(&b("-1")), ObjFaceIdx { pos: Some(-2), uv0: None, norm: None });
    assert_eq!(parse_obj_face_idx(&b("x")), ObjFaceIdx { pos: Some(-1), uv0: None, norm: None });
    assert_eq!(ObjFaceIdx::default(), ObjFaceIdx { pos: None, uv0: None, norm: None });
}

#[test]
fn resolve_indices_from_start_and_end() {
    assert_eq!(resolve_obj_index(Some(0), 3), Some(0));
    assert_eq!(resolve_obj_index(Some(2), 3), Some(2));
    assert_eq!(resolve_obj_index(Some(3), 3), None);
    assert_eq!(resolve_obj_index(Some(-1), 3), Some(2));
    assert_eq!(resolve_obj_index(Some(-3), 3), Some(0));
    assert_eq!(resolve_obj_index(Some(-4), 3), None);
    assert_eq!(resolve_obj_index(None, 3), None);
    assert_eq!(resolve_obj_index(Some(0), 0), None);
}

const MTL: &str = "# materials\nnewmtl red\nKa 1 0 0\nKd 0.5 0 0\nmap_Ka red.png\nillum 2\n\nnewmtl blue\nKa 0 0 1\n";

#[test]
fn material_file_is_read_in_order() {
    assert!(material_file_readable(MTL));
    let ms = parse_obj_material_file(MTL);
    assert_eq!(ms.len(), 2);
    assert_eq!(ms[0].name, b("red"));
    assert_eq!(ms[0].ambient_color.as_ref().unwrap().x, b("1"));
    assert_eq!(ms[0].diffuse_color.as_ref().unwrap().x, b("0.5"));
    assert_eq!(ms[0].ambient_map, Some(b("red.png")));
    assert_eq!(ms[0].illumination_mode, 2);
    assert_eq!(ms[1].name, b("blue"));
    assert_eq!(ms[1].ambient_color.as_ref().unwrap().z, b("1"));
    assert_eq!(ms[1].illumination_mode, 1);
    assert!(ms[1].diffuse_color.is_none());
}

#[test]
fn material_property_before_newmtl_is_unreadable() {
    assert!(!material_file_readable("Ka 1 1 1\nnewmtl late\n"));
}

const OBJ: &str = "# a quad\nmtllib quad.mtl\no quad\nv 0 0 0\nv 1 0 0\nv 1 1 0\nv 0 1 0\nvt 0 0\nvn 0 0 1\nusemtl blue\nf 1/1/1 2/1/1 3/1/1\nf 1 3 -1\n";

#[test]
fn obj_file_is_read_and_converted() {
    let parser = read_obj(OBJ, MTL);
    assert_eq!(parser.geom_idx, 0);
    let model = parser.into_model();
    assert_eq!(model.positions.len(), 4);
    assert_eq!(model.positions[2].y, b("1"));
    assert_eq!(model.tex_coords.len(), 1);
    assert_eq!(model.normals.len(), 1);
    assert_eq!(model.geoms.len(), 1);
    assert_eq!(model.geoms[0].name, b("quad"));
    assert_eq!(model.geoms[0].material_index, Some(1));
    assert_eq!(model.geoms[0].faces.len(), 2);
    assert_eq!(
        model.geoms[0].faces[1],
        ObjFace {
            v0: ObjFaceIdx { pos: Some(0), uv0: None, norm: None },
            v1: ObjFaceIdx { pos: Some(2), uv0: None, norm: None },
            v2: ObjFaceIdx { pos: Some(-2), uv0: None, norm: None },
        }
    );
    assert_eq!(
        make_vertex_from_face(&model, model.geoms[0].faces[1].v2),
        VertexRef { position: Some(2), tex_coord: None, normal: None }
    );

    let mesh = convert_obj_file(&model);
    assert_eq!(mesh.geoms.len(), 1);
    assert_eq!(mesh.geoms[0].indices, vec![0, 1, 2, 3, 4, 5]);
    assert_eq!(mesh.geoms[0].vertices.len(), 6);
    assert_eq!(mesh.geoms[0].vertices[1], VertexRef { position: Some(1), tex_coord: Some(0), normal: Some(0) });
    assert_eq!(mesh.geoms[0].vertices[5], VertexRef { position: Some(2), tex_coord: None, normal: None });
    assert_eq!(mesh.geoms[0].material_index, Some(1));
    assert_eq!(mesh.materials.len(), 2);
    assert_eq!(mesh.materials[0].ambient_map, Some(b("red.png")));
    assert!(mesh.materials[1].ambient_map.is_none());
}

#[test]
fn usemtl_of_unknown_material_clears_it() {
    let parser = read_obj("o a\nusemtl nothing\nv 0 0 0\nf 1 1 1\n", "");
    let model = parser.into_model();
    assert_eq!(model.geoms[0].material_index, None);
}

#[test]
fn face_before_any_object_cannot_be_read() {
    let parser = ObjParser::new();
    assert!(!parser.can_parse_line(&b("f 1 2 3")));
    assert!(parser.can_parse_line(&b("v 1 2 3")));
    assert!(parser.can_parse_line(&b("# comment")));
}

fn record(tag: u8) -> Vec<u8> {
    let mut r = vec![0u8; 48];
    r[0] = tag;
    r[47] = tag;
    r
}

#[test]
fn vertex_cache_stage_merges_equal_vertices() {
    // four records, the last equal to the first
    let mut vertices = Vec::new();
    for tag in [1u8, 2, 3, 1] {
        vertices.extend(record(tag));
    }
    let indices = vec![0, 1, 2, 3, 2, 1];
    let (new_indices, new_vertices) = optimize_vertex_cache_stage(&indices, &vertices);
    assert_eq!(new_indices.len(), 6);
    assert_eq!(new_vertices.len(), 3 * 48);
    // the same triangles, each drawing the same bytes, in some order
    let triangles = |idx: &[u32], bytes: &[u8]| {
        let mut tris: Vec<Vec<u8>> = idx
            .chunks(3)
            .map(|t| t.iter().flat_map(|&i| bytes[i as usize * 48..i as usize * 48 + 48].to_vec()).collect())
            .collect();
        tris.sort();
        tris
    };
    assert_eq!(triangles(&new_indices, &new_vertices), triangles(&indices, &vertices));
}

#[test]
fn vertex_fetch_stage_orders_by_first_use() {
    let mut vertices = Vec::new();
    for tag in [10u8, 20, 30, 40] {
        vertices.extend(record(tag));
    }
    let indices = vec![2, 0, 2];
    let (new_indices, new_vertices) = optimize_vertex_fetch_stage(indices, &vertices);
    assert_eq!(new_indices, vec![0, 1, 0]);
    assert_eq!(new_vertices.len(), 2 * 48);
    assert_eq!(new_vertices[0], 30);
    assert_eq!(new_vertices[48], 10);
}

#[test]
fn vertex_cache_stage_matches_meshoptimizer() {
    // a strip of quads, two triangles each, with the triangles listed far apart
    let mut vertices = Vec::new();
    for tag in 0u8..12 {
        vertices.extend(record(tag));
    }
    let mut indices: Vec<u32> = Vec::new();
    for q in [4u32, 0, 3, 1, 2] {
        let a = q;
        indices.extend([a, a + 1, a + 6]);
    }
    for q in [2u32, 4, 0, 3, 1] {
        let a = q;
        indices.extend([a + 1, a + 7, a + 6]);
    }
    let (new_indices, new_vertices) = optimize_vertex_cache_stage(&indices, &vertices);

    let records: Vec<[u8; 48]> = vertices.chunks_exact(48).map(|c| c.try_into().unwrap()).collect();
    let (count, remap) = meshopt::generate_vertex_remap(&records, Some(&indices));
    let remapped = meshopt::remap_index_buffer(Some(&indices), count, &remap);
    let expected = meshopt::optimize_vertex_cache(&remapped, count);
    assert_eq!(new_indices, expected);
    assert_ne!(new_indices, indices);
    assert_eq!(new_vertices.len(), count * 48);
}
