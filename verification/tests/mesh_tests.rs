use objld::{
    build_raw_mesh, parse_file, to_indexed_dedup, to_indexed_flat, CornerRef, Fixed,
    LineResult, RawMesh, ResolveError, Vec2, Vec3, VertexIndeces,
};

fn fx(scaled: i64) -> Fixed {
    Fixed { scaled }
}

fn v3(x: i64, y: i64, z: i64) -> Vec3 {
    Vec3 { x: fx(x), y: fx(y), z: fx(z) }
}

fn corner(ci: i64, ti: Option<i64>, ni: Option<i64>, seen: (usize, usize, usize)) -> CornerRef {
    CornerRef {
        ind: VertexIndeces { coord_rindex: ci, texcoord_rindex: ti, normal_rindex: ni },
        pos_seen: seen.0,
        tex_seen: seen.1,
        norm_seen: seen.2,
    }
}

const QUAD_SPLIT: &str = "v 0.0 0.0 0.0\nv 1.0 0.0 0.0\nv 1.0 1.0 0.0\nv 0.0 1.0 0.0\nvt 0.0 0.0\nvt 1.0 0.0\nvt 1.0 1.0\nvt 0.0 1.0\nvn 0.0 0.0 1.0\nf 1/1/1 2/2/1 3/3/1\nf 1/1/1 3/3/1 4/4/1";

#[test]
fn parse_file_keeps_line_order() {
    let records = parse_file("v 1.0 2.0\nvn 1.0 2.0 3.0\n# done");
    assert_eq!(records.len(), 3);
    assert!(matches!(records[0], LineResult::VertDataLine(objld::VertexData::Coord2 { .. })));
    assert!(matches!(records[1], LineResult::VertDataLine(objld::VertexData::Normal { .. })));
    assert_eq!(records[2], LineResult::NoData);
}

#[test]
fn quad_aggregates_to_two_triangles() {
    let records = parse_file("v 0.0 0.0 0.0\nf 1/1/1 2/2/2 3/3/3 4/4/4");
    let m = build_raw_mesh(&records);
    assert_eq!(m.positions.len(), 1);
    assert_eq!(m.corners.len(), 6);
    let picked: Vec<i64> = m.corners.iter().map(|c| c.ind.coord_rindex).collect();
    assert_eq!(picked, vec![1, 2, 3, 3, 4, 1]);
    for c in &m.corners {
        assert_eq!(c.pos_seen, 1);
        assert_eq!(c.tex_seen, 0);
        assert_eq!(c.norm_seen, 0);
    }
}

#[test]
fn malformed_lines_contribute_nothing() {
    let text = "v 1.0 2.0 3.0\n???bad line\nv 4.0 5.0 6.0\nvq 9 9";
    let records = parse_file(text);
    assert_eq!(records.len(), 4);
    assert!(matches!(records[1], LineResult::Error(_)));
    assert!(matches!(records[3], LineResult::Error(_)));
    let m = build_raw_mesh(&records);
    assert_eq!(m.positions.len(), 2);
    assert_eq!(m.positions[0], v3(10_000_000, 20_000_000, 30_000_000));
    assert_eq!(m.positions[1], v3(40_000_000, 50_000_000, 60_000_000));
    assert_eq!(m.corners.len(), 0);
}

#[test]
fn negative_indices_resolve_from_accumulated_length() {
    let positions: Vec<Vec3> = (0..5).map(|i| v3(i * 10_000_000, 0, 0)).collect();
    let m = RawMesh {
        positions,
        texcoords: Vec::new(),
        normals: Vec::new(),
        corners: vec![
            corner(-1, None, None, (5, 0, 0)),
            corner(-5, None, None, (5, 0, 0)),
            corner(-1, None, None, (3, 0, 0)),
        ],
    };
    let out = to_indexed_flat(&m).unwrap();
    assert_eq!(out.positions[0], v3(40_000_000, 0, 0));
    assert_eq!(out.positions[1], v3(0, 0, 0));
    assert_eq!(out.positions[2], v3(20_000_000, 0, 0));
    assert_eq!(out.indices, vec![0, 1, 2]);
}

#[test]
fn dedup_is_deterministic_under_rerun() {
    let records = parse_file(QUAD_SPLIT);
    let m = build_raw_mesh(&records);
    let a = to_indexed_dedup(&m).unwrap();
    let b = to_indexed_dedup(&m).unwrap();
    assert_eq!(a.positions, b.positions);
    assert_eq!(a.texcoords, b.texcoords);
    assert_eq!(a.normals, b.normals);
    assert_eq!(a.indices, b.indices);
}

#[test]
fn dedup_compresses_shared_corners() {
    let records = parse_file(QUAD_SPLIT);
    let m = build_raw_mesh(&records);
    let dedup = to_indexed_dedup(&m).unwrap();
    assert_eq!(dedup.positions.len(), 4);
    assert_eq!(dedup.texcoords.len(), 4);
    assert_eq!(dedup.normals.len(), 4);
    assert_eq!(dedup.indices, vec![0, 1, 2, 0, 2, 3]);
    let flat = to_indexed_flat(&m).unwrap();
    assert_eq!(flat.positions.len(), 6);
    assert_eq!(flat.indices, vec![0, 1, 2, 3, 4, 5]);
}

#[test]
fn noise_past_seventh_digit_shares_a_vertex() {
    let text = "v 1.00000001 2.0 3.0\nv 1.00000009 2.0 3.0\nvt 0.5 0.5\nvn 0.0 0.0 1.0\nf 1/1/1 2/1/1 1/1/1";
    let records = parse_file(text);
    let m = build_raw_mesh(&records);
    assert_eq!(m.positions[0], m.positions[1]);
    let out = to_indexed_dedup(&m).unwrap();
    assert_eq!(out.positions.len(), 1);
    assert_eq!(out.indices, vec![0, 0, 0]);
}

#[test]
fn out_of_range_index_is_fatal() {
    let records = parse_file("v 0.0 0.0 0.0\nvt 0.0 0.0\nvn 0.0 0.0 1.0\nf 1/1/1 2/1/1 1/1/1");
    let m = build_raw_mesh(&records);
    assert_eq!(to_indexed_dedup(&m).unwrap_err(), ResolveError::IndexOutOfBounds);
    assert_eq!(to_indexed_flat(&m).unwrap_err(), ResolveError::IndexOutOfBounds);
    let records = parse_file("v 0.0 0.0 0.0\nvt 0.0 0.0\nvn 0.0 0.0 1.0\nf -2/1/1 1/1/1 1/1/1");
    let m = build_raw_mesh(&records);
    assert_eq!(to_indexed_dedup(&m).unwrap_err(), ResolveError::IndexOutOfBounds);
    let records = parse_file("v 0.0 0.0 0.0\nvt 0.0 0.0\nvn 0.0 0.0 1.0\nf 0/1/1 1/1/1 1/1/1");
    let m = build_raw_mesh(&records);
    assert_eq!(to_indexed_dedup(&m).unwrap_err(), ResolveError::IndexOutOfBounds);
}

#[test]
fn missing_attribute_is_fatal_only_for_dedup() {
    let records = parse_file("v 0.0 0.0 0.0\nvt 0.0 0.0\nvn 0.0 0.0 1.0\nf 1/1 1/1/1 1/1/1");
    let m = build_raw_mesh(&records);
    assert_eq!(to_indexed_dedup(&m).unwrap_err(), ResolveError::MissingAttributeIndex);
    let flat = to_indexed_flat(&m).unwrap();
    assert_eq!(flat.positions.len(), 3);
    assert_eq!(flat.normals[0], v3(0, 0, 0));
    assert_eq!(flat.normals[1], v3(0, 0, 10_000_000));
}

#[test]
fn two_field_records_are_padded() {
    let records = parse_file("v 1.0 2.0\nvt 0.25\nvt 0.5 0.75 0.125");
    let m = build_raw_mesh(&records);
    assert_eq!(m.positions[0], v3(10_000_000, 20_000_000, 0));
    assert_eq!(m.texcoords[0], Vec2 { u: fx(2_500_000), v: fx(0) });
    assert_eq!(m.texcoords[1], Vec2 { u: fx(5_000_000), v: fx(7_500_000) });
}

#[test]
fn faces_snapshot_accumulated_lengths() {
    let text = "v 0.0 0.0 0.0\nf -1 -1 -1\nv 1.0 1.0 1.0\nf -1 -1 -1";
    let records = parse_file(text);
    let m = build_raw_mesh(&records);
    assert_eq!(m.corners[0].pos_seen, 1);
    assert_eq!(m.corners[3].pos_seen, 2);
    let out = to_indexed_flat(&m).unwrap();
    assert_eq!(out.positions[0], v3(0, 0, 0));
    assert_eq!(out.positions[3], v3(10_000_000, 10_000_000, 10_000_000));
}

#[test]
fn dedup_keys_on_values_not_indices() {
    let text = "v 1.0 1.0 1.0\nv 1.0 1.0 1.0\nvt 0.0 0.0\nvn 0.0 0.0 1.0\nf 1/1/1 2/1/1 1/1/1";
    let records = parse_file(text);
    let m = build_raw_mesh(&records);
    let out = to_indexed_dedup(&m).unwrap();
    assert_eq!(out.positions.len(), 1);
    assert_eq!(out.indices, vec![0, 0, 0]);
}

#[test]
fn face_with_quad_dedups_shared_diagonal() {
    let text = "v 0.0 0.0 0.0\nv 1.0 0.0 0.0\nv 1.0 1.0 0.0\nv 0.0 1.0 0.0\nvt 0.0 0.0\nvn 0.0 0.0 1.0\nf 1/1/1 2/1/1 3/1/1 4/1/1";
    let records = parse_file(text);
    let m = build_raw_mesh(&records);
    let out = to_indexed_dedup(&m).unwrap();
    assert_eq!(out.positions.len(), 4);
    assert_eq!(out.indices, vec![0, 1, 2, 2, 3, 0]);
}
