use objld::{
    consume_num, end_line, parse_coord2, parse_face_vertex, parse_float, parse_line, parse_normal,
    parse_num, Face, Fixed, LineResult, ParseErrorKind, VertexData, VertexIndeces, SCALE,
};

fn fx(scaled: i64) -> Fixed {
    Fixed { scaled }
}

#[test]
fn test_float1() {
    let s = "-1234.1, hello!";
    let end = consume_num(s, 0).unwrap();
    assert_eq!(&s[..end], "-1234.1");
}

#[test]
fn test_float2() {
    let (_, res) = parse_float("2, hj!", 0).unwrap();
    assert_eq!(res, fx(2 * SCALE));
}

#[test]
fn test_vert() {
    let s = " v 1.0 -2.0 # hi!";
    let (end, res) = parse_coord2(s, 0).unwrap();
    assert_eq!(res, VertexData::Coord2 { x: fx(10_000_000), y: fx(-20_000_000) });
    assert_eq!(&s[end..], " # hi!");
}

#[test]
fn test_texvert() {
    let res = parse_line("vt 1.0 +2.0 3.0").unwrap();
    if let LineResult::VertDataLine(res) = res {
        assert_eq!(
            res,
            VertexData::TextureCoord3 { u: fx(10_000_000), v: fx(20_000_000), w: fx(30_000_000) }
        );
    } else {
        panic!("Wrong line type!");
    }
}

#[test]
fn test_vert_space() {
    let res = parse_line("    v      -5.000000       5.000000       0.000000").unwrap();
    if let LineResult::VertDataLine(res) = res {
        assert_eq!(
            res,
            VertexData::Coord3 { x: fx(-50_000_000), y: fx(50_000_000), z: fx(0) }
        );
    } else {
        panic!("Wrong line type!");
    }
}

#[test]
fn test_normal() {
    let s = " vn 1.0 -2.0 # hi!";
    match parse_normal(s, 0) {
        Err(e) => {
            assert_eq!(e.kind, ParseErrorKind::MalformedNumber);
            assert_eq!(&s[e.pos..], "# hi!");
        }
        Ok(_) => panic!("expected a failure: the normal has only two coordinates"),
    }
}

#[test]
fn test_num1() {
    let (_, res) = parse_num("1", 0).unwrap();
    assert_eq!(res, 1i64);
}

#[test]
fn test_face1() {
    let res = parse_line("    f 1/2/3 3//2 2/1/").unwrap();
    if let LineResult::FaceLine(Face::Face3 { v1, v2, v3 }) = res {
        assert_eq!(
            v1,
            VertexIndeces { coord_rindex: 1, texcoord_rindex: Some(2), normal_rindex: Some(3) }
        );
        assert_eq!(
            v2,
            VertexIndeces { coord_rindex: 3, texcoord_rindex: None, normal_rindex: Some(2) }
        );
        assert_eq!(
            v3,
            VertexIndeces { coord_rindex: 2, texcoord_rindex: Some(1), normal_rindex: None }
        );
    } else {
        panic!("Wrong line type!");
    }
}

#[test]
fn blank_and_comment_lines_give_no_data() {
    assert_eq!(parse_line("").unwrap(), LineResult::NoData);
    assert_eq!(parse_line("   \t ").unwrap(), LineResult::NoData);
    assert_eq!(parse_line("# a comment").unwrap(), LineResult::NoData);
    assert_eq!(parse_line("   # indented comment").unwrap(), LineResult::NoData);
}

#[test]
fn two_coordinate_position_line() {
    let res = parse_line("v 1.0 -2.0").unwrap();
    assert_eq!(
        res,
        LineResult::VertDataLine(VertexData::Coord2 { x: fx(10_000_000), y: fx(-20_000_000) })
    );
}

#[test]
fn three_coordinate_texcoord_line() {
    let res = parse_line("vt 1.0 2.0 3.0").unwrap();
    assert_eq!(
        res,
        LineResult::VertDataLine(VertexData::TextureCoord3 {
            u: fx(10_000_000),
            v: fx(20_000_000),
            w: fx(30_000_000),
        })
    );
}

#[test]
fn normal_line() {
    let res = parse_line("vn 0.0 0.0 1.0").unwrap();
    assert_eq!(
        res,
        LineResult::VertDataLine(VertexData::Normal { x: fx(0), y: fx(0), z: fx(10_000_000) })
    );
}

#[test]
fn bare_and_partial_face_corners() {
    let res = parse_line("f 1 2 3").unwrap();
    if let LineResult::FaceLine(Face::Face3 { v1, v2, v3 }) = res {
        assert_eq!(v1, VertexIndeces { coord_rindex: 1, texcoord_rindex: None, normal_rindex: None });
        assert_eq!(v2, VertexIndeces { coord_rindex: 2, texcoord_rindex: None, normal_rindex: None });
        assert_eq!(v3, VertexIndeces { coord_rindex: 3, texcoord_rindex: None, normal_rindex: None });
    } else {
        panic!("Wrong line type!");
    }
    let (_, v) = parse_face_vertex("7/8", 0).unwrap();
    assert_eq!(v, VertexIndeces { coord_rindex: 7, texcoord_rindex: Some(8), normal_rindex: None });
}

#[test]
fn quad_face_line() {
    let res = parse_line("f 1/1/1 2/2/1 3/3/1 4/4/1").unwrap();
    match res {
        LineResult::FaceLine(Face::Face4 { v1, v2, v3, v4 }) => {
            assert_eq!(v1.coord_rindex, 1);
            assert_eq!(v2.coord_rindex, 2);
            assert_eq!(v3.coord_rindex, 3);
            assert_eq!(v4.coord_rindex, 4);
        }
        _ => panic!("Wrong line type!"),
    }
}

#[test]
fn negative_face_indices_parse() {
    let res = parse_line("f -1/-2/-3 -4//-5 1/2/3").unwrap();
    if let LineResult::FaceLine(Face::Face3 { v1, v2, .. }) = res {
        assert_eq!(
            v1,
            VertexIndeces { coord_rindex: -1, texcoord_rindex: Some(-2), normal_rindex: Some(-3) }
        );
        assert_eq!(
            v2,
            VertexIndeces { coord_rindex: -4, texcoord_rindex: None, normal_rindex: Some(-5) }
        );
    } else {
        panic!("Wrong line type!");
    }
}

#[test]
fn unrecognized_lines_are_errors() {
    assert!(parse_line("o some_object").is_err());
    assert!(parse_line("v 1.0").is_err());
    assert!(parse_line("f 1/2/3 4/5/6").is_err());
    assert!(parse_line("hello world").is_err());
}

#[test]
fn float_conversion_overflow_is_not_a_float() {
    let e = parse_float("99999999999999999999.0", 0).unwrap_err();
    assert_eq!(e.kind, ParseErrorKind::NotAFloat);
    assert_eq!(e.pos, 0);
}

#[test]
fn integer_conversion_failures_are_not_an_integer() {
    let e = parse_num("1.5", 0).unwrap_err();
    assert_eq!(e.kind, ParseErrorKind::NotAnInteger);
    let e = parse_num("99999999999999999999", 0).unwrap_err();
    assert_eq!(e.kind, ParseErrorKind::NotAnInteger);
    let (_, v) = parse_num("+7", 0).unwrap();
    assert_eq!(v, 7i64);
    let (_, v) = parse_num("-3", 0).unwrap();
    assert_eq!(v, -3i64);
}

#[test]
fn missing_digits_is_malformed_number() {
    let e = parse_float("abc", 0).unwrap_err();
    assert_eq!(e.kind, ParseErrorKind::MalformedNumber);
    let e = consume_num(".5", 0).unwrap_err();
    assert_eq!(e.kind, ParseErrorKind::MalformedNumber);
}

#[test]
fn fraction_truncates_not_rounds() {
    let (_, v) = parse_float("1.99999995", 0).unwrap();
    assert_eq!(v, fx(19_999_999));
    let (_, v) = parse_float("-1.99999995", 0).unwrap();
    assert_eq!(v, fx(-19_999_999));
    let (_, v) = parse_float("5.", 0).unwrap();
    assert_eq!(v, fx(50_000_000));
}

#[test]
fn noise_past_seventh_digit_is_dropped() {
    let (_, a) = parse_float("1.00000001", 0).unwrap();
    let (_, b) = parse_float("1.00000009", 0).unwrap();
    assert_eq!(a, b);
    assert_eq!(a, fx(10_000_000));
}

#[test]
fn end_line_accepts_blanks_and_comments_only() {
    assert!(end_line("   ", 0).is_ok());
    assert!(end_line("  # rest is ignored", 0).is_ok());
    let e = end_line("  x", 0).unwrap_err();
    assert_eq!(e.kind, ParseErrorKind::ExpectedEnd);
    assert_eq!(e.pos, 2);
}
