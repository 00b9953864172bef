//! The line grammar: each alternative fully parses its keyword, fields and
//! line terminator; `parse_line` commits to the first alternative that
//! matches the whole line and otherwise reports the last alternative's error.
use vstd::prelude::*;
use vstd::string::StringSliceAdditionalSpecFns;
use crate::lexer::{
    is_space, sp_skip_spaces, sp_space1, sp_end_line, sp_parse_float, sp_parse_num,
    pos_res_matches, val_res_matches, skip_spaces, lex_space1, lex_end_line, lex_float, lex_int,
    lemma_skip_spaces_first,
};
use crate::record::{VertexData, VertexIndeces, Face, LineResult, ParseError, ParseErrorKind};

verus! {

/// A one-byte keyword at `pos`.
pub open spec fn sp_tag1(bs: Seq<u8>, pos: int, c: u8) -> Result<int, (ParseErrorKind, int)> {
    if 0 <= pos < bs.len() && bs[pos] == c {
        Ok(pos + 1)
    } else {
        Err((ParseErrorKind::ExpectedKeyword, pos))
    }
}

/// A two-byte keyword at `pos`.
pub open spec fn sp_tag2(bs: Seq<u8>, pos: int, c0: u8, c1: u8) -> Result<
    int,
    (ParseErrorKind, int),
> {
    if 0 <= pos && pos + 2 <= bs.len() && bs[pos] == c0 && bs[pos + 1] == c1 {
        Ok(pos + 2)
    } else {
        Err((ParseErrorKind::ExpectedKeyword, pos))
    }
}

pub(crate) fn lex_tag1(b: &[u8], pos: usize, c: u8) -> (r: Result<usize, ParseError>)
    requires
        pos <= b@.len(),
    ensures
        pos_res_matches(r, sp_tag1(b@, pos as int, c)),
        match r {
            Ok(p2) => pos <= p2 <= b@.len(),
            Err(e) => pos <= e.pos <= b@.len(),
        },
{
    if pos < b.len() && b[pos] == c {
        Ok(pos + 1)
    } else {
        Err(ParseError { kind: ParseErrorKind::ExpectedKeyword, pos })
    }
}

pub(crate) fn lex_tag2(b: &[u8], pos: usize, c0: u8, c1: u8) -> (r: Result<usize, ParseError>)
    requires
        pos <= b@.len(),
    ensures
        pos_res_matches(r, sp_tag2(b@, pos as int, c0, c1)),
        match r {
            Ok(p2) => pos <= p2 <= b@.len(),
            Err(e) => pos <= e.pos <= b@.len(),
        },
{
    if b.len() - pos >= 2 && b[pos] == c0 && b[pos + 1] == c1 {
        Ok(pos + 2)
    } else {
        Err(ParseError { kind: ParseErrorKind::ExpectedKeyword, pos })
    }
}

/// `v x y`: the unofficial two-coordinate position.
pub open spec fn sp_coord2(bs: Seq<u8>, pos: int) -> Result<
    (int, VertexData),
    (ParseErrorKind, int),
> {
    match sp_tag1(bs, sp_skip_spaces(bs, pos), 118) {
        Err(e) => Err(e),
        Ok(p1) => match sp_space1(bs, p1) {
            Err(e) => Err(e),
            Ok(p2) => match sp_parse_float(bs, p2) {
                Err(e) => Err(e),
                Ok((p3, x)) => match sp_space1(bs, p3) {
                    Err(e) => Err(e),
                    Ok(p4) => match sp_parse_float(bs, p4) {
                        Err(e) => Err(e),
                        Ok((p5, y)) => Ok((p5, VertexData::Coord2 { x, y })),
                    },
                },
            },
        },
    }
}

/// `v x y z`: the three-coordinate position.
pub open spec fn sp_coord3(bs: Seq<u8>, pos: int) -> Result<
    (int, VertexData),
    (ParseErrorKind, int),
> {
    match sp_coord2(bs, pos) {
        Err(e) => Err(e),
        Ok((p5, v)) => match sp_space1(bs, p5) {
            Err(e) => Err(e),
            Ok(p6) => match sp_parse_float(bs, p6) {
                Err(e) => Err(e),
                Ok((p7, z)) => Ok(
                    (
                        p7,
                        match v {
                            VertexData::Coord2 { x, y } => VertexData::Coord3 { x, y, z },
                            _ => v,
                        },
                    ),
                ),
            },
        },
    }
}

/// `vn x y z`: the normal.
pub open spec fn sp_normal(bs: Seq<u8>, pos: int) -> Result<
    (int, VertexData),
    (ParseErrorKind, int),
> {
    match sp_tag2(bs, sp_skip_spaces(bs, pos), 118, 110) {
        Err(e) => Err(e),
        Ok(p1) => match sp_space1(bs, p1) {
            Err(e) => Err(e),
            Ok(p2) => match sp_parse_float(bs, p2) {
                Err(e) => Err(e),
                Ok((p3, x)) => match sp_space1(bs, p3) {
                    Err(e) => Err(e),
                    Ok(p4) => match sp_parse_float(bs, p4) {
                        Err(e) => Err(e),
                        Ok((p5, y)) => match sp_space1(bs, p5) {
                            Err(e) => Err(e),
                            Ok(p6) => match sp_parse_float(bs, p6) {
                                Err(e) => Err(e),
                                Ok((p7, z)) => Ok((p7, VertexData::Normal { x, y, z })),
                            },
                        },
                    },
                },
            },
        },
    }
}

/// `vt u`: the one-coordinate texture coordinate.
pub open spec fn sp_texcoord1(bs: Seq<u8>, pos: int) -> Result<
    (int, VertexData),
    (ParseErrorKind, int),
> {
    match sp_tag2(bs, sp_skip_spaces(bs, pos), 118, 116) {
        Err(e) => Err(e),
        Ok(p1) => match sp_space1(bs, p1) {
            Err(e) => Err(e),
            Ok(p2) => match sp_parse_float(bs, p2) {
                Err(e) => Err(e),
                Ok((p3, u)) => Ok((p3, VertexData::TextureCoord1 { u })),
            },
        },
    }
}

/// `vt u v`: the two-coordinate texture coordinate.
pub open spec fn sp_texcoord2(bs: Seq<u8>, pos: int) -> Result<
    (int, VertexData),
    (ParseErrorKind, int),
> {
    match sp_texcoord1(bs, pos) {
        Err(e) => Err(e),
        Ok((p3, t)) => match sp_space1(bs, p3) {
            Err(e) => Err(e),
            Ok(p4) => match sp_parse_float(bs, p4) {
                Err(e) => Err(e),
                Ok((p5, v)) => Ok(
                    (
                        p5,
                        match t {
                            VertexData::TextureCoord1 { u } => VertexData::TextureCoord2 { u, v },
                            _ => t,
                        },
                    ),
                ),
            },
        },
    }
}

/// `vt u v w`: the three-coordinate texture coordinate.
pub open spec fn sp_texcoord3(bs: Seq<u8>, pos: int) -> Result<
    (int, VertexData),
    (ParseErrorKind, int),
> {
    match sp_texcoord2(bs, pos) {
        Err(e) => Err(e),
        Ok((p5, t)) => match sp_space1(bs, p5) {
            Err(e) => Err(e),
            Ok(p6) => match sp_parse_float(bs, p6) {
                Err(e) => Err(e),
                Ok((p7, w)) => Ok(
                    (
                        p7,
                        match t {
                            VertexData::TextureCoord2 { u, v } => VertexData::TextureCoord3 {
                                u,
                                v,
                                w,
                            },
                            _ => t,
                        },
                    ),
                ),
            },
        },
    }
}

/// An optional index: a failed number consumes nothing.
pub open spec fn sp_opt_num(bs: Seq<u8>, pos: int) -> (int, Option<i64>) {
    match sp_parse_num(bs, pos) {
        Ok((p, v)) => (p, Some(v)),
        Err(_) => (pos, None),
    }
}

/// One face corner: `index[/[index][/[index]]]`.
pub open spec fn sp_face_vertex(bs: Seq<u8>, pos: int) -> Result<
    (int, VertexIndeces),
    (ParseErrorKind, int),
> {
    match sp_parse_num(bs, pos) {
        Err(e) => Err(e),
        Ok((p1, ci)) => {
            if 0 <= p1 < bs.len() && bs[p1] == 47 {
                let (p3, ti) = sp_opt_num(bs, p1 + 1);
                if 0 <= p3 < bs.len() && bs[p3] == 47 {
                    let (p5, ni) = sp_opt_num(bs, p3 + 1);
                    Ok(
                        (
                            p5,
                            VertexIndeces {
                                coord_rindex: ci,
                                texcoord_rindex: ti,
                                normal_rindex: ni,
                            },
                        ),
                    )
                } else {
                    Ok(
                        (
                            p3,
                            VertexIndeces {
                                coord_rindex: ci,
                                texcoord_rindex: ti,
                                normal_rindex: None,
                            },
                        ),
                    )
                }
            } else {
                Ok(
                    (
                        p1,
                        VertexIndeces {
                            coord_rindex: ci,
                            texcoord_rindex: None,
                            normal_rindex: None,
                        },
                    ),
                )
            }
        },
    }
}

/// `f a b c`: a triangle face.
pub open spec fn sp_face3(bs: Seq<u8>, pos: int) -> Result<(int, Face), (ParseErrorKind, int)> {
    match sp_tag1(bs, sp_skip_spaces(bs, pos), 102) {
        Err(e) => Err(e),
        Ok(p1) => match sp_space1(bs, p1) {
            Err(e) => Err(e),
            Ok(p2) => match sp_face_vertex(bs, p2) {
                Err(e) => Err(e),
                Ok((p3, v1)) => match sp_space1(bs, p3) {
                    Err(e) => Err(e),
                    Ok(p4) => match sp_face_vertex(bs, p4) {
                        Err(e) => Err(e),
                        Ok((p5, v2)) => match sp_space1(bs, p5) {
                            Err(e) => Err(e),
                            Ok(p6) => match sp_face_vertex(bs, p6) {
                                Err(e) => Err(e),
                                Ok((p7, v3)) => Ok((p7, Face::Face3 { v1, v2, v3 })),
                            },
                        },
                    },
                },
            },
        },
    }
}

/// `f a b c d`: a quad face.
pub open spec fn sp_face4(bs: Seq<u8>, pos: int) -> Result<(int, Face), (ParseErrorKind, int)> {
    match sp_face3(bs, pos) {
        Err(e) => Err(e),
        Ok((p7, f)) => match sp_space1(bs, p7) {
            Err(e) => Err(e),
            Ok(p8) => match sp_face_vertex(bs, p8) {
                Err(e) => Err(e),
                Ok((p9, v4)) => Ok(
                    (
                        p9,
                        match f {
                            Face::Face3 { v1, v2, v3 } => Face::Face4 { v1, v2, v3, v4 },
                            _ => f,
                        },
                    ),
                ),
            },
        },
    }
}

/// A vertex-data alternative followed by the line terminator.
pub open spec fn sp_alt_vert(
    bs: Seq<u8>,
    a: Result<(int, VertexData), (ParseErrorKind, int)>,
) -> Result<LineResult, (ParseErrorKind, int)> {
    match a {
        Err(e) => Err(e),
        Ok((p, v)) => match sp_end_line(bs, p) {
            Err(e) => Err(e),
            Ok(_) => Ok(LineResult::VertDataLine(v)),
        },
    }
}

/// A face alternative followed by the line terminator.
pub open spec fn sp_alt_face(bs: Seq<u8>, a: Result<(int, Face), (ParseErrorKind, int)>) -> Result<
    LineResult,
    (ParseErrorKind, int),
> {
    match a {
        Err(e) => Err(e),
        Ok((p, f)) => match sp_end_line(bs, p) {
            Err(e) => Err(e),
            Ok(_) => Ok(LineResult::FaceLine(f)),
        },
    }
}

/// The whole line grammar: alternatives are tried in order of the field count
/// needed to tell the keyword apart, each must consume the full line, and a
/// line matching none carries the last alternative's failure.
pub open spec fn sp_parse_line(bs: Seq<u8>) -> Result<LineResult, (ParseErrorKind, int)> {
    if sp_end_line(bs, 0) is Ok {
        Ok(LineResult::NoData)
    } else if sp_alt_vert(bs, sp_texcoord1(bs, 0)) is Ok {
        sp_alt_vert(bs, sp_texcoord1(bs, 0))
    } else if sp_alt_vert(bs, sp_coord2(bs, 0)) is Ok {
        sp_alt_vert(bs, sp_coord2(bs, 0))
    } else if sp_alt_vert(bs, sp_texcoord2(bs, 0)) is Ok {
        sp_alt_vert(bs, sp_texcoord2(bs, 0))
    } else if sp_alt_vert(bs, sp_coord3(bs, 0)) is Ok {
        sp_alt_vert(bs, sp_coord3(bs, 0))
    } else if sp_alt_vert(bs, sp_normal(bs, 0)) is Ok {
        sp_alt_vert(bs, sp_normal(bs, 0))
    } else if sp_alt_vert(bs, sp_texcoord3(bs, 0)) is Ok {
        sp_alt_vert(bs, sp_texcoord3(bs, 0))
    } else if sp_alt_face(bs, sp_face3(bs, 0)) is Ok {
        sp_alt_face(bs, sp_face3(bs, 0))
    } else {
        sp_alt_face(bs, sp_face4(bs, 0))
    }
}

/// An executable line result agrees with its specification.
pub open spec fn line_res_matches(
    r: Result<LineResult, ParseError>,
    sp: Result<LineResult, (ParseErrorKind, int)>,
) -> bool {
    match (r, sp) {
        (Ok(a), Ok(b)) => a == b,
        (Err(e), Err(f)) => e.kind == f.0 && e.pos as int == f.1,
        _ => false,
    }
}

/// A line of blanks alone, or of blanks and a `#` comment, parses to
/// `NoData`: `p` is where the blanks end.
pub proof fn lemma_blank_line_no_data(bs: Seq<u8>, p: int)
    requires
        0 <= p <= bs.len(),
        forall|i: int| 0 <= i < p ==> is_space(#[trigger] bs[i]),
        p == bs.len() || bs[p] == 35,
    ensures
        sp_parse_line(bs) == Ok::<LineResult, (ParseErrorKind, int)>(LineResult::NoData),
{
    lemma_skip_spaces_first(bs, 0);
    let q = sp_skip_spaces(bs, 0);
    if q < p {
        assert(is_space(bs[q]));
        assert(false);
    }
    if p < bs.len() {
        assert(!is_space(bs[p]));
        if q > p {
            assert(is_space(bs[p]));
            assert(false);
        }
        assert(q == p);
    } else {
        assert(q == bs.len());
    }
}

pub(crate) fn g_coord2(b: &[u8], pos: usize) -> (r: Result<(usize, VertexData), ParseError>)
    requires
        pos <= b@.len(),
    ensures
        val_res_matches(r, sp_coord2(b@, pos as int)),
        match r {
            Ok(p) => p.0 <= b@.len(),
            Err(e) => e.pos <= b@.len(),
        },
{
    let p0 = skip_spaces(b, pos);
    let p1 = match lex_tag1(b, p0, 118) {
        Ok(p) => p,
        Err(e) => {
            return Err(e);
        },
    };
    let p2 = match lex_space1(b, p1) {
        Ok(p) => p,
        Err(e) => {
            return Err(e);
        },
    };
    let (p3, x) = match lex_float(b, p2) {
        Ok(v) => v,
        Err(e) => {
            return Err(e);
        },
    };
    let p4 = match lex_space1(b, p3) {
        Ok(p) => p,
        Err(e) => {
            return Err(e);
        },
    };
    let (p5, y) = match lex_float(b, p4) {
        Ok(v) => v,
        Err(e) => {
            return Err(e);
        },
    };
    Ok((p5, VertexData::Coord2 { x, y }))
}

pub(crate) fn g_coord3(b: &[u8], pos: usize) -> (r: Result<(usize, VertexData), ParseError>)
    requires
        pos <= b@.len(),
    ensures
        val_res_matches(r, sp_coord3(b@, pos as int)),
        match r {
            Ok(p) => p.0 <= b@.len(),
            Err(e) => e.pos <= b@.len(),
        },
{
    let (p5, v) = match g_coord2(b, pos) {
        Ok(t) => t,
        Err(e) => {
            return Err(e);
        },
    };
    let p6 = match lex_space1(b, p5) {
        Ok(p) => p,
        Err(e) => {
            return Err(e);
        },
    };
    let (p7, z) = match lex_float(b, p6) {
        Ok(t) => t,
        Err(e) => {
            return Err(e);
        },
    };
    match v {
        VertexData::Coord2 { x, y } => Ok((p7, VertexData::Coord3 { x, y, z })),
        _ => Ok((p7, v)),
    }
}

pub(crate) fn g_normal(b: &[u8], pos: usize) -> (r: Result<(usize, VertexData), ParseError>)
    requires
        pos <= b@.len(),
    ensures
        val_res_matches(r, sp_normal(b@, pos as int)),
        match r {
            Ok(p) => p.0 <= b@.len(),
            Err(e) => e.pos <= b@.len(),
        },
{
    let p0 = skip_spaces(b, pos);
    let p1 = match lex_tag2(b, p0, 118, 110) {
        Ok(p) => p,
        Err(e) => {
            return Err(e);
        },
    };
    let p2 = match lex_space1(b, p1) {
        Ok(p) => p,
        Err(e) => {
            return Err(e);
        },
    };
    let (p3, x) = match lex_float(b, p2) {
        Ok(t) => t,
        Err(e) => {
            return Err(e);
        },
    };
    let p4 = match lex_space1(b, p3) {
        Ok(p) => p,
        Err(e) => {
            return Err(e);
        },
    };
    let (p5, y) = match lex_float(b, p4) {
        Ok(t) => t,
        Err(e) => {
            return Err(e);
        },
    };
    let p6 = match lex_space1(b, p5) {
        Ok(p) => p,
        Err(e) => {
            return Err(e);
        },
    };
    let (p7, z) = match lex_float(b, p6) {
        Ok(t) => t,
        Err(e) => {
            return Err(e);
        },
    };
    Ok((p7, VertexData::Normal { x, y, z }))
}

pub(crate) fn g_texcoord1(b: &[u8], pos: usize) -> (r: Result<(usize, VertexData), ParseError>)
    requires
        pos <= b@.len(),
    ensures
        val_res_matches(r, sp_texcoord1(b@, pos as int)),
        match r {
            Ok(p) => p.0 <= b@.len(),
            Err(e) => e.pos <= b@.len(),
        },
{
    let p0 = skip_spaces(b, pos);
    let p1 = match lex_tag2(b, p0, 118, 116) {
        Ok(p) => p,
        Err(e) => {
            return Err(e);
        },
    };
    let p2 = match lex_space1(b, p1) {
        Ok(p) => p,
        Err(e) => {
            return Err(e);
        },
    };
    let (p3, u) = match lex_float(b, p2) {
        Ok(t) => t,
        Err(e) => {
            return Err(e);
        },
    };
    Ok((p3, VertexData::TextureCoord1 { u }))
}

pub(crate) fn g_texcoord2(b: &[u8], pos: usize) -> (r: Result<(usize, VertexData), ParseError>)
    requires
        pos <= b@.len(),
    ensures
        val_res_matches(r, sp_texcoord2(b@, pos as int)),
        match r {
            Ok(p) => p.0 <= b@.len(),
            Err(e) => e.pos <= b@.len(),
        },
{
    let (p3, t) = match g_texcoord1(b, pos) {
        Ok(t) => t,
        Err(e) => {
            return Err(e);
        },
    };
    let p4 = match lex_space1(b, p3) {
        Ok(p) => p,
        Err(e) => {
            return Err(e);
        },
    };
    let (p5, v) = match lex_float(b, p4) {
        Ok(t) => t,
        Err(e) => {
            return Err(e);
        },
    };
    match t {
        VertexData::TextureCoord1 { u } => Ok((p5, VertexData::TextureCoord2 { u, v })),
        _ => Ok((p5, t)),
    }
}

pub(crate) fn g_texcoord3(b: &[u8], pos: usize) -> (r: Result<(usize, VertexData), ParseError>)
    requires
        pos <= b@.len(),
    ensures
        val_res_matches(r, sp_texcoord3(b@, pos as int)),
        match r {
            Ok(p) => p.0 <= b@.len(),
            Err(e) => e.pos <= b@.len(),
        },
{
    let (p5, t) = match g_texcoord2(b, pos) {
        Ok(t) => t,
        Err(e) => {
            return Err(e);
        },
    };
    let p6 = match lex_space1(b, p5) {
        Ok(p) => p,
        Err(e) => {
            return Err(e);
        },
    };
    let (p7, w) = match lex_float(b, p6) {
        Ok(t) => t,
        Err(e) => {
            return Err(e);
        },
    };
    match t {
        VertexData::TextureCoord2 { u, v } => Ok((p7, VertexData::TextureCoord3 { u, v, w })),
        _ => Ok((p7, t)),
    }
}

pub(crate) fn lex_opt_num(b: &[u8], pos: usize) -> (r: (usize, Option<i64>))
    requires
        pos <= b@.len(),
    ensures
        r.0 as int == sp_opt_num(b@, pos as int).0,
        r.1 == sp_opt_num(b@, pos as int).1,
        pos <= r.0 <= b@.len(),
{
    match lex_int(b, pos) {
        Ok((p, v)) => (p, Some(v)),
        Err(_) => (pos, None),
    }
}

pub(crate) fn g_face_vertex(b: &[u8], pos: usize) -> (r: Result<(usize, VertexIndeces), ParseError>)
    requires
        pos <= b@.len(),
    ensures
        val_res_matches(r, sp_face_vertex(b@, pos as int)),
        match r {
            Ok(p) => p.0 <= b@.len(),
            Err(e) => e.pos <= b@.len(),
        },
{
    let (p1, ci) = match lex_int(b, pos) {
        Ok(t) => t,
        Err(e) => {
            return Err(e);
        },
    };
    if p1 < b.len() && b[p1] == 47 {
        let (p3, ti) = lex_opt_num(b, p1 + 1);
        if p3 < b.len() && b[p3] == 47 {
            let (p5, ni) = lex_opt_num(b, p3 + 1);
            Ok((p5, VertexIndeces { coord_rindex: ci, texcoord_rindex: ti, normal_rindex: ni }))
        } else {
            Ok((p3, VertexIndeces { coord_rindex: ci, texcoord_rindex: ti, normal_rindex: None }))
        }
    } else {
        Ok((p1, VertexIndeces { coord_rindex: ci, texcoord_rindex: None, normal_rindex: None }))
    }
}

pub(crate) fn g_face3(b: &[u8], pos: usize) -> (r: Result<(usize, Face), ParseError>)
    requires
        pos <= b@.len(),
    ensures
        val_res_matches(r, sp_face3(b@, pos as int)),
        match r {
            Ok(p) => p.0 <= b@.len(),
            Err(e) => e.pos <= b@.len(),
        },
{
    let p0 = skip_spaces(b, pos);
    let p1 = match lex_tag1(b, p0, 102) {
        Ok(p) => p,
        Err(e) => {
            return Err(e);
        },
    };
    let p2 = match lex_space1(b, p1) {
        Ok(p) => p,
        Err(e) => {
            return Err(e);
        },
    };
    let (p3, v1) = match g_face_vertex(b, p2) {
        Ok(t) => t,
        Err(e) => {
            return Err(e);
        },
    };
    let p4 = match lex_space1(b, p3) {
        Ok(p) => p,
        Err(e) => {
            return Err(e);
        },
    };
    let (p5, v2) = match g_face_vertex(b, p4) {
        Ok(t) => t,
        Err(e) => {
            return Err(e);
        },
    };
    let p6 = match lex_space1(b, p5) {
        Ok(p) => p,
        Err(e) => {
            return Err(e);
        },
    };
    let (p7, v3) = match g_face_vertex(b, p6) {
        Ok(t) => t,
        Err(e) => {
            return Err(e);
        },
    };
    Ok((p7, Face::Face3 { v1, v2, v3 }))
}

pub(crate) fn g_face4(b: &[u8], pos: usize) -> (r: Result<(usize, Face), ParseError>)
    requires
        pos <= b@.len(),
    ensures
        val_res_matches(r, sp_face4(b@, pos as int)),
        match r {
            Ok(p) => p.0 <= b@.len(),
            Err(e) => e.pos <= b@.len(),
        },
{
    let (p7, f) = match g_face3(b, pos) {
        Ok(t) => t,
        Err(e) => {
            return Err(e);
        },
    };
    let p8 = match lex_space1(b, p7) {
        Ok(p) => p,
        Err(e) => {
            return Err(e);
        },
    };
    let (p9, v4) = match g_face_vertex(b, p8) {
        Ok(t) => t,
        Err(e) => {
            return Err(e);
        },
    };
    match f {
        Face::Face3 { v1, v2, v3 } => Ok((p9, Face::Face4 { v1, v2, v3, v4 })),
        _ => Ok((p9, f)),
    }
}

/// Parses one line: the first alternative that matches the whole line wins;
/// blank and comment-only lines give `NoData`; a line matching nothing gives
/// the last alternative's error.
pub fn parse_line(s: &str) -> (r: Result<LineResult, ParseError>)
    ensures
        line_res_matches(r, sp_parse_line(s.spec_bytes())),
{
    let b = s.as_bytes();
    if let Ok(_) = lex_end_line(b, 0) {
        return Ok(LineResult::NoData);
    }
    match g_texcoord1(b, 0) {
        Ok((p, v)) => match lex_end_line(b, p) {
            Ok(_) => {
                return Ok(LineResult::VertDataLine(v));
            },
            Err(_) => {},
        },
        Err(_) => {},
    }
    match g_coord2(b, 0) {
        Ok((p, v)) => match lex_end_line(b, p) {
            Ok(_) => {
                return Ok(LineResult::VertDataLine(v));
            },
            Err(_) => {},
        },
        Err(_) => {},
    }
    match g_texcoord2(b, 0) {
        Ok((p, v)) => match lex_end_line(b, p) {
            Ok(_) => {
                return Ok(LineResult::VertDataLine(v));
            },
            Err(_) => {},
        },
        Err(_) => {},
    }
    match g_coord3(b, 0) {
        Ok((p, v)) => match lex_end_line(b, p) {
            Ok(_) => {
                return Ok(LineResult::VertDataLine(v));
            },
            Err(_) => {},
        },
        Err(_) => {},
    }
    match g_normal(b, 0) {
        Ok((p, v)) => match lex_end_line(b, p) {
            Ok(_) => {
                return Ok(LineResult::VertDataLine(v));
            },
            Err(_) => {},
        },
        Err(_) => {},
    }
    match g_texcoord3(b, 0) {
        Ok((p, v)) => match lex_end_line(b, p) {
            Ok(_) => {
                return Ok(LineResult::VertDataLine(v));
            },
            Err(_) => {},
        },
        Err(_) => {},
    }
    match g_face3(b, 0) {
        Ok((p, f)) => match lex_end_line(b, p) {
            Ok(_) => {
                return Ok(LineResult::FaceLine(f));
            },
            Err(_) => {},
        },
        Err(_) => {},
    }
    match g_face4(b, 0) {
        Ok((p, f)) => match lex_end_line(b, p) {
            Ok(_) => Ok(LineResult::FaceLine(f)),
            Err(e) => Err(e),
        },
        Err(e) => Err(e),
    }
}

/// Parses a two-coordinate position at byte offset `pos` of `s`.
pub fn parse_coord2(s: &str, pos: usize) -> (r: Result<(usize, VertexData), ParseError>)
    requires
        pos <= s.spec_bytes().len(),
    ensures
        val_res_matches(r, sp_coord2(s.spec_bytes(), pos as int)),
{
    g_coord2(s.as_bytes(), pos)
}

/// Parses a three-coordinate position at byte offset `pos` of `s`.
pub fn parse_coord3(s: &str, pos: usize) -> (r: Result<(usize, VertexData), ParseError>)
    requires
        pos <= s.spec_bytes().len(),
    ensures
        val_res_matches(r, sp_coord3(s.spec_bytes(), pos as int)),
{
    g_coord3(s.as_bytes(), pos)
}

/// Parses a normal at byte offset `pos` of `s`.
pub fn parse_normal(s: &str, pos: usize) -> (r: Result<(usize, VertexData), ParseError>)
    requires
        pos <= s.spec_bytes().len(),
    ensures
        val_res_matches(r, sp_normal(s.spec_bytes(), pos as int)),
{
    g_normal(s.as_bytes(), pos)
}

/// Parses a one-coordinate texture coordinate at byte offset `pos` of `s`.
pub fn parse_texcoord1(s: &str, pos: usize) -> (r: Result<(usize, VertexData), ParseError>)
    requires
        pos <= s.spec_bytes().len(),
    ensures
        val_res_matches(r, sp_texcoord1(s.spec_bytes(), pos as int)),
{
    g_texcoord1(s.as_bytes(), pos)
}

/// Parses a two-coordinate texture coordinate at byte offset `pos` of `s`.
pub fn parse_texcoord2(s: &str, pos: usize) -> (r: Result<(usize, VertexData), ParseError>)
    requires
        pos <= s.spec_bytes().len(),
    ensures
        val_res_matches(r, sp_texcoord2(s.spec_bytes(), pos as int)),
{
    g_texcoord2(s.as_bytes(), pos)
}

/// Parses a three-coordinate texture coordinate at byte offset `pos` of `s`.
pub fn parse_texcoord3(s: &str, pos: usize) -> (r: Result<(usize, VertexData), ParseError>)
    requires
        pos <= s.spec_bytes().len(),
    ensures
        val_res_matches(r, sp_texcoord3(s.spec_bytes(), pos as int)),
{
    g_texcoord3(s.as_bytes(), pos)
}

/// Parses one face corner at byte offset `pos` of `s`.
pub fn parse_face_vertex(s: &str, pos: usize) -> (r: Result<(usize, VertexIndeces), ParseError>)
    requires
        pos <= s.spec_bytes().len(),
    ensures
        val_res_matches(r, sp_face_vertex(s.spec_bytes(), pos as int)),
{
    g_face_vertex(s.as_bytes(), pos)
}

/// Parses a triangle face at byte offset `pos` of `s`.
pub fn parse_face3(s: &str, pos: usize) -> (r: Result<(usize, Face), ParseError>)
    requires
        pos <= s.spec_bytes().len(),
    ensures
        val_res_matches(r, sp_face3(s.spec_bytes(), pos as int)),
{
    g_face3(s.as_bytes(), pos)
}

/// Parses a quad face at byte offset `pos` of `s`.
pub fn parse_face4(s: &str, pos: usize) -> (r: Result<(usize, Face), ParseError>)
    requires
        pos <= s.spec_bytes().len(),
    ensures
        val_res_matches(r, sp_face4(s.spec_bytes(), pos as int)),
{
    g_face4(s.as_bytes(), pos)
}

} // verus!
