//! The raw aggregator: walks the dispatcher's records in original order and
//! grows the four raw arrays, splitting quads into two triangles and
//! remembering, for every corner, how much of each attribute array had
//! accumulated when the corner was read.
use vstd::prelude::*;
use crate::fixed::Fixed;
use crate::record::{VertexData, VertexIndeces, Face, LineResult, ParseError};

verus! {

/// A position or normal triple.
#[derive(Debug, PartialEq, Eq, Structural, Clone, Copy)]
pub struct Vec3 {
    pub x: Fixed,
    pub y: Fixed,
    pub z: Fixed,
}

/// A texture-coordinate pair.
#[derive(Debug, PartialEq, Eq, Structural, Clone, Copy)]
pub struct Vec2 {
    pub u: Fixed,
    pub v: Fixed,
}

/// One corner reference together with how many positions, texture
/// coordinates and normals had been accumulated when it was read: a negative
/// index counts back from that length.
#[derive(Debug, PartialEq, Eq, Structural, Clone, Copy)]
pub struct CornerRef {
    pub ind: VertexIndeces,
    pub pos_seen: usize,
    pub tex_seen: usize,
    pub norm_seen: usize,
}

/// The unindexed intermediate mesh: attribute arrays plus a flat corner
/// list, three corners per triangle, quads already split.
#[derive(Debug)]
pub struct RawMesh {
    pub positions: Vec<Vec3>,
    pub texcoords: Vec<Vec2>,
    pub normals: Vec<Vec3>,
    pub corners: Vec<CornerRef>,
}

/// The mathematical content of a `RawMesh`.
#[verifier::ext_equal]
pub ghost struct RawView {
    pub positions: Seq<Vec3>,
    pub texcoords: Seq<Vec2>,
    pub normals: Seq<Vec3>,
    pub corners: Seq<CornerRef>,
}

impl View for RawMesh {
    type V = RawView;

    open spec fn view(&self) -> RawView {
        RawView {
            positions: self.positions@,
            texcoords: self.texcoords@,
            normals: self.normals@,
            corners: self.corners@,
        }
    }
}

pub open spec fn sp_empty_raw() -> RawView {
    RawView {
        positions: Seq::empty(),
        texcoords: Seq::empty(),
        normals: Seq::empty(),
        corners: Seq::empty(),
    }
}

/// A corner stamped with the attribute counts accumulated so far.
pub open spec fn sp_corner(m: RawView, vi: VertexIndeces) -> CornerRef {
    CornerRef {
        ind: vi,
        pos_seen: m.positions.len() as usize,
        tex_seen: m.texcoords.len() as usize,
        norm_seen: m.normals.len() as usize,
    }
}

/// How one record extends the raw arrays: attribute lines append (two-field
/// positions gain a zero third coordinate, a lone texture coordinate a zero
/// second one, a texture w is dropped), a triangle appends its three corners,
/// a quad appends the corners of its two triangles sharing the first/third
/// diagonal, and blank or failed lines contribute nothing.
pub open spec fn sp_agg_step(m: RawView, r: LineResult) -> RawView {
    match r {
        LineResult::VertDataLine(v) => match v {
            VertexData::Coord2 { x, y } => RawView {
                positions: m.positions.push(Vec3 { x, y, z: Fixed { scaled: 0 } }),
                texcoords: m.texcoords,
                normals: m.normals,
                corners: m.corners,
            },
            VertexData::Coord3 { x, y, z } => RawView {
                positions: m.positions.push(Vec3 { x, y, z }),
                texcoords: m.texcoords,
                normals: m.normals,
                corners: m.corners,
            },
            VertexData::Normal { x, y, z } => RawView {
                positions: m.positions,
                texcoords: m.texcoords,
                normals: m.normals.push(Vec3 { x, y, z }),
                corners: m.corners,
            },
            VertexData::TextureCoord1 { u } => RawView {
                positions: m.positions,
                texcoords: m.texcoords.push(Vec2 { u, v: Fixed { scaled: 0 } }),
                normals: m.normals,
                corners: m.corners,
            },
            VertexData::TextureCoord2 { u, v } => RawView {
                positions: m.positions,
                texcoords: m.texcoords.push(Vec2 { u, v }),
                normals: m.normals,
                corners: m.corners,
            },
            VertexData::TextureCoord3 { u, v, w } => RawView {
                positions: m.positions,
                texcoords: m.texcoords.push(Vec2 { u, v }),
                normals: m.normals,
                corners: m.corners,
            },
        },
        LineResult::FaceLine(f) => match f {
            Face::Face3 { v1, v2, v3 } => RawView {
                positions: m.positions,
                texcoords: m.texcoords,
                normals: m.normals,
                corners: m.corners + seq![
                    sp_corner(m, v1),
                    sp_corner(m, v2),
                    sp_corner(m, v3),
                ],
            },
            Face::Face4 { v1, v2, v3, v4 } => RawView {
                positions: m.positions,
                texcoords: m.texcoords,
                normals: m.normals,
                corners: m.corners + seq![
                    sp_corner(m, v1),
                    sp_corner(m, v2),
                    sp_corner(m, v3),
                    sp_corner(m, v3),
                    sp_corner(m, v4),
                    sp_corner(m, v1),
                ],
            },
        },
        LineResult::NoData => m,
        LineResult::Error(_) => m,
    }
}

/// The raw mesh that a record sequence aggregates to.
pub open spec fn sp_aggregate(rs: Seq<LineResult>) -> RawView
    decreases rs.len(),
{
    if rs.len() == 0 {
        sp_empty_raw()
    } else {
        sp_agg_step(sp_aggregate(rs.drop_last()), rs.last())
    }
}

/// A quad face aggregates to six corners: the corners of the two triangles
/// sharing the quad's first/third diagonal, while the attribute arrays stay
/// as they were.
pub proof fn lemma_quad_expansion(
    rs: Seq<LineResult>,
    v1: VertexIndeces,
    v2: VertexIndeces,
    v3: VertexIndeces,
    v4: VertexIndeces,
)
    ensures
        ({
            let m = sp_aggregate(rs);
            let m2 = sp_aggregate(rs.push(LineResult::FaceLine(Face::Face4 { v1, v2, v3, v4 })));
            m2.positions == m.positions && m2.texcoords == m.texcoords && m2.normals == m.normals
                && m2.corners == m.corners + seq![
                sp_corner(m, v1),
                sp_corner(m, v2),
                sp_corner(m, v3),
                sp_corner(m, v3),
                sp_corner(m, v4),
                sp_corner(m, v1),
            ]
        }),
{
    let r = LineResult::FaceLine(Face::Face4 { v1, v2, v3, v4 });
    assert(rs.push(r).drop_last() =~= rs);
    assert(rs.push(r).last() == r);
}

/// A record that failed to parse contributes nothing: aggregation of any
/// record sequence with an `Error` entry spliced in equals aggregation of the
/// sequence without it.
pub proof fn lemma_error_line_ignored(rs1: Seq<LineResult>, e: ParseError, rs2: Seq<LineResult>)
    ensures
        sp_aggregate(rs1 + seq![LineResult::Error(e)] + rs2) == sp_aggregate(rs1 + rs2),
    decreases rs2.len(),
{
    let mid = rs1 + seq![LineResult::Error(e)];
    if rs2.len() == 0 {
        assert(mid + rs2 =~= mid);
        assert(mid.drop_last() =~= rs1);
        assert(mid.last() == LineResult::Error(e));
        assert(rs1 + rs2 =~= rs1);
    } else {
        lemma_error_line_ignored(rs1, e, rs2.drop_last());
        let a = mid + rs2;
        let b = rs1 + rs2;
        assert(a.drop_last() =~= mid + rs2.drop_last());
        assert(b.drop_last() =~= rs1 + rs2.drop_last());
        assert(a.last() == rs2.last());
        assert(b.last() == rs2.last());
        assert(a.len() > 0 && b.len() > 0);
    }
}

/// The corner list always holds whole triangles.
pub proof fn lemma_aggregate_corners_triples(rs: Seq<LineResult>)
    ensures
        sp_aggregate(rs).corners.len() % 3 == 0,
    decreases rs.len(),
{
    if rs.len() > 0 {
        lemma_aggregate_corners_triples(rs.drop_last());
    }
}

impl RawMesh {
    /// The empty raw mesh.
    pub fn new() -> (m: RawMesh)
        ensures
            m@ == sp_empty_raw(),
    {
        let m = RawMesh {
            positions: Vec::new(),
            texcoords: Vec::new(),
            normals: Vec::new(),
            corners: Vec::new(),
        };
        proof {
            assert(m@.positions =~= sp_empty_raw().positions);
            assert(m@.texcoords =~= sp_empty_raw().texcoords);
            assert(m@.normals =~= sp_empty_raw().normals);
            assert(m@.corners =~= sp_empty_raw().corners);
            assert(m@ =~= sp_empty_raw());
        }
        m
    }

    fn stamp(&self, vi: VertexIndeces) -> (c: CornerRef)
        ensures
            c == sp_corner(self@, vi),
    {
        CornerRef {
            ind: vi,
            pos_seen: self.positions.len(),
            tex_seen: self.texcoords.len(),
            norm_seen: self.normals.len(),
        }
    }

    /// Applies one record to the growing raw arrays.
    pub fn push_record(&mut self, r: LineResult)
        ensures
            final(self)@ == sp_agg_step(old(self)@, r),
    {
        match r {
            LineResult::VertDataLine(v) => match v {
                VertexData::Coord2 { x, y } => {
                    self.positions.push(Vec3 { x, y, z: Fixed { scaled: 0 } });
                },
                VertexData::Coord3 { x, y, z } => {
                    self.positions.push(Vec3 { x, y, z });
                },
                VertexData::Normal { x, y, z } => {
                    self.normals.push(Vec3 { x, y, z });
                },
                VertexData::TextureCoord1 { u } => {
                    self.texcoords.push(Vec2 { u, v: Fixed { scaled: 0 } });
                },
                VertexData::TextureCoord2 { u, v } => {
                    self.texcoords.push(Vec2 { u, v });
                },
                VertexData::TextureCoord3 { u, v, w: _ } => {
                    self.texcoords.push(Vec2 { u, v });
                },
            },
            LineResult::FaceLine(f) => match f {
                Face::Face3 { v1, v2, v3 } => {
                    let c1 = self.stamp(v1);
                    let c2 = self.stamp(v2);
                    let c3 = self.stamp(v3);
                    self.corners.push(c1);
                    self.corners.push(c2);
                    self.corners.push(c3);
                    proof {
                        assert(self@.corners =~= old(self)@.corners + seq![c1, c2, c3]);
                    }
                },
                Face::Face4 { v1, v2, v3, v4 } => {
                    let c1 = self.stamp(v1);
                    let c2 = self.stamp(v2);
                    let c3 = self.stamp(v3);
                    let c4 = self.stamp(v4);
                    self.corners.push(c1);
                    self.corners.push(c2);
                    self.corners.push(c3);
                    self.corners.push(c3);
                    self.corners.push(c4);
                    self.corners.push(c1);
                    proof {
                        assert(self@.corners =~= old(self)@.corners + seq![c1, c2, c3, c3, c4, c1]);
                    }
                },
            },
            LineResult::NoData => {},
            LineResult::Error(_) => {},
        }
    }
}

/// Walks the dispatcher's records in original order and builds the raw
/// arrays.
pub fn build_raw_mesh(records: &Vec<LineResult>) -> (m: RawMesh)
    ensures
        m@ == sp_aggregate(records@),
        m@.corners.len() % 3 == 0,
{
    proof {
        lemma_aggregate_corners_triples(records@);
    }
    let mut m = RawMesh::new();
    proof {
        assert(records@.take(0) =~= Seq::<LineResult>::empty());
    }
    let mut i: usize = 0;
    while i < records.len()
        invariant
            i <= records@.len(),
            m@ == sp_aggregate(records@.take(i as int)),
        decreases records@.len() - i,
    {
        let r = records[i];
        proof {
            assert(records@.take(i + 1).drop_last() =~= records@.take(i as int));
            assert(records@.take(i + 1).last() == records@[i as int]);
        }
        m.push_record(r);
        i = i + 1;
    }
    proof {
        assert(records@.take(records@.len() as int) =~= records@);
    }
    m
}

} // verus!
