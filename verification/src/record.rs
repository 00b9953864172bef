//! The typed records that one line of input can produce, and the per-line
//! error channel.
use vstd::prelude::*;
use crate::fixed::Fixed;

verus! {

/// Vertex attribute data carried by a `v`, `vn` or `vt` line.
#[derive(Debug, PartialEq, Eq, Structural, Clone, Copy)]
pub enum VertexData {
    /// Two-coordinate position (`v x y`, unofficial).
    Coord2 { x: Fixed, y: Fixed },
    /// Three-coordinate position (`v x y z`).
    Coord3 { x: Fixed, y: Fixed, z: Fixed },
    /// Normal (`vn x y z`).
    Normal { x: Fixed, y: Fixed, z: Fixed },
    /// Three-coordinate texture coordinate (`vt u v w`).
    TextureCoord3 { u: Fixed, v: Fixed, w: Fixed },
    /// Two-coordinate texture coordinate (`vt u v`).
    TextureCoord2 { u: Fixed, v: Fixed },
    /// One-coordinate texture coordinate (`vt u`).
    TextureCoord1 { u: Fixed },
}

/// One face corner: a mandatory position index and optional texture and
/// normal indices. Positive indices are one-based; negative indices count
/// back from the end of the array accumulated at the time of reference.
#[derive(Debug, PartialEq, Eq, Structural, Clone, Copy)]
pub struct VertexIndeces {
    pub coord_rindex: i64,
    pub texcoord_rindex: Option<i64>,
    pub normal_rindex: Option<i64>,
}

/// A face: a triangle or a quad of corners.
#[derive(Debug, PartialEq, Eq, Structural, Clone, Copy)]
pub enum Face {
    Face3 { v1: VertexIndeces, v2: VertexIndeces, v3: VertexIndeces },
    Face4 { v1: VertexIndeces, v2: VertexIndeces, v3: VertexIndeces, v4: VertexIndeces },
}

/// What kind of lexical or grammatical failure a line position produced.
#[derive(Debug, PartialEq, Eq, Structural, Clone, Copy)]
pub enum ParseErrorKind {
    /// No digit where a number had to start.
    MalformedNumber,
    /// A number token whose quantized value does not fit the coordinate type.
    NotAFloat,
    /// A number token with a decimal point, or out of range, where an integer
    /// index was required.
    NotAnInteger,
    /// The line keyword (`v`, `vn`, `vt`, `f`) was not found.
    ExpectedKeyword,
    /// Mandatory whitespace between fields was missing.
    ExpectedSpace,
    /// Text other than whitespace or a `#` comment after a record's fields.
    ExpectedEnd,
}

/// A parse failure: its kind and the byte offset of the offending remainder.
#[derive(Debug, PartialEq, Eq, Structural, Clone, Copy)]
pub struct ParseError {
    pub kind: ParseErrorKind,
    pub pos: usize,
}

/// What one line contributes: vertex data, a face, nothing, or an error.
#[derive(Debug, PartialEq, Eq, Structural, Clone, Copy)]
pub enum LineResult {
    VertDataLine(VertexData),
    FaceLine(Face),
    NoData,
    Error(ParseError),
}

} // verus!
