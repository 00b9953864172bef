//! Loader for Wavefront-style mesh text: a tolerant line grammar turning raw
//! text into typed records, and an index-resolution and vertex-deduplication
//! pass turning the accumulated raw arrays into a compact indexed mesh.
pub mod fixed;
pub mod record;
pub mod lexer;
pub mod grammar;
pub mod dispatch;
pub mod mesh;
pub mod indexed;

pub use fixed::Fixed;
pub use fixed::SCALE;
pub use record::{VertexData, VertexIndeces, Face, LineResult, ParseError, ParseErrorKind};
pub use lexer::{consume_num, parse_float, parse_num, end_line};
pub use grammar::{parse_line, parse_coord2, parse_coord3, parse_normal, parse_texcoord1, parse_texcoord2, parse_texcoord3, parse_face_vertex, parse_face3, parse_face4};
pub use dispatch::{parse_file, line_outcome};
pub use mesh::{Vec3, Vec2, CornerRef, RawMesh, build_raw_mesh};
pub use indexed::{ResolveError, IndexedMesh, DedupKey, resolve_index, to_indexed_dedup, to_indexed_flat};
