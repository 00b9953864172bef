//! The line dispatcher: applies the line grammar independently to every
//! newline-separated line, in input order. Lines never share parse state, so
//! the map runs on rayon's worker threads; the merged output is indexed
//! exactly as a sequential pass would index it.
use vstd::prelude::*;
use vstd::string::StringSliceAdditionalSpecFns;
use crate::grammar::{sp_parse_line, parse_line};
use crate::record::{LineResult, ParseError};
use rayon::iter::ParallelIterator;
use rayon::str::ParallelString;

verus! {

/// The offset of the first newline byte at or after `pos`, or the length.
pub open spec fn sp_find_nl(bs: Seq<u8>, pos: int) -> int
    decreases bs.len() - pos,
{
    if pos < 0 || pos >= bs.len() {
        bs.len() as int
    } else if bs[pos] == 10 {
        pos
    } else {
        sp_find_nl(bs, pos + 1)
    }
}

/// The newline-separated lines of `bs`, in order; empty input is one empty
/// line, and a trailing newline yields a final empty line.
pub open spec fn sp_lines(bs: Seq<u8>) -> Seq<Seq<u8>>
    decreases bs.len(),
{
    let j0 = sp_find_nl(bs, 0);
    let j = if j0 < 0 {
        0
    } else {
        j0
    };
    if j >= bs.len() {
        seq![bs]
    } else {
        seq![bs.take(j)] + sp_lines(bs.skip(j + 1))
    }
}

/// What one line contributes, a parse failure folded into an `Error` entry.
pub open spec fn sp_line_outcome(bs: Seq<u8>) -> LineResult {
    match sp_parse_line(bs) {
        Ok(r) => r,
        Err(e) => LineResult::Error(ParseError { kind: e.0, pos: e.1 as usize }),
    }
}

/// Parses one line into its record, turning a failure into an `Error` entry.
pub fn line_outcome(s: &str) -> (r: LineResult)
    ensures
        r == sp_line_outcome(s.spec_bytes()),
{
    match parse_line(s) {
        Ok(r) => r,
        Err(e) => LineResult::Error(e),
    }
}

/// Relies on rayon's `ParallelString::par_split` and
/// `ParallelIterator::{map, collect}`: `par_split('\n')` yields exactly the
/// substrings between newline bytes that `str::split('\n')` would yield (a
/// newline byte never occurs inside another character's encoding), and
/// collecting the mapped items into a `Vec` keeps them in input order
/// however many workers ran; each substring goes through the verified
/// `line_outcome`.
#[verifier::external_body]
fn par_line_outcomes(input: &str) -> (r: Vec<LineResult>)
    ensures
        r@.len() == sp_lines(input.spec_bytes()).len(),
        forall|i: int|
            0 <= i < r@.len() ==> r@[i] == sp_line_outcome(sp_lines(input.spec_bytes())[i]),
{
    input.par_split('\n').map(line_outcome).collect()
}

/// Parses every newline-separated line of `input` independently and in
/// parallel: entry `i` of the result is line `i`'s record, a line that fails
/// to parse appearing as an `Error` entry.
pub fn parse_file(input: &str) -> (r: Vec<LineResult>)
    ensures
        r@.len() == sp_lines(input.spec_bytes()).len(),
        forall|i: int|
            0 <= i < r@.len() ==> r@[i] == sp_line_outcome(sp_lines(input.spec_bytes())[i]),
{
    par_line_outcomes(input)
}

} // verus!
