//! The two fixed shapes that are drawn once per particle and once per cell.
//!
//! Coordinates are stored as the bit patterns of 32-bit IEEE 754 floats,
//! three to a vertex.

use vstd::prelude::*;

verus! {

/// Words of one vertex: x, y and z.
pub const VERTEX_WORDS: usize = 3;

/// Bytes from one vertex to the next.
pub const VERTEX_STRIDE: u64 = 12;

/// Vertices of the particle marker.
pub const TRIANGLE_VERTICES: u32 = 3;

/// Vertices of the cell quad: two triangles.
pub const SQUARE_VERTICES: u32 = 6;

/// Bit pattern of 0.0.
pub const ZERO: u32 = 0x0000_0000;

/// Bit pattern of 0.01.
pub const HUNDREDTH: u32 = 0x3c23_d70a;

/// Bit pattern of 0.005.
pub const TWO_HUNDREDTH: u32 = 0x3ba3_d70a;

/// Bit pattern of -0.005.
pub const NEG_TWO_HUNDREDTH: u32 = 0xbba3_d70a;

/// Bit pattern of 0.5.
pub const HALF: u32 = 0x3f00_0000;

/// Bit pattern of -0.5.
pub const NEG_HALF: u32 = 0xbf00_0000;

/// The particle marker: a small triangle with its tip at (0, 0.01) and its
/// base from (0.005, -0.005) to (-0.005, -0.005).
pub open spec fn triangle_words() -> Seq<u32> {
    seq![
        ZERO,
        HUNDREDTH,
        ZERO,
        TWO_HUNDREDTH,
        NEG_TWO_HUNDREDTH,
        ZERO,
        NEG_TWO_HUNDREDTH,
        NEG_TWO_HUNDREDTH,
        ZERO,
    ]
}

/// The cell quad: the square from (-0.5, -0.5) to (0.5, 0.5) as two
/// triangles that share the diagonal from (-0.5, 0.5) to (0.5, -0.5).
pub open spec fn square_words() -> Seq<u32> {
    seq![
        NEG_HALF,
        HALF,
        ZERO,
        HALF,
        HALF,
        ZERO,
        HALF,
        NEG_HALF,
        ZERO,
        NEG_HALF,
        HALF,
        ZERO,
        HALF,
        NEG_HALF,
        ZERO,
        NEG_HALF,
        NEG_HALF,
        ZERO,
    ]
}

/// Number of whole vertices in a list of coordinate words.
pub open spec fn vertices_in(words: Seq<u32>) -> nat {
    words.len() / (VERTEX_WORDS as nat)
}

/// The coordinate words of the particle marker.
pub fn triangle() -> (words: Vec<u32>)
    ensures
        words@ == triangle_words(),
        words@.len() == 9,
        vertices_in(words@) == TRIANGLE_VERTICES,
{
    let words = vec![
        ZERO,
        HUNDREDTH,
        ZERO,
        TWO_HUNDREDTH,
        NEG_TWO_HUNDREDTH,
        ZERO,
        NEG_TWO_HUNDREDTH,
        NEG_TWO_HUNDREDTH,
        ZERO,
    ];
    assert(words@ =~= triangle_words());
    words
}

/// The coordinate words of the cell quad.
pub fn square() -> (words: Vec<u32>)
    ensures
        words@ == square_words(),
        words@.len() == 18,
        vertices_in(words@) == SQUARE_VERTICES,
{
    let words = vec![
        NEG_HALF,
        HALF,
        ZERO,
        HALF,
        HALF,
        ZERO,
        HALF,
        NEG_HALF,
        ZERO,
        NEG_HALF,
        HALF,
        ZERO,
        HALF,
        NEG_HALF,
        ZERO,
        NEG_HALF,
        NEG_HALF,
        ZERO,
    ];
    assert(words@ =~= square_words());
    words
}

} // verus!
