//! What the host accepts from the two functions of a surface script.
//!
//! A script defines `vertex(u, v)`, which returns the six values of one
//! vertex, and `matrix()`, which returns the sixteen entries of the surface's
//! transform. The host checks the number of values and arranges them; it does
//! not look at the values themselves, so this module is generic in the scalar
//! type `S`.

use vstd::prelude::*;

verus! {

/// The number of values that `vertex(u, v)` returns: three coordinates of the
/// position, then three channels of the colour.
pub const VERTEX_VALUES: usize = 6;

/// The number of values that `matrix()` returns: a matrix of four by four.
pub const MATRIX_VALUES: usize = 16;

/// A script function that returned a wrong number of values.
#[derive(Debug, Clone, Copy, PartialEq, Eq, Structural)]
pub enum ScriptError {
    /// `vertex(u, v)` returned `found` values, not six.
    VertexValueCount { found: usize },
    /// `matrix()` returned `found` values, not sixteen.
    MatrixValueCount { found: usize },
}

/// One vertex of the surface.
#[derive(Debug, PartialEq)]
pub struct Vertex<S> {
    pub position: [S; 3],
    pub color: [S; 3],
}

impl<S: Copy> Copy for Vertex<S> {

}

impl<S: Copy> Clone for Vertex<S> {
    fn clone(&self) -> (copy: Self)
        ensures
            copy == *self,
    {
        *self
    }
}

impl<S: Copy> Vertex<S> {
    /// The six values of the vertex: its position, then its colour.
    pub open spec fn values(self) -> Seq<S> {
        self.position@ + self.color@
    }

    /// The vertex that six values returned by a script describe, or the error
    /// for any other number of values.
    pub fn from_values(values: &[S]) -> (result: Result<Self, ScriptError>)
        ensures
            match result {
                Ok(vertex) => values@.len() == VERTEX_VALUES && vertex.values() == values@,
                Err(error) => values@.len() != VERTEX_VALUES && error
                    == (ScriptError::VertexValueCount { found: values@.len() as usize }),
            },
    {
        if values.len() != VERTEX_VALUES {
            return Err(ScriptError::VertexValueCount { found: values.len() });
        }
        let vertex = Vertex {
            position: [values[0], values[1], values[2]],
            color: [values[3], values[4], values[5]],
        };
        assert(vertex.values() =~= values@);
        Ok(vertex)
    }
}

/// The place, in a matrix of four by four stored column by column, of the
/// entry that stands at place `n` of its transpose.
pub open spec fn transposed_place(n: int) -> int {
    4 * (n % 4) + n / 4
}

/// The transpose of a matrix of four by four that is stored column by column
/// (or, which gives the same list, row by row).
pub open spec fn transposed<S>(entries: Seq<S>) -> Seq<S> {
    Seq::new(MATRIX_VALUES as nat, |n: int| entries[transposed_place(n)])
}

/// The transform that the sixteen values returned by a script describe, or the
/// error for any other number of values. The script lists the entries of its
/// matrix column by column, and the host keeps the transpose of that matrix.
pub fn transform_from_values<S: Copy>(values: &[S]) -> (result: Result<[S; 16], ScriptError>)
    ensures
        match result {
            Ok(transform) => values@.len() == MATRIX_VALUES && transform@ == transposed(values@),
            Err(error) => values@.len() != MATRIX_VALUES && error
                == (ScriptError::MatrixValueCount { found: values@.len() as usize }),
        },
{
    if values.len() != MATRIX_VALUES {
        return Err(ScriptError::MatrixValueCount { found: values.len() });
    }
    let transform = [
        values[0],
        values[4],
        values[8],
        values[12],
        values[1],
        values[5],
        values[9],
        values[13],
        values[2],
        values[6],
        values[10],
        values[14],
        values[3],
        values[7],
        values[11],
        values[15],
    ];
    assert(transform@ =~= transposed(values@));
    Ok(transform)
}

/// Transposing twice gives the matrix back.
pub proof fn lemma_transpose_is_an_involution<S>(entries: Seq<S>)
    requires
        entries.len() == MATRIX_VALUES,
    ensures
        transposed(transposed(entries)) == entries,
{
    assert forall|n: int| 0 <= n < 16 implies transposed_place(transposed_place(n)) == n
        && 0 <= transposed_place(n) < 16 by {}
    assert(transposed(transposed(entries)) =~= entries);
}

/// The transpose holds, in row `r` and column `c`, the entry that the matrix
/// holds in row `c` and column `r`.
pub proof fn lemma_transposed_entry<S>(entries: Seq<S>, r: int, c: int)
    requires
        entries.len() == MATRIX_VALUES,
        0 <= r < 4,
        0 <= c < 4,
    ensures
        transposed(entries)[4 * c + r] == entries[4 * r + c],
{
}

} // verus!
