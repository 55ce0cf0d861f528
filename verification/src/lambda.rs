//! The contract that every term meets.
use crate::term::{apply, Term};
use vstd::prelude::*;

verus! {

/// A term of the calculus, held as a Rust value whose type is its shape.
///
/// The view of a term is its model, a [`Term`]. A term is nothing but its
/// shape: two values with the same model are the same value.
pub trait Lambda: Copy + View<V = Term> {
    /// Two values of this type with the same model are equal.
    proof fn lemma_view_injective(self, other: Self)
        requires
            self@ == other@,
        ensures
            self == other,
    ;
}

/// Application of a term to an argument of type `T`.
///
/// Receiver and argument are consumed and a new term comes back. Its type,
/// `Output`, follows from the types of the two alone, and its model is what the
/// model of the receiver reduces to on the model of the argument.
pub trait Eval<T: Lambda>: Lambda {
    type Output: Lambda;

    fn eval(self, lambda: T) -> (r: Self::Output)
        ensures
            apply(self@, lambda@) == Some(r@),
    ;
}

} // verus!
