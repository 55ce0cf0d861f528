//! Measuring a value by its type, for diagnostics.
use vstd::prelude::*;

verus! {

/// The size in bytes of a value of this type.
pub fn size_of<T>(_value: &T) -> (n: usize)
    ensures
        n as nat == vstd::layout::size_of::<T>(),
{
    core::mem::size_of::<T>()
}

} // verus!
