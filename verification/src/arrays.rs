//! Fixed-size arrays whose length is a parameter, filled with `array_init`.
use vstd::prelude::*;

verus! {

/// Calls `array_init::from_iter`, which fills an array with the first `N`
/// items of a sequence, in order, and gives `None` when the sequence
/// holds fewer than `N`.
///
/// Not proved: when the result is `Some`, and that the array then holds
/// the first `N` items of `items`.
#[verifier::external_body]
pub(crate) fn array_from_vec<T, const N: usize>(items: Vec<T>) -> (r: Option<[T; N]>)
    ensures
        r is None <==> items@.len() < N,
        r matches Some(a) ==> a@ == items@.take(N as int),
{
    array_init::from_iter(items)
}

} // verus!
