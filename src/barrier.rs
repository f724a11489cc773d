//! Keeps the optimizer from removing reads and writes of a value, such as
//! the wiping of key material.
use vstd::prelude::*;

verus! {

/// Make the optimizer believe the memory behind `ptr` is read and modified
/// arbitrarily, while its value stays as it was.
#[inline]
pub fn hide_mem<T>(ptr: &mut T)
    ensures
        *final(ptr) == *old(ptr),
{
    hide_mem_impl(ptr);
}

/// Make the optimizer believe the value returned is possibly unrelated to
/// `ptr`; it is the same value.
#[inline]
pub fn hide_ptr<P>(ptr: P) -> (r: P)
    ensures
        r == ptr,
{
    let mut p = ptr;
    hide_mem::<P>(&mut p);
    p
}

/// Relies on `core::hint::black_box`, which is documented as the identity
/// function: the reference passes through it and nothing is written.
#[inline(never)]
#[verifier::external_body]
pub fn hide_mem_impl<T>(ptr: &mut T)
    ensures
        *final(ptr) == *old(ptr),
{
    core::hint::black_box(ptr);
}

} // verus!
