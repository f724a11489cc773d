//! Bounds-checked copies between byte slices and fixed-size arrays.
use vstd::prelude::*;

verus! {

/// Copies `N` bytes of `b`, starting at `start`, into an array.
pub fn array_from_range<const N: usize>(b: &[u8], start: usize) -> (r: [u8; N])
    requires
        start + N <= b@.len(),
    ensures
        r@ == b@.subrange(start as int, start + N),
{
    let len: usize = b.len();
    let mut a: [u8; N] = [0u8; N];
    let mut i: usize = 0;
    while i < N
        invariant
            i <= N,
            len == b@.len(),
            start + N <= b@.len(),
            a@.len() == N,
            forall|j: int| 0 <= j < i ==> a@[j] == b@[start + j],
        decreases N - i,
    {
        a[i] = b[start + i];
        i += 1;
    }
    assert(a@ =~= b@.subrange(start as int, start + N));
    a
}

/// The whole of `b` as an array, when it holds exactly `N` bytes.
pub fn array_from_exact<const N: usize>(b: &[u8]) -> (r: Option<[u8; N]>)
    ensures
        r is Some <==> b@.len() == N,
        r matches Some(a) ==> a@ == b@,
{
    if b.len() == N {
        let a: [u8; N] = array_from_range(b, 0);
        assert(b@.subrange(0, N as int) =~= b@);
        Some(a)
    } else {
        None
    }
}


/// Whether two byte strings are equal.
pub fn bytes_equal(a: &[u8], b: &[u8]) -> (r: bool)
    ensures
        r == (a@ == b@),
{
    if a.len() != b.len() {
        return false;
    }
    let mut i: usize = 0;
    while i < a.len()
        invariant
            i <= a@.len(),
            a@.len() == b@.len(),
            forall|j: int| 0 <= j < i ==> a@[j] == b@[j],
        decreases a@.len() - i,
    {
        if a[i] != b[i] {
            return false;
        }
        i += 1;
    }
    assert(a@ =~= b@);
    true
}

/// Whether every byte of `a` is zero.
pub open spec fn all_zero(a: Seq<u8>) -> bool {
    forall|i: int| 0 <= i < a.len() ==> a[i] == 0
}

/// Whether every byte of `a` is zero.
pub fn is_all_zero(a: &[u8]) -> (r: bool)
    ensures
        r == all_zero(a@),
{
    let mut i: usize = 0;
    while i < a.len()
        invariant
            i <= a@.len(),
            forall|j: int| 0 <= j < i ==> a@[j] == 0,
        decreases a@.len() - i,
    {
        if a[i] != 0 {
            return false;
        }
        i += 1;
    }
    true
}

} // verus!
