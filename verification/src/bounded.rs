//! Byte strings with a compile-time length bound.

use vstd::prelude::*;

verus! {

/// A byte string holding at most `N` bytes.
///
/// Values are only built through [`BoundedBytes::try_from`] and
/// [`BoundedBytes::new`], so the bound holds for every value of the type.
#[derive(Debug, PartialEq, Eq)]
pub struct BoundedBytes<const N: u32> {
    bytes: Vec<u8>,
}

impl<const N: u32> View for BoundedBytes<N> {
    type V = Seq<u8>;

    closed spec fn view(&self) -> Seq<u8> {
        self.bytes@
    }
}

impl<const N: u32> BoundedBytes<N> {
    #[verifier::type_invariant]
    closed spec fn within_bound(self) -> bool {
        self.bytes.len() <= N
    }

    /// The bound of this type.
    pub open spec fn bound() -> nat {
        N as nat
    }

    /// The empty string.
    pub fn new() -> (r: Self)
        ensures
            r@ == Seq::<u8>::empty(),
    {
        BoundedBytes { bytes: Vec::new() }
    }

    /// Wraps `v` when it holds at most `N` bytes; hands it back otherwise.
    pub fn try_from(v: Vec<u8>) -> (r: Result<Self, Vec<u8>>)
        ensures
            v.len() <= N <==> r is Ok,
            r matches Ok(b) ==> b@ == v@,
            r matches Err(back) ==> back@ == v@,
    {
        if v.len() <= N as usize {
            Ok(BoundedBytes { bytes: v })
        } else {
            Err(v)
        }
    }

    /// Number of bytes held; never more than `N`.
    pub fn len(&self) -> (r: usize)
        ensures
            r == self@.len(),
            r <= N,
    {
        proof {
            use_type_invariant(self);
        }
        self.bytes.len()
    }

    /// The bytes held.
    pub fn as_slice(&self) -> (r: &[u8])
        ensures
            r@ == self@,
    {
        self.bytes.as_slice()
    }

    /// Unwraps the bytes.
    pub fn into_inner(self) -> (r: Vec<u8>)
        ensures
            r@ == self@,
    {
        self.bytes
    }
}

impl<const N: u32> Clone for BoundedBytes<N> {
    fn clone(&self) -> (r: Self)
        ensures
            r@ == self@,
    {
        proof {
            use_type_invariant(self);
        }
        BoundedBytes { bytes: self.bytes.clone() }
    }
}

} // verus!
