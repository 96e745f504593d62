//! Byte strings with an upper bound on their length.

use vstd::prelude::*;

verus! {

/// A byte string that is never longer than the bound it was made with.
#[derive(Debug, PartialEq, Eq)]
pub struct BoundedVec {
    bytes: Vec<u8>,
    bound: u32,
}

impl View for BoundedVec {
    type V = Seq<u8>;

    closed spec fn view(&self) -> Seq<u8> {
        self.bytes@
    }
}

impl Clone for BoundedVec {
    fn clone(&self) -> (copy: Self)
        ensures
            copy@ == self@,
            copy.spec_bound() == self.spec_bound(),
    {
        proof {
            use_type_invariant(self);
        }
        BoundedVec { bytes: vstd::slice::slice_to_vec(self.bytes.as_slice()), bound: self.bound }
    }
}

impl BoundedVec {
    #[verifier::type_invariant]
    spec fn within_bound(self) -> bool {
        self.bytes@.len() <= self.bound
    }

    /// The bound that the string was made with.
    pub closed spec fn spec_bound(&self) -> u32 {
        self.bound
    }

    /// Takes `bytes` where they fit the bound, and hands them back where
    /// they do not.
    pub fn try_from(bytes: Vec<u8>, bound: u32) -> (r: Result<BoundedVec, Vec<u8>>)
        ensures
            match r {
                Ok(b) => bytes@.len() <= bound && b@ == bytes@ && b.spec_bound() == bound,
                Err(back) => bytes@.len() > bound && back@ == bytes@,
            },
    {
        if bytes.len() > bound as usize {
            Err(bytes)
        } else {
            Ok(BoundedVec { bytes, bound })
        }
    }

    /// Takes as much of the front of `bytes` as fits the bound.
    pub fn truncate_from(bytes: Vec<u8>, bound: u32) -> (b: BoundedVec)
        ensures
            b.spec_bound() == bound,
            b@ == if bytes@.len() <= bound {
                bytes@
            } else {
                bytes@.take(bound as int)
            },
    {
        let mut kept = bytes;
        if kept.len() > bound as usize {
            kept.truncate(bound as usize);
            assert(kept@ =~= bytes@.take(bound as int));
        }
        BoundedVec { bytes: kept, bound }
    }

    /// The bound that the string was made with.
    pub fn bound(&self) -> (n: u32)
        ensures
            n == self.spec_bound(),
            self@.len() <= n,
    {
        proof {
            use_type_invariant(self);
        }
        self.bound
    }

    /// The number of bytes.
    pub fn len(&self) -> (n: usize)
        ensures
            n == self@.len(),
            n <= self.spec_bound(),
    {
        proof {
            use_type_invariant(self);
        }
        self.bytes.len()
    }

    /// The bytes.
    pub fn as_slice(&self) -> (s: &[u8])
        ensures
            s@ == self@,
    {
        self.bytes.as_slice()
    }

    /// The bytes, given up by the bounded string.
    pub fn into_inner(self) -> (v: Vec<u8>)
        ensures
            v@ == self@,
    {
        self.bytes
    }
}

} // verus!
