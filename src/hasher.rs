use std::hash::Hasher;
use vstd::prelude::*;

verus! {

/// A hasher for type identities, which are already well distributed:
/// the 64-bit value written to it is its hash.
#[derive(Debug, Default)]
pub struct TypeIdHasher(u64);

impl View for TypeIdHasher {
    type V = u64;

    /// The last value written, which is the hash.
    closed spec fn view(&self) -> u64 {
        self.0
    }
}

impl Hasher for TypeIdHasher {
    /// Type identities are only ever hashed as one `u64`; a byte slice means
    /// the identity capability was misused, which is fatal. Relies on
    /// `Option::expect`, which panics on `None`.
    #[verifier::external_body]
    fn write(&mut self, _bytes: &[u8]) {
        let none: Option<u64> = None;
        self.0 = none.expect("TypeIdHasher can only hash u64 values");
    }

    fn write_u64(&mut self, i: u64)
        ensures
            final(self)@ == i,
    {
        self.0 = i;
    }

    fn finish(&self) -> (r: u64)
        ensures
            r == self@,
    {
        self.0
    }
}

} // verus!
