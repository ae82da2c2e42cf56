//! Typed opaque identifiers for registered units.
//!
//! An `Id<Tag>` is a content-stable key: built from a fixed name it
//! always denotes the same logical entity, and the tag type keeps
//! identifiers of different kinds (actions vs. windows) from being
//! mixed up at compile time.

use vstd::prelude::*;
use vstd::string::StringSliceAdditionalSpecFns;
use core::marker::PhantomData;

verus! {

/// Relies on core::marker::PhantomData's derived Clone: cloning the
/// zero-sized marker returns the same (only) value. vstd gives this
/// std impl no specification, and the derived Clone of `Id` calls it.
pub assume_specification<T>[ <PhantomData<T> as core::clone::Clone>::clone ](
    p: &PhantomData<T>,
) -> (r: PhantomData<T>)
    where
        T: core::marker::PointeeSized,
    ensures
        r == *p,
;

/// Tag for identifiers of actions (tools driven by the lifecycle).
#[derive(Clone, Copy, PartialEq, Eq, Hash, Debug)]
pub struct Action;

/// Tag for identifiers of window views.
#[derive(Clone, Copy, PartialEq, Eq, Hash, Debug)]
pub struct Window;

/// FNV-1a offset basis for the 64-bit stable key.
pub const KEY_BASIS: u64 = 0xcbf29ce484222325;

/// FNV-1a prime for the 64-bit stable key.
pub const KEY_PRIME: u64 = 0x100000001b3;

/// The stable key of a byte string: a 64-bit FNV-1a fold over the
/// bytes, so that equal names always give equal keys.
pub open spec fn stable_key(bytes: Seq<u8>) -> u64
    decreases bytes.len(),
{
    if bytes.len() == 0 {
        KEY_BASIS
    } else {
        mul_wrapped(stable_key(bytes.drop_last()) ^ (bytes.last() as u64), KEY_PRIME)
    }
}

/// Wrapping 64-bit product, as the executable `wrapping_mul` computes it.
pub open spec fn mul_wrapped(a: u64, b: u64) -> u64 {
    ((a * b) % 0x10000000000000000) as u64
}

/// An opaque, content-stable key distinguishing one registered unit of
/// kind `Tag` from another.
#[derive(Clone, Copy, PartialEq, Eq, Hash, Debug)]
pub struct Id<Tag> {
    value: u64,
    tag: PhantomData<Tag>,
}

impl<Tag> Id<Tag> {
    /// The mathematical key this identifier carries.
    pub closed spec fn key(self) -> u64 {
        self.value
    }

    /// Builds the identifier for a fixed stable name.
    pub fn from_str(name: &str) -> (r: Id<Tag>)
        ensures
            r.key() == stable_key(name.spec_bytes()),
    {
        let bytes = name.as_bytes();
        let mut value: u64 = KEY_BASIS;
        let mut i: usize = 0;
        while i < bytes.len()
            invariant
                i <= bytes.len(),
                bytes@ == name.spec_bytes(),
                value == stable_key(bytes@.take(i as int)),
            decreases bytes.len() - i,
        {
            proof {
                assert(bytes@.take(i + 1).drop_last() =~= bytes@.take(i as int));
            }
            value = (value ^ (bytes[i] as u64)).wrapping_mul(KEY_PRIME);
            i = i + 1;
        }
        proof {
            assert(bytes@.take(bytes@.len() as int) =~= bytes@);
        }
        Id { value, tag: PhantomData }
    }

    /// Builds an identifier directly from a raw key, for entities whose
    /// key was produced elsewhere (for example a randomly drawn one).
    pub fn from_raw(value: u64) -> (r: Id<Tag>)
        ensures
            r.key() == value,
    {
        Id { value, tag: PhantomData }
    }

    /// The raw key value.
    pub fn value(&self) -> (r: u64)
        ensures
            r == self.key(),
    {
        self.value
    }

    /// Whether two identifiers of the same kind denote the same entity.
    pub fn same_as(&self, other: &Id<Tag>) -> (r: bool)
        ensures
            r == (self.key() == other.key()),
    {
        self.value == other.value
    }
}

} // verus!
