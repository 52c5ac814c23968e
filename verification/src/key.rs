//! Account identities.

use vstd::prelude::*;

verus! {

/// Number of bytes in an account identity.
pub const KEY_BYTES: usize = 32;

/// A 32-byte account identity: an issuer, a holder, a mint, a token account
/// or the storage key of a record.
#[derive(Clone, Copy, Debug, Hash)]
pub struct Key {
    pub bytes: [u8; 32],
}

impl View for Key {
    type V = Seq<u8>;

    open spec fn view(&self) -> Seq<u8> {
        self.bytes@
    }
}

impl Key {
    /// The identity with the given bytes.
    pub fn new(bytes: [u8; 32]) -> (k: Key)
        ensures
            k.bytes == bytes,
    {
        Key { bytes }
    }

    /// The identity whose 32 bytes all equal `b`.
    pub fn filled(b: u8) -> (k: Key)
        ensures
            k@ == Seq::new(32, |i: int| b),
    {
        let k = Key { bytes: [b;32] };
        assert(k@ =~= Seq::new(32, |i: int| b));
        k
    }

    /// The bytes of the identity, in order.
    pub fn to_vec(&self) -> (v: Vec<u8>)
        ensures
            v@ == self@,
    {
        let mut v: Vec<u8> = Vec::new();
        let mut i: usize = 0;
        while i < 32
            invariant
                i <= 32,
                v@ == self@.subrange(0, i as int),
            decreases 32 - i,
        {
            v.push(self.bytes[i]);
            i = i + 1;
            assert(v@ =~= self@.subrange(0, i as int));
        }
        assert(v@ =~= self@);
        v
    }

    /// The first byte of the identity.
    pub fn first_byte(&self) -> (b: u8)
        ensures
            b == self@[0],
    {
        self.bytes[0]
    }

    /// Two identities with the same bytes are the same identity.
    pub proof fn lemma_view_injective(a: Key, b: Key)
        requires
            a@ == b@,
        ensures
            a == b,
    {
        assert(a.bytes =~= b.bytes);
    }
}

impl PartialEq for Key {
    fn eq(&self, other: &Key) -> (r: bool) {
        let mut i: usize = 0;
        while i < 32
            invariant
                i <= 32,
                forall|j: int| 0 <= j < i ==> self.bytes[j] == other.bytes[j],
            decreases 32 - i,
        {
            if self.bytes[i] != other.bytes[i] {
                return false;
            }
            i = i + 1;
        }
        assert(self.bytes =~= other.bytes);
        true
    }
}

impl Eq for Key {}

impl vstd::std_specs::cmp::PartialEqSpecImpl for Key {
    open spec fn obeys_eq_spec() -> bool {
        true
    }

    open spec fn eq_spec(&self, other: &Key) -> bool {
        *self == *other
    }
}

} // verus!
