use vstd::prelude::*;

verus! {

/// Number of bytes in an account identity.
pub const KEY_LEN: usize = 32;

/// An account identity (public key), held as its raw bytes.
#[derive(Clone, Copy, Debug)]
pub struct Key {
    pub bytes: [u8; 32],
}

impl View for Key {
    type V = Seq<u8>;

    open spec fn view(&self) -> Seq<u8> {
        self.bytes@
    }
}

impl Key {
    /// Whether this is the all-zero identity, which stands for "not set".
    pub open spec fn is_unset(self) -> bool {
        self@ == Seq::new(KEY_LEN as nat, |i: int| 0u8)
    }

    /// The identity whose bytes are `bytes`.
    pub fn new(bytes: [u8; 32]) -> (k: Key)
        ensures
            k@ == bytes@,
    {
        Key { bytes }
    }

    /// The all-zero identity, which stands for "not set".
    pub fn unset() -> (k: Key)
        ensures
            k.is_unset(),
    {
        let k = Key { bytes: [0u8; 32] };
        assert(k@ =~= Seq::new(KEY_LEN as nat, |i: int| 0u8));
        k
    }

    /// The raw bytes of the identity.
    pub fn to_bytes(&self) -> (b: [u8; 32])
        ensures
            b@ == self@,
    {
        self.bytes
    }

    /// Whether two identities are the same account.
    pub fn same_as(&self, other: &Key) -> (r: bool)
        ensures
            r == (self@ == other@),
    {
        let mut i: usize = 0;
        while i < KEY_LEN
            invariant
                0 <= i <= KEY_LEN,
                self@.len() == KEY_LEN,
                other@.len() == KEY_LEN,
                forall|j: int| 0 <= j < i ==> self@[j] == other@[j],
            decreases KEY_LEN - i,
        {
            if self.bytes[i] != other.bytes[i] {
                return false;
            }
            i = i + 1;
        }
        assert(self@ =~= other@);
        true
    }
}

impl PartialEq for Key {
    fn eq(&self, other: &Key) -> (r: bool) {
        self.same_as(other)
    }
}

impl Eq for Key {
}

impl vstd::std_specs::cmp::PartialEqSpecImpl for Key {
    open spec fn obeys_eq_spec() -> bool {
        true
    }

    open spec fn eq_spec(&self, other: &Key) -> bool {
        self@ == other@
    }
}

} // verus!
