use vstd::prelude::*;
use vstd::std_specs::cmp::PartialEqSpecImpl;

verus! {

/// The address of a ledger account: 32 opaque bytes.
///
/// Two keys are equal exactly when their bytes are.
#[derive(Clone, Copy, Debug, Eq, Hash)]
pub struct Pubkey {
    pub bytes: [u8; 32],
}

impl PartialEq for Pubkey {
    fn eq(&self, other: &Self) -> (r: bool) {
        let mut i: usize = 0;
        while i < 32
            invariant
                i <= 32,
                forall|j: int| 0 <= j < i ==> self.bytes[j] == other.bytes[j],
            decreases 32 - i,
        {
            if self.bytes[i] != other.bytes[i] {
                return false;
            }
            i += 1;
        }
        assert(self.bytes =~= other.bytes);
        true
    }
}

impl PartialEqSpecImpl for Pubkey {
    open spec fn obeys_eq_spec() -> bool {
        true
    }

    open spec fn eq_spec(&self, other: &Self) -> bool {
        *self == *other
    }
}

impl Default for Pubkey {
    /// The all-zero key, which stands for "not set".
    fn default() -> (key: Self)
        ensures
            key.is_zero(),
    {
        let key = Pubkey { bytes: [0u8; 32] };
        assert(key.bytes@ =~= Seq::new(32, |i: int| 0u8));
        key
    }
}

impl Pubkey {
    /// Whether every byte of the key is zero.
    pub open spec fn is_zero(&self) -> bool {
        self.bytes@ == Seq::new(32, |i: int| 0u8)
    }

    /// Keys with the same bytes are the same key.
    pub proof fn lemma_same_bytes(a: Pubkey, b: Pubkey)
        ensures
            a.bytes@ == b.bytes@ <==> a == b,
    {
        if a.bytes@ == b.bytes@ {
            assert(a.bytes =~= b.bytes);
        }
    }

    /// There is only one all-zero key.
    pub proof fn lemma_zero_is_unique(a: Pubkey, b: Pubkey)
        requires
            a.is_zero(),
            b.is_zero(),
        ensures
            a == b,
    {
        assert(a.bytes =~= b.bytes);
    }

    /// A key from its 32 bytes.
    pub fn new_from_array(bytes: [u8; 32]) -> (key: Self)
        ensures
            key.bytes == bytes,
    {
        Pubkey { bytes }
    }

    /// The 32 bytes of the key.
    pub fn to_bytes(&self) -> (bytes: [u8; 32])
        ensures
            bytes == self.bytes,
    {
        self.bytes
    }

    /// Whether this is the all-zero key.
    pub fn is_default(&self) -> (r: bool)
        ensures
            r == self.is_zero(),
    {
        let zero = Pubkey::default();
        proof {
            if self.is_zero() {
                Pubkey::lemma_zero_is_unique(*self, zero);
            }
        }
        *self == zero
    }
}

} // verus!
