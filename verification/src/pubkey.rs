//! Identities: the 32-byte keys by which owners, the authority and the
//! treasury are known.
//!
//! The ledger never checks a signature. The host says which identity is
//! calling, and the ledger compares that identity with the owner on record.

use vstd::prelude::*;
use vstd::std_specs::cmp::PartialEqSpecImpl;

verus! {

/// The number of bytes in a key.
pub const PUBKEY_BYTES: usize = 32;

/// The identity of a caller, an owner, the authority or the treasury.
#[derive(Clone, Copy, Debug, Eq)]
pub struct Pubkey {
    pub bytes: [u8; PUBKEY_BYTES],
}

impl View for Pubkey {
    type V = Seq<u8>;

    open spec fn view(&self) -> Seq<u8> {
        self.bytes@
    }
}

/// Compares two keys byte by byte.
fn bytes_equal(a: &[u8; PUBKEY_BYTES], b: &[u8; PUBKEY_BYTES]) -> (r: bool)
    ensures
        r == (*a == *b),
{
    let mut i: usize = 0;
    while i < PUBKEY_BYTES
        invariant
            i <= PUBKEY_BYTES,
            forall|j: int| 0 <= j < i ==> a[j] == b[j],
        decreases PUBKEY_BYTES - i,
    {
        if a[i] != b[i] {
            return false;
        }
        i += 1;
    }
    assert(*a =~= *b);
    true
}

impl PartialEq for Pubkey {
    fn eq(&self, other: &Self) -> (r: bool) {
        bytes_equal(&self.bytes, &other.bytes)
    }
}

impl PartialEqSpecImpl for Pubkey {
    open spec fn obeys_eq_spec() -> bool {
        true
    }

    open spec fn eq_spec(&self, other: &Self) -> bool {
        *self == *other
    }
}

impl Default for Pubkey {
    /// The key of 32 zero bytes.
    fn default() -> (key: Pubkey)
        ensures
            key.is_zero(),
    {
        let key = Pubkey { bytes: [0u8; PUBKEY_BYTES] };
        assert(key@ =~= Seq::new(PUBKEY_BYTES as nat, |i: int| 0u8));
        key
    }
}

impl Pubkey {
    /// Whether the key is the zero key, which stands in blank records.
    pub open spec fn is_zero(&self) -> bool {
        self@ == Seq::new(PUBKEY_BYTES as nat, |i: int| 0u8)
    }

    /// The key made of the given bytes.
    pub fn new_from_array(bytes: [u8; PUBKEY_BYTES]) -> (key: Pubkey)
        ensures
            key.bytes == bytes,
            key@ == bytes@,
    {
        Pubkey { bytes }
    }

    /// The bytes of the key.
    pub fn to_bytes(&self) -> (bytes: [u8; PUBKEY_BYTES])
        ensures
            bytes == self.bytes,
            bytes@ == self@,
    {
        self.bytes
    }
}

/// Two keys are the same key exactly when they hold the same bytes.
pub proof fn lemma_pubkey_is_its_bytes(a: Pubkey, b: Pubkey)
    ensures
        (a == b) <==> (a@ == b@),
{
    if a@ == b@ {
        assert(a.bytes =~= b.bytes);
    }
}

} // verus!
