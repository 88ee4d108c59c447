//! The 32-byte address of a wallet, a mint or a program.

use vstd::prelude::*;

verus! {

/// An address: 32 bytes. The address of all zeros stands for "none".
#[derive(Clone, Copy, Debug, Eq, Hash)]
pub struct Pubkey {
    pub bytes: [u8; 32],
}

impl View for Pubkey {
    type V = Seq<u8>;

    open spec fn view(&self) -> Seq<u8> {
        self.bytes@
    }
}

/// Two addresses with the same bytes are the same address.
pub proof fn lemma_pubkey_extensional(a: Pubkey, b: Pubkey)
    requires
        a@ == b@,
    ensures
        a == b,
{
    assert forall|i: int| 0 <= i < 32 implies a.bytes[i] == b.bytes[i] by {
        assert(a@[i] == b@[i]);
    }
    assert(a.bytes =~= b.bytes);
}

impl PartialEq for Pubkey {
    fn eq(&self, other: &Self) -> (r: bool) {
        let mut i: usize = 0;
        while i < 32
            invariant
                0 <= i <= 32,
                forall|j: int| 0 <= j < i ==> self.bytes[j] == other.bytes[j],
            decreases 32 - i,
        {
            if self.bytes[i] != other.bytes[i] {
                return false;
            }
            i += 1;
        }
        proof {
            assert(self@ =~= other@);
            lemma_pubkey_extensional(*self, *other);
        }
        true
    }
}

impl vstd::std_specs::cmp::PartialEqSpecImpl for Pubkey {
    open spec fn obeys_eq_spec() -> bool {
        true
    }

    open spec fn eq_spec(&self, other: &Self) -> bool {
        *self == *other
    }
}

impl Default for Pubkey {
    /// The address of all zeros.
    fn default() -> (key: Self)
        ensures
            key == Pubkey::unset(),
    {
        Pubkey { bytes: [0u8; 32] }
    }
}

impl Pubkey {
    /// The address of all zeros, which no record is stored under.
    pub open spec fn unset() -> Pubkey {
        Pubkey { bytes: vstd::array::spec_array_fill_for_copy_type::<u8, 32>(0u8) }
    }

    /// The address made of the given bytes.
    pub fn new_from_array(bytes: [u8; 32]) -> (key: Self)
        ensures
            key.bytes == bytes,
    {
        Pubkey { bytes }
    }

    /// The bytes of the address.
    pub fn to_bytes(self) -> (bytes: [u8; 32])
        ensures
            bytes == self.bytes,
    {
        self.bytes
    }

    /// Whether this is the address of all zeros.
    pub fn is_unset(&self) -> (r: bool)
        ensures
            r == (*self == Pubkey::unset()),
            r == (forall|i: int| 0 <= i < 32 ==> self@[i] == 0),
    {
        proof {
            lemma_unset_is_zero();
            if forall|i: int| 0 <= i < 32 ==> self@[i] == 0 {
                assert(self@ =~= Pubkey::unset()@);
                lemma_pubkey_extensional(*self, Pubkey::unset());
            }
        }
        let zero = Pubkey::default();
        *self == zero
    }
}

/// Every byte of the unset address is zero.
pub proof fn lemma_unset_is_zero()
    ensures
        Pubkey::unset()@.len() == 32,
        forall|i: int| 0 <= i < 32 ==> Pubkey::unset()@[i] == 0,
{
}

/// The text that stands for an address of the given bytes in base 58, as
/// `solana_program::pubkey::Pubkey` prints it.
pub uninterp spec fn base58_text(key: Seq<u8>) -> Seq<char>;

impl Pubkey {
    /// The address as text, in base 58.
    ///
    /// Trusted: this is `to_string` of `solana_program::pubkey::Pubkey`, which
    /// writes the 32 bytes with `bs58::encode`. The contract only names the
    /// text: the same bytes always give the same text.
    #[verifier::external_body]
    pub(crate) fn to_base58(&self) -> (text: String)
        ensures
            text@ == base58_text(self@),
    {
        solana_program::pubkey::Pubkey::new_from_array(self.bytes).to_string()
    }
}

} // verus!
