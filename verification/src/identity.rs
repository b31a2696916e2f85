//! Identities of the parties and accounts, and the test that recognises the
//! platform's custody account.

use vstd::prelude::*;
use crate::utils::MAIN_VAULT_PUBKEY;

verus! {

/// A party or an account, named by the 32 bytes of its public key.
#[derive(Clone, Copy, Debug, PartialEq, Eq)]
pub struct Identity {
    pub bytes: [u8; 32],
}

impl View for Identity {
    type V = Seq<u8>;

    open spec fn view(&self) -> Seq<u8> {
        self.bytes@
    }
}

/// The base58 text of a 32-byte public key.
pub uninterp spec fn base58_text(bytes: Seq<u8>) -> Seq<char>;

/// Writes a public key as text with `Pubkey::new_from_array` and the
/// `Display` impl of `Pubkey`, which encodes the 32 bytes in base58. The text
/// depends on the bytes alone; nothing else is claimed of it.
#[verifier::external_body]
fn encode_base58(bytes: &[u8; 32]) -> (text: String)
    ensures
        text@ == base58_text(bytes@),
{
    anchor_lang::prelude::Pubkey::new_from_array(*bytes).to_string()
}

/// Whether a text is the name of the platform's custody account.
pub fn names_main_vault(text: &str) -> (named: bool)
    ensures
        named == (text@ == MAIN_VAULT_PUBKEY@),
{
    let given: String = text.to_owned();
    let known: String = MAIN_VAULT_PUBKEY.to_owned();
    given == known
}

impl Identity {
    /// The identity with the given key bytes.
    pub fn new(bytes: [u8; 32]) -> (id: Identity)
        ensures
            id.bytes == bytes,
    {
        Identity { bytes }
    }

    /// Whether this identity is the platform's custody account: its base58
    /// text is the configured name.
    pub open spec fn is_trusted_vault(self) -> bool {
        base58_text(self@) == MAIN_VAULT_PUBKEY@
    }

    /// Compares two identities byte by byte.
    pub fn same_as(&self, other: &Identity) -> (same: bool)
        ensures
            same == (*self == *other),
    {
        let mut i: usize = 0;
        while i < 32
            invariant
                i <= 32,
                forall|j: int| 0 <= j < i ==> self.bytes[j] == other.bytes[j],
            decreases 32 - i,
        {
            if self.bytes[i] != other.bytes[i] {
                return false;
            }
            i += 1;
        }
        proof {
            assert(self.bytes =~= other.bytes);
        }
        true
    }

    /// The base58 text of this identity.
    pub fn to_text(&self) -> (text: String)
        ensures
            text@ == base58_text(self@),
    {
        encode_base58(&self.bytes)
    }

    /// Tests whether this identity is the platform's custody account.
    pub fn is_main_vault(&self) -> (trusted: bool)
        ensures
            trusted == self.is_trusted_vault(),
    {
        let text: String = self.to_text();
        names_main_vault(text.as_str())
    }
}

} // verus!
