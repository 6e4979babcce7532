//! Identities: the 32 bytes that name an account or a program.

use std::str::FromStr;
use vstd::prelude::*;
use vstd::std_specs::cmp::PartialEqSpecImpl;

verus! {

/// The address of an account or the id of a program.
#[derive(Clone, Copy, Debug)]
pub struct Pubkey {
    pub bytes: [u8; 32],
}

impl View for Pubkey {
    type V = Seq<u8>;

    open spec fn view(&self) -> Seq<u8> {
        self.bytes@
    }
}

impl PartialEq for Pubkey {
    fn eq(&self, other: &Pubkey) -> (same: bool) {
        let mut i: usize = 0;
        while i < 32
            invariant
                i <= 32,
                forall|j: int| 0 <= j < i ==> self.bytes@[j] == other.bytes@[j],
            decreases 32 - i,
        {
            if self.bytes[i] != other.bytes[i] {
                return false;
            }
            i += 1;
        }
        assert(self.bytes@ =~= other.bytes@);
        true
    }
}

impl Eq for Pubkey {

}

impl PartialEqSpecImpl for Pubkey {
    open spec fn obeys_eq_spec() -> bool {
        true
    }

    open spec fn eq_spec(&self, other: &Pubkey) -> bool {
        self@ == other@
    }
}

/// The bytes of an identity that may be missing.
pub open spec fn bytes_of(key: Option<Pubkey>) -> Option<Seq<u8>> {
    match key {
        Some(k) => Some(k@),
        None => None,
    }
}

/// The identity that a base58 text stands for, where it stands for one: the
/// text decodes to exactly 32 bytes.
pub uninterp spec fn pubkey_of_base58(text: Seq<char>) -> Option<Seq<u8>>;

/// `solana_program::pubkey::Pubkey::from_str`, with the key that it parsed
/// held as its 32 bytes, and `None` for either of its errors. What it returns
/// depends on the text alone, so the outcome has a name.
#[verifier::external_body]
fn parse_base58(text: &str) -> (parsed: Option<Pubkey>)
    ensures
        bytes_of(parsed) == pubkey_of_base58(text@),
{
    match solana_program::pubkey::Pubkey::from_str(text) {
        Ok(key) => Some(Pubkey { bytes: key.to_bytes() }),
        Err(_) => None,
    }
}

impl Pubkey {
    /// The identity made of these bytes.
    pub fn new(bytes: [u8; 32]) -> (key: Pubkey)
        ensures
            key.bytes == bytes,
    {
        Pubkey { bytes }
    }

    /// The identity that a base58 text stands for, `None` where it stands for
    /// none.
    pub fn from_base58(text: &str) -> (key: Option<Pubkey>)
        ensures
            bytes_of(key) == pubkey_of_base58(text@),
    {
        parse_base58(text)
    }

    /// The 32 bytes, as a seed takes them.
    pub fn to_vec(&self) -> (bytes: Vec<u8>)
        ensures
            bytes@ == self@,
    {
        let mut bytes: Vec<u8> = Vec::with_capacity(32);
        let mut i: usize = 0;
        while i < 32
            invariant
                i <= 32,
                bytes@ == self@.subrange(0, i as int),
            decreases 32 - i,
        {
            bytes.push(self.bytes[i]);
            assert(bytes@ =~= self@.subrange(0, i + 1));
            i += 1;
        }
        assert(bytes@ =~= self@);
        bytes
    }
}

/// Two identities are the same value exactly when their bytes agree.
pub proof fn lemma_pubkey_by_bytes(a: Pubkey, b: Pubkey)
    ensures
        a@ == b@ <==> a == b,
        a@.len() == 32,
{
    if a@ == b@ {
        assert(a.bytes =~= b.bytes);
    }
}

} // verus!
