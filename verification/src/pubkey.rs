//! 32-byte account addresses and their base58 text form.

use vstd::prelude::*;

verus! {

/// The base58 text (Bitcoin alphabet, no checksum) of a byte string.
pub uninterp spec fn base58_text(bytes: Seq<u8>) -> Seq<char>;

/// The bytes that a text stands for as base58 (Bitcoin alphabet, no
/// checksum), or `None` where the text is not base58.
pub uninterp spec fn base58_bytes(text: Seq<char>) -> Option<Seq<u8>>;

/// Calls `bs58::encode(..).into_string()`, which encodes with the default
/// (Bitcoin) alphabet and without a checksum. The contract claims that the
/// text depends on the bytes alone; the call returns for every input.
#[verifier::external_body]
pub(crate) fn base58_encode(bytes: &[u8]) -> (text: String)
    ensures
        text@ == base58_text(bytes@),
{
    bs58::encode(bytes).into_string()
}

/// Calls `bs58::decode(..).into_vec()`, which decodes with the default
/// (Bitcoin) alphabet and without a checksum. The contract claims that the
/// outcome depends on the text alone; every decoding error becomes `None`.
#[verifier::external_body]
pub(crate) fn base58_decode(text: &str) -> (bytes: Option<Vec<u8>>)
    ensures
        match bytes {
            Some(v) => base58_bytes(text@) == Some(v@),
            None => base58_bytes(text@) is None,
        },
{
    match bs58::decode(text).into_vec() {
        Ok(v) => Some(v),
        Err(_) => None,
    }
}

/// An account address: an opaque 32-byte identifier.
#[derive(Clone, Copy, Debug, PartialEq, Eq)]
pub struct Pubkey {
    pub bytes: [u8; 32],
}

impl View for Pubkey {
    type V = Seq<u8>;

    open spec fn view(&self) -> Seq<u8> {
        self.bytes@
    }
}

/// The byte strings of a list of addresses.
pub open spec fn pubkey_views(keys: Seq<Pubkey>) -> Seq<Seq<u8>> {
    keys.map_values(|k: Pubkey| k@)
}

impl Pubkey {
    pub fn new(bytes: [u8; 32]) -> (key: Pubkey)
        ensures
            key@ == bytes@,
            key@.len() == 32,
    {
        Pubkey { bytes }
    }

    /// The address that a byte string holds, if it is 32 bytes long.
    pub fn from_bytes(bytes: &[u8]) -> (key: Option<Pubkey>)
        ensures
            key is Some <==> bytes@.len() == 32,
            key matches Some(k) ==> k@ == bytes@,
    {
        if bytes.len() != 32 {
            return None;
        }
        let mut array = [0u8; 32];
        let mut i: usize = 0;
        while i < 32
            invariant
                i <= 32,
                bytes@.len() == 32,
                forall|j: int| 0 <= j < i ==> array@[j] == bytes@[j],
            decreases 32 - i,
        {
            array[i] = bytes[i];
            i += 1;
        }
        Some(Pubkey { bytes: array })
    }

    /// The address that a base58 text stands for, if it stands for 32 bytes.
    pub fn from_base58(text: &str) -> (key: Option<Pubkey>)
        ensures
            match base58_bytes(text@) {
                Some(bytes) => (key is Some <==> bytes.len() == 32) && (key matches Some(k) ==> k@
                    == bytes),
                None => key is None,
            },
    {
        match base58_decode(text) {
            Some(bytes) => Pubkey::from_bytes(bytes.as_slice()),
            None => None,
        }
    }

    /// The base58 text of the address.
    pub fn to_base58(&self) -> (text: String)
        ensures
            text@ == base58_text(self@),
    {
        base58_encode(self.bytes.as_slice())
    }

    /// Whether two addresses hold the same 32 bytes.
    pub fn same(&self, other: &Pubkey) -> (r: bool)
        ensures
            r == (self@ == other@),
    {
        let mut i: usize = 0;
        while i < 32
            invariant
                i <= 32,
                forall|j: int| 0 <= j < i ==> self.bytes@[j] == other.bytes@[j],
            decreases 32 - i,
        {
            if self.bytes[i] != other.bytes[i] {
                return false;
            }
            i += 1;
        }
        assert(self.bytes@ =~= other.bytes@);
        true
    }
}

} // verus!
