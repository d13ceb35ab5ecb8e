//! Account identifiers and their SS58 text form.

use substrate_crypto_light::common::AsBase58;
use vstd::prelude::*;
use vstd::string::StrSliceExecFns;

verus! {

/// Error type of the address and key routines of `substrate_crypto_light`.
#[verifier::external_type_specification]
#[verifier::external_body]
pub struct ExCryptoError(substrate_crypto_light::error::Error);

/// The SS58 text of an account under a network prefix, as
/// `AsBase58::to_base58_string` of `substrate_crypto_light` renders it.
pub uninterp spec fn ss58_text(account: Seq<u8>, prefix: u16) -> Seq<char>;

/// The account and network prefix that an SS58 text decodes to, as
/// `AsBase58::from_base58_string` of `substrate_crypto_light` reads it for
/// 32-byte accounts; `None` where that function rejects the text.
pub uninterp spec fn ss58_parse(text: Seq<char>) -> Option<(Seq<u8>, u16)>;

/// The longest text, in characters, that the decoder takes: it decodes
/// into 132 bytes, and a text has at least as many characters as it has
/// bytes to give.
pub const BASE58_MAX_LEN: usize = 132;

/// Why a text is no address.
#[derive(Debug)]
pub enum AddressError {
    /// The text has more than [`BASE58_MAX_LEN`] characters.
    TooLong,
    /// The decoder rejects the text.
    Rejected(substrate_crypto_light::error::Error),
}

/// The account and network prefix that a text names: what it decodes to
/// where it is short enough to be decoded, and nothing else.
pub open spec fn address_of(text: Seq<char>) -> Option<(Seq<u8>, u16)> {
    if text.len() > BASE58_MAX_LEN {
        None
    } else {
        ss58_parse(text)
    }
}

/// A 32-byte account identifier.
#[derive(Clone, Copy, Debug)]
pub struct AccountId32(pub [u8; 32]);

impl View for AccountId32 {
    type V = Seq<u8>;

    open spec fn view(&self) -> Seq<u8> {
        self.0@
    }
}

/// Calls `AccountId32::to_base58_string`. Trusted: the text is the one
/// named by [`ss58_text`] for these bytes and this prefix.
#[verifier::external_body]
fn ss58_encode(account: &[u8; 32], prefix: u16) -> (text: String)
    ensures
        text@ == ss58_text(account@, prefix),
{
    substrate_crypto_light::common::AccountId32(*account).to_base58_string(prefix)
}

/// Calls `AccountId32::from_base58_string`. Trusted: the call succeeds
/// exactly on the texts that [`ss58_parse`] accepts, with that result.
/// Longer texts are kept from it: the decoder cuts its 132-byte buffer
/// by the count of leading `1` characters, and fails to return where
/// these and the decoded bytes together exceed the buffer.
#[verifier::external_body]
fn ss58_decode(text: &str) -> (decoded: Result<([u8; 32], u16), substrate_crypto_light::error::Error>)
    requires
        text@.len() <= BASE58_MAX_LEN,
    ensures
        match decoded {
            Ok((bytes, prefix)) => ss58_parse(text@) == Some((bytes@, prefix)),
            Err(_) => ss58_parse(text@) is None,
        },
{
    substrate_crypto_light::common::AccountId32::from_base58_string(text).map(|(a, p)| (a.0, p))
}

impl AccountId32 {
    /// Whether two identifiers hold the same bytes.
    pub fn same(&self, other: &AccountId32) -> (equal: bool)
        ensures
            equal == (self@ == other@),
    {
        let mut i: usize = 0;
        while i < 32
            invariant
                i <= 32,
                forall|j: int| 0 <= j < i ==> self.0@[j] == other.0@[j],
            decreases 32 - i,
        {
            if self.0[i] != other.0[i] {
                return false;
            }
            i += 1;
        }
        assert(self.0@ =~= other.0@);
        true
    }

    /// The SS58 text of this account under `base58prefix`.
    pub fn to_base58_string(&self, base58prefix: u16) -> (text: String)
        ensures
            text@ == ss58_text(self@, base58prefix),
    {
        ss58_encode(&self.0, base58prefix)
    }

    /// Reads an SS58 text into the account and the network prefix it
    /// names. A text of more than [`BASE58_MAX_LEN`] characters is no
    /// address and is not handed to the decoder.
    pub fn from_base58_string(base58_string: &str) -> (decoded: Result<(AccountId32, u16), AddressError>)
        ensures
            match decoded {
                Ok((account, prefix)) => address_of(base58_string@) == Some((account@, prefix)),
                Err(e) => address_of(base58_string@) is None && (e is TooLong <==> base58_string@.len()
                    > BASE58_MAX_LEN),
            },
    {
        if base58_string.unicode_len() > BASE58_MAX_LEN {
            return Err(AddressError::TooLong);
        }
        match ss58_decode(base58_string) {
            Ok((bytes, prefix)) => Ok((AccountId32(bytes), prefix)),
            Err(e) => Err(AddressError::Rejected(e)),
        }
    }
}

} // verus!
