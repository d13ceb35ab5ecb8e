//! The signer: the one place that holds the seed entropy, derives the
//! key pair of an order from it, and hands out addresses and signatures
//! only.

use crate::account::{ss58_text, AccountId32};
use crate::definitions::Entropy;
use crate::error::ErrorSigner;
use vstd::prelude::*;
use vstd::string::StrSliceExecFns;
use zeroize::Zeroize;

verus! {

/// The environment slot that holds the seed phrase.
pub const SEED: &'static str = "KALATORI_SEED";

/// The address prefix under which the recipient enters the derivation.
pub const DERIVATION_PREFIX: u16 = 2;

/// The largest number of words that a phrase contributes.
pub const MAX_SEED_LEN: usize = 24;

/// A list of mnemonic words by their numbers, of `mnemonic_external`.
#[verifier::external_type_specification]
#[verifier::external_body]
pub struct ExWordSet(mnemonic_external::WordSet);

/// The numbers of the words that a word set holds, in order.
pub uninterp spec fn word_set_bits(word_set: mnemonic_external::WordSet) -> Seq<u16>;

/// The number of a word in the English word list of `mnemonic_external`;
/// `None` for a text that is no word of the list.
pub uninterp spec fn word_bits(word: Seq<char>) -> Option<u16>;

/// The entropy that `WordSet::to_entropy` of `mnemonic_external` reads
/// from words of these numbers; `None` where their count or checksum is
/// not that of a mnemonic.
pub uninterp spec fn words_entropy(bits: Seq<u16>) -> Option<Seq<u8>>;

/// The 32 bytes that `DeriveJunction::hard` of `substrate_crypto_light`
/// makes of a text.
pub uninterp spec fn junction_code(text: Seq<char>) -> Seq<u8>;

/// The public key of the sr25519 pair that
/// `Pair::from_entropy_and_full_derivation` of `substrate_crypto_light`
/// derives from entropy along junctions (hard ones marked `true`) under a
/// password; `None` where no pair can be derived.
pub uninterp spec fn derived_public(
    entropy: Seq<u8>,
    junctions: Seq<(bool, Seq<u8>)>,
    password: Option<Seq<char>>,
) -> Option<Seq<u8>>;

/// Whether `Public::verify` of `substrate_crypto_light` accepts a
/// signature for a message under an sr25519 public key.
pub uninterp spec fn sr25519_verifies(public: Seq<u8>, message: Seq<u8>, signature: Seq<u8>) -> bool;

/// One step of a derivation path.
#[derive(Clone, Copy, Debug)]
pub enum DeriveJunction {
    Hard([u8; 32]),
    Soft([u8; 32]),
}

impl View for DeriveJunction {
    type V = (bool, Seq<u8>);

    open spec fn view(&self) -> (bool, Seq<u8>) {
        match self {
            DeriveJunction::Hard(code) => (true, code@),
            DeriveJunction::Soft(code) => (false, code@),
        }
    }
}

/// A derivation path with its password.
#[derive(Debug)]
pub struct FullDerivation {
    pub junctions: Vec<DeriveJunction>,
    pub password: Option<String>,
}

impl FullDerivation {
    /// The junctions, each as mathematical data.
    pub open spec fn path(&self) -> Seq<(bool, Seq<u8>)> {
        Seq::new(self.junctions@.len(), |i: int| self.junctions@[i]@)
    }

    /// The password as a sequence.
    pub open spec fn secret(&self) -> Option<Seq<char>> {
        match self.password {
            Some(text) => Some(text@),
            None => None,
        }
    }
}

/// An sr25519 signature.
#[derive(Clone, Copy, Debug)]
pub struct Signature(pub [u8; 64]);

/// Calls `WordSet::new`. Trusted: the new set holds no word.
#[verifier::external_body]
fn word_set_new() -> (word_set: mnemonic_external::WordSet)
    ensures
        word_set_bits(word_set) == Seq::<u16>::empty(),
{
    mnemonic_external::WordSet::new()
}

/// Calls `WordSet::add_word` with the English word list. Trusted: a set
/// that holds 24 words stays as it is and the call succeeds; else a
/// word of the list is appended by its number, and any other text fails
/// the call and leaves the set as it is.
#[verifier::external_body]
fn word_set_add(word_set: &mut mnemonic_external::WordSet, word: &str) -> (added: Result<
    (),
    mnemonic_external::error::ErrorMnemonic,
>)
    ensures
        word_set_bits(*old(word_set)).len() >= MAX_SEED_LEN ==> added is Ok && word_set_bits(
            *final(word_set),
        ) == word_set_bits(*old(word_set)),
        word_set_bits(*old(word_set)).len() < MAX_SEED_LEN ==> match word_bits(word@) {
            Some(bits) => added is Ok && word_set_bits(*final(word_set)) == word_set_bits(
                *old(word_set),
            ).push(bits),
            None => added is Err && word_set_bits(*final(word_set)) == word_set_bits(*old(word_set)),
        },
{
    word_set.add_word(word, &mnemonic_external::regular::InternalWordList)
}

/// Calls `WordSet::to_entropy`. Trusted: the result is the one named by
/// [`words_entropy`] for the words of the set; entropy that is read
/// holds from 16 to 32 bytes, as it comes from 12 to 24 words.
#[verifier::external_body]
fn word_set_entropy(word_set: &mnemonic_external::WordSet) -> (entropy: Result<
    Vec<u8>,
    mnemonic_external::error::ErrorMnemonic,
>)
    ensures
        match entropy {
            Ok(bytes) => words_entropy(word_set_bits(*word_set)) == Some(bytes@) && 16
                <= bytes@.len() <= 32,
            Err(_) => words_entropy(word_set_bits(*word_set)) is None,
        },
{
    word_set.to_entropy()
}

/// Calls `DeriveJunction::hard` on a text and takes the bytes of the
/// junction. Trusted: they are the ones named by [`junction_code`].
#[verifier::external_body]
fn hard_junction(text: &str) -> (code: [u8; 32])
    ensures
        code@ == junction_code(text@),
{
    substrate_crypto_light::common::DeriveJunction::hard(text).inner()
}

/// Calls `Pair::from_entropy_and_full_derivation` and takes the public
/// key of the pair with `Pair::public`. Trusted: the call succeeds
/// exactly where [`derived_public`] names a key, and the key is that one.
#[verifier::external_body]
fn derive_public(entropy: &Vec<u8>, derivation: &FullDerivation) -> (key: Result<
    [u8; 32],
    substrate_crypto_light::error::Error,
>)
    ensures
        match key {
            Ok(bytes) => derived_public(entropy@, derivation.path(), derivation.secret()) == Some(
                bytes@,
            ),
            Err(_) => derived_public(entropy@, derivation.path(), derivation.secret()) is None,
        },
{
    let junctions = derivation.junctions.iter().map(|junction| match junction {
        DeriveJunction::Hard(code) => substrate_crypto_light::common::DeriveJunction::Hard(*code),
        DeriveJunction::Soft(code) => substrate_crypto_light::common::DeriveJunction::Soft(*code),
    }).collect();
    let password = derivation.password.as_deref();
    let full = substrate_crypto_light::common::FullDerivation { junctions, password };
    substrate_crypto_light::sr25519::Pair::from_entropy_and_full_derivation(entropy, full)
        .map(|pair| pair.public().0)
}

/// Calls `Pair::from_entropy_and_full_derivation` and signs the message
/// with `Pair::sign`. Trusted: the call succeeds exactly where
/// [`derived_public`] names a key, and `Public::verify` accepts the
/// signature for this message under that key. Which of the valid
/// signatures comes back is not claimed: signing draws on randomness.
#[verifier::external_body]
fn derive_and_sign(entropy: &Vec<u8>, derivation: &FullDerivation, message: &Vec<u8>) -> (signed:
    Result<[u8; 64], substrate_crypto_light::error::Error>)
    ensures
        match signed {
            Ok(signature) => derived_public(entropy@, derivation.path(), derivation.secret())
                matches Some(key) && sr25519_verifies(key, message@, signature@),
            Err(_) => derived_public(entropy@, derivation.path(), derivation.secret()) is None,
        },
{
    let junctions = derivation.junctions.iter().map(|junction| match junction {
        DeriveJunction::Hard(code) => substrate_crypto_light::common::DeriveJunction::Hard(*code),
        DeriveJunction::Soft(code) => substrate_crypto_light::common::DeriveJunction::Soft(*code),
    }).collect();
    let password = derivation.password.as_deref();
    let full = substrate_crypto_light::common::FullDerivation { junctions, password };
    substrate_crypto_light::sr25519::Pair::from_entropy_and_full_derivation(entropy, full)
        .map(|pair| pair.sign(message).0)
}

/// Calls `Zeroize::zeroize` on the bytes. Trusted: the vector is empty
/// afterwards.
#[verifier::external_body]
fn wipe(bytes: &mut Vec<u8>)
    ensures
        final(bytes)@ == Seq::<u8>::empty(),
{
    bytes.zeroize()
}

/// Where the scan of the first `n` characters of a text stands: the
/// words that ended at a space so far, and the start of the current one.
pub open spec fn split_state(text: Seq<char>, n: int) -> (Seq<Seq<char>>, int)
    decreases n,
{
    if n <= 0 {
        (Seq::empty(), 0)
    } else {
        let (done, start) = split_state(text, n - 1);
        if text[n - 1] == ' ' {
            (done.push(text.subrange(start, n - 1)), n)
        } else {
            (done, start)
        }
    }
}

/// The pieces of a text between its spaces: one more than it has
/// spaces, empty ones included.
pub open spec fn split_spaces(text: Seq<char>) -> Seq<Seq<char>> {
    let (done, start) = split_state(text, text.len() as int);
    done.push(text.subrange(start, text.len() as int))
}

/// The numbers of the words that the first `n` pieces of a phrase
/// contribute: each piece in turn, as long as fewer than 24 are held;
/// `None` once a piece that is due is no word of the list.
pub open spec fn collected(words: Seq<Seq<char>>, n: int) -> Option<Seq<u16>>
    decreases n,
{
    if n <= 0 {
        Some(Seq::empty())
    } else {
        match collected(words, n - 1) {
            None => None,
            Some(bits) => if bits.len() < MAX_SEED_LEN {
                match word_bits(words[n - 1]) {
                    Some(number) => Some(bits.push(number)),
                    None => None,
                }
            } else {
                Some(bits)
            },
        }
    }
}

/// The entropy of a seed phrase: that of the words between its spaces.
pub open spec fn phrase_entropy(seed: Seq<char>) -> Option<Seq<u8>> {
    let words = split_spaces(seed);
    match collected(words, words.len() as int) {
        Some(bits) => words_entropy(bits),
        None => None,
    }
}

/// The derivation path of an order: two hard junctions, the first made
/// of the recipient's address text and the second of the order id; no
/// password.
pub open spec fn order_path(recipient: Seq<char>, order: Seq<char>) -> Seq<(bool, Seq<u8>)> {
    seq![(true, junction_code(recipient)), (true, junction_code(order))]
}

/// The public key of an order: the one derived from the entropy along
/// the path of the recipient, written under [`DERIVATION_PREFIX`], and
/// the order id.
pub open spec fn order_key(entropy: Seq<u8>, recipient: Seq<u8>, id: Seq<char>) -> Option<Seq<u8>> {
    derived_public(entropy, order_path(ss58_text(recipient, DERIVATION_PREFIX), id), None)
}

/// The address of an order under a network prefix: the SS58 text of its
/// public key.
pub open spec fn order_address(entropy: Seq<u8>, recipient: Seq<u8>, id: Seq<char>, ss58: u16) -> Option<
    Seq<char>,
> {
    match order_key(entropy, recipient, id) {
        Some(key) => Some(ss58_text(key, ss58)),
        None => None,
    }
}

/// The address of an order is a function of the entropy, the
/// recipient, the order and the prefix: two signers that agree on
/// entropy and recipient name the same address for the same order under
/// the same prefix, or both name none.
pub proof fn lemma_address_is_determined(
    one: SignerView,
    other: SignerView,
    id: Seq<char>,
    ss58: u16,
)
    requires
        one.entropy == other.entropy,
        one.recipient == other.recipient,
    ensures
        order_address(one.entropy, one.recipient, id, ss58) == order_address(
            other.entropy,
            other.recipient,
            id,
            ss58,
        ),
{
}

/// Once a piece that is due is no word, the phrase stays rejected
/// however many more pieces are looked at.
pub proof fn lemma_collected_fails(words: Seq<Seq<char>>, n: int, m: int)
    requires
        0 <= n <= m,
        collected(words, n) is None,
    ensures
        collected(words, m) is None,
    decreases m - n,
{
    if n < m {
        lemma_collected_fails(words, n, m - 1);
    }
}

/// The pieces of a list, each as a sequence.
pub open spec fn pieces_view(pieces: Seq<&str>) -> Seq<Seq<char>> {
    Seq::new(pieces.len(), |i: int| pieces[i]@)
}

/// Cuts a text at its spaces.
pub fn split_at_spaces(text: &str) -> (pieces: Vec<&str>)
    ensures
        pieces_view(pieces@) == split_spaces(text@),
{
    let n = text.unicode_len();
    let mut pieces: Vec<&str> = Vec::new();
    let mut start: usize = 0;
    let mut i: usize = 0;
    assert(pieces_view(pieces@) =~= Seq::empty());
    while i < n
        invariant
            n == text@.len(),
            start <= i <= n,
            split_state(text@, i as int) == (pieces_view(pieces@), start as int),
        decreases n - i,
    {
        let ghost had = pieces_view(pieces@);
        if text.get_char(i) == ' ' {
            let piece = text.substring_char(start, i);
            pieces.push(piece);
            assert(pieces_view(pieces@) =~= had.push(piece@));
            start = i + 1;
        }
        i += 1;
    }
    let ghost had = pieces_view(pieces@);
    let piece = text.substring_char(start, n);
    pieces.push(piece);
    assert(pieces_view(pieces@) =~= had.push(piece@));
    pieces
}

/// Reads a seed phrase into entropy: the words between its spaces, by
/// their numbers in the English word list, at most 24 of them. Fails
/// where a word that is due is not in the list, or where the words are
/// no mnemonic.
pub fn entropy_from_phrase(seed: &str) -> (entropy: Result<Entropy, ErrorSigner>)
    ensures
        match entropy {
            Ok(bytes) => phrase_entropy(seed@) == Some(bytes@) && 16 <= bytes@.len() <= 32,
            Err(e) => phrase_entropy(seed@) is None && e is InvalidSeed,
        },
{
    let words = split_at_spaces(seed);
    let mut word_set = word_set_new();
    let mut i: usize = 0;
    while i < words.len()
        invariant
            i <= words@.len(),
            pieces_view(words@) == split_spaces(seed@),
            collected(split_spaces(seed@), i as int) == Some(word_set_bits(word_set)),
        decreases words@.len() - i,
    {
        assert(pieces_view(words@)[i as int] == words@[i as int]@);
        match word_set_add(&mut word_set, words[i]) {
            Ok(()) => {},
            Err(e) => {
                proof {
                    lemma_collected_fails(split_spaces(seed@), i as int + 1, words@.len() as int);
                }
                return Err(ErrorSigner::InvalidSeed(e));
            },
        }
        i += 1;
    }
    match word_set_entropy(&word_set) {
        Ok(bytes) => Ok(bytes),
        Err(e) => Err(ErrorSigner::InvalidSeed(e)),
    }
}

/// The derivation of the key pair of an order: hard by the recipient,
/// then hard by the order.
pub fn derivations(recipient: &str, order: &str) -> (derivation: FullDerivation)
    ensures
        derivation.path() == order_path(recipient@, order@),
        derivation.secret() is None,
{
    let first = DeriveJunction::Hard(hard_junction(recipient));
    let second = DeriveJunction::Hard(hard_junction(order));
    let derivation = FullDerivation { junctions: vec![first, second], password: None };
    assert(derivation.path() =~= order_path(recipient@, order@));
    derivation
}

/// What is asked of the signer.
#[derive(Debug)]
pub enum SignerRequest {
    /// The address of an order under a network prefix.
    PublicKey { id: String, ss58: u16 },
    /// A signature of the key of an order over some bytes.
    Sign { id: String, signable: Vec<u8> },
    /// Forget the entropy and stop.
    Shutdown,
}

/// What the signer answers.
#[derive(Debug)]
pub enum SignerResponse {
    PublicKey(Result<String, ErrorSigner>),
    Sign(Result<Signature, ErrorSigner>),
    Shutdown,
}

/// The signer. It alone holds the entropy; once shut down it holds none
/// and answers no more.
#[derive(Debug)]
pub struct Signer {
    entropy: Entropy,
    recipient: AccountId32,
}

/// [`Signer`] as mathematical data.
pub struct SignerView {
    pub entropy: Seq<u8>,
    pub recipient: Seq<u8>,
}

impl SignerView {
    /// Whether the signer is shut down: it holds no entropy.
    pub open spec fn down(self) -> bool {
        self.entropy.len() == 0
    }
}

impl View for Signer {
    type V = SignerView;

    closed spec fn view(&self) -> SignerView {
        SignerView { entropy: self.entropy@, recipient: self.recipient@ }
    }
}

impl Signer {
    /// The signer for a recipient, with the entropy of a seed phrase.
    /// Fails exactly where the phrase is no mnemonic.
    pub fn init(recipient: AccountId32, seed: &str) -> (signer: Result<Self, ErrorSigner>)
        ensures
            match signer {
                Ok(s) => phrase_entropy(seed@) == Some(s@.entropy) && s@.recipient == recipient@
                    && !s@.down(),
                Err(e) => phrase_entropy(seed@) is None && e is InvalidSeed,
            },
    {
        match entropy_from_phrase(seed) {
            Ok(entropy) => Ok(Signer { entropy, recipient }),
            Err(e) => Err(e),
        }
    }

    /// The derivation of the key pair of the order `id`.
    fn derivation(&self, id: &String) -> (derivation: FullDerivation)
        ensures
            derivation.path() == order_path(ss58_text(self@.recipient, DERIVATION_PREFIX), id@),
            derivation.secret() is None,
    {
        let recipient = self.recipient.to_base58_string(DERIVATION_PREFIX);
        derivations(recipient.as_str(), id.as_str())
    }

    /// The address of the order `id` under the prefix `ss58`. It depends
    /// on the entropy, the recipient, the order and the prefix alone.
    pub fn public(&self, id: String, ss58: u16) -> (address: Result<String, ErrorSigner>)
        ensures
            match address {
                Ok(text) => !self@.down() && order_address(self@.entropy, self@.recipient, id@, ss58)
                    == Some(text@),
                Err(e) => if self@.down() {
                    e is SignerDown
                } else {
                    e is InvalidDerivation && order_key(self@.entropy, self@.recipient, id@) is None
                },
            },
    {
        if self.entropy.len() == 0 {
            return Err(ErrorSigner::SignerDown);
        }
        let derivation = self.derivation(&id);
        match derive_public(&self.entropy, &derivation) {
            Ok(key) => Ok(AccountId32(key).to_base58_string(ss58)),
            Err(e) => Err(ErrorSigner::InvalidDerivation(e)),
        }
    }

    /// A signature over `signable` that verifies under the key of the
    /// order `id`, the key that the order's address is the text of. It is
    /// made exactly where the signer is up and the order has a key.
    pub fn sign(&self, id: String, signable: Vec<u8>) -> (signature: Result<Signature, ErrorSigner>)
        ensures
            match signature {
                Ok(signed) => !self@.down() && (order_key(self@.entropy, self@.recipient, id@)
                    matches Some(key) && sr25519_verifies(key, signable@, signed.0@)),
                Err(e) => if self@.down() {
                    e is SignerDown
                } else {
                    e is InvalidDerivation && order_key(self@.entropy, self@.recipient, id@) is None
                },
            },
    {
        if self.entropy.len() == 0 {
            return Err(ErrorSigner::SignerDown);
        }
        let derivation = self.derivation(&id);
        match derive_and_sign(&self.entropy, &derivation, &signable) {
            Ok(bytes) => Ok(Signature(bytes)),
            Err(e) => Err(ErrorSigner::InvalidDerivation(e)),
        }
    }

    /// Forgets the entropy, which stops the signer.
    pub fn shutdown(&mut self)
        ensures
            final(self)@.entropy == Seq::<u8>::empty(),
            final(self)@.down(),
            final(self)@.recipient == old(self)@.recipient,
    {
        wipe(&mut self.entropy);
    }

    /// Answers one request. Only addresses and signatures leave the
    /// signer; after a shutdown every answer is that the signer is down.
    pub fn serve(&mut self, request: SignerRequest) -> (response: SignerResponse)
        ensures
            match request {
                SignerRequest::PublicKey { id, ss58 } => response matches SignerResponse::PublicKey(
                    address,
                ) && final(self)@ == old(self)@ && match address {
                    Ok(text) => !old(self)@.down() && order_address(
                        old(self)@.entropy,
                        old(self)@.recipient,
                        id@,
                        ss58,
                    ) == Some(text@),
                    Err(e) => if old(self)@.down() {
                        e is SignerDown
                    } else {
                        e is InvalidDerivation && order_key(
                            old(self)@.entropy,
                            old(self)@.recipient,
                            id@,
                        ) is None
                    },
                },
                SignerRequest::Sign { id, signable } => response matches SignerResponse::Sign(
                    signature,
                ) && final(self)@ == old(self)@ && match signature {
                    Ok(signed) => !old(self)@.down() && (order_key(
                        old(self)@.entropy,
                        old(self)@.recipient,
                        id@,
                    ) matches Some(key) && sr25519_verifies(key, signable@, signed.0@)),
                    Err(e) => if old(self)@.down() {
                        e is SignerDown
                    } else {
                        e is InvalidDerivation && order_key(
                            old(self)@.entropy,
                            old(self)@.recipient,
                            id@,
                        ) is None
                    },
                },
                SignerRequest::Shutdown => response is Shutdown && final(self)@.down()
                    && final(self)@.recipient == old(self)@.recipient,
            },
    {
        match request {
            SignerRequest::PublicKey { id, ss58 } => SignerResponse::PublicKey(self.public(id, ss58)),
            SignerRequest::Sign { id, signable } => SignerResponse::Sign(self.sign(id, signable)),
            SignerRequest::Shutdown => {
                self.shutdown();
                SignerResponse::Shutdown
            },
        }
    }
}

} // verus!
