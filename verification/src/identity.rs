use vstd::prelude::*;

use crate::codec::{all_dec_digits, dec_val, parse_u64_dec};
use crate::errors::{KeyError, RpcError};

verus! {

/// The 64-byte BIP-39 seed of a mnemonic phrase (empty passphrase).
pub uninterp spec fn seed_of(phrase: Seq<char>) -> Seq<u8>;

/// The private key derived from a seed at a BIP-32 derivation path.
pub uninterp spec fn privkey_of(seed: Seq<u8>, path: Seq<char>) -> Seq<u8>;

/// The compressed secp256k1 public key of a private key.
pub uninterp spec fn pubkey_of(privkey: Seq<u8>) -> Seq<u8>;

/// The bech32 account address of a public key under an address prefix.
pub uninterp spec fn address_of(pubkey: Seq<u8>, prefix: Seq<char>) -> Seq<char>;

/// Whether a phrase is a well-formed mnemonic (valid words, word count and
/// checksum), i.e. whether bip39's `Mnemonic::parse_normalized` accepts it.
pub uninterp spec fn mnemonic_ok(phrase: Seq<char>) -> bool;

/// Whether a derivation path is well-formed and key derivation from the
/// seed at that path succeeds.
pub uninterp spec fn derivation_ok(seed: Seq<u8>, path: Seq<char>) -> bool;

/// Whether private-key bytes form a valid secp256k1 scalar, i.e. whether
/// `SigningKey::from_slice` accepts them.
pub uninterp spec fn privkey_ok(privkey: Seq<u8>) -> bool;

/// Whether public-key bytes form a valid compressed secp256k1 point and the
/// prefix is valid for bech32 address formation.
pub uninterp spec fn address_ok(pubkey: Seq<u8>, prefix: Seq<char>) -> bool;

/// Relies on bip39's `Mnemonic::parse_normalized` and `to_seed_normalized`:
/// the 64-byte PBKDF2 seed of the phrase with the empty passphrase, a
/// function of the phrase alone. Parsing succeeds exactly on well-formed
/// mnemonics, and seeding a parsed mnemonic never fails.
#[verifier::external_body]
fn mnemonic_seed(phrase: &str) -> (r: Result<Vec<u8>, KeyError>)
    ensures
        (r is Ok) <==> mnemonic_ok(phrase@),
        r matches Ok(s) ==> s@ == seed_of(phrase@) && s@.len() == 64,
        r matches Err(e) ==> e == KeyError::Mnemonic,
{
    match bip39::Mnemonic::parse_normalized(phrase) {
        Ok(m) => Ok(m.to_seed_normalized("").to_vec()),
        Err(_) => Err(KeyError::Mnemonic),
    }
}

/// Relies on bip32's `XPrv::derive_from_path` (the same derivation cosmrs's
/// signing key uses): the 32-byte BIP-32 private key at the path, a function
/// of seed and path alone. Succeeds exactly when the path parses and
/// derivation from this seed at this path goes through.
#[verifier::external_body]
fn derive_privkey(seed: &Vec<u8>, path: &str) -> (r: Result<Vec<u8>, KeyError>)
    ensures
        (r is Ok) <==> derivation_ok(seed@, path@),
        r matches Ok(k) ==> k@ == privkey_of(seed@, path@) && k@.len() == 32,
        r matches Err(e) ==> e == KeyError::Derivation,
{
    let parsed: cosmrs::bip32::DerivationPath = path.parse().map_err(|_| KeyError::Derivation)?;
    let xprv = cosmrs::bip32::XPrv::derive_from_path(seed, &parsed).map_err(
        |_| KeyError::Derivation,
    )?;
    Ok(xprv.private_key().to_bytes().to_vec())
}

/// Relies on cosmrs's `SigningKey::from_slice` and `PublicKey::to_bytes`:
/// the compressed (33-byte SEC1) secp256k1 public key of the private key, a
/// function of the key alone. Succeeds exactly when the bytes are a valid
/// scalar; taking and serializing the public key of a valid key never fails.
#[verifier::external_body]
fn pubkey_bytes(privkey: &Vec<u8>) -> (r: Result<Vec<u8>, KeyError>)
    ensures
        (r is Ok) <==> privkey_ok(privkey@),
        r matches Ok(p) ==> p@ == pubkey_of(privkey@) && p@.len() == 33,
        r matches Err(e) ==> e == KeyError::PublicKey,
{
    let key = cosmrs::crypto::secp256k1::SigningKey::from_slice(privkey).map_err(
        |_| KeyError::PublicKey,
    )?;
    Ok(key.public_key().to_bytes())
}

/// Relies on cosmrs's `PublicKey::account_id`: the bech32 address of the
/// public key under the prefix (prefix, separator, base32 data, checksum), a
/// function of key and prefix alone. Succeeds exactly when the bytes are a
/// valid compressed point and the prefix is valid for bech32.
#[verifier::external_body]
fn address_from_pubkey(pubkey: &Vec<u8>, prefix: &str) -> (r: Result<String, KeyError>)
    ensures
        (r is Ok) <==> address_ok(pubkey@, prefix@),
        r matches Ok(a) ==> a@ == address_of(pubkey@, prefix@),
        r matches Err(e) ==> e == KeyError::Address,
{
    let raw = cosmrs::tendermint::PublicKey::from_raw_secp256k1(pubkey).ok_or(
        KeyError::Address,
    )?;
    let id = cosmrs::crypto::PublicKey::from(raw).account_id(prefix).map_err(
        |_| KeyError::Address,
    )?;
    Ok(id.to_string())
}

/// The signer's derived key material: private key (held only for the run,
/// never persisted or formatted into any output), public key, and the
/// bech32 account address under the configured prefix.
#[derive(Clone)]
pub struct SignerIdentity {
    pub privkey: Vec<u8>,
    pub pubkey: Vec<u8>,
    pub address: String,
}

impl SignerIdentity {
    /// The identity every resolution of (phrase, path, prefix) yields: each
    /// field a fixed function of the inputs, chained through seed, private
    /// key and public key.
    pub open spec fn resolved_from(self, phrase: Seq<char>, path: Seq<char>, prefix: Seq<char>) -> bool {
        &&& self.privkey@ == privkey_of(seed_of(phrase), path)
        &&& self.privkey@.len() == 32
        &&& self.pubkey@ == pubkey_of(self.privkey@)
        &&& self.pubkey@.len() == 33
        &&& self.address@ == address_of(self.pubkey@, prefix)
    }
}

/// Whether identity resolution succeeds on a (phrase, path, prefix) triple:
/// the phrase is a well-formed mnemonic, the key derives at the path, the
/// derived key is a valid scalar, and the address forms under the prefix.
/// Each stage is a fixed function of the inputs.
pub open spec fn resolvable(phrase: Seq<char>, path: Seq<char>, prefix: Seq<char>) -> bool {
    &&& mnemonic_ok(phrase)
    &&& derivation_ok(seed_of(phrase), path)
    &&& privkey_ok(privkey_of(seed_of(phrase), path))
    &&& address_ok(pubkey_of(privkey_of(seed_of(phrase), path)), prefix)
}

/// Which error identity resolution reports: each variant names exactly the
/// first stage that fails — mnemonic parsing, key derivation, public-key
/// formation, address formation.
pub open spec fn resolve_error_stage(e: KeyError, phrase: Seq<char>, path: Seq<char>, prefix: Seq<char>) -> bool {
    let seed = seed_of(phrase);
    let privkey = privkey_of(seed, path);
    &&& ((e == KeyError::Mnemonic) <==> !mnemonic_ok(phrase))
    &&& ((e == KeyError::Derivation) <==> (mnemonic_ok(phrase) && !derivation_ok(seed, path)))
    &&& ((e == KeyError::PublicKey) <==> (mnemonic_ok(phrase) && derivation_ok(seed, path)
        && !privkey_ok(privkey)))
    &&& ((e == KeyError::Address) <==> (mnemonic_ok(phrase) && derivation_ok(seed, path)
        && privkey_ok(privkey) && !address_ok(pubkey_of(privkey), prefix)))
}

/// Derives the signer's identity from the seed phrase: BIP-39 seed (empty
/// passphrase), BIP-32 private key at the given path, compressed public key,
/// and bech32 address under the given prefix. Every field of a successful
/// result is a fixed function of the three inputs; it succeeds exactly when
/// all four stages do, and on failure the error names the first failing
/// stage.
pub fn resolve_identity(seed_phrase: &str, derivation_path: &str, address_prefix: &str) -> (r:
    Result<SignerIdentity, KeyError>)
    ensures
        (r is Ok) <==> resolvable(seed_phrase@, derivation_path@, address_prefix@),
        r matches Ok(id) ==> id.resolved_from(seed_phrase@, derivation_path@, address_prefix@),
        r matches Err(e) ==> resolve_error_stage(
            e,
            seed_phrase@,
            derivation_path@,
            address_prefix@,
        ),
{
    let seed = match mnemonic_seed(seed_phrase) {
        Ok(s) => s,
        Err(e) => return Err(e),
    };
    let privkey = match derive_privkey(&seed, derivation_path) {
        Ok(k) => k,
        Err(e) => return Err(e),
    };
    let pubkey = match pubkey_bytes(&privkey) {
        Ok(p) => p,
        Err(e) => return Err(e),
    };
    let address = match address_from_pubkey(&pubkey, address_prefix) {
        Ok(a) => a,
        Err(e) => return Err(e),
    };
    Ok(SignerIdentity { privkey, pubkey, address })
}

/// Identity resolution is deterministic: two identities resolved from the
/// same (seed phrase, derivation path, address prefix) triple are
/// byte-identical in private key, public key and address.
pub proof fn lemma_resolve_identity_deterministic(
    a: SignerIdentity,
    b: SignerIdentity,
    phrase: Seq<char>,
    path: Seq<char>,
    prefix: Seq<char>,
)
    requires
        a.resolved_from(phrase, path, prefix),
        b.resolved_from(phrase, path, prefix),
    ensures
        a.privkey@ == b.privkey@,
        a.pubkey@ == b.pubkey@,
        a.address@ == b.address@,
{
}

/// The signer's replay-protection metadata, fetched fresh from the ledger
/// each run: its current sequence number and its account number.
#[derive(Clone, Copy, PartialEq, Eq, Structural, Debug)]
pub struct AccountMeta {
    pub sequence: u64,
    pub account_number: u64,
}

/// Parses the account query's decimal string fields into account metadata.
/// Succeeds exactly when both strings are nonempty decimal numerals that fit
/// in 64 bits; a malformed field is a distinct error, never a silent zero.
pub fn parse_account_meta(sequence: &str, account_number: &str) -> (r: Result<
    AccountMeta,
    RpcError,
>)
    ensures
        r matches Ok(m) ==> m.sequence == dec_val(sequence@) && m.account_number == dec_val(
            account_number@,
        ),
        (r is Ok) <==> (sequence@.len() > 0 && all_dec_digits(sequence@) && dec_val(sequence@)
            <= u64::MAX && account_number@.len() > 0 && all_dec_digits(account_number@) && dec_val(
            account_number@,
        ) <= u64::MAX),
        r matches Err(e) ==> ((e == RpcError::MalformedSequence) <==> !(sequence@.len() > 0
            && all_dec_digits(sequence@) && dec_val(sequence@) <= u64::MAX)) && (e
            == RpcError::MalformedSequence || e == RpcError::MalformedAccountNumber),
{
    let seq = match parse_u64_dec(sequence) {
        Some(n) => n,
        None => return Err(RpcError::MalformedSequence),
    };
    let acct = match parse_u64_dec(account_number) {
        Some(n) => n,
        None => return Err(RpcError::MalformedAccountNumber),
    };
    Ok(AccountMeta { sequence: seq, account_number: acct })
}

} // verus!
