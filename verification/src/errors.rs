use vstd::prelude::*;

verus! {

/// Failure of the price feed: transport trouble or a response that does not
/// match the expected schema. Recovered locally by substituting the all-zero
/// snapshot; never fatal by itself.
#[derive(Clone, Copy, PartialEq, Eq, Structural, Debug)]
pub enum FeedError {
    Transport,
    Malformed,
}

/// The one fatal condition of the validation stage: every rate was filtered
/// out, so there is nothing fit to publish and no transaction may be built.
#[derive(Clone, Copy, PartialEq, Eq, Structural, Debug)]
pub enum PriceError {
    NoValidPrices,
}

/// Failure while deriving the signer's identity from the seed phrase.
#[derive(Clone, Copy, PartialEq, Eq, Structural, Debug)]
pub enum KeyError {
    /// The seed phrase is not a well-formed mnemonic.
    Mnemonic,
    /// The derivation path is malformed or key derivation failed.
    Derivation,
    /// The public key could not be reconstructed from its bytes.
    PublicKey,
    /// The account address could not be formed from the public key.
    Address,
}

/// Failure of a ledger query: transport trouble, or account metadata whose
/// sequence or account number is not a decimal integer.
#[derive(Clone, Copy, PartialEq, Eq, Structural, Debug)]
pub enum RpcError {
    Transport,
    MalformedSequence,
    MalformedAccountNumber,
}

/// Failure while assembling or signing the transaction.
#[derive(Clone, Copy, PartialEq, Eq, Structural, Debug)]
pub enum SignError {
    /// A sender or contract address did not parse.
    Address,
    /// The fee denomination did not parse or the auth info did not encode.
    AuthInfo,
    /// The chain identifier did not parse.
    ChainId,
    /// A transaction component did not encode.
    Encoding,
    /// The private key was rejected or signing itself failed.
    Signing,
}

} // verus!
