use vstd::prelude::*;

use crate::codec::{encode_update_prices, update_prices_json};
use crate::errors::SignError;
use crate::fixed::CurrencyPriceEntry;
use crate::identity::{AccountMeta, SignerIdentity};

verus! {

/// The protobuf encoding of a transaction body holding one contract
/// execution: the message addressed from sender to contract, no funds, empty
/// memo, zero timeout height.
pub uninterp spec fn body_bytes_of(sender: Seq<char>, contract: Seq<char>, msg: Seq<char>) -> Seq<
    u8,
>;

/// The protobuf encoding of auth info for a single direct signer with the
/// given public key and sequence, and a fee of the given amount,
/// denomination and gas limit.
pub uninterp spec fn auth_bytes_of(
    pubkey: Seq<u8>,
    sequence: u64,
    fee_amount: u64,
    fee_denom: Seq<char>,
    gas_limit: u64,
) -> Seq<u8>;

/// The canonical byte form of the sign-document over a body, auth info,
/// chain id and account number.
pub uninterp spec fn sign_doc_bytes_of(
    body: Seq<u8>,
    auth: Seq<u8>,
    chain_id: Seq<char>,
    account_number: u64,
) -> Seq<u8>;

/// The signed transaction envelope (body + auth info + signature) produced
/// by signing that sign-document with a private key. Deterministic: the
/// signature scheme is RFC 6979 ECDSA, a function of key and document alone.
pub uninterp spec fn raw_tx_of(
    privkey: Seq<u8>,
    body: Seq<u8>,
    auth: Seq<u8>,
    chain_id: Seq<char>,
    account_number: u64,
) -> Seq<u8>;

/// Whether the transaction body builds and encodes: sender and contract are
/// valid bech32 account addresses and the protobuf encoding goes through.
pub uninterp spec fn body_ok(sender: Seq<char>, contract: Seq<char>, msg: Seq<char>) -> bool;

/// Whether the auth info builds and encodes: the public-key bytes are a
/// valid compressed point, the denomination is well-formed, and the
/// protobuf encoding goes through.
pub uninterp spec fn auth_ok(
    pubkey: Seq<u8>,
    sequence: u64,
    fee_amount: u64,
    fee_denom: Seq<char>,
    gas_limit: u64,
) -> bool;

/// Whether the sign-document forms and encodes: the chain id is well-formed
/// and the protobuf encoding goes through.
pub uninterp spec fn doc_ok(
    body: Seq<u8>,
    auth: Seq<u8>,
    chain_id: Seq<char>,
    account_number: u64,
) -> bool;

/// Whether signing the sign-document over these parts with this key
/// succeeds, envelope encoding included.
pub uninterp spec fn tx_sign_ok(
    privkey: Seq<u8>,
    body: Seq<u8>,
    auth: Seq<u8>,
    chain_id: Seq<char>,
    account_number: u64,
) -> bool;

/// Relies on cosmrs's `MsgExecuteContract`, `Msg::into_any` and
/// `Body::into_bytes`: the protobuf transaction body carrying exactly that
/// one message, a function of sender, contract and message alone. Errs, with
/// the variant naming what failed, when an address is not valid bech32 or
/// encoding fails.
#[verifier::external_body]
fn build_body_bytes(sender: &str, contract: &str, msg: &str) -> (r: Result<Vec<u8>, SignError>)
    ensures
        (r is Ok) <==> body_ok(sender@, contract@, msg@),
        r matches Ok(b) ==> b@ == body_bytes_of(sender@, contract@, msg@),
        r matches Err(e) ==> e == SignError::Address || e == SignError::Encoding,
{
    let sender_id: cosmrs::AccountId = sender.parse().map_err(|_| SignError::Address)?;
    let contract_id: cosmrs::AccountId = contract.parse().map_err(|_| SignError::Address)?;
    let exec = cosmrs::cosmwasm::MsgExecuteContract {
        sender: sender_id,
        contract: contract_id,
        msg: msg.as_bytes().to_vec(),
        funds: Vec::new(),
    };
    let any = cosmrs::tx::Msg::into_any(exec).map_err(|_| SignError::Encoding)?;
    cosmrs::tx::Body::new([any], "", 0u32).into_bytes().map_err(|_| SignError::Encoding)
}

/// Relies on cosmrs's `SignerInfo::single_direct`, `auth_info` and
/// `Fee::from_amount_and_gas`: the protobuf auth info for one direct signer
/// with that key and sequence and the given fee, a function of its arguments
/// alone. Errs when the key bytes or the denomination are invalid.
#[verifier::external_body]
fn build_auth_bytes(
    pubkey: &Vec<u8>,
    sequence: u64,
    fee_amount: u64,
    fee_denom: &str,
    gas_limit: u64,
) -> (r: Result<Vec<u8>, SignError>)
    ensures
        (r is Ok) <==> auth_ok(pubkey@, sequence, fee_amount, fee_denom@, gas_limit),
        r matches Ok(b) ==> b@ == auth_bytes_of(pubkey@, sequence, fee_amount, fee_denom@, gas_limit),
        r matches Err(e) ==> e == SignError::AuthInfo,
{
    let raw = cosmrs::tendermint::PublicKey::from_raw_secp256k1(pubkey).ok_or(
        SignError::AuthInfo,
    )?;
    let denom: cosmrs::Denom = fee_denom.parse().map_err(|_| SignError::AuthInfo)?;
    let coin = cosmrs::Coin { denom, amount: fee_amount as u128 };
    let pk = Some(cosmrs::crypto::PublicKey::from(raw));
    let signer = cosmrs::tx::SignerInfo::single_direct(pk, sequence);
    let auth = signer.auth_info(cosmrs::tx::Fee::from_amount_and_gas(coin, gas_limit));
    auth.into_bytes().map_err(|_| SignError::AuthInfo)
}

/// Relies on cosmrs's `SignDoc::into_bytes`: the canonical protobuf
/// sign-document over the given parts, a function of them alone. Errs, with
/// the variant naming what failed, when the chain id is malformed or
/// encoding fails.
#[verifier::external_body]
fn build_sign_doc_bytes(body: &Vec<u8>, auth: &Vec<u8>, chain_id: &str, account_number: u64) -> (r:
    Result<Vec<u8>, SignError>)
    ensures
        (r is Ok) <==> doc_ok(body@, auth@, chain_id@, account_number),
        r matches Ok(b) ==> b@ == sign_doc_bytes_of(body@, auth@, chain_id@, account_number),
        r matches Err(e) ==> e == SignError::ChainId || e == SignError::Encoding,
{
    let id: cosmrs::tendermint::chain::Id = chain_id.parse().map_err(|_| SignError::ChainId)?;
    let doc = cosmrs::tx::SignDoc {
        body_bytes: body.clone(),
        auth_info_bytes: auth.clone(),
        chain_id: id.to_string(),
        account_number,
    };
    doc.into_bytes().map_err(|_| SignError::Encoding)
}

/// Relies on cosmrs's `SignDoc::sign` with its k256 signer (RFC 6979
/// deterministic ECDSA) and `Raw::to_bytes`: the signed envelope over the
/// same sign-document, a function of key and parts alone. Errs, with the
/// variant naming what failed, when the key is invalid, the chain id is
/// malformed, or signing or encoding fails.
#[verifier::external_body]
fn sign_raw_tx(
    privkey: &Vec<u8>,
    body: &Vec<u8>,
    auth: &Vec<u8>,
    chain_id: &str,
    account_number: u64,
) -> (r: Result<Vec<u8>, SignError>)
    ensures
        (r is Ok) <==> tx_sign_ok(privkey@, body@, auth@, chain_id@, account_number),
        r matches Ok(b) ==> b@ == raw_tx_of(privkey@, body@, auth@, chain_id@, account_number),
        r matches Err(e) ==> e == SignError::Signing || e == SignError::ChainId || e
            == SignError::Encoding,
{
    let key = cosmrs::crypto::secp256k1::SigningKey::from_slice(privkey).map_err(
        |_| SignError::Signing,
    )?;
    let id: cosmrs::tendermint::chain::Id = chain_id.parse().map_err(|_| SignError::ChainId)?;
    let doc = cosmrs::tx::SignDoc {
        body_bytes: body.clone(),
        auth_info_bytes: auth.clone(),
        chain_id: id.to_string(),
        account_number,
    };
    let raw = doc.sign(&key).map_err(|_| SignError::Signing)?;
    raw.to_bytes().map_err(|_| SignError::Encoding)
}

/// The immutable signed envelope, ready for broadcast, together with the
/// parts it was signed over. Once constructed it is never mutated.
#[derive(Clone, Debug)]
pub struct SignedTransaction {
    pub body_bytes: Vec<u8>,
    pub auth_info_bytes: Vec<u8>,
    pub sign_doc_bytes: Vec<u8>,
    pub raw_bytes: Vec<u8>,
}

impl SignedTransaction {
    /// The transaction every build over these inputs yields: the body
    /// carries exactly the encoded price list from the identity's address to
    /// the contract, the auth info carries the identity's key, the fetched
    /// sequence and the configured fee, and sign-document and envelope are
    /// fixed functions of those parts.
    pub open spec fn built_from(
        self,
        entries: Seq<CurrencyPriceEntry>,
        identity: SignerIdentity,
        meta: AccountMeta,
        contract_addr: Seq<char>,
        chain_id: Seq<char>,
        fee_amount: u64,
        fee_denom: Seq<char>,
        gas_limit: u64,
    ) -> bool {
        &&& self.body_bytes@ == body_bytes_of(
            identity.address@,
            contract_addr,
            update_prices_json(entries),
        )
        &&& self.auth_info_bytes@ == auth_bytes_of(
            identity.pubkey@,
            meta.sequence,
            fee_amount,
            fee_denom,
            gas_limit,
        )
        &&& self.sign_doc_bytes@ == sign_doc_bytes_of(
            self.body_bytes@,
            self.auth_info_bytes@,
            chain_id,
            meta.account_number,
        )
        &&& self.raw_bytes@ == raw_tx_of(
            identity.privkey@,
            self.body_bytes@,
            self.auth_info_bytes@,
            chain_id,
            meta.account_number,
        )
    }
}

/// Whether the whole build-and-sign chain succeeds on these inputs: the
/// body builds from the identity's address, the contract address and the
/// encoded price list; the auth info builds from the identity's key, the
/// sequence and the fee; the sign-document forms under the chain id and
/// account number; and signing with the identity's private key goes
/// through. Each stage is a fixed function of the inputs.
pub open spec fn buildable(
    entries: Seq<CurrencyPriceEntry>,
    identity: SignerIdentity,
    meta: AccountMeta,
    contract_addr: Seq<char>,
    chain_id: Seq<char>,
    fee_amount: u64,
    fee_denom: Seq<char>,
    gas_limit: u64,
) -> bool {
    let msg = update_prices_json(entries);
    let body = body_bytes_of(identity.address@, contract_addr, msg);
    let auth = auth_bytes_of(identity.pubkey@, meta.sequence, fee_amount, fee_denom, gas_limit);
    &&& body_ok(identity.address@, contract_addr, msg)
    &&& auth_ok(identity.pubkey@, meta.sequence, fee_amount, fee_denom, gas_limit)
    &&& doc_ok(body, auth, chain_id, meta.account_number)
    &&& tx_sign_ok(identity.privkey@, body, auth, chain_id, meta.account_number)
}

/// Which error the build reports: the variants possible for the first stage
/// that fails — body construction, auth info, sign-document, signing.
pub open spec fn build_error_stage(
    e: SignError,
    entries: Seq<CurrencyPriceEntry>,
    identity: SignerIdentity,
    meta: AccountMeta,
    contract_addr: Seq<char>,
    chain_id: Seq<char>,
    fee_amount: u64,
    fee_denom: Seq<char>,
    gas_limit: u64,
) -> bool {
    let msg = update_prices_json(entries);
    let body = body_bytes_of(identity.address@, contract_addr, msg);
    let auth = auth_bytes_of(identity.pubkey@, meta.sequence, fee_amount, fee_denom, gas_limit);
    let b_ok = body_ok(identity.address@, contract_addr, msg);
    let a_ok = auth_ok(identity.pubkey@, meta.sequence, fee_amount, fee_denom, gas_limit);
    let d_ok = doc_ok(body, auth, chain_id, meta.account_number);
    &&& (!b_ok ==> e == SignError::Address || e == SignError::Encoding)
    &&& ((b_ok && !a_ok) ==> e == SignError::AuthInfo)
    &&& ((b_ok && a_ok && !d_ok) ==> e == SignError::ChainId || e == SignError::Encoding)
    &&& ((b_ok && a_ok && d_ok) ==> e == SignError::Signing || e == SignError::ChainId || e
        == SignError::Encoding)
}

/// Assembles and signs the price-update transaction: encodes the entries as
/// the contract's execute message, wraps it as the single message of a
/// transaction body from the identity's address to the contract, builds auth
/// info from the identity's key, the fetched sequence and the configured
/// fee, forms the canonical sign-document with the chain id and account
/// number, and signs it with the identity's private key. It succeeds exactly
/// when every stage does, and on failure the error belongs to the first
/// failing stage.
pub fn build_and_sign(
    entries: &Vec<CurrencyPriceEntry>,
    identity: &SignerIdentity,
    meta: AccountMeta,
    contract_addr: &str,
    chain_id: &str,
    fee_amount: u64,
    fee_denom: &str,
    gas_limit: u64,
) -> (r: Result<SignedTransaction, SignError>)
    ensures
        (r is Ok) <==> buildable(
            entries@,
            *identity,
            meta,
            contract_addr@,
            chain_id@,
            fee_amount,
            fee_denom@,
            gas_limit,
        ),
        r matches Ok(tx) ==> tx.built_from(
            entries@,
            *identity,
            meta,
            contract_addr@,
            chain_id@,
            fee_amount,
            fee_denom@,
            gas_limit,
        ),
        r matches Err(e) ==> build_error_stage(
            e,
            entries@,
            *identity,
            meta,
            contract_addr@,
            chain_id@,
            fee_amount,
            fee_denom@,
            gas_limit,
        ),
{
    let msg = encode_update_prices(entries);
    let body_bytes = match build_body_bytes(identity.address.as_str(), contract_addr, msg.as_str()) {
        Ok(b) => b,
        Err(e) => return Err(e),
    };
    let auth_info_bytes = match build_auth_bytes(
        &identity.pubkey,
        meta.sequence,
        fee_amount,
        fee_denom,
        gas_limit,
    ) {
        Ok(b) => b,
        Err(e) => return Err(e),
    };
    let sign_doc_bytes = match build_sign_doc_bytes(
        &body_bytes,
        &auth_info_bytes,
        chain_id,
        meta.account_number,
    ) {
        Ok(b) => b,
        Err(e) => return Err(e),
    };
    let raw_bytes = match sign_raw_tx(
        &identity.privkey,
        &body_bytes,
        &auth_info_bytes,
        chain_id,
        meta.account_number,
    ) {
        Ok(b) => b,
        Err(e) => return Err(e),
    };
    Ok(SignedTransaction { body_bytes, auth_info_bytes, sign_doc_bytes, raw_bytes })
}

/// Transaction construction and signing are deterministic: two transactions
/// built from the same entries, identity, metadata and configuration agree
/// byte for byte — in particular in their canonical sign-document and in the
/// signed envelope.
pub proof fn lemma_build_and_sign_deterministic(
    a: SignedTransaction,
    b: SignedTransaction,
    entries: Seq<CurrencyPriceEntry>,
    identity: SignerIdentity,
    meta: AccountMeta,
    contract_addr: Seq<char>,
    chain_id: Seq<char>,
    fee_amount: u64,
    fee_denom: Seq<char>,
    gas_limit: u64,
)
    requires
        a.built_from(
            entries,
            identity,
            meta,
            contract_addr,
            chain_id,
            fee_amount,
            fee_denom,
            gas_limit,
        ),
        b.built_from(
            entries,
            identity,
            meta,
            contract_addr,
            chain_id,
            fee_amount,
            fee_denom,
            gas_limit,
        ),
    ensures
        a.body_bytes@ == b.body_bytes@,
        a.auth_info_bytes@ == b.auth_info_bytes@,
        a.sign_doc_bytes@ == b.sign_doc_bytes@,
        a.raw_bytes@ == b.raw_bytes@,
{
}

} // verus!
