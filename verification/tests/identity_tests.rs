use k256::ecdsa::signature::Verifier;
use k256::ecdsa::{Signature, VerifyingKey};
use price_oracle::errors::{KeyError, SignError};
use price_oracle::identity::{parse_account_meta, resolve_identity};
use price_oracle::pipeline::plan_update;
use price_oracle::rates::Prices;
use price_oracle::txbuild::build_and_sign;

const PHRASE: &str =
    "abandon abandon abandon abandon abandon abandon abandon abandon abandon abandon abandon about";
const PATH: &str = "m/44'/118'/0'/0/0";
const PREFIX: &str = "cosmos";

#[test]
fn resolve_identity_matches_direct_derivation() {
    let id = resolve_identity(PHRASE, PATH, PREFIX).unwrap();
    assert_eq!(id.privkey.len(), 32);
    assert_eq!(id.pubkey.len(), 33);
    assert!(id.address.starts_with("cosmos1"));

    // Derive the same identity with the crates directly and compare.
    let mnemonic = bip39::Mnemonic::parse_normalized(PHRASE).unwrap();
    let seed = mnemonic.to_seed_normalized("");
    let path: cosmrs::bip32::DerivationPath = PATH.parse().unwrap();
    let key = cosmrs::crypto::secp256k1::SigningKey::derive_from_path(seed, &path).unwrap();
    assert_eq!(id.pubkey, key.public_key().to_bytes());
    assert_eq!(
        id.address,
        key.public_key().account_id(PREFIX).unwrap().to_string()
    );
}

#[test]
fn resolve_identity_is_deterministic() {
    let a = resolve_identity(PHRASE, PATH, PREFIX).unwrap();
    let b = resolve_identity(PHRASE, PATH, PREFIX).unwrap();
    assert_eq!(a.privkey, b.privkey);
    assert_eq!(a.pubkey, b.pubkey);
    assert_eq!(a.address, b.address);
}

#[test]
fn resolve_identity_rejects_bad_inputs() {
    assert!(matches!(
        resolve_identity("not a mnemonic at all", PATH, PREFIX),
        Err(KeyError::Mnemonic)
    ));
    assert!(matches!(
        resolve_identity(PHRASE, "not/a/path", PREFIX),
        Err(KeyError::Derivation)
    ));
}

fn sample_entries() -> Vec<price_oracle::fixed::CurrencyPriceEntry> {
    let mut p = Prices::default();
    p.EUR = 850_000;
    p.GBP = 750_000;
    p.SGD = 1_300_000;
    plan_update(&p).unwrap()
}

#[test]
fn signed_transaction_verifies_and_carries_the_message() {
    let id = resolve_identity(PHRASE, PATH, PREFIX).unwrap();
    // Use a second derived account as the contract address: any valid
    // bech32 account works for encoding.
    let contract = resolve_identity(PHRASE, "m/44'/118'/0'/0/1", PREFIX)
        .unwrap()
        .address;
    let entries = sample_entries();
    let meta = parse_account_meta("7", "42").unwrap();
    let tx = build_and_sign(
        &entries, &id, meta, &contract, "testing-1", 15_000, "uatom", 500_000,
    )
    .unwrap();

    // The envelope decodes to the body and auth info that were signed over.
    let decoded = cosmrs::Tx::from_bytes(&tx.raw_bytes).unwrap();
    assert_eq!(decoded.body.clone().into_bytes().unwrap(), tx.body_bytes);
    assert_eq!(
        decoded.auth_info.clone().into_bytes().unwrap(),
        tx.auth_info_bytes
    );

    // The signer info carries the fetched sequence as an integer.
    assert_eq!(decoded.auth_info.signer_infos.len(), 1);
    assert_eq!(decoded.auth_info.signer_infos[0].sequence, 7);

    // The single message is the contract execution carrying the price list.
    assert_eq!(decoded.body.messages.len(), 1);
    let exec: cosmrs::cosmwasm::MsgExecuteContract =
        cosmrs::tx::Msg::from_any(&decoded.body.messages[0]).unwrap();
    assert_eq!(exec.sender.to_string(), id.address);
    assert_eq!(exec.contract.to_string(), contract);
    assert!(exec.funds.is_empty());
    let expected_msg = "{\"update_prices\":[\
         {\"currency\":\"EUR\",\"usd_price\":\"85\",\"updated_at\":0},\
         {\"currency\":\"GBP\",\"usd_price\":\"75\",\"updated_at\":0},\
         {\"currency\":\"SGD\",\"usd_price\":\"130\",\"updated_at\":0}]}";
    assert_eq!(exec.msg, expected_msg.as_bytes());

    // The signature verifies against the public key and the sign-document.
    assert_eq!(decoded.signatures.len(), 1);
    let vk = VerifyingKey::from_sec1_bytes(&id.pubkey).unwrap();
    let sig = Signature::from_slice(&decoded.signatures[0]).unwrap();
    vk.verify(&tx.sign_doc_bytes, &sig).unwrap();
}

#[test]
fn signing_is_deterministic() {
    let id = resolve_identity(PHRASE, PATH, PREFIX).unwrap();
    let contract = id.address.clone();
    let entries = sample_entries();
    let meta = parse_account_meta("7", "42").unwrap();
    let a = build_and_sign(
        &entries, &id, meta, &contract, "testing-1", 15_000, "uatom", 500_000,
    )
    .unwrap();
    let b = build_and_sign(
        &entries, &id, meta, &contract, "testing-1", 15_000, "uatom", 500_000,
    )
    .unwrap();
    assert_eq!(a.body_bytes, b.body_bytes);
    assert_eq!(a.auth_info_bytes, b.auth_info_bytes);
    assert_eq!(a.sign_doc_bytes, b.sign_doc_bytes);
    assert_eq!(a.raw_bytes, b.raw_bytes);

    // A different account number signs a different document.
    let other_meta = parse_account_meta("7", "43").unwrap();
    let c = build_and_sign(
        &entries, &id, other_meta, &contract, "testing-1", 15_000, "uatom", 500_000,
    )
    .unwrap();
    assert_ne!(a.sign_doc_bytes, c.sign_doc_bytes);
}

#[test]
fn build_and_sign_rejects_bad_configuration() {
    let id = resolve_identity(PHRASE, PATH, PREFIX).unwrap();
    let entries = sample_entries();
    let meta = parse_account_meta("7", "42").unwrap();
    // A contract address that is not bech32 fails at the body stage.
    let bad_contract = build_and_sign(
        &entries, &id, meta, "not-bech32", "testing-1", 15_000, "uatom", 500_000,
    );
    assert!(matches!(bad_contract, Err(SignError::Address)));
    // An empty chain id fails at the sign-document stage.
    let contract = id.address.clone();
    let bad_chain = build_and_sign(&entries, &id, meta, &contract, "", 15_000, "uatom", 500_000);
    assert!(matches!(bad_chain, Err(SignError::ChainId)));
    // An empty fee denomination fails at the auth-info stage.
    let bad_denom = build_and_sign(
        &entries, &id, meta, &contract, "testing-1", 15_000, "", 500_000,
    );
    assert!(matches!(bad_denom, Err(SignError::AuthInfo)));
}
