use std::str::FromStr;

use bitcoin::hashes::hex::{FromHex, ToHex};
use bitcoin::secp256k1::ecdsa::Signature;
use bitcoin::secp256k1::{Message, PublicKey, Secp256k1, SecretKey};
use bitcoin::util::sighash::SighashCache;

use reverse_swap::claim::{claim_tx_fee, ClaimError, ClaimTx, Utxo};
use reverse_swap::model::{Network, ReverseSwapInfo, ReverseSwapInfoCached, ReverseSwapStatus};
use reverse_swap::store::{StoreError, SwapStore, SELECT_REVERSE_SWAPS};
use reverse_swap::swapper::{
    BTCSendSwap, BreezEvent, CreateReverseSwapResponse, ProviderCreateResult, SwapError,
};

const DESTINATION: &str = "bc1qw508d6qejxtdg4y5r3zarvary0c5xw7kv8f3t4";
const TESTNET_DESTINATION: &str = "tb1qw508d6qejxtdg4y5r3zarvary0c5xw7kxpjzsx";
const REDEEM_SCRIPT: &str = "a9142222222222222222222222222222222222222222887551";

fn lockup_address(redeem_hex: &str) -> String {
    let script = bitcoin::Script::from(Vec::<u8>::from_hex(redeem_hex).unwrap());
    bitcoin::Address::p2wsh(&script, bitcoin::Network::Bitcoin).to_string()
}

fn record(id: &str, status: ReverseSwapStatus) -> ReverseSwapInfo {
    ReverseSwapInfo {
        id: id.to_string(),
        created_at: 1_700_000_000,
        local_preimage: vec![7u8; 32],
        local_private_key: vec![1u8; 32],
        destination_address: DESTINATION.to_string(),
        hodl_bolt11: "lnbc1".to_string(),
        redeem_script: REDEEM_SCRIPT.to_string(),
        status,
        cache: ReverseSwapInfoCached {
            lockup_address: lockup_address(REDEEM_SCRIPT),
            onchain_amount_sat: 100_000,
        },
    }
}

fn utxo(vout: u32, value: u64) -> Utxo {
    Utxo {
        out: bitcoin::OutPoint {
            txid: bitcoin::Txid::from_hex(
                "e3b0c44298fc1c149afbf4c8996fb92427ae41e4649b934ca495991b7852b855",
            )
            .unwrap(),
            vout,
        },
        value,
    }
}

fn to_bitcoin(tx: &ClaimTx) -> bitcoin::Transaction {
    bitcoin::Transaction {
        version: tx.version,
        lock_time: bitcoin::PackedLockTime(tx.lock_time),
        input: tx
            .inputs
            .iter()
            .map(|i| bitcoin::TxIn {
                previous_output: i.previous_output,
                script_sig: bitcoin::Script::new(),
                sequence: bitcoin::Sequence(i.sequence),
                witness: bitcoin::Witness::from_vec(i.witness.clone()),
            })
            .collect(),
        output: tx
            .outputs
            .iter()
            .map(|o| bitcoin::TxOut {
                value: o.value,
                script_pubkey: bitcoin::Script::from(o.script_pubkey.clone()),
            })
            .collect(),
    }
}

fn ids(v: &[ReverseSwapInfo]) -> Vec<String> {
    v.iter().map(|r| r.id.clone()).collect()
}

#[test]
fn create_persists_created_record() {
    let mut engine = BTCSendSwap::new(Network::Bitcoin);
    let pending = engine
        .prepare_reverse_swap(
            100_000,
            DESTINATION.to_string(),
            "pair".to_string(),
            "node".to_string(),
        )
        .unwrap();
    assert_eq!(pending.request.amount_sat, 100_000);
    assert_eq!(pending.request.pair_hash, "pair");
    assert_eq!(pending.request.routing_node, "node");
    assert_eq!(pending.local_preimage.len(), 32);
    let preimage_hash = <bitcoin::hashes::sha256::Hash as bitcoin::hashes::Hash>::hash(
        &pending.local_preimage,
    );
    assert_eq!(
        pending.request.preimage_hash_hex,
        bitcoin::hashes::Hash::into_inner(preimage_hash).to_hex()
    );
    let sk = SecretKey::from_slice(&pending.local_private_key).unwrap();
    let pk = PublicKey::from_secret_key(&Secp256k1::new(), &sk);
    assert_eq!(pending.request.public_key_hex, pk.serialize().to_hex());
    assert_eq!(pending.request.public_key_hex.len(), 66);

    let lockup = lockup_address(REDEEM_SCRIPT);
    let response = ProviderCreateResult::Success(CreateReverseSwapResponse {
        id: "abc".to_string(),
        invoice: "lnbc1000n1".to_string(),
        redeem_script: REDEEM_SCRIPT.to_string(),
        onchain_amount: 100_000,
        timeout_block_height: 800_000,
        lockup_address: lockup.clone(),
    });
    let created = engine.complete_reverse_swap(pending, response, 1_700_000_000).unwrap();
    assert_eq!(created.id, "abc");
    assert_eq!(created.status, ReverseSwapStatus::Created);
    assert_eq!(created.hodl_bolt11, "lnbc1000n1");
    assert_eq!(created.destination_address, DESTINATION);
    assert_eq!(created.cache.lockup_address, lockup);
    assert_eq!(created.cache.onchain_amount_sat, 100_000);
    let stored = engine.list_reverse_swaps();
    assert_eq!(stored.len(), 1);
    assert_eq!(stored[0].id, "abc");
    assert_eq!(stored[0].status, ReverseSwapStatus::Created);
    assert_eq!(stored[0].cache.lockup_address, lockup);
    assert_eq!(stored[0].cache.onchain_amount_sat, 100_000);
    assert_eq!(ids(&engine.list_monitored()), vec!["abc".to_string()]);
}

#[test]
fn fresh_secrets_for_each_swap() {
    let engine = BTCSendSwap::new(Network::Bitcoin);
    let a = engine
        .prepare_reverse_swap(1, DESTINATION.to_string(), String::new(), String::new())
        .unwrap();
    let b = engine
        .prepare_reverse_swap(1, DESTINATION.to_string(), String::new(), String::new())
        .unwrap();
    assert_ne!(a.local_preimage, b.local_preimage);
    assert_ne!(a.local_private_key, b.local_private_key);
}

#[test]
fn provider_refusal_stores_nothing() {
    let mut engine = BTCSendSwap::new(Network::Bitcoin);
    let pending = engine
        .prepare_reverse_swap(1, DESTINATION.to_string(), String::new(), String::new())
        .unwrap();
    let response = ProviderCreateResult::Error {
        error: "amount out of range".to_string(),
    };
    match engine.complete_reverse_swap(pending, response, 0) {
        Err(SwapError::SwapCreationRejected(reason)) => assert_eq!(reason, "amount out of range"),
        _ => panic!("the refusal was not reported"),
    }
    assert!(engine.list_reverse_swaps().is_empty());
}

#[test]
fn duplicate_provider_id_is_refused() {
    let mut engine = BTCSendSwap::new(Network::Bitcoin);
    engine.restore_reverse_swap(record("abc", ReverseSwapStatus::Created)).unwrap();
    let pending = engine
        .prepare_reverse_swap(1, DESTINATION.to_string(), String::new(), String::new())
        .unwrap();
    let response = ProviderCreateResult::Success(CreateReverseSwapResponse {
        id: "abc".to_string(),
        invoice: String::new(),
        redeem_script: String::new(),
        onchain_amount: 0,
        timeout_block_height: 0,
        lockup_address: String::new(),
    });
    assert!(matches!(
        engine.complete_reverse_swap(pending, response, 0),
        Err(SwapError::Store(StoreError::DuplicateId))
    ));
    assert_eq!(engine.list_reverse_swaps().len(), 1);
}

#[test]
fn malformed_destination_is_rejected() {
    let engine = BTCSendSwap::new(Network::Bitcoin);
    let r = engine.prepare_reverse_swap(
        100_000,
        "bc1q...dest".to_string(),
        "pair".to_string(),
        "node".to_string(),
    );
    assert!(matches!(r, Err(SwapError::InvalidAddress)));
    assert!(engine.list_reverse_swaps().is_empty());
    assert!(engine.list_monitored().is_empty());
}

#[test]
fn destination_of_another_network_is_rejected() {
    let engine = BTCSendSwap::new(Network::Bitcoin);
    assert!(matches!(
        engine.validate_create_reverse_swap(TESTNET_DESTINATION),
        Err(SwapError::InvalidAddress)
    ));
    assert!(engine.validate_create_reverse_swap(DESTINATION).is_ok());
    let testnet = BTCSendSwap::new(Network::Testnet);
    assert!(testnet.validate_create_reverse_swap(TESTNET_DESTINATION).is_ok());
}

#[test]
fn only_new_blocks_start_a_cycle() {
    let engine = BTCSendSwap::new(Network::Bitcoin);
    assert!(engine.on_event(&BreezEvent::NewBlock { block: 800_001 }));
    assert!(!engine.on_event(&BreezEvent::Synced));
}

#[test]
fn monitored_swaps_exclude_terminal_statuses() {
    let mut engine = BTCSendSwap::new(Network::Bitcoin);
    engine.restore_reverse_swap(record("a", ReverseSwapStatus::Created)).unwrap();
    engine.restore_reverse_swap(record("b", ReverseSwapStatus::ClaimTxSeen)).unwrap();
    engine.restore_reverse_swap(record("c", ReverseSwapStatus::LockTxMempool)).unwrap();
    engine.restore_reverse_swap(record("d", ReverseSwapStatus::Expired)).unwrap();
    engine.restore_reverse_swap(record("e", ReverseSwapStatus::LockTxConfirmed)).unwrap();
    assert_eq!(ids(&engine.list_monitored()), vec!["a", "c", "e"]);
    assert_eq!(ids(&engine.swaps_to_claim()), vec!["e"]);
    assert_eq!(engine.list_reverse_swaps().len(), 5);
}

#[test]
fn chain_tip_claims_confirmed_lock() {
    let mut engine = BTCSendSwap::new(Network::Bitcoin);
    engine.restore_reverse_swap(record("abc", ReverseSwapStatus::Created)).unwrap();
    assert!(engine.on_event(&BreezEvent::NewBlock { block: 1 }));
    for rs in engine.list_monitored() {
        engine
            .update_reverse_swap_status(&rs.id, ReverseSwapStatus::LockTxConfirmed)
            .unwrap();
    }
    let to_claim = engine.swaps_to_claim();
    assert_eq!(ids(&to_claim), vec!["abc"]);
    let utxos = vec![utxo(0, 100_000)];
    let tx = engine.create_claim_tx(&to_claim[0], &utxos, 10).unwrap();

    // stripped size 82 (one input, a 22-byte P2WPKH output script), weight 82 * 4 + 217
    let fee = (545 * 10 + 3) / 4;
    assert_eq!(fee, 1363);
    assert_eq!(claim_tx_fee(1, 22, 10), 1363);
    assert_eq!(tx.outputs.len(), 1);
    assert_eq!(tx.outputs[0].value, 100_000 - 1363);
    let dest = bitcoin::Address::from_str(DESTINATION).unwrap();
    assert_eq!(tx.outputs[0].script_pubkey, dest.script_pubkey().to_bytes());
    assert_eq!(tx.version, 2);
    assert_eq!(tx.lock_time, 0);
    assert_eq!(tx.inputs.len(), 1);
    assert_eq!(tx.inputs[0].previous_output, utxos[0].out);
    assert_eq!(tx.inputs[0].sequence, 0);
    assert_eq!(to_bitcoin(&tx).strippedsize(), 82);

    let witness = &tx.inputs[0].witness;
    assert_eq!(witness.len(), 3);
    assert_eq!(witness[1], vec![7u8; 32]);
    assert_eq!(witness[2], Vec::<u8>::from_hex(REDEEM_SCRIPT).unwrap());
    assert_eq!(*witness[0].last().unwrap(), 1u8);

    // the signature verifies against the BIP143 digest of the unsigned transaction
    let mut unsigned = to_bitcoin(&tx);
    unsigned.input[0].witness = bitcoin::Witness::default();
    let script = bitcoin::Script::from(witness[2].clone());
    let digest = SighashCache::new(&unsigned)
        .segwit_signature_hash(0, &script, 100_000, bitcoin::EcdsaSighashType::All)
        .unwrap();
    let msg = Message::from_slice(&digest[..]).unwrap();
    let sig = Signature::from_der(&witness[0][..witness[0].len() - 1]).unwrap();
    let sk = SecretKey::from_slice(&[1u8; 32]).unwrap();
    let pk = PublicKey::from_secret_key(&Secp256k1::new(), &sk);
    assert!(Secp256k1::verification_only().verify_ecdsa(&msg, &sig, &pk).is_ok());
}

#[test]
fn claim_is_deterministic() {
    let rs = record("abc", ReverseSwapStatus::LockTxConfirmed);
    let engine = BTCSendSwap::new(Network::Bitcoin);
    let utxos = vec![utxo(0, 60_000), utxo(1, 40_000)];
    let a = engine.create_claim_tx(&rs, &utxos, 3).unwrap();
    let b = engine.create_claim_tx(&rs, &utxos, 3).unwrap();
    assert_eq!(to_bitcoin(&a), to_bitcoin(&b));
    assert_eq!(a.inputs.len(), 2);
    assert_eq!(a.inputs[1].previous_output, utxos[1].out);
    assert_eq!(a.outputs[0].value, 100_000 - claim_tx_fee(2, 22, 3) as u64);
    assert_eq!(to_bitcoin(&a).strippedsize(), 4 + 1 + 2 * 41 + 1 + 8 + 1 + 22 + 4);
}

#[test]
fn expired_swap_is_never_claimed() {
    let mut engine = BTCSendSwap::new(Network::Bitcoin);
    engine.restore_reverse_swap(record("abc", ReverseSwapStatus::LockTxMempool)).unwrap();
    engine
        .update_reverse_swap_status(&"abc".to_string(), ReverseSwapStatus::Expired)
        .unwrap();
    assert!(engine.list_monitored().is_empty());
    assert!(engine.swaps_to_claim().is_empty());
    assert_eq!(engine.list_reverse_swaps()[0].status, ReverseSwapStatus::Expired);
}

#[test]
fn claim_errors() {
    let engine = BTCSendSwap::new(Network::Bitcoin);
    let rs = record("abc", ReverseSwapStatus::LockTxConfirmed);
    let one = vec![utxo(0, 100_000)];
    assert!(matches!(
        engine.create_claim_tx(&rs, &vec![], 10),
        Err(ClaimError::NoConfirmedFunds)
    ));
    assert!(matches!(
        engine.create_claim_tx(&rs, &vec![utxo(0, 0)], 10),
        Err(ClaimError::NoConfirmedFunds)
    ));
    assert!(matches!(
        engine.create_claim_tx(&rs, &one, 1_000),
        Err(ClaimError::FeeExceedsAmount)
    ));
    assert!(matches!(
        engine.create_claim_tx(&rs, &vec![utxo(0, u64::MAX), utxo(1, 1)], 1),
        Err(ClaimError::AmountOverflow)
    ));

    let mut p2wpkh_lockup = record("abc", ReverseSwapStatus::LockTxConfirmed);
    p2wpkh_lockup.cache.lockup_address = DESTINATION.to_string();
    assert!(matches!(
        engine.create_claim_tx(&p2wpkh_lockup, &one, 10),
        Err(ClaimError::UnsupportedLockAddressType)
    ));

    let mut other_script = record("abc", ReverseSwapStatus::LockTxConfirmed);
    other_script.redeem_script = "51".to_string();
    assert!(matches!(
        engine.create_claim_tx(&other_script, &one, 10),
        Err(ClaimError::LockupScriptMismatch)
    ));

    let mut odd_hex = record("abc", ReverseSwapStatus::LockTxConfirmed);
    odd_hex.redeem_script = "a91".to_string();
    assert!(matches!(
        engine.create_claim_tx(&odd_hex, &one, 10),
        Err(ClaimError::InvalidRedeemScript)
    ));

    let mut bad_lockup = record("abc", ReverseSwapStatus::LockTxConfirmed);
    bad_lockup.cache.lockup_address = "not an address".to_string();
    assert!(matches!(
        engine.create_claim_tx(&bad_lockup, &one, 10),
        Err(ClaimError::InvalidLockupAddress)
    ));

    let mut bad_destination = record("abc", ReverseSwapStatus::LockTxConfirmed);
    bad_destination.destination_address = "bc1q...dest".to_string();
    assert!(matches!(
        engine.create_claim_tx(&bad_destination, &one, 10),
        Err(ClaimError::InvalidDestinationAddress)
    ));

    let mut zero_key = record("abc", ReverseSwapStatus::LockTxConfirmed);
    zero_key.local_private_key = vec![0u8; 32];
    assert!(matches!(
        engine.create_claim_tx(&zero_key, &one, 10),
        Err(ClaimError::InvalidPrivateKey)
    ));
}

#[test]
fn upper_case_redeem_script_hex_is_accepted() {
    let engine = BTCSendSwap::new(Network::Bitcoin);
    let mut rs = record("abc", ReverseSwapStatus::LockTxConfirmed);
    rs.redeem_script = REDEEM_SCRIPT.to_uppercase();
    let tx = engine.create_claim_tx(&rs, &vec![utxo(0, 100_000)], 0).unwrap();
    assert_eq!(tx.inputs[0].witness[2], Vec::<u8>::from_hex(REDEEM_SCRIPT).unwrap());
    assert_eq!(tx.outputs[0].value, 100_000);
}

#[test]
fn store_keys_by_id() {
    let mut store = SwapStore::new();
    assert!(store.insert_reverse_swap(record("a", ReverseSwapStatus::Created)).is_ok());
    assert_eq!(
        store.insert_reverse_swap(record("a", ReverseSwapStatus::Expired)),
        Err(StoreError::DuplicateId)
    );
    assert_eq!(
        store.update_reverse_swap_boltz_status(&"b".to_string(), ReverseSwapStatus::Expired),
        Err(StoreError::NotFound)
    );
    assert!(store
        .update_reverse_swap_boltz_status(&"a".to_string(), ReverseSwapStatus::ClaimTxSeen)
        .is_ok());
    let all = store.list_reverse_swaps();
    assert_eq!(all.len(), 1);
    assert_eq!(all[0].status, ReverseSwapStatus::ClaimTxSeen);
    assert!(store.get_monitored_reverse_swaps().is_empty());
    assert_eq!(store.select_reverse_swap_query(), SELECT_REVERSE_SWAPS);
}
