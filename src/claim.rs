//! The claim transaction builder: spends the HTLC outputs of a reverse swap to its destination.
use vstd::prelude::*;

use bitcoin::util::sighash::SighashCache;
use bitcoin::{EcdsaSighashType, OutPoint, PackedLockTime, Script, Sequence, Transaction, TxIn, TxOut, Witness};

use crate::address::{address_is_p2wsh, address_parses, address_script_of, parse_address};
use crate::hex::{decode_hex, hex_decodable, hex_decoded};
use crate::keys::{ecdsa_der_of, secret_key_valid, sha256_digest, sha256_of, sign_digest};
use crate::model::{copy_bytes, Network, ReverseSwapInfo, ReverseSwapRecord};

verus! {

#[verifier::external_type_specification]
#[verifier::external_body]
pub struct ExOutPoint(OutPoint);

/// Weight units that a transaction's stripped size is scaled by.
pub const WITNESS_SCALE_FACTOR: u64 = 4;

/// Weight of the witness of one claim input: signature with its sighash byte, preimage and
/// redeem script, each with its push-length byte.
pub const CLAIM_WITNESS_INPUT_WEIGHT: u64 = 1 + 1 + 8 + 73 + 1 + 32 + 1 + 100;

/// The sighash type byte appended to each claim signature (SIGHASH_ALL).
pub const SIGHASH_ALL: u8 = 1;

/// Version of claim transactions.
pub const CLAIM_TX_VERSION: i32 = 2;

/// A confirmed output at the lockup address.
#[derive(Clone, Copy)]
pub struct Utxo {
    pub out: OutPoint,
    pub value: u64,
}

/// An input of a claim transaction; its script_sig is empty.
pub struct ClaimTxInput {
    pub previous_output: OutPoint,
    pub sequence: u32,
    pub witness: Vec<Vec<u8>>,
}

/// An output of a claim transaction.
pub struct ClaimTxOutput {
    pub value: u64,
    pub script_pubkey: Vec<u8>,
}

/// A transaction that spends the HTLC outputs of a reverse swap.
pub struct ClaimTx {
    pub version: i32,
    pub lock_time: u32,
    pub inputs: Vec<ClaimTxInput>,
    pub outputs: Vec<ClaimTxOutput>,
}

pub struct InputView {
    pub previous_output: OutPoint,
    pub sequence: nat,
    pub witness: Seq<Seq<u8>>,
}

pub struct OutputView {
    pub value: nat,
    pub script_pubkey: Seq<u8>,
}

pub struct ClaimTxView {
    pub version: int,
    pub lock_time: nat,
    pub inputs: Seq<InputView>,
    pub outputs: Seq<OutputView>,
}

impl View for ClaimTxInput {
    type V = InputView;

    open spec fn view(&self) -> InputView {
        InputView {
            previous_output: self.previous_output,
            sequence: self.sequence as nat,
            witness: self.witness@.map_values(|w: Vec<u8>| w@),
        }
    }
}

impl View for ClaimTxOutput {
    type V = OutputView;

    open spec fn view(&self) -> OutputView {
        OutputView { value: self.value as nat, script_pubkey: self.script_pubkey@ }
    }
}

impl View for ClaimTx {
    type V = ClaimTxView;

    open spec fn view(&self) -> ClaimTxView {
        ClaimTxView {
            version: self.version as int,
            lock_time: self.lock_time as nat,
            inputs: self.inputs@.map_values(|i: ClaimTxInput| i@),
            outputs: self.outputs@.map_values(|o: ClaimTxOutput| o@),
        }
    }
}

/// The BIP143 SIGHASH_ALL digest of an input of a transaction, given the script code and the
/// value of the output it spends.
pub uninterp spec fn segwit_sighash_of(
    tx: ClaimTxView,
    index: int,
    script_code: Seq<u8>,
    value: int,
) -> Seq<u8>;

/// Relies on bitcoin's `SighashCache::segwit_signature_hash` with `EcdsaSighashType::All`,
/// which fails only on an input index out of bounds and yields a 32-byte digest.
#[verifier::external_body]
fn segwit_sighash(tx: &ClaimTx, index: usize, script_code: &Vec<u8>, value: u64) -> (r: Option<Vec<u8>>)
    ensures
        r is Some <==> index < tx.inputs.len(),
        r matches Some(h) ==> h@ == segwit_sighash_of(tx@, index as int, script_code@, value as int)
            && h@.len() == 32,
{
    let t = Transaction {
        version: tx.version,
        lock_time: PackedLockTime(tx.lock_time),
        input: tx.inputs.iter().map(|i| TxIn {
            previous_output: i.previous_output,
            script_sig: Script::new(),
            sequence: Sequence(i.sequence),
            witness: Witness::from_vec(i.witness.clone()),
        }).collect(),
        output: tx.outputs.iter().map(|o| TxOut { value: o.value, script_pubkey: Script::from(o.script_pubkey.clone()) }).collect(),
    };
    let h = SighashCache::new(&t).segwit_signature_hash(index, &Script::from(script_code.clone()), value, EcdsaSighashType::All);
    h.ok().map(|h| h.to_vec())
}

/// Bytes taken by Bitcoin's variable-length encoding of a count.
pub open spec fn varint_len(n: int) -> int {
    if n < 0xfd {
        1
    } else if n <= 0xffff {
        3
    } else if n <= 0xffff_ffff {
        5
    } else {
        9
    }
}

/// Serialized size, without witness data, of a claim transaction: `n_inputs` inputs with an
/// empty script_sig and one output paying a script of `script_len` bytes.
pub open spec fn claim_stripped_size(n_inputs: int, script_len: int) -> int {
    4 + varint_len(n_inputs) + (32 + 4 + 1 + 4) * n_inputs + varint_len(1) + 8 + varint_len(script_len)
        + script_len + 4
}

/// Weight of a signed claim transaction.
pub open spec fn claim_weight(n_inputs: int, script_len: int) -> int {
    claim_stripped_size(n_inputs, script_len) * WITNESS_SCALE_FACTOR + CLAIM_WITNESS_INPUT_WEIGHT
        * n_inputs
}

/// Fee for a weight at a rate in sat/vbyte, rounded up.
pub open spec fn claim_fee(weight: int, sat_per_vbyte: int) -> int {
    (weight * sat_per_vbyte + 3) / 4
}

/// Total value of the outputs.
pub open spec fn utxo_sum(u: Seq<Utxo>) -> int
    decreases u.len(),
{
    if u.len() == 0 {
        0
    } else {
        utxo_sum(u.drop_last()) + u.last().value
    }
}

/// The output script of a P2WSH address for a script hash.
pub open spec fn p2wsh_script(script_hash: Seq<u8>) -> Seq<u8> {
    seq![0u8, 32u8] + script_hash
}

/// The claim transaction before signing: one input per output, one output to the destination.
pub open spec fn unsigned_claim_tx(utxos: Seq<Utxo>, dest_script: Seq<u8>, value: int) -> ClaimTxView {
    ClaimTxView {
        version: CLAIM_TX_VERSION as int,
        lock_time: 0,
        inputs: utxos.map_values(
            |u: Utxo| InputView { previous_output: u.out, sequence: 0, witness: Seq::empty() },
        ),
        outputs: seq![OutputView { value: value as nat, script_pubkey: dest_script }],
    }
}

/// The witness that spends the HTLC: signature with its sighash byte, preimage, redeem script.
pub open spec fn claim_witness(
    unsigned: ClaimTxView,
    index: int,
    redeem_script: Seq<u8>,
    value: int,
    key: Seq<u8>,
    preimage: Seq<u8>,
) -> Seq<Seq<u8>> {
    seq![
        ecdsa_der_of(segwit_sighash_of(unsigned, index, redeem_script, value), key).push(SIGHASH_ALL),
        preimage,
        redeem_script,
    ]
}

/// The claim transaction with each input's witness set.
pub open spec fn signed_claim_tx(
    unsigned: ClaimTxView,
    utxos: Seq<Utxo>,
    redeem_script: Seq<u8>,
    key: Seq<u8>,
    preimage: Seq<u8>,
) -> ClaimTxView {
    ClaimTxView {
        inputs: Seq::new(
            unsigned.inputs.len(),
            |i: int|
                InputView {
                    witness: claim_witness(unsigned, i, redeem_script, utxos[i].value as int, key, preimage),
                    ..unsigned.inputs[i]
                },
        ),
        ..unsigned
    }
}

/// Why no claim transaction could be built.
#[derive(Clone, Copy, Debug, PartialEq, Eq, Structural)]
pub enum ClaimError {
    InvalidLockupAddress,
    InvalidDestinationAddress,
    InvalidRedeemScript,
    UnsupportedLockAddressType,
    LockupScriptMismatch,
    NoConfirmedFunds,
    AmountOverflow,
    FeeExceedsAmount,
    InvalidPrivateKey,
}

/// What building the claim transaction of a swap yields, given the confirmed outputs at its
/// lockup address and a fee rate in sat/vbyte.
pub open spec fn claim_outcome(rec: ReverseSwapRecord, utxos: Seq<Utxo>, sat_per_vbyte: int) -> Result<
    ClaimTxView,
    ClaimError,
> {
    let redeem_script = hex_decoded(rec.redeem_script);
    let dest_script = address_script_of(rec.destination_address);
    let total = utxo_sum(utxos);
    let fee = claim_fee(claim_weight(utxos.len() as int, dest_script.len() as int), sat_per_vbyte);
    if !address_parses(rec.lockup_address) {
        Err(ClaimError::InvalidLockupAddress)
    } else if !address_parses(rec.destination_address) {
        Err(ClaimError::InvalidDestinationAddress)
    } else if !hex_decodable(rec.redeem_script) {
        Err(ClaimError::InvalidRedeemScript)
    } else if !address_is_p2wsh(rec.lockup_address) {
        Err(ClaimError::UnsupportedLockAddressType)
    } else if address_script_of(rec.lockup_address) != p2wsh_script(sha256_of(redeem_script)) {
        Err(ClaimError::LockupScriptMismatch)
    } else if total == 0 {
        Err(ClaimError::NoConfirmedFunds)
    } else if total > u64::MAX {
        Err(ClaimError::AmountOverflow)
    } else if fee >= total {
        Err(ClaimError::FeeExceedsAmount)
    } else if !secret_key_valid(rec.local_private_key) {
        Err(ClaimError::InvalidPrivateKey)
    } else {
        Ok(
            signed_claim_tx(
                unsigned_claim_tx(utxos, dest_script, total - fee),
                utxos,
                redeem_script,
                rec.local_private_key,
                rec.local_preimage,
            ),
        )
    }
}

/// When the fee rate is at most the confirmed amount divided by the claim weight, the fee does
/// not exceed the amount, and a built claim transaction has one output whose value is the
/// confirmed amount less the fee, and positive.
pub proof fn lemma_claim_output_value(rec: ReverseSwapRecord, utxos: Seq<Utxo>, sat_per_vbyte: nat)
    requires
        utxo_sum(utxos) > 0,
        sat_per_vbyte * claim_weight(utxos.len() as int, address_script_of(rec.destination_address).len() as int)
            <= utxo_sum(utxos),
    ensures
        claim_outcome(rec, utxos, sat_per_vbyte as int) != Err::<ClaimTxView, ClaimError>(
            ClaimError::FeeExceedsAmount,
        ),
        claim_outcome(rec, utxos, sat_per_vbyte as int) matches Ok(tx) ==> {
            &&& tx.outputs.len() == 1
            &&& tx.outputs[0].value == utxo_sum(utxos) - claim_fee(
                claim_weight(utxos.len() as int, address_script_of(rec.destination_address).len() as int),
                sat_per_vbyte as int,
            )
            &&& tx.outputs[0].value > 0
        },
{
    let w = claim_weight(utxos.len() as int, address_script_of(rec.destination_address).len() as int);
    let total = utxo_sum(utxos);
    let r = sat_per_vbyte as int;
    assert(w >= 76);
    assert(claim_fee(w, r) < total) by (nonlinear_arith)
        requires
            w >= 76,
            r >= 0,
            r * w <= total,
            total > 0,
            claim_fee(w, r) == (w * r + 3) / 4,
    ;
}

/// A claim transaction depends on the record only through its addresses, redeem script and
/// secret material: two records that agree on those yield the same transaction, signatures
/// included, for the same outputs and fee rate.
pub proof fn lemma_claim_deterministic(
    a: ReverseSwapRecord,
    b: ReverseSwapRecord,
    utxos: Seq<Utxo>,
    sat_per_vbyte: int,
)
    requires
        a.lockup_address == b.lockup_address,
        a.destination_address == b.destination_address,
        a.redeem_script == b.redeem_script,
        a.local_private_key == b.local_private_key,
        a.local_preimage == b.local_preimage,
    ensures
        claim_outcome(a, utxos, sat_per_vbyte) == claim_outcome(b, utxos, sat_per_vbyte),
{
}

/// Each input of a built claim transaction spends one confirmed output, in order, with the
/// witness that the HTLC asks for: a SIGHASH_ALL signature, the preimage, and the redeem script,
/// whose hash the lockup address commits to.
pub proof fn lemma_claim_spends_htlc(rec: ReverseSwapRecord, utxos: Seq<Utxo>, sat_per_vbyte: int)
    requires
        claim_outcome(rec, utxos, sat_per_vbyte) is Ok,
    ensures
        claim_outcome(rec, utxos, sat_per_vbyte) matches Ok(tx) ==> {
            &&& tx.inputs.len() == utxos.len()
            &&& address_script_of(rec.lockup_address) == p2wsh_script(sha256_of(hex_decoded(rec.redeem_script)))
            &&& forall|i: int|
                0 <= i < utxos.len() ==> {
                    &&& (#[trigger] tx.inputs[i]).previous_output == utxos[i].out
                    &&& tx.inputs[i].witness.len() == 3
                    &&& tx.inputs[i].witness[0].last() == SIGHASH_ALL
                    &&& tx.inputs[i].witness[1] == rec.local_preimage
                    &&& tx.inputs[i].witness[2] == hex_decoded(rec.redeem_script)
                }
        },
{
}

proof fn lemma_utxo_sum_prefix(u: Seq<Utxo>, i: int, j: int)
    requires
        0 <= i <= j <= u.len(),
    ensures
        utxo_sum(u.take(i)) <= utxo_sum(u.take(j)),
    decreases j - i,
{
    if i < j {
        assert(u.take(j).drop_last() =~= u.take(j - 1));
        lemma_utxo_sum_prefix(u, i, j - 1);
    }
}

fn bytes_equal(a: &Vec<u8>, b: &Vec<u8>) -> (r: bool)
    ensures
        r == (a@ == b@),
{
    if a.len() != b.len() {
        return false;
    }
    let mut i: usize = 0;
    while i < a.len()
        invariant
            i <= a.len() == b.len(),
            forall|k: int| 0 <= k < i ==> a@[k] == b@[k],
        decreases a.len() - i,
    {
        if a[i] != b[i] {
            return false;
        }
        i = i + 1;
    }
    assert(a@ =~= b@);
    true
}

fn varint_size(n: u128) -> (r: u128)
    ensures
        r == varint_len(n as int),
{
    if n < 0xfd {
        1
    } else if n <= 0xffff {
        3
    } else if n <= 0xffff_ffff {
        5
    } else {
        9
    }
}

/// The fee of a claim transaction with `n_inputs` inputs paying a script of `script_len` bytes.
pub fn claim_tx_fee(n_inputs: usize, script_len: usize, sat_per_vbyte: u32) -> (r: u128)
    ensures
        r == claim_fee(claim_weight(n_inputs as int, script_len as int), sat_per_vbyte as int),
{
    let n = n_inputs as u128;
    let len = script_len as u128;
    // each input: outpoint (36 bytes), empty script_sig (1), sequence (4)
    let size: u128 = 4 + varint_size(n) + 41 * n + varint_size(1) + 8 + varint_size(len) + len + 4;
    let scale = WITNESS_SCALE_FACTOR as u128;
    let witness_weight = CLAIM_WITNESS_INPUT_WEIGHT as u128;
    assert(scale == 4 && witness_weight == 217);
    let weight: u128 = size * scale + witness_weight * n;
    let rate = sat_per_vbyte as u128;
    assert(weight * rate < 0x1_0000_0000_0000_0000_0000_0000_0000) by (nonlinear_arith)
        requires
            weight < 0x1_0000_0000_0000_0000_0000,
            rate < 0x1_0000_0000,
    ;
    (weight * rate + 3) / 4
}

/// Builds and signs the transaction that claims the confirmed outputs at the lockup address of
/// a swap, paying them, less the fee, to its destination address.
pub fn build_claim_tx(rs: &ReverseSwapInfo, network: Network, utxos: &Vec<Utxo>, sat_per_vbyte: u32) -> (r:
    Result<ClaimTx, ClaimError>)
    ensures
        match r {
            Ok(tx) => claim_outcome(rs@, utxos@, sat_per_vbyte as int) == Ok::<ClaimTxView, ClaimError>(tx@),
            Err(e) => claim_outcome(rs@, utxos@, sat_per_vbyte as int) == Err::<ClaimTxView, ClaimError>(e),
        },
{
    let lockup = match parse_address(rs.cache.lockup_address.as_str(), network) {
        Some(a) => a,
        None => return Err(ClaimError::InvalidLockupAddress),
    };
    let destination = match parse_address(rs.destination_address.as_str(), network) {
        Some(a) => a,
        None => return Err(ClaimError::InvalidDestinationAddress),
    };
    let redeem_script = match decode_hex(rs.redeem_script.as_str()) {
        Some(b) => b,
        None => return Err(ClaimError::InvalidRedeemScript),
    };
    if !lockup.p2wsh {
        return Err(ClaimError::UnsupportedLockAddressType);
    }
    let mut expected: Vec<u8> = vec![0u8, 32u8];
    let mut script_hash = sha256_digest(&redeem_script);
    expected.append(&mut script_hash);
    assert(expected@ =~= p2wsh_script(sha256_of(redeem_script@)));
    if !bytes_equal(&lockup.script_pubkey, &expected) {
        return Err(ClaimError::LockupScriptMismatch);
    }
    let mut total: u64 = 0;
    let mut i: usize = 0;
    while i < utxos.len()
        invariant
            i <= utxos.len(),
            total == utxo_sum(utxos@.take(i as int)),
            address_parses(rs@.lockup_address),
            address_parses(rs@.destination_address),
            hex_decodable(rs@.redeem_script),
            address_is_p2wsh(rs@.lockup_address),
            address_script_of(rs@.lockup_address) == p2wsh_script(sha256_of(hex_decoded(rs@.redeem_script))),
        decreases utxos.len() - i,
    {
        assert(utxos@.take(i as int + 1).drop_last() =~= utxos@.take(i as int));
        match total.checked_add(utxos[i].value) {
            Some(t) => total = t,
            None => {
                proof {
                    lemma_utxo_sum_prefix(utxos@, i as int + 1, utxos@.len() as int);
                    assert(utxos@.take(utxos@.len() as int) =~= utxos@);
                }
                return Err(ClaimError::AmountOverflow);
            },
        }
        i = i + 1;
    }
    assert(utxos@.take(i as int) =~= utxos@);
    if total == 0 {
        return Err(ClaimError::NoConfirmedFunds);
    }
    let fee = claim_tx_fee(utxos.len(), destination.script_pubkey.len(), sat_per_vbyte);
    if fee >= total as u128 {
        return Err(ClaimError::FeeExceedsAmount);
    }
    let value: u64 = total - fee as u64;
    let ghost dest_script = destination.script_pubkey@;
    let mut inputs: Vec<ClaimTxInput> = Vec::new();
    let mut k: usize = 0;
    while k < utxos.len()
        invariant
            k <= utxos.len(),
            inputs@.len() == k,
            forall|j: int|
                0 <= j < k ==> (#[trigger] inputs@[j])@ == (InputView {
                    previous_output: utxos@[j].out,
                    sequence: 0,
                    witness: Seq::empty(),
                }),
        decreases utxos.len() - k,
    {
        let input = ClaimTxInput { previous_output: utxos[k].out, sequence: 0, witness: Vec::new() };
        assert(input@.witness =~= Seq::<Seq<u8>>::empty());
        inputs.push(input);
        k = k + 1;
    }
    let unsigned = ClaimTx {
        version: CLAIM_TX_VERSION,
        lock_time: 0,
        inputs,
        outputs: vec![ClaimTxOutput { value, script_pubkey: destination.script_pubkey }],
    };
    let ghost unsigned_view = unsigned_claim_tx(utxos@, dest_script, value as int);
    assert(unsigned@.inputs =~= unsigned_view.inputs);
    assert(unsigned@.outputs =~= unsigned_view.outputs);
    let mut signed: Vec<ClaimTxInput> = Vec::new();
    let mut k: usize = 0;
    while k < utxos.len()
        invariant
            k <= utxos.len() == unsigned.inputs.len(),
            unsigned@ == unsigned_view,
            unsigned_view == unsigned_claim_tx(utxos@, dest_script, value as int),
            total == utxo_sum(utxos@),
            fee < total,
            value == total - fee,
            claim_outcome(rs@, utxos@, sat_per_vbyte as int) == (if secret_key_valid(rs.local_private_key@) {
                Ok::<ClaimTxView, ClaimError>(
                    signed_claim_tx(
                        unsigned_view,
                        utxos@,
                        redeem_script@,
                        rs.local_private_key@,
                        rs.local_preimage@,
                    ),
                )
            } else {
                Err::<ClaimTxView, ClaimError>(ClaimError::InvalidPrivateKey)
            }),
            signed@.len() == k,
            k > 0 ==> secret_key_valid(rs.local_private_key@),
            forall|j: int|
                0 <= j < k ==> (#[trigger] signed@[j])@ == (InputView {
                    previous_output: utxos@[j].out,
                    sequence: 0,
                    witness: claim_witness(
                        unsigned_view,
                        j,
                        redeem_script@,
                        utxos@[j].value as int,
                        rs.local_private_key@,
                        rs.local_preimage@,
                    ),
                }),
        decreases utxos.len() - k,
    {
        // k indexes an input of the unsigned transaction, so the digest always exists
        let digest = match segwit_sighash(&unsigned, k, &redeem_script, utxos[k].value) {
            Some(h) => h,
            None => return Err(ClaimError::InvalidPrivateKey),
        };
        let mut signature = match sign_digest(&digest, &rs.local_private_key) {
            Some(s) => s,
            None => return Err(ClaimError::InvalidPrivateKey),
        };
        signature.push(SIGHASH_ALL);
        let witness: Vec<Vec<u8>> = vec![signature, copy_bytes(&rs.local_preimage), copy_bytes(&redeem_script)];
        let input = ClaimTxInput { previous_output: utxos[k].out, sequence: 0, witness };
        assert(input@.witness =~= claim_witness(
            unsigned_view,
            k as int,
            redeem_script@,
            utxos@[k as int].value as int,
            rs.local_private_key@,
            rs.local_preimage@,
        ));
        signed.push(input);
        k = k + 1;
    }
    let tx = ClaimTx {
        version: CLAIM_TX_VERSION,
        lock_time: 0,
        inputs: signed,
        outputs: unsigned.outputs,
    };
    proof {
        let expected_tx = signed_claim_tx(
            unsigned_view,
            utxos@,
            redeem_script@,
            rs.local_private_key@,
            rs.local_preimage@,
        );
        assert(tx@.inputs =~= expected_tx.inputs);
        assert(tx@.outputs =~= expected_tx.outputs);
    }
    Ok(tx)
}

} // verus!
