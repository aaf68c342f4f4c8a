//! The records of reverse swaps and forward swaps.
use vstd::prelude::*;

verus! {

/// The Bitcoin network a swap engine is configured for.
#[derive(Clone, Copy, Debug, PartialEq, Eq, Structural)]
pub enum Network {
    Bitcoin,
    Testnet,
    Signet,
    Regtest,
}

/// Lifecycle of a reverse swap, as reported by the swap provider.
#[derive(Clone, Copy, Debug, PartialEq, Eq, Structural)]
pub enum ReverseSwapStatus {
    /// The provider acknowledged the creation of the swap.
    Created,
    /// The provider's lock transaction is in the mempool.
    LockTxMempool,
    /// The provider's lock transaction is confirmed: the funds can be claimed.
    LockTxConfirmed,
    /// A claim transaction was seen by the provider.
    ClaimTxSeen,
    /// The swap expired.
    Expired,
}

impl ReverseSwapStatus {
    /// A terminal status never changes again: such a swap is no longer monitored.
    pub open spec fn terminal(self) -> bool {
        self is ClaimTxSeen || self is Expired
    }

    pub fn is_terminal(&self) -> (r: bool)
        ensures
            r == self.terminal(),
    {
        match self {
            ReverseSwapStatus::ClaimTxSeen => true,
            ReverseSwapStatus::Expired => true,
            _ => false,
        }
    }
}

/// Values derived once from the provider's creation response.
#[derive(Debug)]
pub struct ReverseSwapInfoCached {
    pub lockup_address: String,
    pub onchain_amount_sat: u64,
}

/// One record per initiated reverse swap. It holds secret material and so has no `Debug`.
pub struct ReverseSwapInfo {
    pub id: String,
    pub created_at: i64,
    pub local_preimage: Vec<u8>,
    pub local_private_key: Vec<u8>,
    pub destination_address: String,
    pub hodl_bolt11: String,
    pub redeem_script: String,
    pub status: ReverseSwapStatus,
    pub cache: ReverseSwapInfoCached,
}

/// The mathematical value of a [`ReverseSwapInfo`].
pub struct ReverseSwapRecord {
    pub id: Seq<char>,
    pub created_at: int,
    pub local_preimage: Seq<u8>,
    pub local_private_key: Seq<u8>,
    pub destination_address: Seq<char>,
    pub hodl_bolt11: Seq<char>,
    pub redeem_script: Seq<char>,
    pub status: ReverseSwapStatus,
    pub lockup_address: Seq<char>,
    pub onchain_amount_sat: nat,
}

impl View for ReverseSwapInfo {
    type V = ReverseSwapRecord;

    open spec fn view(&self) -> ReverseSwapRecord {
        ReverseSwapRecord {
            id: self.id@,
            created_at: self.created_at as int,
            local_preimage: self.local_preimage@,
            local_private_key: self.local_private_key@,
            destination_address: self.destination_address@,
            hodl_bolt11: self.hodl_bolt11@,
            redeem_script: self.redeem_script@,
            status: self.status,
            lockup_address: self.cache.lockup_address@,
            onchain_amount_sat: self.cache.onchain_amount_sat as nat,
        }
    }
}

/// The records that a vector of swaps holds, in order.
pub open spec fn records(v: Seq<ReverseSwapInfo>) -> Seq<ReverseSwapRecord> {
    v.map_values(|r: ReverseSwapInfo| r@)
}

/// A copy of a byte vector.
pub fn copy_bytes(b: &Vec<u8>) -> (r: Vec<u8>)
    ensures
        r@ == b@,
{
    let mut r: Vec<u8> = Vec::new();
    let mut i: usize = 0;
    while i < b.len()
        invariant
            i <= b.len(),
            r@ == b@.take(i as int),
        decreases b.len() - i,
    {
        r.push(b[i]);
        i = i + 1;
        assert(r@ =~= b@.take(i as int));
    }
    assert(r@ =~= b@);
    r
}

impl ReverseSwapInfo {
    /// A copy of the record.
    pub fn duplicate(&self) -> (r: ReverseSwapInfo)
        ensures
            r@ == self@,
    {
        ReverseSwapInfo {
            id: self.id.clone(),
            created_at: self.created_at,
            local_preimage: copy_bytes(&self.local_preimage),
            local_private_key: copy_bytes(&self.local_private_key),
            destination_address: self.destination_address.clone(),
            hodl_bolt11: self.hodl_bolt11.clone(),
            redeem_script: self.redeem_script.clone(),
            status: self.status,
            cache: ReverseSwapInfoCached {
                lockup_address: self.cache.lockup_address.clone(),
                onchain_amount_sat: self.cache.onchain_amount_sat,
            },
        }
    }
}

/// Status of a forward swap (on-chain to Lightning).
#[derive(Clone, Copy, Debug, PartialEq, Eq, Structural)]
pub enum SwapStatus {
    Initial,
    Expired,
}

/// A forward swap: funds sent on-chain to `bitcoin_address` are swapped to Lightning.
#[derive(Debug)]
pub struct SwapInfo {
    pub bitcoin_address: String,
    pub created_at: i64,
    pub lock_height: i64,
    pub payment_hash: Vec<u8>,
    pub preimage: Vec<u8>,
    pub private_key: Vec<u8>,
    pub public_key: Vec<u8>,
    pub swapper_public_key: Vec<u8>,
    pub script: Vec<u8>,
    pub bolt11: Option<String>,
    pub paid_sats: u64,
    pub confirmed_sats: u64,
    pub unconfirmed_sats: u64,
    pub status: SwapStatus,
    pub refund_tx_ids: Vec<String>,
    pub unconfirmed_tx_ids: Vec<String>,
    pub confirmed_tx_ids: Vec<String>,
    pub min_allowed_deposit: i64,
    pub max_allowed_deposit: i64,
    pub last_redeem_error: Option<String>,
}

} // verus!
