//! The reverse swap orchestrator: creation, monitoring and claiming decisions.
use vstd::prelude::*;

use crate::address::{address_valid, validate_address};
use crate::claim::{build_claim_tx, claim_outcome, ClaimError, ClaimTx, ClaimTxView, Utxo};
use crate::hex::{encode_hex, hex_encoded};
use crate::keys::{
    derive_public_key, public_key_of, random_preimage, random_secret_key, secret_key_valid,
    sha256_digest, sha256_of,
};
use crate::model::{
    records, Network, ReverseSwapInfo, ReverseSwapInfoCached, ReverseSwapRecord, ReverseSwapStatus,
};
use crate::store::{has_id, monitored_records, with_status, StoreError, SwapStore};

verus! {

/// The swap provider's answer to a successful creation request.
pub struct CreateReverseSwapResponse {
    pub id: String,
    /// HODL invoice that has to be paid, for the provider to lock up the funds.
    pub invoice: String,
    /// Redeem script from which the lock address is derived.
    pub redeem_script: String,
    /// Amount of sats which will be locked.
    pub onchain_amount: u64,
    /// Block height at which the reverse swap will be considered cancelled.
    pub timeout_block_height: u32,
    /// Address to which the funds will be locked.
    pub lockup_address: String,
}

/// What the swap provider answered to a creation request.
pub enum ProviderCreateResult {
    Success(CreateReverseSwapResponse),
    /// The provider refused the swap, for instance an amount outside the pair's limits.
    Error { error: String },
}

/// What is sent to the swap provider to create a reverse swap.
pub struct CreateReverseSwapRequest {
    pub amount_sat: u64,
    pub preimage_hash_hex: String,
    pub public_key_hex: String,
    pub pair_hash: String,
    pub routing_node: String,
}

/// A creation request together with the secrets that only this wallet holds.
pub struct PendingReverseSwap {
    pub request: CreateReverseSwapRequest,
    pub destination_address: String,
    pub local_preimage: Vec<u8>,
    pub local_private_key: Vec<u8>,
}

/// Events the engine is told about.
pub enum BreezEvent {
    /// A new block was found: the chain tip moved.
    NewBlock { block: u32 },
    /// The node finished syncing.
    Synced,
}

/// Why a reverse swap operation failed.
#[derive(Debug)]
pub enum SwapError {
    /// The destination is not an address of the configured network.
    InvalidAddress,
    /// The swap provider refused to create the swap.
    SwapCreationRejected(String),
    /// The swap store refused the write.
    Store(StoreError),
}

/// The swaps whose provider status says that their lock transaction is confirmed.
pub open spec fn lock_confirmed_records(s: Seq<ReverseSwapRecord>) -> Seq<ReverseSwapRecord>
    decreases s.len(),
{
    if s.len() == 0 {
        s
    } else {
        let rest = lock_confirmed_records(s.drop_last());
        if s.last().status == ReverseSwapStatus::LockTxConfirmed {
            rest.push(s.last())
        } else {
            rest
        }
    }
}

/// The record that a successful creation yields.
pub open spec fn created_record(
    pending: PendingReverseSwap,
    response: CreateReverseSwapResponse,
    created_at: i64,
) -> ReverseSwapRecord {
    ReverseSwapRecord {
        id: response.id@,
        created_at: created_at as int,
        local_preimage: pending.local_preimage@,
        local_private_key: pending.local_private_key@,
        destination_address: pending.destination_address@,
        hodl_bolt11: response.invoice@,
        redeem_script: response.redeem_script@,
        status: ReverseSwapStatus::Created,
        lockup_address: response.lockup_address@,
        onchain_amount_sat: response.onchain_amount as nat,
    }
}

/// Sends funds on-chain using Lightning payments, through reverse swaps with a swap provider.
///
/// The engine decides; its caller talks to the provider and the chain, and hands back what
/// they answered.
pub struct BTCSendSwap {
    network: Network,
    persister: SwapStore,
}

impl BTCSendSwap {
    /// The network that destination addresses must belong to.
    pub closed spec fn network_spec(&self) -> Network {
        self.network
    }

    /// The stored swaps.
    pub closed spec fn swaps(&self) -> Seq<ReverseSwapRecord> {
        self.persister@
    }

    pub closed spec fn wf(&self) -> bool {
        self.persister.wf()
    }

    /// An engine with no swaps.
    pub fn new(network: Network) -> (r: BTCSendSwap)
        ensures
            r.wf(),
            r.network_spec() == network,
            r.swaps() == Seq::<ReverseSwapRecord>::empty(),
    {
        BTCSendSwap { network, persister: SwapStore::new() }
    }

    /// Adds a swap read back from durable storage.
    pub fn restore_reverse_swap(&mut self, rsi: ReverseSwapInfo) -> (r: Result<(), SwapError>)
        requires
            old(self).wf(),
        ensures
            final(self).wf(),
            final(self).network_spec() == old(self).network_spec(),
            r is Err <==> has_id(old(self).swaps(), rsi@.id),
            r is Err ==> final(self).swaps() == old(self).swaps() && r matches Err(
                SwapError::Store(StoreError::DuplicateId),
            ),
            r is Ok ==> final(self).swaps() == old(self).swaps().push(rsi@),
    {
        match self.persister.insert_reverse_swap(rsi) {
            Ok(()) => Ok(()),
            Err(e) => Err(SwapError::Store(e)),
        }
    }

    /// Checks that the destination is an address of the configured network.
    pub fn validate_create_reverse_swap(&self, onchain_destination_address: &str) -> (r: Result<
        (),
        SwapError,
    >)
        ensures
            r is Ok <==> address_valid(onchain_destination_address@, self.network_spec()),
            r is Err ==> r matches Err(SwapError::InvalidAddress),
    {
        if validate_address(onchain_destination_address, self.network) {
            Ok(())
        } else {
            Err(SwapError::InvalidAddress)
        }
    }

    /// First step of creating a reverse swap: validates the destination, draws a fresh preimage
    /// and key, and makes the request for the provider.
    pub fn prepare_reverse_swap(
        &self,
        amount_sat: u64,
        onchain_destination_address: String,
        pair_hash: String,
        routing_node: String,
    ) -> (r: Result<PendingReverseSwap, SwapError>)
        ensures
            r is Err <==> !address_valid(onchain_destination_address@, self.network_spec()),
            r is Err ==> r matches Err(SwapError::InvalidAddress),
            r matches Ok(p) ==> {
                &&& p.destination_address@ == onchain_destination_address@
                &&& p.local_preimage@.len() == 32
                &&& secret_key_valid(p.local_private_key@)
                &&& p.request.amount_sat == amount_sat
                &&& p.request.preimage_hash_hex@ == hex_encoded(sha256_of(p.local_preimage@))
                &&& p.request.public_key_hex@ == hex_encoded(public_key_of(p.local_private_key@))
                &&& p.request.pair_hash@ == pair_hash@
                &&& p.request.routing_node@ == routing_node@
            },
    {
        self.validate_create_reverse_swap(onchain_destination_address.as_str())?;
        let local_preimage = random_preimage();
        let local_private_key = random_secret_key();
        let preimage_hash_hex = encode_hex(&sha256_digest(&local_preimage));
        // a drawn key is always valid, so the public key is always derived
        let public_key_hex = match derive_public_key(&local_private_key) {
            Some(p) => encode_hex(&p),
            None => return Err(SwapError::InvalidAddress),
        };
        Ok(
            PendingReverseSwap {
                request: CreateReverseSwapRequest {
                    amount_sat,
                    preimage_hash_hex,
                    public_key_hex,
                    pair_hash,
                    routing_node,
                },
                destination_address: onchain_destination_address,
                local_preimage,
                local_private_key,
            },
        )
    }

    /// Second step of creating a reverse swap: records what the provider answered. On success the
    /// swap is stored with status `Created`; on a refusal nothing is stored.
    pub fn complete_reverse_swap(
        &mut self,
        pending: PendingReverseSwap,
        response: ProviderCreateResult,
        created_at: i64,
    ) -> (r: Result<ReverseSwapInfo, SwapError>)
        requires
            old(self).wf(),
        ensures
            final(self).wf(),
            final(self).network_spec() == old(self).network_spec(),
            match response {
                ProviderCreateResult::Error { error } => {
                    &&& r matches Err(SwapError::SwapCreationRejected(reason)) && reason@ == error@
                    &&& final(self).swaps() == old(self).swaps()
                },
                ProviderCreateResult::Success(resp) => {
                    if has_id(old(self).swaps(), resp.id@) {
                        &&& r matches Err(SwapError::Store(StoreError::DuplicateId))
                        &&& final(self).swaps() == old(self).swaps()
                    } else {
                        &&& r matches Ok(rec) && rec@ == created_record(pending, resp, created_at)
                        &&& final(self).swaps() == old(self).swaps().push(
                            created_record(pending, resp, created_at),
                        )
                    }
                },
            },
    {
        match response {
            ProviderCreateResult::Error { error } => Err(SwapError::SwapCreationRejected(error)),
            ProviderCreateResult::Success(resp) => {
                let ghost expected = created_record(pending, resp, created_at);
                let rev_swap_info = ReverseSwapInfo {
                    id: resp.id,
                    created_at,
                    local_preimage: pending.local_preimage,
                    local_private_key: pending.local_private_key,
                    destination_address: pending.destination_address,
                    hodl_bolt11: resp.invoice,
                    redeem_script: resp.redeem_script,
                    status: ReverseSwapStatus::Created,
                    cache: ReverseSwapInfoCached {
                        lockup_address: resp.lockup_address,
                        onchain_amount_sat: resp.onchain_amount,
                    },
                };
                assert(rev_swap_info@ == expected);
                let stored = rev_swap_info.duplicate();
                match self.persister.insert_reverse_swap(stored) {
                    Ok(()) => Ok(rev_swap_info),
                    Err(e) => Err(SwapError::Store(e)),
                }
            },
        }
    }

    /// Whether the event starts a monitoring cycle: only a new chain tip does.
    pub fn on_event(&self, e: &BreezEvent) -> (r: bool)
        ensures
            r == (e is NewBlock),
    {
        match e {
            BreezEvent::NewBlock { .. } => true,
            _ => false,
        }
    }

    /// Records the status that the provider reported for a swap.
    pub fn update_reverse_swap_status(&mut self, id: &String, status: ReverseSwapStatus) -> (r: Result<
        (),
        SwapError,
    >)
        requires
            old(self).wf(),
        ensures
            final(self).wf(),
            final(self).network_spec() == old(self).network_spec(),
            r is Err <==> !has_id(old(self).swaps(), id@),
            r is Err ==> final(self).swaps() == old(self).swaps() && r matches Err(
                SwapError::Store(StoreError::NotFound),
            ),
            r is Ok ==> final(self).swaps() == with_status(old(self).swaps(), id@, status),
    {
        match self.persister.update_reverse_swap_boltz_status(id, status) {
            Ok(()) => Ok(()),
            Err(e) => Err(SwapError::Store(e)),
        }
    }

    /// All stored swaps, in order of creation.
    pub fn list_reverse_swaps(&self) -> (r: Vec<ReverseSwapInfo>)
        ensures
            records(r@) == self.swaps(),
    {
        self.persister.list_reverse_swaps()
    }

    /// The swaps whose status is not terminal, in order of creation.
    pub fn list_monitored(&self) -> (r: Vec<ReverseSwapInfo>)
        ensures
            records(r@) == monitored_records(self.swaps()),
    {
        self.persister.get_monitored_reverse_swaps()
    }

    /// The monitored swaps whose lock transaction is confirmed: those to claim in this cycle.
    pub fn swaps_to_claim(&self) -> (r: Vec<ReverseSwapInfo>)
        ensures
            records(r@) == lock_confirmed_records(monitored_records(self.swaps())),
    {
        let monitored = self.list_monitored();
        let mut r: Vec<ReverseSwapInfo> = Vec::new();
        let mut i: usize = 0;
        while i < monitored.len()
            invariant
                i <= monitored.len(),
                records(r@) == lock_confirmed_records(records(monitored@).take(i as int)),
            decreases monitored.len() - i,
        {
            assert(records(monitored@).take(i as int + 1).drop_last() =~= records(
                monitored@,
            ).take(i as int));
            if monitored[i].status == ReverseSwapStatus::LockTxConfirmed {
                let ghost prev = r@;
                r.push(monitored[i].duplicate());
                assert(records(r@) =~= records(prev).push(monitored@[i as int]@));
            }
            i = i + 1;
        }
        assert(records(monitored@).take(i as int) =~= records(monitored@));
        r
    }

    /// Builds and signs the claim transaction of a swap from the confirmed outputs at its lockup
    /// address and the fee rate in sat/vbyte.
    pub fn create_claim_tx(&self, rs: &ReverseSwapInfo, utxos: &Vec<Utxo>, sat_per_vbyte: u32) -> (r:
        Result<ClaimTx, ClaimError>)
        ensures
            match r {
                Ok(tx) => claim_outcome(rs@, utxos@, sat_per_vbyte as int) == Ok::<ClaimTxView, ClaimError>(
                    tx@,
                ),
                Err(e) => claim_outcome(rs@, utxos@, sat_per_vbyte as int) == Err::<ClaimTxView, ClaimError>(
                    e,
                ),
            },
    {
        build_claim_tx(rs, self.network, utxos, sat_per_vbyte)
    }
}

} // verus!
