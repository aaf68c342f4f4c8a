//! Keyed store of reverse swaps.
use vstd::prelude::*;

use crate::model::{records, ReverseSwapInfo, ReverseSwapRecord, ReverseSwapStatus};

verus! {

/// Why a write to the swap store was refused.
#[derive(Clone, Copy, Debug, PartialEq, Eq, Structural)]
pub enum StoreError {
    /// A swap with the same id is already stored.
    DuplicateId,
    /// No swap with the given id is stored.
    NotFound,
}

/// The swaps whose status can still change, in stored order.
pub open spec fn monitored_records(s: Seq<ReverseSwapRecord>) -> Seq<ReverseSwapRecord>
    decreases s.len(),
{
    if s.len() == 0 {
        s
    } else {
        let rest = monitored_records(s.drop_last());
        if s.last().status.terminal() {
            rest
        } else {
            rest.push(s.last())
        }
    }
}

/// Whether a stored swap has the given id.
pub open spec fn has_id(s: Seq<ReverseSwapRecord>, id: Seq<char>) -> bool {
    exists|i: int| 0 <= i < s.len() && #[trigger] s[i].id == id
}

/// The stored swaps after the status of the one with the given id became `status`.
pub open spec fn with_status(
    s: Seq<ReverseSwapRecord>,
    id: Seq<char>,
    status: ReverseSwapStatus,
) -> Seq<ReverseSwapRecord> {
    s.map_values(
        |r: ReverseSwapRecord|
            if r.id == id {
                ReverseSwapRecord { status, ..r }
            } else {
                r
            },
    )
}

/// Every id is held by one swap at most.
pub open spec fn ids_unique(s: Seq<ReverseSwapRecord>) -> bool {
    forall|i: int, j: int| 0 <= i < j < s.len() ==> s[i].id != s[j].id
}

/// Keyed store of reverse swaps, one per id, in order of insertion.
pub struct SwapStore {
    swaps: Vec<ReverseSwapInfo>,
}

impl View for SwapStore {
    type V = Seq<ReverseSwapRecord>;

    closed spec fn view(&self) -> Seq<ReverseSwapRecord> {
        records(self.swaps@)
    }
}

/// Every record in the monitored view has a non-terminal status and is stored.
pub proof fn lemma_monitored_records_non_terminal(s: Seq<ReverseSwapRecord>)
    ensures
        forall|i: int|
            0 <= i < monitored_records(s).len() ==> !(#[trigger] monitored_records(s)[i]).status.terminal()
                && s.contains(monitored_records(s)[i]),
    decreases s.len(),
{
    if s.len() > 0 {
        let rest = s.drop_last();
        lemma_monitored_records_non_terminal(rest);
        assert forall|i: int| 0 <= i < monitored_records(s).len() implies !(
        #[trigger] monitored_records(s)[i]).status.terminal() && s.contains(monitored_records(s)[i]) by {
            if i < monitored_records(rest).len() {
                let k = choose|k: int| 0 <= k < rest.len() && rest[k] == monitored_records(rest)[i];
                assert(s[k] == rest[k]);
            } else {
                assert(s[s.len() - 1] == s.last());
            }
        }
    }
}

/// Once the status of a swap becomes terminal, the swap is no longer monitored.
pub proof fn lemma_terminal_status_ends_monitoring(
    s: Seq<ReverseSwapRecord>,
    id: Seq<char>,
    status: ReverseSwapStatus,
)
    requires
        status.terminal(),
    ensures
        forall|i: int|
            0 <= i < monitored_records(with_status(s, id, status)).len() ==> (#[trigger] monitored_records(
                with_status(s, id, status),
            )[i]).id != id,
{
    let t = with_status(s, id, status);
    lemma_monitored_records_non_terminal(t);
    assert forall|i: int| 0 <= i < monitored_records(t).len() implies (
    #[trigger] monitored_records(t)[i]).id != id by {
        let r = monitored_records(t)[i];
        let k = choose|k: int| 0 <= k < t.len() && t[k] == r;
        if r.id == id {
            assert(t[k].status == status);
        }
    }
}

impl SwapStore {
    /// The store is well formed: no two swaps share an id.
    pub open spec fn wf(&self) -> bool {
        ids_unique(self@)
    }

    /// An empty store.
    pub fn new() -> (r: SwapStore)
        ensures
            r.wf(),
            r@ == Seq::<ReverseSwapRecord>::empty(),
    {
        let r = SwapStore { swaps: Vec::new() };
        assert(r@ =~= Seq::<ReverseSwapRecord>::empty());
        r
    }

    fn find(&self, id: &String) -> (r: Option<usize>)
        ensures
            r is None <==> !has_id(self@, id@),
            r matches Some(i) ==> i < self@.len() && self@[i as int].id == id@,
    {
        let mut i: usize = 0;
        while i < self.swaps.len()
            invariant
                i <= self.swaps.len(),
                self@ == records(self.swaps@),
                forall|k: int| 0 <= k < i ==> self@[k].id != id@,
            decreases self.swaps.len() - i,
        {
            if self.swaps[i].id == *id {
                assert(self@[i as int] == self.swaps@[i as int]@);
                assert(self@[i as int].id == id@);
                return Some(i);
            }
            i = i + 1;
        }
        proof {
            if has_id(self@, id@) {
                let k = choose|k: int| 0 <= k < self@.len() && #[trigger] self@[k].id == id@;
                assert(self@[k].id != id@);
            }
        }
        None
    }

    /// Stores a new swap; fails with `DuplicateId` if its id is already stored.
    pub fn insert_reverse_swap(&mut self, rsi: ReverseSwapInfo) -> (r: Result<(), StoreError>)
        requires
            old(self).wf(),
        ensures
            final(self).wf(),
            r is Err <==> has_id(old(self)@, rsi@.id),
            r is Err ==> r == Err::<(), StoreError>(StoreError::DuplicateId) && final(self)@ == old(self)@,
            r is Ok ==> final(self)@ == old(self)@.push(rsi@),
    {
        let found = self.find(&rsi.id);
        if found.is_some() {
            return Err(StoreError::DuplicateId);
        }
        let ghost before = self@;
        self.swaps.push(rsi);
        assert(self@ =~= before.push(rsi@));
        Ok(())
    }

    /// Sets the status of the swap with the given id; fails with `NotFound` if there is none.
    pub fn update_reverse_swap_boltz_status(
        &mut self,
        id: &String,
        status: ReverseSwapStatus,
    ) -> (r: Result<(), StoreError>)
        requires
            old(self).wf(),
        ensures
            final(self).wf(),
            r is Err <==> !has_id(old(self)@, id@),
            r is Err ==> r == Err::<(), StoreError>(StoreError::NotFound) && final(self)@ == old(self)@,
            r is Ok ==> final(self)@ == with_status(old(self)@, id@, status),
    {
        match self.find(id) {
            None => Err(StoreError::NotFound),
            Some(i) => {
                let ghost before = self@;
                let mut swap = self.swaps.remove(i);
                swap.status = status;
                self.swaps.insert(i, swap);
                assert forall|k: int| 0 <= k < before.len() implies #[trigger] self@[k]
                    == with_status(before, id@, status)[k] by {
                    if k != i {
                        assert(before[k].id != id@);
                    }
                }
                assert(self@ =~= with_status(before, id@, status));
                Ok(())
            },
        }
    }

    /// All stored swaps, in order of insertion.
    pub fn list_reverse_swaps(&self) -> (r: Vec<ReverseSwapInfo>)
        ensures
            records(r@) == self@,
    {
        let mut r: Vec<ReverseSwapInfo> = Vec::new();
        let mut i: usize = 0;
        while i < self.swaps.len()
            invariant
                i <= self.swaps.len(),
                records(r@) == self@.take(i as int),
                self@ == records(self.swaps@),
            decreases self.swaps.len() - i,
        {
            assert(self@[i as int] == self.swaps@[i as int]@);
            let d = self.swaps[i].duplicate();
            let ghost prev = r@;
            r.push(d);
            assert(r@ == prev.push(d));
            assert(records(r@) =~= records(prev).push(d@));
            i = i + 1;
            assert(records(r@) =~= self@.take(i as int));
        }
        assert(self@.take(i as int) =~= self@);
        r
    }

    /// The swaps whose status is not terminal, in order of insertion.
    pub fn get_monitored_reverse_swaps(&self) -> (r: Vec<ReverseSwapInfo>)
        ensures
            records(r@) == monitored_records(self@),
    {
        let all = self.list_reverse_swaps();
        let mut r: Vec<ReverseSwapInfo> = Vec::new();
        let mut i: usize = 0;
        while i < all.len()
            invariant
                i <= all.len(),
                records(r@) == monitored_records(records(all@).take(i as int)),
            decreases all.len() - i,
        {
            assert(records(all@).take(i as int + 1).drop_last() =~= records(all@).take(i as int));
            if !all[i].status.is_terminal() {
                r.push(all[i].duplicate());
                assert(records(r@) =~= monitored_records(records(all@).take(i as int + 1)));
            }
            i = i + 1;
        }
        assert(records(all@).take(i as int) =~= records(all@));
        r
    }

    /// The query that reads every stored swap together with its cached values.
    pub fn select_reverse_swap_query(&self) -> (r: String)
        ensures
            r@ == SELECT_REVERSE_SWAPS@,
    {
        String::from_str(SELECT_REVERSE_SWAPS)
    }
}

/// SQL that joins each swap row with the row of its cached values.
pub const SELECT_REVERSE_SWAPS: &'static str =
    "SELECT * FROM reverse_swaps LEFT JOIN reverse_swaps_info ON reverse_swaps.id = reverse_swaps_info.id";

} // verus!
