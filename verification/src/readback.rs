//! Physics results that come back from the device: what a readback was asked
//! for, and what the copied buffer decodes to.

use vstd::prelude::*;
use crate::physics_record::{PhysicsResult, Vec3Bits, RESULT_WORDS, result_at, read_result};
use crate::slot_table::{PhysicsData, SlotId};

verus! {

/// The physics result of one entity.
#[derive(Clone, Copy, Debug, PartialEq, Eq, Structural)]
pub struct Hit {
    pub entity: u64,
    pub slot: SlotId,
    pub result: PhysicsResult,
}

/// A readback that was asked for and has not been decoded.
pub struct PendingReadback {
    ticket: u64,
    frame: u64,
    owners: Vec<Option<u64>>,
}

/// What a pending readback holds.
pub ghost struct PendingView {
    /// The number of this request, by which the channel knows it.
    pub ticket: u64,
    /// The frame whose physics dispatch wrote the results.
    pub frame: u64,
    /// For each slot that the dispatch visited, the entity that owned it.
    pub owners: Seq<Option<u64>>,
}

impl View for PendingReadback {
    type V = PendingView;

    closed spec fn view(&self) -> PendingView {
        PendingView { ticket: self.ticket, frame: self.frame, owners: self.owners@ }
    }
}

/// The results of one physics dispatch, by entity.
pub struct DecodedResults {
    frame: u64,
    hits: Vec<Hit>,
}

/// What decoded results hold.
pub ghost struct DecodedView {
    /// The frame whose physics dispatch wrote the results.
    pub frame: u64,
    /// The result of each entity that owned a slot, in the order of the slots.
    pub hits: Seq<Hit>,
}

impl View for DecodedResults {
    type V = DecodedView;

    closed spec fn view(&self) -> DecodedView {
        DecodedView { frame: self.frame, hits: self.hits@ }
    }
}

/// The results of the first `n` slots: one for each slot that has an owner,
/// in the order of the slots.
pub open spec fn hits_of(owners: Seq<Option<u64>>, words: Seq<u32>, n: nat) -> Seq<Hit>
    decreases n,
{
    if n == 0 {
        Seq::empty()
    } else {
        let before = hits_of(owners, words, (n - 1) as nat);
        match owners[n - 1] {
            Some(entity) => before.push(
                Hit {
                    entity,
                    slot: SlotId { index: (n - 1) as usize },
                    result: result_at(words, n - 1),
                },
            ),
            None => before,
        }
    }
}

/// Whether a result buffer of `len` words holds a result for every slot of
/// the readback.
pub open spec fn results_cover(pending: PendingView, len: nat) -> bool {
    RESULT_WORDS * pending.owners.len() <= len
}

/// What the result buffer decodes to for a readback.
pub open spec fn decoded(pending: PendingView, words: Seq<u32>) -> DecodedView {
    DecodedView { frame: pending.frame, hits: hits_of(pending.owners, words, pending.owners.len()) }
}

/// The result of the first hit of `entity` among the first `n` hits.
pub open spec fn first_hit(hits: Seq<Hit>, entity: u64, n: nat) -> Option<PhysicsResult>
    decreases n,
{
    if n == 0 {
        None
    } else {
        match first_hit(hits, entity, (n - 1) as nat) {
            Some(result) => Some(result),
            None => if hits[n - 1].entity == entity {
                Some(hits[n - 1].result)
            } else {
                None
            },
        }
    }
}

impl PendingReadback {
    /// A readback of the slots of `table`, for the dispatch of `frame`.
    pub(crate) fn snapshot(table: &PhysicsData, ticket: u64, frame: u64) -> (pending:
        PendingReadback)
        ensures
            pending@.ticket == ticket,
            pending@.frame == frame,
            pending@.owners == table@.owners,
    {
        PendingReadback { ticket, frame, owners: table.owners() }
    }

    /// The number of this request.
    pub fn ticket(&self) -> (ticket: u64)
        ensures
            ticket == self@.ticket,
    {
        self.ticket
    }

    /// The frame whose physics dispatch wrote the results.
    pub fn frame(&self) -> (frame: u64)
        ensures
            frame == self@.frame,
    {
        self.frame
    }

    /// Number of slots whose results the readback copies.
    pub fn slot_count(&self) -> (slots: usize)
        ensures
            slots == self@.owners.len(),
    {
        self.owners.len()
    }
}

/// Decodes the words of the result buffer for a readback: for each slot that
/// had an owner, the hit position and the hit normal of that entity. Nothing
/// if the buffer is too short to hold a result for every slot.
pub fn decode_results(pending: &PendingReadback, words: &Vec<u32>) -> (results: Option<
    DecodedResults,
>)
    ensures
        results.is_some() == results_cover(pending@, words@.len()),
        results matches Some(r) ==> r@ == decoded(pending@, words@),
{
    let slots: usize = pending.owners.len();
    if slots > words.len() / RESULT_WORDS {
        return None;
    }
    let mut hits: Vec<Hit> = Vec::new();
    let mut slot: usize = 0;
    while slot < slots
        invariant
            slot <= slots,
            slots == pending.owners@.len(),
            RESULT_WORDS * slots <= words@.len(),
            hits@ == hits_of(pending.owners@, words@, slot as nat),
        decreases slots - slot,
    {
        if let Some(entity) = pending.owners[slot] {
            let result: PhysicsResult = read_result(words, slot).unwrap();
            hits.push(Hit { entity, slot: SlotId { index: slot }, result });
        }
        slot += 1;
    }
    Some(DecodedResults { frame: pending.frame, hits })
}

impl DecodedResults {
    /// The frame whose physics dispatch wrote the results.
    pub fn frame(&self) -> (frame: u64)
        ensures
            frame == self@.frame,
    {
        self.frame
    }

    /// The result of each entity, in the order of the slots.
    pub fn hits(&self) -> (hits: &Vec<Hit>)
        ensures
            hits@ == self@.hits,
    {
        &self.hits
    }

    /// The result of `entity`: that of its first hit in the order of the
    /// slots, if it has one.
    pub fn hit_of(&self, entity: u64) -> (result: Option<PhysicsResult>)
        ensures
            result == first_hit(self@.hits, entity, self@.hits.len()),
    {
        let mut found: Option<PhysicsResult> = None;
        let mut i: usize = 0;
        while i < self.hits.len()
            invariant
                i <= self.hits@.len(),
                found == first_hit(self.hits@, entity, i as nat),
            decreases self.hits@.len() - i,
        {
            if found.is_none() && self.hits[i].entity == entity {
                found = Some(self.hits[i].result);
            }
            i += 1;
        }
        found
    }
}

/// A result buffer of zeros decodes to hits without a collision: every hit
/// has the zero normal.
pub proof fn lemma_zero_buffer_has_no_hit(owners: Seq<Option<u64>>, words: Seq<u32>, n: nat, k: int)
    requires
        n <= owners.len(),
        RESULT_WORDS * owners.len() <= words.len(),
        forall|i: int| 0 <= i < words.len() ==> words[i] == 0,
        0 <= k < hits_of(owners, words, n).len(),
    ensures
        hits_of(owners, words, n)[k].result.hit_normal == Vec3Bits::zero(),
        !hits_of(owners, words, n)[k].result.is_hit(),
    decreases n,
{
    if n > 0 {
        let before = hits_of(owners, words, (n - 1) as nat);
        if k < before.len() {
            lemma_zero_buffer_has_no_hit(owners, words, (n - 1) as nat, k);
        }
    }
}

/// Every hit belongs to the entity that owned its slot, and holds the result
/// that the buffer has for that slot.
pub proof fn lemma_hits_follow_owners(owners: Seq<Option<u64>>, words: Seq<u32>, n: nat, k: int)
    requires
        n <= owners.len() <= usize::MAX,
        0 <= k < hits_of(owners, words, n).len(),
    ensures
        hits_of(owners, words, n)[k].slot.index < n,
        owners[hits_of(owners, words, n)[k].slot.index as int] == Some(
            hits_of(owners, words, n)[k].entity,
        ),
        hits_of(owners, words, n)[k].result == result_at(
            words,
            hits_of(owners, words, n)[k].slot.index as int,
        ),
    decreases n,
{
    if n > 0 {
        let before = hits_of(owners, words, (n - 1) as nat);
        if k < before.len() {
            lemma_hits_follow_owners(owners, words, (n - 1) as nat, k);
        }
    }
}

} // verus!
