//! The compute schedule of a frame, and the channel through which physics
//! results come back to the host.
//!
//! Every frame the five stages are dispatched in one fixed order, or not at
//! all. The device runs behind the host, so results are asked for after the
//! physics dispatch of a frame and decoded when the device has delivered
//! them, in that frame or a later one.

use vstd::prelude::*;
use crate::compute_resources::{BoundResources, ComputeResourceManager, ResourceManagerView, WorldResources};
use crate::device_bytes::{bytes_to_words, is_word_of, lemma_zero_word};
use crate::readback::{
    DecodedResults, PendingReadback, PendingView, decode_results, decoded, lemma_zero_buffer_has_no_hit,
    results_cover,
};

verus! {

/// Number of compute stages of a frame.
pub const STAGE_COUNT: usize = 5;

/// A compute stage.
#[derive(Clone, Copy, Debug, PartialEq, Eq, Structural)]
pub enum Stage {
    /// Zeroes the working buffers, so that nothing of the frame before remains.
    Clear,
    /// Recomputes the occupancy of the hierarchy from the chunk volumes.
    Rebuild,
    /// Advances the cellular automata of the materials.
    Automata,
    /// Sweeps every slot's volume through the grid and writes its result.
    Physics,
    /// Advances the animation counters.
    Animation,
}

/// The stages of a frame, in the order in which they are dispatched.
pub open spec fn stage_order() -> Seq<Stage> {
    seq![Stage::Clear, Stage::Rebuild, Stage::Automata, Stage::Physics, Stage::Animation]
}

/// The dispatches of a frame: all stages in order, or none when the frame is
/// skipped.
pub open spec fn frame_plan(ready: bool) -> Seq<Stage> {
    if ready {
        stage_order()
    } else {
        Seq::empty()
    }
}

/// The place of a stage in the order of a frame.
pub open spec fn stage_index(stage: Stage) -> int {
    match stage {
        Stage::Clear => 0,
        Stage::Rebuild => 1,
        Stage::Automata => 2,
        Stage::Physics => 3,
        Stage::Animation => 4,
    }
}

impl Stage {
    /// The place of this stage in the order of a frame.
    pub fn index(self) -> (index: usize)
        ensures
            index == stage_index(self),
            stage_order()[index as int] == self,
    {
        match self {
            Stage::Clear => 0,
            Stage::Rebuild => 1,
            Stage::Automata => 2,
            Stage::Physics => 3,
            Stage::Animation => 4,
        }
    }

    /// The stage whose input this stage produces, if it is not the last.
    pub fn next(self) -> (next: Option<Stage>)
        ensures
            next == (if stage_index(self) + 1 < STAGE_COUNT {
                Some(stage_order()[stage_index(self) + 1])
            } else {
                None
            }),
    {
        match self {
            Stage::Clear => Some(Stage::Rebuild),
            Stage::Rebuild => Some(Stage::Automata),
            Stage::Automata => Some(Stage::Physics),
            Stage::Physics => Some(Stage::Animation),
            Stage::Animation => None,
        }
    }
}

/// What a pipeline holds.
pub ghost struct PipelineView {
    /// Number of frames whose dispatches were submitted.
    pub submitted: u64,
    /// Number of readbacks that were asked for.
    pub issued: u64,
    /// The ticket of the readback that is awaited, if one is.
    pub awaited: Option<u64>,
}

/// The schedule of the compute stages and the readback channel.
pub struct ComputePipeline {
    submitted: u64,
    issued: u64,
    awaited: Option<u64>,
}

impl View for ComputePipeline {
    type V = PipelineView;

    closed spec fn view(&self) -> PipelineView {
        PipelineView { submitted: self.submitted, issued: self.issued, awaited: self.awaited }
    }
}

/// The count after one more, as far as 64 bits go.
pub open spec fn counted_up(count: u64) -> u64 {
    if count < u64::MAX {
        (count + 1) as u64
    } else {
        count
    }
}

/// Whether a readback can be asked for: some frame was submitted, and the
/// tickets have not run out.
pub open spec fn can_request(pipeline: PipelineView) -> bool {
    pipeline.submitted > 0 && pipeline.issued < u64::MAX
}

/// Whether the delivered bytes are decoded for `pending`: it is the readback
/// that is awaited, its frame was submitted, and the bytes are whole words
/// that hold a result for every slot.
pub open spec fn can_decode(pipeline: PipelineView, pending: PendingView, mapped: Option<Seq<u8>>)
    -> bool {
    &&& pipeline.awaited == Some(pending.ticket)
    &&& pending.frame <= pipeline.submitted
    &&& mapped matches Some(bytes) && bytes.len() % 4 == 0 && results_cover(
        pending,
        bytes.len() / 4,
    )
}

/// The words whose image, word by word in the byte order of the machine,
/// `bytes` is.
pub open spec fn are_words_of(words: Seq<u32>, bytes: Seq<u8>) -> bool {
    words.len() * 4 == bytes.len() && forall|i: int|
        0 <= i < words.len() ==> #[trigger] is_word_of(words, bytes, i)
}

impl ComputePipeline {
    /// A pipeline that has submitted no frame and awaits no readback.
    pub fn new() -> (pipeline: ComputePipeline)
        ensures
            pipeline@ == (PipelineView { submitted: 0, issued: 0, awaited: None }),
    {
        ComputePipeline { submitted: 0, issued: 0, awaited: None }
    }

    /// Number of frames whose dispatches were submitted.
    pub fn frames_submitted(&self) -> (frames: u64)
        ensures
            frames == self@.submitted,
    {
        self.submitted
    }

    /// The dispatches of a frame: the five stages in order if the frame can
    /// be dispatched, none if it is skipped.
    pub fn plan_frame(ready: bool) -> (plan: Vec<Stage>)
        ensures
            plan@ == frame_plan(ready),
    {
        let mut plan: Vec<Stage> = Vec::new();
        if ready {
            plan.push(Stage::Clear);
            plan.push(Stage::Rebuild);
            plan.push(Stage::Automata);
            plan.push(Stage::Physics);
            plan.push(Stage::Animation);
        }
        assert(plan@ =~= frame_plan(ready));
        plan
    }

    /// Submits the frame that `resources` has prepared. If the bind group is
    /// current and the uniforms of the frame are written, all five stages are
    /// dispatched in order and the frame is counted. Otherwise the whole
    /// frame is skipped: no stage is dispatched and nothing is counted.
    pub fn submit_frame(&mut self, resources: &ComputeResourceManager) -> (plan: Vec<Stage>)
        ensures
            plan@ == frame_plan(resources@.ready()),
            final(self)@ == (PipelineView {
                submitted: if resources@.ready() {
                    counted_up(old(self)@.submitted)
                } else {
                    old(self)@.submitted
                },
                ..old(self)@
            }),
    {
        let ready: bool = resources.is_ready();
        if ready && self.submitted < u64::MAX {
            self.submitted = self.submitted + 1;
        }
        ComputePipeline::plan_frame(ready)
    }

    /// Asks for the results of the latest physics dispatch. The readback
    /// remembers the frame of that dispatch and the owner of each slot at
    /// this moment. It takes the place of a readback that is still awaited,
    /// whose results are then never decoded. Nothing is asked for before the
    /// first frame is submitted.
    pub fn request_readback(&mut self, resources: &ComputeResourceManager) -> (pending: Option<
        PendingReadback,
    >)
        ensures
            pending.is_some() == can_request(old(self)@),
            match pending {
                Some(p) => p@ == (PendingView {
                    ticket: old(self)@.issued,
                    frame: old(self)@.submitted,
                    owners: resources@.physics.owners,
                }) && final(self)@ == (PipelineView {
                    issued: (old(self)@.issued + 1) as u64,
                    awaited: Some(old(self)@.issued),
                    ..old(self)@
                }),
                None => final(self)@ == old(self)@,
            },
    {
        if self.submitted == 0 || self.issued == u64::MAX {
            return None;
        }
        let ticket: u64 = self.issued;
        self.issued = ticket + 1;
        self.awaited = Some(ticket);
        Some(PendingReadback::snapshot(resources.physics(), ticket, self.submitted))
    }

    /// Looks whether the results of `pending` have arrived. `mapped` is what
    /// the device has delivered: nothing while the copy is not complete, then
    /// the bytes of the result buffer. Until then, and for a readback that
    /// another one has replaced, the answer is nothing and the channel stays
    /// as it is. Delivered bytes are decoded once; the results are those of
    /// the frame of `pending`, which is never later than the last submitted
    /// frame.
    pub fn poll(&mut self, pending: &PendingReadback, mapped: Option<&[u8]>) -> (results: Option<
        DecodedResults,
    >)
        ensures
            results.is_some() == can_decode(
                old(self)@,
                pending@,
                match mapped {
                    Some(bytes) => Some(bytes@),
                    None => None,
                },
            ),
            match results {
                Some(r) => final(self)@ == (PipelineView { awaited: None, ..old(self)@ })
                    && r@.frame == pending@.frame && r@.frame <= final(self)@.submitted
                    && exists|words: Seq<u32>| #[trigger]
                    are_words_of(words, mapped->0@) && r@ == decoded(pending@, words),
                None => final(self)@ == old(self)@,
            },
    {
        let awaited: bool = match self.awaited {
            Some(ticket) => ticket == pending.ticket(),
            None => false,
        };
        if !awaited || pending.frame() > self.submitted {
            return None;
        }
        let bytes: &[u8] = match mapped {
            Some(bytes) => bytes,
            None => {
                return None;
            },
        };
        let words: Vec<u32> = match bytes_to_words(bytes) {
            Some(words) => words,
            None => {
                return None;
            },
        };
        match decode_results(pending, &words) {
            Some(results) => {
                self.awaited = None;
                proof {
                    assert(are_words_of(words@, bytes@));
                }
                Some(results)
            },
            None => None,
        }
    }
}

/// The stages of a dispatched frame are in their fixed order: every stage
/// comes after the stage whose output it reads.
pub proof fn lemma_stages_in_order(i: int, j: int)
    requires
        0 <= i < j < STAGE_COUNT,
    ensures
        frame_plan(true).len() == STAGE_COUNT,
        frame_plan(false).len() == 0,
        stage_index(frame_plan(true)[i]) == i,
        stage_index(frame_plan(true)[i]) < stage_index(frame_plan(true)[j]),
        frame_plan(true)[0] == Stage::Clear,
        frame_plan(true)[1] == Stage::Rebuild,
        frame_plan(true)[2] == Stage::Automata,
        frame_plan(true)[3] == Stage::Physics,
        frame_plan(true)[4] == Stage::Animation,
{
}

/// Results that are decoded belong to a frame that was submitted: a readback
/// is asked for only after a frame was submitted and carries that frame's
/// number, and the count of submitted frames never goes down.
pub proof fn lemma_readback_is_of_submitted_frame(
    at_request: PipelineView,
    at_poll: PipelineView,
    pending: PendingView,
    mapped: Option<Seq<u8>>,
)
    requires
        can_request(at_request),
        pending.frame == at_request.submitted,
        can_decode(at_poll, pending, mapped),
    ensures
        1 <= pending.frame <= at_poll.submitted,
{
}

/// Between the swap of a world and the rebuild of the bind group no stage is
/// dispatched: the bind group still refers to the world before, so the frame
/// is skipped.
pub proof fn lemma_stale_bind_group_skips_frame(before: ResourceManagerView, world: WorldResources)
    requires
        before.bind_group_current(),
        world != before.resources.world,
    ensures
        ({
            let swapped = ResourceManagerView {
                resources: BoundResources { world, ..before.resources },
                ..before
            };
            &&& !swapped.ready()
            &&& frame_plan(swapped.ready()) == Seq::<Stage>::empty()
        }),
{
}

/// A result buffer that holds only zeros, as the clear stage leaves it and as
/// it stays when nothing is hit, decodes to hits without a collision, in
/// whichever byte order the words are read.
pub proof fn lemma_zero_bytes_decode_to_no_hit(
    pending: PendingView,
    bytes: Seq<u8>,
    words: Seq<u32>,
    k: int,
)
    requires
        are_words_of(words, bytes),
        results_cover(pending, words.len()),
        forall|i: int| 0 <= i < bytes.len() ==> bytes[i] == 0,
        0 <= k < decoded(pending, words).hits.len(),
    ensures
        !decoded(pending, words).hits[k].result.is_hit(),
{
    assert forall|i: int| 0 <= i < words.len() implies words[i] == 0 by {
        assert(is_word_of(words, bytes, i));
        let four = bytes.subrange(4 * i, 4 * i + 4);
        lemma_zero_word(words[i], four);
        assert(four[0] == bytes[4 * i]);
        assert(four[1] == bytes[4 * i + 1]);
        assert(four[2] == bytes[4 * i + 2]);
        assert(four[3] == bytes[4 * i + 3]);
    }
    lemma_zero_buffer_has_no_hit(pending.owners, words, pending.owners.len(), k);
}

} // verus!
