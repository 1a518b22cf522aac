//! The event-driven core of the read-back stage. Each scheduling step
//! decides, in a fixed priority order, whether to finish, wait, emit, decode,
//! fetch, pass a batch through, or ask for input. At most one unit of work is
//! outstanding at any time, so batches leave in the order they arrived.
use vstd::prelude::*;

use crate::descriptor::{
    decodable, decode_descriptor, decoded, needs_fetch, requires_fetch, spilled_of,
    SpillDescriptor,
};
use crate::error::SpillError;
use crate::fetch::{all_read, fetch_locations, first_read_error, join_reads, keys_of, read_buffers};
use crate::port::{DataBatch, InputPort, OutputPort};

verus! {

/// What the scheduler should do with the stage next.
#[derive(Debug, Clone, Copy, PartialEq, Eq, Structural)]
pub enum Event {
    /// Waiting for upstream to deliver a batch.
    NeedData,
    /// Output was produced, or downstream must drain first.
    NeedConsume,
    /// Run the synchronous decode step.
    Sync,
    /// Run the asynchronous fetch step.
    Async,
    /// The stage is done.
    Finished,
}

/// The one unit of work the stage holds, if any.
#[derive(Debug)]
pub enum Pending {
    Nothing,
    /// A descriptor captured for fetching.
    Reading(SpillDescriptor),
    /// A descriptor and its fetched buffers, in fetch order, awaiting decode.
    Deserializing(SpillDescriptor, Vec<Vec<u8>>),
    /// A decoded descriptor awaiting emission.
    Deserialized(SpillDescriptor),
}

/// The read-back stage: fetches the buffers of spilled descriptors, decodes
/// them and passes every other batch through.
#[derive(Debug)]
pub struct TransformSpillReader {
    pub pending: Pending,
}

impl TransformSpillReader {
    /// Captured descriptors need storage reads, and the buffers awaiting
    /// decode are one per spilled payload.
    pub open spec fn wf(self) -> bool {
        match self.pending {
            Pending::Reading(d) => needs_fetch(d),
            Pending::Deserializing(d, bufs) => needs_fetch(d) && bufs@.len() == spilled_of(d).len(),
            _ => true,
        }
    }

    pub open spec fn fetch_pending(self) -> bool {
        self.pending is Reading
    }

    pub open spec fn decode_pending(self) -> bool {
        self.pending is Deserializing
    }

    pub open spec fn emit_pending(self) -> bool {
        self.pending is Deserialized
    }

    /// How many of {pending fetch, pending decode, pending emit} are non-empty.
    pub open spec fn pending_units(self) -> nat {
        (if self.fetch_pending() { 1nat } else { 0nat }) + (if self.decode_pending() {
            1nat
        } else {
            0nat
        }) + (if self.emit_pending() { 1nat } else { 0nat })
    }

    pub fn create() -> (r: TransformSpillReader)
        ensures
            r.wf(),
            r.pending is Nothing,
    {
        TransformSpillReader { pending: Pending::Nothing }
    }

    pub fn name(&self) -> (r: String)
        ensures
            r@ == "TransformSpillReader"@,
    {
        String::from_str("TransformSpillReader")
    }

    /// Moves the pending work out, leaving nothing pending.
    fn take_pending(&mut self) -> (r: Pending)
        ensures
            r == old(self).pending,
            final(self).pending is Nothing,
    {
        let mut taken = Pending::Nothing;
        core::mem::swap(&mut self.pending, &mut taken);
        taken
    }

    /// One scheduling step.
    pub fn event(&mut self, input: &mut InputPort, output: &mut OutputPort) -> (r: Event)
        requires
            old(self).wf(),
        ensures
            final(self).wf(),
            // downstream finished: finish upstream, capture nothing
            old(output).finished ==> {
                &&& r == Event::Finished
                &&& final(input).finished
                &&& final(input).slot == old(input).slot
                &&& *final(output) == *old(output)
                &&& *final(self) == *old(self)
            },
            // backpressure: do no work until downstream drains
            !old(output).finished && old(output).slot is Some ==> {
                &&& r == Event::NeedConsume
                &&& !final(input).need_data
                &&& final(input).slot == old(input).slot
                &&& final(input).finished == old(input).finished
                &&& *final(output) == *old(output)
                &&& *final(self) == *old(self)
            },
            // emit the decoded payload, once
            !old(output).finished && old(output).slot is None && old(self).pending is Deserialized
                ==> {
                &&& r == Event::NeedConsume
                &&& final(self).pending is Nothing
                &&& final(output).slot is Some
                &&& final(output).slot->0.meta == Some(old(self).pending->Deserialized_0)
                &&& final(output).slot->0.columns@.len() == 0
                &&& final(output).finished == old(output).finished
                &&& *final(input) == *old(input)
            },
            // decode or fetch still to run: pull nothing
            !old(output).finished && old(output).slot is None && (old(self).pending is Deserializing
                || old(self).pending is Reading) ==> {
                &&& r == (if old(self).pending is Reading {
                    Event::Async
                } else {
                    Event::Sync
                })
                &&& !final(input).need_data
                &&& final(input).slot == old(input).slot
                &&& final(input).finished == old(input).finished
                &&& *final(output) == *old(output)
                &&& *final(self) == *old(self)
            },
            // pull one batch: capture a descriptor that needs reads, else pass it through
            !old(output).finished && old(output).slot is None && old(self).pending is Nothing
                && old(input).slot is Some ==> {
                let b = old(input).slot->0;
                &&& final(input).slot is None
                &&& final(input).finished == old(input).finished
                &&& if b.meta is Some && needs_fetch(b.meta->0) {
                    &&& r == Event::Async
                    &&& final(self).pending == Pending::Reading(b.meta->0)
                    &&& !final(input).need_data
                    &&& *final(output) == *old(output)
                } else {
                    &&& r == Event::NeedConsume
                    &&& final(output).slot == Some(b)
                    &&& final(output).finished == old(output).finished
                    &&& final(input).need_data == old(input).need_data
                    &&& *final(self) == *old(self)
                }
            },
            // upstream drained: finish downstream
            !old(output).finished && old(output).slot is None && old(self).pending is Nothing
                && old(input).slot is None && old(input).finished ==> {
                &&& r == Event::Finished
                &&& final(output).finished
                &&& final(output).slot == old(output).slot
                &&& *final(input) == *old(input)
                &&& *final(self) == *old(self)
            },
            // idle: ask for input
            !old(output).finished && old(output).slot is None && old(self).pending is Nothing
                && old(input).slot is None && !old(input).finished ==> {
                &&& r == Event::NeedData
                &&& final(input).need_data
                &&& final(input).slot == old(input).slot
                &&& final(input).finished == old(input).finished
                &&& *final(output) == *old(output)
                &&& *final(self) == *old(self)
            },
    {
        if output.is_finished() {
            input.finish();
            return Event::Finished;
        }
        if !output.can_push() {
            input.set_not_need_data();
            return Event::NeedConsume;
        }
        match &self.pending {
            Pending::Deserialized(_) => {
                let taken = self.take_pending();
                if let Pending::Deserialized(meta) = taken {
                    output.push_data(DataBatch::empty_with_meta(meta));
                }
                return Event::NeedConsume;
            },
            Pending::Deserializing(..) => {
                input.set_not_need_data();
                return Event::Sync;
            },
            Pending::Reading(_) => {
                input.set_not_need_data();
                return Event::Async;
            },
            Pending::Nothing => {},
        }
        if input.has_data() {
            if let Some(mut batch) = input.pull_data() {
                let fetch = match &batch.meta {
                    Some(meta) => requires_fetch(meta),
                    None => false,
                };
                if fetch {
                    input.set_not_need_data();
                    if let Some(meta) = batch.meta.take() {
                        self.pending = Pending::Reading(meta);
                    }
                    return Event::Async;
                }
                output.push_data(batch);
                return Event::NeedConsume;
            }
        }
        if input.is_finished() {
            output.finish();
            return Event::Finished;
        }
        input.set_need_data();
        Event::NeedData
    }

    /// The storage keys the pending fetch must read, in the order its
    /// buffers are decoded; `None` when no fetch is pending.
    pub fn fetch_request(&self) -> (r: Option<Vec<String>>)
        ensures
            r is Some <==> self.pending is Reading,
            r is Some ==> keys_of(r->Some_0@, spilled_of(self.pending->Reading_0)),
    {
        match &self.pending {
            Pending::Reading(d) => Some(fetch_locations(d)),
            _ => None,
        }
    }

    /// Hands the stage the outcome of the pending fetch: the join of its
    /// reads, one per key of `fetch_request`, in that order. On success the
    /// buffers await decode; on failure the descriptor and every fetched
    /// buffer are dropped and the error is returned.
    pub fn on_fetched(&mut self, joined: Result<Vec<Result<Vec<u8>, String>>, String>) -> (r: Result<
        (),
        SpillError,
    >)
        requires
            old(self).wf(),
            old(self).pending is Reading && joined is Ok ==> joined->Ok_0@.len() == spilled_of(
                old(self).pending->Reading_0,
            ).len(),
        ensures
            final(self).wf(),
            !(old(self).pending is Reading) ==> r is Ok && *final(self) == *old(self),
            old(self).pending is Reading && joined is Err ==> {
                &&& r == Err::<(), SpillError>(SpillError::Join(joined->Err_0))
                &&& final(self).pending is Nothing
            },
            old(self).pending is Reading && joined is Ok ==> {
                let reads = joined->Ok_0@;
                &&& r is Ok <==> all_read(reads)
                &&& r is Ok ==> {
                    &&& final(self).pending is Deserializing
                    &&& final(self).pending->Deserializing_0 == old(self).pending->Reading_0
                    &&& final(self).pending->Deserializing_1@ == read_buffers(reads)
                }
                &&& r is Err ==> {
                    &&& r->Err_0 is StorageRead
                    &&& first_read_error(reads, r->Err_0->StorageRead_0)
                    &&& final(self).pending is Nothing
                }
            },
    {
        if !matches!(self.pending, Pending::Reading(_)) {
            return Ok(());
        }
        let taken = self.take_pending();
        match taken {
            Pending::Reading(d) => {
                let joined_r = join_reads(joined);
                match joined_r {
                    Ok(bufs) => {
                        self.pending = Pending::Deserializing(d, bufs);
                        Ok(())
                    },
                    Err(e) => Err(e),
                }
            },
            _ => Ok(()),
        }
    }

    /// The synchronous decode step: turns the pending buffers into a
    /// resident descriptor awaiting emission. Fails, dropping all of it,
    /// when a buffer does not have the layout of its part.
    pub fn process(&mut self) -> (r: Result<(), SpillError>)
        requires
            old(self).wf(),
        ensures
            final(self).wf(),
            !(old(self).pending is Deserializing) ==> r is Ok && *final(self) == *old(self),
            old(self).pending is Deserializing ==> {
                let d = old(self).pending->Deserializing_0;
                let bufs = old(self).pending->Deserializing_1@;
                &&& r is Ok <==> decodable(d, bufs)
                &&& r is Ok ==> final(self).pending is Deserialized && decoded(
                    d,
                    bufs,
                    final(self).pending->Deserialized_0,
                )
                &&& r is Err ==> r->Err_0 is Decode && final(self).pending is Nothing
            },
    {
        if !matches!(self.pending, Pending::Deserializing(..)) {
            return Ok(());
        }
        let taken = self.take_pending();
        match taken {
            Pending::Deserializing(d, bufs) => match decode_descriptor(d, &bufs) {
                Some(out) => {
                    self.pending = Pending::Deserialized(out);
                    Ok(())
                },
                None => Err(SpillError::Decode),
            },
            _ => Ok(()),
        }
    }
}

/// At most one of {pending fetch, pending decode, pending emit} is non-empty
/// in any state of the stage.
pub proof fn lemma_at_most_one_pending(s: TransformSpillReader)
    ensures
        s.pending_units() <= 1,
{
}

} // verus!
