//! The row-batch ports between pipeline stages: one slot each, plus the
//! flags that the two ends use to signal demand and completion.
use vstd::prelude::*;

use crate::descriptor::SpillDescriptor;

verus! {

/// A row-batch: serialized columns plus an optional spill descriptor.
#[derive(Debug, PartialEq, Eq)]
pub struct DataBatch {
    pub columns: Vec<Vec<u8>>,
    pub meta: Option<SpillDescriptor>,
}

impl DataBatch {
    /// A batch with no columns that carries `meta`.
    pub fn empty_with_meta(meta: SpillDescriptor) -> (r: DataBatch)
        ensures
            r.columns@.len() == 0,
            r.meta == Some(meta),
    {
        DataBatch { columns: Vec::new(), meta: Some(meta) }
    }
}

/// The receiving end of a stage: upstream fills the slot, this stage pulls from it.
pub struct InputPort {
    pub slot: Option<DataBatch>,
    pub finished: bool,
    pub need_data: bool,
}

impl InputPort {
    pub fn create() -> (r: InputPort)
        ensures
            r.slot is None,
            !r.finished,
            !r.need_data,
    {
        InputPort { slot: None, finished: false, need_data: false }
    }

    pub fn has_data(&self) -> (r: bool)
        ensures
            r == self.slot is Some,
    {
        self.slot.is_some()
    }

    pub fn is_finished(&self) -> (r: bool)
        ensures
            r == self.finished,
    {
        self.finished
    }

    /// Takes the batch out of the slot.
    pub fn pull_data(&mut self) -> (r: Option<DataBatch>)
        ensures
            r == old(self).slot,
            final(self).slot is None,
            final(self).finished == old(self).finished,
            final(self).need_data == old(self).need_data,
    {
        self.slot.take()
    }

    /// Upstream side: places a batch in the slot.
    pub fn push_data(&mut self, batch: DataBatch)
        ensures
            final(self).slot == Some(batch),
            final(self).finished == old(self).finished,
            final(self).need_data == old(self).need_data,
    {
        self.slot = Some(batch);
    }

    pub fn finish(&mut self)
        ensures
            final(self).finished,
            final(self).slot == old(self).slot,
            final(self).need_data == old(self).need_data,
    {
        self.finished = true;
    }

    pub fn set_need_data(&mut self)
        ensures
            final(self).need_data,
            final(self).slot == old(self).slot,
            final(self).finished == old(self).finished,
    {
        self.need_data = true;
    }

    pub fn set_not_need_data(&mut self)
        ensures
            !final(self).need_data,
            final(self).slot == old(self).slot,
            final(self).finished == old(self).finished,
    {
        self.need_data = false;
    }
}

/// The sending end of a stage: this stage fills the slot, downstream takes from it.
pub struct OutputPort {
    pub slot: Option<DataBatch>,
    pub finished: bool,
}

impl OutputPort {
    pub fn create() -> (r: OutputPort)
        ensures
            r.slot is None,
            !r.finished,
    {
        OutputPort { slot: None, finished: false }
    }

    pub fn is_finished(&self) -> (r: bool)
        ensures
            r == self.finished,
    {
        self.finished
    }

    /// Downstream has taken the last batch, so another can be pushed.
    pub fn can_push(&self) -> (r: bool)
        ensures
            r == self.slot is None,
    {
        self.slot.is_none()
    }

    pub fn push_data(&mut self, batch: DataBatch)
        ensures
            final(self).slot == Some(batch),
            final(self).finished == old(self).finished,
    {
        self.slot = Some(batch);
    }

    /// Downstream side: takes the batch out of the slot.
    pub fn pull_data(&mut self) -> (r: Option<DataBatch>)
        ensures
            r == old(self).slot,
            final(self).slot is None,
            final(self).finished == old(self).finished,
    {
        self.slot.take()
    }

    pub fn finish(&mut self)
        ensures
            final(self).finished,
            final(self).slot == old(self).slot,
    {
        self.finished = true;
    }
}

} // verus!
