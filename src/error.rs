//! Fatal errors of the read-back stage.
use vstd::prelude::*;

verus! {

/// Why the stage failed. Every one of these ends the stage: a dropped
/// partition would corrupt the aggregation.
#[derive(Debug, PartialEq, Eq)]
pub enum SpillError {
    /// A storage read failed; the message is the storage backend's.
    StorageRead(String),
    /// A read task of a fan-out could not be awaited.
    Join(String),
    /// A fetched buffer does not have the layout of the payload it was read for.
    Decode,
}

impl SpillError {
    /// A short description of the error.
    pub fn message(&self) -> (r: String)
        ensures
            self is StorageRead ==> r@ == self->StorageRead_0@,
            self is Join ==> r@ == self->Join_0@,
            self is Decode ==> r@ == "spilled buffer does not match its column layout"@,
    {
        match self {
            SpillError::StorageRead(m) => m.clone(),
            SpillError::Join(m) => m.clone(),
            SpillError::Decode => String::from_str("spilled buffer does not match its column layout"),
        }
    }
}

} // verus!
