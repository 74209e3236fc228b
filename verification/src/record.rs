//! The observable record of one virtual machine, as the panel reads it.

use vstd::prelude::*;

verus! {

/// A snapshot of one machine's observable fields.
///
/// `id` is the identity of the observed object: two snapshots with the same
/// `id` are states of the same machine at different times. `status` and
/// `trust_level` are `None` where the field is missing or holds a value
/// that is not a number.
#[derive(Clone, Debug, PartialEq, Eq)]
pub struct VMRecord {
    pub id: u64,
    pub name: String,
    pub status: Option<u8>,
    pub details: String,
    pub trust_level: Option<u8>,
}

/// The mathematical value of a [`VMRecord`].
pub struct RecordView {
    pub id: u64,
    pub name: Seq<char>,
    pub status: Option<u8>,
    pub details: Seq<char>,
    pub trust_level: Option<u8>,
}

impl View for VMRecord {
    type V = RecordView;

    open spec fn view(&self) -> RecordView {
        RecordView {
            id: self.id,
            name: self.name@,
            status: self.status,
            details: self.details@,
            trust_level: self.trust_level,
        }
    }
}

impl VMRecord {
    /// A record with the given identity and field values.
    pub fn new(
        id: u64,
        name: String,
        status: Option<u8>,
        details: String,
        trust_level: Option<u8>,
    ) -> (record: VMRecord)
        ensures
            record@ == (RecordView { id, name: name@, status, details: details@, trust_level }),
    {
        VMRecord { id, name, status, details, trust_level }
    }
}

} // verus!
