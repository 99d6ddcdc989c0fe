//! The bookkeeping of one pass: which rows were skipped, which documents were
//! published, and which of those the index refused.

use vstd::prelude::*;
use crate::document::{build, document_of, Torrent};
use crate::publish::PublishError;
use crate::record::{decode_files, decoded_files, parent_of_row, ParentRecord};
use crate::row::{Cell, MalformedRow};

verus! {

/// The outcome counts of a pass.
#[derive(Debug, Clone)]
pub struct RunSummary {
    /// Documents handed to the index.
    pub attempted: u64,
    /// Documents the index accepted.
    pub succeeded: u64,
    /// Documents the index refused or never answered for.
    pub failed: u64,
    /// Parent rows that did not decode.
    pub skipped: u64,
    /// File rows that did not decode.
    pub dropped_files: u64,
    /// The identity of each failed document, in the order they failed.
    pub failed_ids: Vec<u64>,
}

impl RunSummary {
    /// Every attempt either succeeded or failed, and each failure is named.
    pub open spec fn wf(&self) -> bool {
        &&& self.attempted == self.succeeded + self.failed
        &&& self.failed_ids@.len() == self.failed
    }

    /// The summary of a pass that has not processed anything yet.
    pub fn new() -> (r: RunSummary)
        ensures
            r.wf(),
            r.attempted == 0,
            r.succeeded == 0,
            r.failed == 0,
            r.skipped == 0,
            r.dropped_files == 0,
            r.failed_ids@.len() == 0,
    {
        RunSummary {
            attempted: 0,
            succeeded: 0,
            failed: 0,
            skipped: 0,
            dropped_files: 0,
            failed_ids: Vec::new(),
        }
    }

    /// Decodes the next parent row. A row that does not decode is counted as
    /// skipped and the pass goes on with the next one.
    pub fn accept_row(&mut self, row: &Vec<Cell>) -> (r: Result<ParentRecord, MalformedRow>)
        requires
            old(self).skipped < u64::MAX,
        ensures
            match parent_of_row(row@) {
                Ok(v) => r matches Ok(p) && p@ == v && final(self).skipped == old(self).skipped,
                Err(e) => r == Err::<ParentRecord, MalformedRow>(e) && final(self).skipped
                    == old(self).skipped + 1,
            },
            final(self).attempted == old(self).attempted,
            final(self).succeeded == old(self).succeeded,
            final(self).failed == old(self).failed,
            final(self).dropped_files == old(self).dropped_files,
            final(self).failed_ids@ == old(self).failed_ids@,
    {
        let r = ParentRecord::from_row(row);
        if r.is_err() {
            self.skipped = self.skipped + 1;
        }
        r
    }

    /// Assembles the document of a decoded parent from the file rows fetched
    /// for it. File rows that do not decode are left out and counted.
    pub fn assemble(&mut self, parent: ParentRecord, rows: &Vec<Vec<Cell>>) -> (r: Torrent)
        requires
            old(self).dropped_files + rows@.len() <= u64::MAX,
        ensures
            r@ == document_of(parent@, decoded_files(rows@)),
            final(self).dropped_files == old(self).dropped_files + (rows@.len()
                - decoded_files(rows@).len()),
            final(self).attempted == old(self).attempted,
            final(self).succeeded == old(self).succeeded,
            final(self).failed == old(self).failed,
            final(self).skipped == old(self).skipped,
            final(self).failed_ids@ == old(self).failed_ids@,
    {
        let (files, dropped) = decode_files(rows);
        self.dropped_files = self.dropped_files + dropped as u64;
        build(parent, files)
    }

    /// Records the outcome of publishing the document with identity `id`.
    pub fn record(&mut self, id: u64, outcome: &Result<(), PublishError>)
        requires
            old(self).wf(),
            old(self).attempted < u64::MAX,
        ensures
            final(self).wf(),
            final(self).attempted == old(self).attempted + 1,
            outcome is Ok ==> final(self).succeeded == old(self).succeeded + 1
                && final(self).failed == old(self).failed
                && final(self).failed_ids@ == old(self).failed_ids@,
            outcome is Err ==> final(self).failed == old(self).failed + 1
                && final(self).succeeded == old(self).succeeded
                && final(self).failed_ids@ == old(self).failed_ids@.push(id),
            final(self).skipped == old(self).skipped,
            final(self).dropped_files == old(self).dropped_files,
    {
        self.attempted = self.attempted + 1;
        match outcome {
            Ok(()) => {
                self.succeeded = self.succeeded + 1;
            },
            Err(_) => {
                self.failed = self.failed + 1;
                self.failed_ids.push(id);
            },
        }
    }
}

} // verus!
