//! The bucket store: durable key-value persistence in named buckets.
//!
//! A `BucketStore` is viewed as a map from bucket name and key to value. Each
//! operation opens the bucket it works on afresh; handles are never kept from
//! one operation to the next. Writes are followed by a flush of the bucket, so
//! that what has been acknowledged is on disk.
//!
//! The engine underneath synchronises its own buckets, but this type asks for
//! exclusive access for every operation, reads included: that is what lets a
//! contract speak of "the" contents. A process that shares one store between
//! threads puts it behind a lock and takes the lock for the whole operation.

use vstd::prelude::*;
use crate::engine::{
    bytes_of, engine_config, engine_cursor, engine_entries, engine_flush, engine_flushed,
    engine_get, engine_open, engine_remove, engine_select, engine_set, entry_at, fault_text,
    Engine,
};

verus! {

/// The engine call that failed.
#[derive(Clone, Copy, Debug, PartialEq, Eq, Structural)]
pub enum Stage {
    /// Opening the store itself.
    Open,
    /// Opening a bucket.
    Bucket,
    /// Reading an entry.
    Read,
    /// Writing an entry.
    Write,
    /// Removing an entry.
    Remove,
    /// Flushing a bucket to disk.
    Flush,
}

/// A failure reported by the engine.
#[derive(Debug)]
pub struct StoreFault {
    /// The call that failed.
    pub stage: Stage,
    /// The engine's own description, for the log.
    pub detail: String,
}

/// How a write or a removal went.
#[derive(Debug)]
pub struct WriteReport {
    /// `None` when the entry was changed as asked; else why it was not.
    pub fault: Option<StoreFault>,
    /// Why the flush that follows the change failed, if it did. A flush is
    /// attempted whenever the bucket could be opened.
    pub flush_fault: Option<StoreFault>,
}

/// What the store holds: bucket name and key to value.
pub type Entries = Map<(Seq<char>, Seq<u8>), Seq<u8>>;

/// A handle on the one store of a process.
pub struct BucketStore {
    engine: Engine,
}

impl View for BucketStore {
    type V = Entries;

    closed spec fn view(&self) -> Entries {
        engine_entries(self.engine)
    }
}

fn fault_at(stage: Stage, fault: &kv::Error) -> (report: StoreFault)
    ensures
        report.stage == stage,
{
    StoreFault { stage, detail: fault_text(fault) }
}

impl BucketStore {
    /// True when a flush has succeeded since the store last changed, so that
    /// everything it holds is on disk and will be found there by a store
    /// opened later.
    pub closed spec fn flushed(&self) -> bool {
        engine_flushed(self.engine)
    }

    /// Opens the store kept at `path`, creating it if there is none.
    ///
    /// Whether this succeeds, and what the store then holds, is decided by
    /// what is on disk. A failure is always reported at stage `Open`.
    pub fn open(path: &str) -> (opened: Result<BucketStore, StoreFault>)
        ensures
            opened matches Err(fault) ==> fault.stage == Stage::Open,
    {
        match engine_open(engine_config(path)) {
            Ok(engine) => Ok(BucketStore { engine }),
            Err(fault) => Err(fault_at(Stage::Open, &fault)),
        }
    }

    /// Reads the value stored under `key` in `bucket`.
    ///
    /// Never changes what the store holds. When the engine answers, the
    /// result is exactly the entry, or `None` where there is none. When it
    /// does not, the fault names the call that failed: opening the bucket, or
    /// reading from it.
    pub fn get(&mut self, bucket: &str, key: &[u8]) -> (found: Result<Option<Vec<u8>>, StoreFault>)
        ensures
            final(self)@ == old(self)@,
            match found {
                Ok(value) => bytes_of(value) == entry_at(old(self)@, bucket@, key@),
                Err(fault) => fault.stage == Stage::Bucket || fault.stage == Stage::Read,
            },
    {
        match engine_select(&mut self.engine, bucket) {
            Err(fault) => Err(fault_at(Stage::Bucket, &fault)),
            Ok(()) => {
                let key_bytes = vstd::slice::slice_to_vec(key);
                match engine_get(&self.engine, &key_bytes) {
                    Ok(value) => Ok(value),
                    Err(fault) => Err(fault_at(Stage::Read, &fault)),
                }
            },
        }
    }

    /// Stores `value` under `key` in `bucket`, then flushes the bucket.
    ///
    /// With no fault reported the store holds the new entry and is otherwise
    /// unchanged. A fault at stage `Bucket` means nothing was attempted and
    /// nothing changed; a fault at stage `Write` leaves the contents unknown.
    /// The flush is attempted once the bucket is open, whether or not the
    /// write went through, and its failure is reported separately. Once the
    /// bucket was open and no flush fault is reported, what the store holds
    /// is on disk.
    pub fn put(&mut self, bucket: &str, key: &[u8], value: &[u8]) -> (report: WriteReport)
        ensures
            match report.fault {
                None => final(self)@ == old(self)@.insert((bucket@, key@), value@),
                Some(fault) => {
                    &&& fault.stage == Stage::Bucket || fault.stage == Stage::Write
                    &&& fault.stage == Stage::Bucket ==> final(self)@ == old(self)@
                        && report.flush_fault is None
                },
            },
            report.flush_fault matches Some(fault) ==> fault.stage == Stage::Flush,
            report.flush_fault is None && !(report.fault matches Some(fault) && fault.stage
                == Stage::Bucket) ==> final(self).flushed(),
    {
        match engine_select(&mut self.engine, bucket) {
            Err(fault) => WriteReport {
                fault: Some(fault_at(Stage::Bucket, &fault)),
                flush_fault: None,
            },
            Ok(()) => {
                let key_bytes = vstd::slice::slice_to_vec(key);
                let value_bytes = vstd::slice::slice_to_vec(value);
                let fault = match engine_set(&mut self.engine, &key_bytes, &value_bytes) {
                    Ok(_) => None,
                    Err(fault) => Some(fault_at(Stage::Write, &fault)),
                };
                let flush_fault = self.flush_open_bucket();
                WriteReport { fault, flush_fault }
            },
        }
    }

    /// Removes the entry under `key` in `bucket`, then flushes the bucket.
    ///
    /// With no fault reported the store holds no entry under the key and is
    /// otherwise unchanged; removing a key that has no entry is no fault. A
    /// fault at stage `Bucket` means nothing was attempted and nothing
    /// changed; a fault at stage `Remove` leaves the contents unknown. The
    /// flush is attempted once the bucket is open and its failure is reported
    /// separately. Once the bucket was open and no flush fault is reported,
    /// what the store holds is on disk.
    pub fn delete(&mut self, bucket: &str, key: &[u8]) -> (report: WriteReport)
        ensures
            match report.fault {
                None => final(self)@ == old(self)@.remove((bucket@, key@)),
                Some(fault) => {
                    &&& fault.stage == Stage::Bucket || fault.stage == Stage::Remove
                    &&& fault.stage == Stage::Bucket ==> final(self)@ == old(self)@
                        && report.flush_fault is None
                },
            },
            report.flush_fault matches Some(fault) ==> fault.stage == Stage::Flush,
            report.flush_fault is None && !(report.fault matches Some(fault) && fault.stage
                == Stage::Bucket) ==> final(self).flushed(),
    {
        match engine_select(&mut self.engine, bucket) {
            Err(fault) => WriteReport {
                fault: Some(fault_at(Stage::Bucket, &fault)),
                flush_fault: None,
            },
            Ok(()) => {
                let key_bytes = vstd::slice::slice_to_vec(key);
                let fault = match engine_remove(&mut self.engine, &key_bytes) {
                    Ok(_) => None,
                    Err(fault) => Some(fault_at(Stage::Remove, &fault)),
                };
                let flush_fault = self.flush_open_bucket();
                WriteReport { fault, flush_fault }
            },
        }
    }

    /// Flushes `bucket`, and with it everything written before.
    ///
    /// Never changes what the store holds. `None` means the flush went
    /// through and everything the store holds is on disk; otherwise the fault
    /// names the call that failed: opening the bucket, or flushing it.
    pub fn flush(&mut self, bucket: &str) -> (fault: Option<StoreFault>)
        ensures
            final(self)@ == old(self)@,
            match fault {
                None => final(self).flushed(),
                Some(fault) => fault.stage == Stage::Bucket || fault.stage == Stage::Flush,
            },
    {
        match engine_select(&mut self.engine, bucket) {
            Err(fault) => Some(fault_at(Stage::Bucket, &fault)),
            Ok(()) => self.flush_open_bucket(),
        }
    }

    /// Flushes the bucket that is open, reporting a failure at stage `Flush`.
    fn flush_open_bucket(&mut self) -> (flush_fault: Option<StoreFault>)
        requires
            engine_cursor(old(self).engine) is Some,
        ensures
            final(self)@ == old(self)@,
            match flush_fault {
                None => final(self).flushed(),
                Some(fault) => fault.stage == Stage::Flush,
            },
    {
        match engine_flush(&mut self.engine) {
            Ok(_) => None,
            Err(fault) => Some(fault_at(Stage::Flush, &fault)),
        }
    }
}

/// Reading after a successful write gives back what was written, in any
/// bucket and under any key, and a write changes no other entry.
pub proof fn put_then_get(
    before: Entries,
    bucket: Seq<char>,
    key: Seq<u8>,
    value: Seq<u8>,
    other_bucket: Seq<char>,
    other_key: Seq<u8>,
)
    ensures
        entry_at(before.insert((bucket, key), value), bucket, key) == Some(value),
        (other_bucket, other_key) != (bucket, key) ==> entry_at(
            before.insert((bucket, key), value),
            other_bucket,
            other_key,
        ) == entry_at(before, other_bucket, other_key),
{
}

/// Reading after a successful removal finds nothing, and a removal changes no
/// other entry.
pub proof fn delete_then_get(
    before: Entries,
    bucket: Seq<char>,
    key: Seq<u8>,
    other_bucket: Seq<char>,
    other_key: Seq<u8>,
)
    ensures
        entry_at(before.remove((bucket, key)), bucket, key) is None,
        (other_bucket, other_key) != (bucket, key) ==> entry_at(
            before.remove((bucket, key)),
            other_bucket,
            other_key,
        ) == entry_at(before, other_bucket, other_key),
{
}

} // verus!
