//! Write sessions: accumulate batches under a fixed schema, then commit
//! them as one new dataset version.
//!
//! Until `finish` succeeds, nothing outside the session changes; a commit
//! the storage engine refuses leaves any prior dataset version exactly as
//! it was. Closing a session without committing discards its batches —
//! there is no implicit commit on close.

use vstd::prelude::*;

use crate::batch::Batch;
use crate::batch::BatchV;
use crate::batch::batch_wf;
use crate::batch::clone_batches;
use crate::dataset::DatasetContent;
use crate::dataset::content_wf;
use crate::error::BridgeError;
use crate::schema::FieldV;
use crate::schema::Schema;
use crate::schema::schema_accepts;

verus! {

/// The mathematical value of a write session.
pub struct WriterV {
    pub path: Seq<char>,
    pub schema: Seq<FieldV>,
    pub batches: Seq<BatchV>,
    pub closed: bool,
}

/// A session is well formed when every pending batch is well formed and
/// matches the session's schema — which holds of every session that only
/// ever accepted well-formed batches, since acceptance checks the schema.
pub open spec fn writer_wf(w: WriterV) -> bool {
    forall|i: int|
        0 <= i < w.batches.len() ==> {
            &&& batch_wf(#[trigger] w.batches[i])
            &&& schema_accepts(w.schema, w.batches[i].schema)
        }
}

/// A write session: target path, fixed schema, pending batches, and the
/// closed tombstone.
pub struct LanceWriter {
    path: String,
    schema: Schema,
    batches: Vec<Batch>,
    closed: bool,
}

impl View for LanceWriter {
    type V = WriterV;

    closed spec fn view(&self) -> WriterV {
        WriterV {
            path: self.path@,
            schema: self.schema@,
            batches: self.batches@.map_values(|b: Batch| b@),
            closed: self.closed,
        }
    }
}

impl LanceWriter {
    /// Start a session for `path` under `schema`, with nothing pending.
    pub fn new(path: String, schema: Schema) -> (w: LanceWriter)
        ensures
            w@.path == path@,
            w@.schema == schema@,
            w@.batches.len() == 0,
            !w@.closed,
            writer_wf(w@),
    {
        let w = LanceWriter { path, schema, batches: Vec::new(), closed: false };
        proof {
            assert(w@.batches =~= Seq::<BatchV>::empty());
        }
        w
    }

    /// The session's target path.
    pub fn path(&self) -> (p: &String)
        ensures
            p@ == self@.path,
    {
        &self.path
    }

    /// The session's fixed schema.
    pub fn schema(&self) -> (s: &Schema)
        ensures
            s@ == self@.schema,
    {
        &self.schema
    }

    /// How many batches are pending.
    pub fn num_pending(&self) -> (n: usize)
        ensures
            n == self@.batches.len(),
    {
        self.batches.len()
    }

    /// Append one batch. The batch's column count, names and types must
    /// match the session's schema exactly; a mismatch is rejected without
    /// touching what has accumulated, and a closed session accepts
    /// nothing.
    pub fn write_batch(&mut self, batch: Batch) -> (r: Result<(), BridgeError>)
        ensures
            old(self)@.closed ==> {
                &&& r matches Err(e) && e == BridgeError::InvalidHandle
                &&& final(self)@ == old(self)@
            },
            !old(self)@.closed && schema_accepts(old(self)@.schema, batch@.schema) ==> {
                &&& r is Ok
                &&& final(self)@.batches == old(self)@.batches.push(batch@)
                &&& final(self)@.schema == old(self)@.schema
                &&& final(self)@.path == old(self)@.path
                &&& !final(self)@.closed
            },
            !old(self)@.closed && !schema_accepts(old(self)@.schema, batch@.schema) ==> {
                &&& r matches Err(e) && e == BridgeError::SchemaMismatch
                &&& final(self)@ == old(self)@
            },
            writer_wf(old(self)@) && batch_wf(batch@) ==> writer_wf(final(self)@),
    {
        if self.closed {
            return Err(BridgeError::InvalidHandle);
        }
        if !self.schema.accepts(batch.schema()) {
            return Err(BridgeError::SchemaMismatch);
        }
        self.batches.push(batch);
        proof {
            assert(self@.batches =~= old(self)@.batches.push(batch@));
        }
        Ok(())
    }

    /// Commit the pending batches to `store` as one new dataset version.
    ///
    /// With nothing pending this is a no-op success. Otherwise the whole
    /// accumulation stands or falls with the engine's verdict
    /// (`engine_accepts`): accepted, the store holds exactly the appended
    /// batches under the session's schema; refused, the store — any prior
    /// version included — is left exactly as it was and a write error is
    /// reported. Either way the pending batches are handed off and the
    /// session is drained.
    pub fn finish(&mut self, store: &mut Option<DatasetContent>, engine_accepts: bool) -> (r:
        Result<(), BridgeError>)
        ensures
            old(self)@.closed ==> {
                &&& r matches Err(e) && e == BridgeError::InvalidHandle
                &&& *final(store) == *old(store)
                &&& final(self)@ == old(self)@
            },
            !old(self)@.closed && old(self)@.batches.len() == 0 ==> {
                &&& r is Ok
                &&& *final(store) == *old(store)
                &&& final(self)@ == old(self)@
            },
            !old(self)@.closed && old(self)@.batches.len() > 0 && engine_accepts ==> {
                &&& r is Ok
                &&& (*final(store)) matches Some(c) && c@.schema == old(self)@.schema && c@.batches
                    == old(self)@.batches
                &&& final(self)@.batches.len() == 0
                &&& final(self)@.schema == old(self)@.schema
                &&& final(self)@.path == old(self)@.path
                &&& !final(self)@.closed
            },
            !old(self)@.closed && old(self)@.batches.len() > 0 && engine_accepts && writer_wf(
                old(self)@,
            ) ==> ((*final(store)) matches Some(c) && content_wf(c@)),
            !old(self)@.closed && old(self)@.batches.len() > 0 && !engine_accepts ==> {
                &&& r matches Err(e) && e == BridgeError::WriteError
                &&& *final(store) == *old(store)
                &&& final(self)@.batches.len() == 0
                &&& final(self)@.schema == old(self)@.schema
                &&& final(self)@.path == old(self)@.path
                &&& !final(self)@.closed
            },
    {
        if self.closed {
            return Err(BridgeError::InvalidHandle);
        }
        if self.batches.len() == 0 {
            return Ok(());
        }
        let drained = clone_batches(&self.batches);
        self.batches = Vec::new();
        proof {
            assert(self@.batches =~= Seq::<BatchV>::empty());
        }
        if engine_accepts {
            let content = DatasetContent { schema: self.schema.clone(), batches: drained };
            proof {
                assert(content@.batches == old(self)@.batches);
            }
            *store = Some(content);
            Ok(())
        } else {
            Err(BridgeError::WriteError)
        }
    }

    /// Close the session, discarding whatever is pending; nothing is
    /// committed on the way out.
    pub fn close(&mut self)
        ensures
            final(self)@.closed,
            final(self)@.batches.len() == 0,
            final(self)@.schema == old(self)@.schema,
            final(self)@.path == old(self)@.path,
    {
        self.batches = Vec::new();
        self.closed = true;
        proof {
            assert(self@.batches =~= Seq::<BatchV>::empty());
        }
    }
}

} // verus!
