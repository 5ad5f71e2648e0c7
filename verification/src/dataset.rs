//! Datasets and the handles that own them.
//!
//! A dataset's content is a schema snapshot and the ordered batches a scan
//! of it delivers. A handle pairs that content with an explicit open flag:
//! closing tombstones the handle, and every later operation on it reports
//! an invalid handle instead of misbehaving.

use vstd::prelude::*;

use crate::batch::Batch;
use crate::batch::BatchV;
use crate::batch::batch_wf;
use crate::batch::clone_batches;
use crate::cursor::LanceStream;
use crate::error::BridgeError;
use crate::schema::FieldV;
use crate::schema::Schema;
use crate::schema::schema_accepts;

verus! {

/// The mathematical value of a dataset's content.
pub struct ContentV {
    pub schema: Seq<FieldV>,
    pub batches: Seq<BatchV>,
}

/// One dataset version: the schema snapshot and the batches a full scan
/// delivers, in scan order.
pub struct DatasetContent {
    pub schema: Schema,
    pub batches: Vec<Batch>,
}

impl View for DatasetContent {
    type V = ContentV;

    open spec fn view(&self) -> ContentV {
        ContentV {
            schema: self.schema@,
            batches: self.batches@.map_values(|b: Batch| b@),
        }
    }
}

/// A dataset's content is well formed when every batch is well formed and
/// carries the dataset's schema.
pub open spec fn content_wf(c: ContentV) -> bool {
    forall|i: int|
        0 <= i < c.batches.len() ==> {
            &&& batch_wf(#[trigger] c.batches[i])
            &&& schema_accepts(c.schema, c.batches[i].schema)
        }
}

impl Clone for DatasetContent {
    fn clone(&self) -> (r: Self)
        ensures
            r@ == self@,
    {
        DatasetContent { schema: self.schema.clone(), batches: clone_batches(&self.batches) }
    }
}

/// The mathematical value of a dataset handle.
pub struct HandleV {
    pub content: ContentV,
    pub is_open: bool,
}

/// An opened dataset plus its open/closed guard. The guard is the handle's
/// lifetime contract: after `close`, every operation fails with an
/// invalid-handle error rather than touching the content.
pub struct DatasetHandle {
    content: DatasetContent,
    is_open: bool,
}

impl View for DatasetHandle {
    type V = HandleV;

    closed spec fn view(&self) -> HandleV {
        HandleV { content: self.content@, is_open: self.is_open }
    }
}

impl DatasetHandle {
    /// Take ownership of opened dataset content; the handle starts open
    /// with the content's schema as its snapshot.
    pub fn open(content: DatasetContent) -> (h: DatasetHandle)
        ensures
            h@.is_open,
            h@.content == content@,
    {
        DatasetHandle { content, is_open: true }
    }

    /// Whether the handle is still open.
    pub fn is_open(&self) -> (r: bool)
        ensures
            r == self@.is_open,
    {
        self.is_open
    }

    /// The schema snapshot captured at open time; an invalid-handle error
    /// once the handle is closed.
    pub fn schema(&self) -> (r: Result<&Schema, BridgeError>)
        ensures
            self@.is_open ==> (r matches Ok(s) && s@ == self@.content.schema),
            !self@.is_open ==> (r matches Err(e) && e == BridgeError::InvalidHandle),
    {
        if self.is_open {
            Ok(&self.content.schema)
        } else {
            Err(BridgeError::InvalidHandle)
        }
    }

    /// Close the handle. Idempotent: a second close changes nothing more.
    /// Already-materialized batches stay valid; only operations through
    /// this handle are refused from here on.
    pub fn close(&mut self)
        ensures
            !final(self)@.is_open,
            final(self)@.content == old(self)@.content,
    {
        self.is_open = false;
    }

    /// Start a new scan: a cursor positioned before the first batch. Each
    /// cursor owns its own copy of the scan sequence, so separate cursors
    /// over one handle never disturb each other's position.
    pub fn create_stream(&self) -> (r: Result<LanceStream, BridgeError>)
        ensures
            self@.is_open ==> (r matches Ok(s) && s@.pos == 0 && s@.batches
                == self@.content.batches),
            !self@.is_open ==> (r matches Err(e) && e == BridgeError::InvalidHandle),
    {
        if self.is_open {
            Ok(LanceStream::new(&self.content))
        } else {
            Err(BridgeError::InvalidHandle)
        }
    }
}

} // verus!
