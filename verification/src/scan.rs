//! The host table-function adapter: bind, init, produce.
//!
//! `bind` translates a dataset schema into host output columns, failing
//! fast on any unsupported field before a single row is produced. `init`
//! opens a cursor. `func` — produce — turns the cursor's batch-at-a-time
//! pulls into row chunks of at most the requested capacity, visiting every
//! row exactly once, in order, however the chunk capacity relates to the
//! underlying batch sizes.

use vstd::prelude::*;

use crate::batch::Batch;
use crate::batch::BatchV;
use crate::batch::CellV;
use crate::batch::CellValue;
use crate::batch::batch_wf;
use crate::batch::batches_rows;
use crate::batch::lemma_batches_rows_split;
use crate::batch::lemma_batches_rows_take_succ;
use crate::batch::lemma_rows_left_at;
use crate::batch::lemma_rows_left_at_end;
use crate::batch::rows_left_in_batch;
use crate::batch::rows_of;
use crate::cursor::LanceStream;
use crate::dataset::ContentV;
use crate::dataset::DatasetContent;
use crate::error::BridgeError;
use crate::schema::Schema;
use crate::types::HostType;
use crate::types::arrow_to_duckdb_type;
use crate::types::spec_host_type;
use crate::types::type_supported;

verus! {

/// The row-chunk capacity used when the host names none.
pub const DEFAULT_BATCH_SIZE: usize = 8192;

/// One host-visible output column.
#[derive(Debug)]
pub struct HostColumn {
    pub name: String,
    pub htype: HostType,
}

/// The mathematical value of a `HostColumn`.
pub struct HostColumnV {
    pub name: Seq<char>,
    pub htype: HostType,
}

impl View for HostColumn {
    type V = HostColumnV;

    open spec fn view(&self) -> HostColumnV {
        HostColumnV { name: self.name@, htype: self.htype }
    }
}

/// What `bind` produces: immutable for the rest of the scan.
#[derive(Debug)]
pub struct LanceScanBindData {
    pub path: String,
    pub schema: Schema,
    pub host_columns: Vec<HostColumn>,
    pub batch_size: usize,
}

/// Per-scan cursor state: the cursor, the batch currently being copied
/// out, and the row offset within it. The three are one unit — they are
/// only ever read and advanced together, so an offset can never disagree
/// with the batch it indexes.
pub struct LanceScanInitData {
    cursor: LanceStream,
    current: Option<Batch>,
    row_offset: usize,
}

/// The mathematical value of the per-scan state.
pub struct InitV {
    pub batches: Seq<BatchV>,
    pub pos: nat,
    pub current: Option<BatchV>,
    pub row_offset: nat,
}

impl View for LanceScanInitData {
    type V = InitV;

    closed spec fn view(&self) -> InitV {
        InitV {
            batches: self.cursor@.batches,
            pos: self.cursor@.pos,
            current: match self.current {
                Some(b) => Some(b@),
                None => None,
            },
            row_offset: self.row_offset as nat,
        }
    }
}

/// Well-formedness of the per-scan state: the position is within the
/// scan, the batch being copied is the one the cursor handed out last and
/// its offset is within it, and every batch of the scan is well formed.
pub open spec fn init_wf(v: InitV) -> bool {
    &&& v.pos <= v.batches.len()
    &&& match v.current {
        Some(b) => v.pos >= 1 && b == v.batches[v.pos - 1] && v.row_offset <= b.num_rows,
        None => v.row_offset == 0,
    }
    &&& forall|i: int| 0 <= i < v.batches.len() ==> batch_wf(#[trigger] v.batches[i])
}

/// How many rows of the scan have been handed out so far.
pub open spec fn rows_consumed(v: InitV) -> int {
    match v.current {
        Some(_) => batches_rows(v.batches.take(v.pos - 1)).len() + v.row_offset as int,
        None => batches_rows(v.batches.take(v.pos as int)).len() as int,
    }
}

/// The consumed count always lies between zero and the scan's total row
/// count.
pub proof fn lemma_consumed_in_range(v: InitV)
    requires
        init_wf(v),
    ensures
        0 <= rows_consumed(v) <= batches_rows(v.batches).len(),
{
    match v.current {
        Some(b) => {
            lemma_batches_rows_take_succ(v.batches, v.pos - 1);
            lemma_batches_rows_split(v.batches, v.pos as int);
            assert(rows_of(b).len() == b.num_rows);
        },
        None => {
            lemma_batches_rows_split(v.batches, v.pos as int);
        },
    }
}

/// The rows of a produced chunk, as mathematical values.
pub open spec fn chunk_view(rows: Vec<Vec<CellValue>>) -> Seq<Seq<CellV>> {
    rows@.map_values(|row: Vec<CellValue>| row@.map_values(|v: CellValue| v@))
}

/// Everything one produce call guarantees: the chunk is exactly the next
/// stretch of the scan's rows; its length is exactly the smaller of the
/// capacity and the rows left in the batch the next row falls in (with
/// zero-row batches skipped); the consumed count advances by the chunk's
/// length; and the chunk is empty exactly when the scan had already been
/// fully consumed.
pub open spec fn produce_post(pre: InitV, post: InitV, emitted: Seq<Seq<CellV>>, capacity: int) -> bool {
    &&& init_wf(post)
    &&& post.batches == pre.batches
    &&& emitted.len() == vstd::math::min(
        capacity,
        rows_left_in_batch(pre.batches, rows_consumed(pre)),
    )
    &&& 0 <= rows_consumed(pre)
    &&& rows_consumed(pre) + emitted.len() <= batches_rows(pre.batches).len()
    &&& emitted == batches_rows(pre.batches).subrange(
        rows_consumed(pre),
        rows_consumed(pre) + emitted.len(),
    )
    &&& rows_consumed(post) == rows_consumed(pre) + emitted.len()
    &&& (emitted.len() == 0 <==> rows_consumed(pre) == batches_rows(pre.batches).len())
}

impl LanceScanInitData {
    /// Whether the scan must move to another batch before more rows can
    /// be copied: there is no batch in hand, or the one in hand is spent.
    fn needs_advance(&self) -> (r: bool)
        ensures
            r == match self@.current {
                Some(b) => self@.row_offset >= b.num_rows,
                None => true,
            },
    {
        match &self.current {
            Some(b) => self.row_offset >= b.num_rows(),
            None => true,
        }
    }
}

/// The scan adapter: the three phases of the host's table-function
/// protocol over a dataset handle, a cursor and the type mapper.
pub struct LanceScanVTab;

impl LanceScanVTab {
    /// Bind a scan: translate every schema field into a host output
    /// column, or fail the whole bind on the first unsupported field, with
    /// the offending type named — before any row is produced.
    pub fn bind(path: String, schema: &Schema, batch_size_param: Option<usize>) -> (r: Result<
        LanceScanBindData,
        BridgeError,
    >)
        ensures
            r is Ok <==> (forall|i: int|
                0 <= i < schema@.len() ==> type_supported((#[trigger] schema@[i]).dtype)),
            r matches Ok(bd) ==> {
                &&& bd.path@ == path@
                &&& bd.schema@ == schema@
                &&& bd.batch_size == (match batch_size_param {
                    Some(n) => n,
                    None => DEFAULT_BATCH_SIZE,
                })
                &&& bd.host_columns@.len() == schema@.len()
                &&& forall|i: int|
                    0 <= i < schema@.len() ==> {
                        &&& (#[trigger] bd.host_columns@[i])@.name == schema@[i].name
                        &&& spec_host_type(schema@[i].dtype) == Ok::<HostType, BridgeError>(
                            bd.host_columns@[i]@.htype,
                        )
                    }
            },
            r matches Err(e) ==> (exists|i: int|
                {
                    &&& 0 <= i < schema@.len()
                    &&& !type_supported((#[trigger] schema@[i]).dtype)
                    &&& e == BridgeError::UnsupportedType(schema@[i].dtype)
                    &&& forall|j: int| 0 <= j < i ==> type_supported((#[trigger] schema@[j]).dtype)
                }),
    {
        let mut host_columns: Vec<HostColumn> = Vec::new();
        let n = schema.num_fields();
        for i in 0..n
            invariant
                n == schema@.len(),
                host_columns@.len() == i,
                forall|j: int| 0 <= j < i ==> type_supported((#[trigger] schema@[j]).dtype),
                forall|j: int|
                    0 <= j < i ==> {
                        &&& (#[trigger] host_columns@[j])@.name == schema@[j].name
                        &&& spec_host_type(schema@[j].dtype) == Ok::<HostType, BridgeError>(
                            host_columns@[j]@.htype,
                        )
                    },
        {
            let field = &schema.fields[i];
            match arrow_to_duckdb_type(&field.dtype) {
                Ok(htype) => {
                    host_columns.push(HostColumn { name: field.name.clone(), htype });
                },
                Err(e) => {
                    proof {
                        assert(!type_supported(schema@[i as int].dtype));
                        assert(e == BridgeError::UnsupportedType(schema@[i as int].dtype));
                    }
                    return Err(e);
                },
            }
        }
        let batch_size = match batch_size_param {
            Some(sz) => sz,
            None => DEFAULT_BATCH_SIZE,
        };
        Ok(LanceScanBindData { path, schema: schema.clone(), host_columns, batch_size })
    }

    /// Initialize a scan: a fresh cursor over the dataset, no batch in
    /// hand, nothing consumed.
    pub fn init(dataset: &DatasetContent) -> (r: LanceScanInitData)
        requires
            forall|i: int|
                0 <= i < dataset@.batches.len() ==> batch_wf(#[trigger] dataset@.batches[i]),
        ensures
            init_wf(r@),
            r@.batches == dataset@.batches,
            rows_consumed(r@) == 0,
    {
        let r = LanceScanInitData {
            cursor: LanceStream::new(dataset),
            current: None,
            row_offset: 0,
        };
        proof {
            assert(r@.batches.take(0) =~= Seq::<BatchV>::empty());
            assert(batches_rows(Seq::<BatchV>::empty()) == Seq::<Seq<CellV>>::empty());
        }
        r
    }

    /// Produce the next row chunk: up to `capacity` rows, taken from the
    /// batch under the cursor, pulling the next batch — and skipping
    /// zero-row batches without ending the scan — whenever the current one
    /// is spent. An empty chunk means, and only means, that every row has
    /// been delivered.
    #[verifier::loop_isolation(false)]
    pub fn func(init_data: &mut LanceScanInitData, capacity: usize) -> (rows: Vec<Vec<CellValue>>)
        requires
            capacity >= 1,
            init_wf(old(init_data)@),
        ensures
            produce_post(old(init_data)@, final(init_data)@, chunk_view(rows), capacity as int),
    {
        let ghost pre = old(init_data)@;
        let ghost bs = pre.batches;
        let ghost c0 = rows_consumed(pre);
        proof {
            lemma_consumed_in_range(pre);
        }
        // Find the next batch with unconsumed rows; pull past spent and
        // zero-row batches without ending the scan.
        while init_data.needs_advance()
            invariant
                init_wf(init_data@),
                init_data@.batches == bs,
                rows_consumed(init_data@) == c0,
            decreases
                    2 * (init_data@.batches.len() - init_data@.pos) + (if init_data@.current
                        is Some {
                        2int
                    } else {
                        1int
                    }),
        {
            let mut spent = false;
            match &init_data.current {
                Some(_) => {
                    spent = true;
                },
                None => {},
            }
            if spent {
                // The batch in hand is spent (or had zero rows): drop it
                // and pull the next on the following turn.
                proof {
                    let v = init_data@;
                    lemma_batches_rows_take_succ(bs, v.pos - 1);
                    assert(rows_of(v.batches[v.pos - 1]).len() == v.batches[v.pos - 1].num_rows);
                }
                init_data.current = None;
                init_data.row_offset = 0;
            } else {
                let ghost pos_before = init_data@.pos;
                match init_data.cursor.next() {
                    Some(b) => {
                        init_data.current = Some(b);
                        init_data.row_offset = 0;
                        proof {
                            assert(init_data@.batches.take(pos_before + 1 - 1) =~= bs.take(
                                pos_before as int,
                            ));
                        }
                    },
                    None => {
                        // End of scan: nothing in hand, cursor exhausted.
                        let empty_chunk: Vec<Vec<CellValue>> = Vec::new();
                        proof {
                            assert(init_data@.pos == bs.len());
                            assert(bs.take(bs.len() as int) =~= bs);
                            assert(rows_consumed(init_data@) == batches_rows(bs).len());
                            lemma_rows_left_at_end(bs);
                            assert(chunk_view(empty_chunk) =~= Seq::<Seq<CellV>>::empty());
                            assert(batches_rows(bs).subrange(c0, c0) =~= Seq::<
                                Seq<CellV>,
                            >::empty());
                        }
                        return empty_chunk;
                    },
                }
            }
        }
        // Copy up to `capacity` rows out of the batch in hand.
        let ghost v_active = init_data@;
        let ghost bv = v_active.current->0;
        let ro = init_data.row_offset;
        let b = match &init_data.current {
            Some(b) => b,
            None => {
                proof {
                    assert(false);
                }
                return Vec::new();
            },
        };
        let b_rows = b.num_rows();
        let remaining = b_rows - ro;
        let n = if remaining < capacity {
            remaining
        } else {
            capacity
        };
        let mut rows: Vec<Vec<CellValue>> = Vec::new();
        for i in 0..n
            invariant
                n <= b_rows - ro,
                b_rows == bv.num_rows,
                ro + n <= b_rows,
                b@ == bv,
                batch_wf(bv),
                rows@.len() == i,
                forall|j: int|
                    0 <= j < i ==> (#[trigger] rows@[j])@.map_values(|v: CellValue| v@) == rows_of(
                        bv,
                    )[ro + j],
        {
            proof {
                assert(rows_of(bv)[ro + i] == crate::batch::row_of(bv, ro + i));
            }
            let row = b.row(ro + i);
            rows.push(row);
        }
        proof {
            // The copied stretch is exactly the next stretch of the whole
            // scan's row sequence.
            let k = v_active.pos - 1;
            lemma_batches_rows_split(bs, k);
            lemma_batches_rows_take_succ(bs, k);
            lemma_batches_rows_split(bs, v_active.pos as int);
            assert(bs.skip(k)[0] == bs[k]);
            assert(bs.skip(k).skip(1) =~= bs.skip(v_active.pos as int));
            assert(batches_rows(bs.skip(k)) == rows_of(bv) + batches_rows(
                bs.skip(v_active.pos as int),
            ));
            assert(c0 == batches_rows(bs.take(k)).len() + ro);
            assert(rows_of(bv).len() == bv.num_rows);
            lemma_rows_left_at(bs, k, ro as int);
            assert(rows_left_in_batch(bs, c0) == bv.num_rows - ro);
            assert(chunk_view(rows) =~= batches_rows(bs).subrange(c0, c0 + n));
        }
        init_data.row_offset = ro + n;
        proof {
            assert(rows_consumed(init_data@) == c0 + n);
            assert(n >= 1);
            assert(c0 + n <= batches_rows(bs).len());
        }
        rows
    }
}


/// The mathematical value of a streamed produce state: every batch the
/// scan has delivered so far, in order, and where the copying stands.
pub struct StreamScanV {
    pub history: Seq<BatchV>,
    pub in_hand: bool,
    pub row_offset: nat,
    pub ended: bool,
}

/// How many rows of the streamed scan have been handed out so far.
pub open spec fn stream_consumed(v: StreamScanV) -> int {
    if v.in_hand {
        batches_rows(v.history).len() - (v.history.last().num_rows - v.row_offset)
    } else {
        batches_rows(v.history).len() as int
    }
}

/// Whether the next produce turn must pull another batch from the source
/// first: the scan has not ended, and there is no batch in hand or the
/// one in hand is spent.
pub open spec fn stream_needs_batch(v: StreamScanV) -> bool {
    !v.ended && (!v.in_hand || v.row_offset >= v.history.last().num_rows)
}

/// The produce side of a streamed scan: it holds at most one batch at a
/// time — the one the source delivered last — and slices row chunks out
/// of it, so a driver can pull one batch per produce call and keep peak
/// memory at one batch. The driver asks `wants_batch`, feeds each pull's
/// outcome in through `accept_batch` or `accept_end`, and then calls
/// `emit`.
pub struct StreamScan {
    current: Option<Batch>,
    row_offset: usize,
    ended: bool,
    history: Ghost<Seq<BatchV>>,
}

impl View for StreamScan {
    type V = StreamScanV;

    closed spec fn view(&self) -> StreamScanV {
        StreamScanV {
            history: self.history@,
            in_hand: self.current is Some,
            row_offset: self.row_offset as nat,
            ended: self.ended,
        }
    }
}

impl StreamScan {
    /// The state's internal invariant: the batch in hand is the last one
    /// delivered, well formed, with the offset inside it; after the end
    /// signal nothing unspent is in hand.
    pub closed spec fn inv(&self) -> bool {
        &&& match self.current {
            Some(b) => {
                &&& self.history@.len() >= 1
                &&& b@ == self.history@.last()
                &&& self.row_offset <= b@.num_rows
                &&& batch_wf(b@)
            },
            None => self.row_offset == 0,
        }
        &&& self.ended ==> match self.current {
            Some(b) => self.row_offset == b@.num_rows,
            None => true,
        }
    }

    /// A fresh streamed scan: nothing delivered, nothing consumed.
    pub fn new() -> (s: StreamScan)
        ensures
            s.inv(),
            s@.history.len() == 0,
            !s@.in_hand,
            !s@.ended,
            stream_consumed(s@) == 0,
    {
        let s = StreamScan {
            current: None,
            row_offset: 0,
            ended: false,
            history: Ghost(Seq::empty()),
        };
        proof {
            assert(batches_rows(Seq::<BatchV>::empty()) == Seq::<Seq<CellV>>::empty());
        }
        s
    }

    /// Whether the driver must pull one more batch before the next
    /// `emit`.
    pub fn wants_batch(&self) -> (r: bool)
        requires
            self.inv(),
        ensures
            r == stream_needs_batch(self@),
    {
        if self.ended {
            return false;
        }
        match &self.current {
            Some(b) => self.row_offset >= b.num_rows(),
            None => true,
        }
    }

    /// Feed in the batch the source just delivered. The spent batch in
    /// hand, if any, is dropped; nothing already consumed changes.
    pub fn accept_batch(&mut self, batch: Batch)
        requires
            old(self).inv(),
            stream_needs_batch(old(self)@),
            batch_wf(batch@),
        ensures
            final(self).inv(),
            final(self)@.history == old(self)@.history.push(batch@),
            final(self)@.in_hand,
            final(self)@.row_offset == 0,
            !final(self)@.ended,
            stream_consumed(final(self)@) == stream_consumed(old(self)@),
    {
        let ghost old_history = self.history@;
        proof {
            lemma_batches_rows_take_succ(old_history.push(batch@), old_history.len() as int);
            assert(old_history.push(batch@).take(old_history.len() as int) =~= old_history);
            assert(old_history.push(batch@).take(old_history.len() as int + 1) =~= old_history.push(
                batch@,
            ));
            assert(rows_of(batch@).len() == batch@.num_rows);
        }
        self.history = Ghost(self.history@.push(batch@));
        self.current = Some(batch);
        self.row_offset = 0;
    }

    /// Feed in the source's end-of-data signal; the scan is terminal from
    /// here on and `emit` keeps returning empty chunks.
    pub fn accept_end(&mut self)
        requires
            old(self).inv(),
            stream_needs_batch(old(self)@),
        ensures
            final(self).inv(),
            final(self)@.history == old(self)@.history,
            final(self)@.ended,
            stream_consumed(final(self)@) == stream_consumed(old(self)@),
    {
        self.ended = true;
    }

    /// Produce the next row chunk out of the batch in hand: exactly the
    /// smaller of `capacity` and the rows left in it — the next stretch
    /// of the delivered rows, in order. After the end signal the chunk is
    /// empty, and only then.
    pub fn emit(&mut self, capacity: usize) -> (rows: Vec<Vec<CellValue>>)
        requires
            capacity >= 1,
            old(self).inv(),
            !stream_needs_batch(old(self)@),
        ensures
            final(self).inv(),
            final(self)@.history == old(self)@.history,
            final(self)@.ended == old(self)@.ended,
            chunk_view(rows).len() == vstd::math::min(
                capacity as int,
                rows_left_in_batch(old(self)@.history, stream_consumed(old(self)@)),
            ),
            chunk_view(rows) == batches_rows(old(self)@.history).subrange(
                stream_consumed(old(self)@),
                stream_consumed(old(self)@) + rows@.len(),
            ),
            stream_consumed(final(self)@) == stream_consumed(old(self)@) + rows@.len(),
            !stream_needs_batch(final(self)@) ==> final(self)@.ended || rows@.len() == capacity,
            (rows@.len() == 0 <==> old(self)@.ended),
            rows@.len() == 0 ==> stream_consumed(old(self)@) == batches_rows(
                old(self)@.history,
            ).len(),
    {
        let ghost pre = self@;
        let ghost history = pre.history;
        let ghost c0 = stream_consumed(pre);
        let mut unspent_rows: usize = 0;
        let mut has_unspent = false;
        match &self.current {
            Some(b) => {
                if self.row_offset < b.num_rows() {
                    unspent_rows = b.num_rows();
                    has_unspent = true;
                }
            },
            None => {},
        }
        if !has_unspent {
            // Only the end signal reaches here: otherwise the driver had
            // to pull first.
            let empty_chunk: Vec<Vec<CellValue>> = Vec::new();
            proof {
                assert(c0 == batches_rows(history).len());
                lemma_rows_left_at_end(history);
                assert(chunk_view(empty_chunk) =~= Seq::<Seq<CellV>>::empty());
                assert(batches_rows(history).subrange(c0, c0) =~= Seq::<Seq<CellV>>::empty());
            }
            return empty_chunk;
        }
        let ghost bv = history.last();
        let ghost k = history.len() - 1;
        let ro = self.row_offset;
        let b = match &self.current {
            Some(b) => b,
            None => {
                proof {
                    assert(false);
                }
                return Vec::new();
            },
        };
        let remaining = unspent_rows - ro;
        let n = if remaining < capacity {
            remaining
        } else {
            capacity
        };
        let mut rows: Vec<Vec<CellValue>> = Vec::new();
        for i in 0..n
            invariant
                n <= unspent_rows - ro,
                unspent_rows == bv.num_rows,
                ro + n <= unspent_rows,
                b@ == bv,
                batch_wf(bv),
                rows@.len() == i,
                forall|j: int|
                    0 <= j < i ==> (#[trigger] rows@[j])@.map_values(|v: CellValue| v@) == rows_of(
                        bv,
                    )[ro + j],
            decreases n - i,
        {
            proof {
                assert(rows_of(bv)[ro + i] == crate::batch::row_of(bv, ro + i));
            }
            let row = b.row(ro + i);
            rows.push(row);
        }
        proof {
            lemma_batches_rows_take_succ(history, k);
            assert(history.take(k + 1) =~= history);
            assert(batches_rows(history) == batches_rows(history.take(k)) + rows_of(bv));
            assert(rows_of(bv).len() == bv.num_rows);
            assert(c0 == batches_rows(history.take(k)).len() + ro);
            lemma_rows_left_at(history, k, ro as int);
            assert(rows_left_in_batch(history, c0) == bv.num_rows - ro);
            assert(chunk_view(rows) =~= batches_rows(history).subrange(c0, c0 + n));
        }
        self.row_offset = ro + n;
        proof {
            assert(stream_consumed(self@) == c0 + n);
        }
        rows
    }
}


/// A chunk carved out of the rows delivered so far is the same stretch of
/// the rows of any longer delivery: later batches only append rows.
pub proof fn lemma_stream_chunk_extends(shorter: Seq<BatchV>, longer: Seq<BatchV>, lo: int, hi: int)
    requires
        shorter.len() <= longer.len(),
        shorter == longer.take(shorter.len() as int),
        0 <= lo <= hi <= batches_rows(shorter).len(),
    ensures
        batches_rows(shorter).subrange(lo, hi) == batches_rows(longer).subrange(lo, hi),
{
    lemma_batches_rows_split(longer, shorter.len() as int);
    assert(batches_rows(shorter).subrange(lo, hi) =~= batches_rows(longer).subrange(lo, hi));
}

/// Everything one whole produce turn of a streamed scan guarantees, from
/// the state before its pulls to the state after its emit: the history
/// only grows, the chunk is exactly the next stretch of the delivered
/// rows, the consumed count advances by the chunk's length, and an empty
/// chunk certifies that the source ended and every delivered row is out.
pub open spec fn stream_turn_post(
    pre: StreamScanV,
    post: StreamScanV,
    emitted: Seq<Seq<CellV>>,
    capacity: int,
) -> bool {
    &&& pre.history.len() <= post.history.len()
    &&& pre.history == post.history.take(pre.history.len() as int)
    &&& emitted.len() <= capacity
    &&& 0 <= stream_consumed(pre)
    &&& stream_consumed(pre) + emitted.len() <= batches_rows(post.history).len()
    &&& emitted == batches_rows(post.history).subrange(
        stream_consumed(pre),
        stream_consumed(pre) + emitted.len(),
    )
    &&& stream_consumed(post) == stream_consumed(pre) + emitted.len()
    &&& (emitted.len() == 0 ==> post.ended && stream_consumed(pre) == batches_rows(
        post.history,
    ).len())
}

/// Every state of a streamed run holds a prefix of the final delivery.
proof fn lemma_stream_history_prefix(
    states: Seq<StreamScanV>,
    chunks: Seq<Seq<Seq<CellV>>>,
    capacity: int,
    k: int,
)
    requires
        states.len() == chunks.len() + 1,
        forall|i: int|
            0 <= i < chunks.len() ==> stream_turn_post(
                #[trigger] states[i],
                states[i + 1],
                chunks[i],
                capacity,
            ),
        0 <= k <= chunks.len(),
    ensures
        states[k].history.len() <= states[chunks.len() as int].history.len(),
        states[k].history == states[chunks.len() as int].history.take(
            states[k].history.len() as int,
        ),
    decreases chunks.len() - k,
{
    let n = chunks.len() as int;
    if k == n {
        assert(states[n].history.take(states[n].history.len() as int) =~= states[n].history);
    } else {
        assert(stream_turn_post(states[k], states[k + 1], chunks[k], capacity));
        lemma_stream_history_prefix(states, chunks, capacity, k + 1);
        assert(states[n].history.take(states[k + 1].history.len() as int).take(
            states[k].history.len() as int,
        ) =~= states[n].history.take(states[k].history.len() as int));
    }
}

/// The running prefix of a streamed run: after `k` produce turns, the
/// chunks seen so far are exactly the first `stream_consumed` rows of the
/// final delivery.
#[verifier::rlimit(50)]
proof fn lemma_stream_pagination_prefix(
    states: Seq<StreamScanV>,
    chunks: Seq<Seq<Seq<CellV>>>,
    capacity: int,
    k: int,
)
    requires
        states.len() == chunks.len() + 1,
        states[0].history.len() == 0,
        stream_consumed(states[0]) == 0,
        forall|i: int|
            0 <= i < chunks.len() ==> stream_turn_post(
                #[trigger] states[i],
                states[i + 1],
                chunks[i],
                capacity,
            ),
        0 <= k <= chunks.len(),
    ensures
        stream_consumed(states[k]) == chunks.take(k).flatten().len(),
        chunks.take(k).flatten() == batches_rows(
            states[chunks.len() as int].history,
        ).subrange(0, stream_consumed(states[k])),
    decreases k,
{
    let n = chunks.len() as int;
    let full = states[n].history;
    if k == 0 {
        assert(chunks.take(0) =~= Seq::<Seq<Seq<CellV>>>::empty());
        assert(chunks.take(0).flatten() =~= Seq::<Seq<CellV>>::empty());
        assert(batches_rows(full).subrange(0, 0) =~= Seq::<Seq<CellV>>::empty());
    } else {
        lemma_stream_pagination_prefix(states, chunks, capacity, k - 1);
        assert(stream_turn_post(states[k - 1], states[k], chunks[k - 1], capacity));
        let c_prev = stream_consumed(states[k - 1]);
        let c_now = stream_consumed(states[k]);
        // Lift the chunk, stated over the delivery as of turn k, to the
        // final delivery.
        lemma_stream_history_prefix(states, chunks, capacity, k);
        lemma_stream_chunk_extends(states[k].history, full, c_prev, c_now);
        assert(chunks[k - 1] == batches_rows(full).subrange(c_prev, c_now));
        lemma_stream_history_prefix(states, chunks, capacity, k - 1);
        lemma_batches_rows_split(full, states[k].history.len() as int);
        assert(chunks.take(k) =~= chunks.take(k - 1).push(chunks[k - 1]));
        chunks.take(k - 1).lemma_flatten_push(chunks[k - 1]);
        assert(batches_rows(full).subrange(0, c_prev) + batches_rows(full).subrange(
            c_prev,
            c_now,
        ) =~= batches_rows(full).subrange(0, c_now));
    }
}

/// Pagination correctness for the streamed scan: a run of produce turns
/// that starts fresh and ends with an empty chunk has enumerated every
/// delivered row exactly once, in delivery order — no duplication, no
/// omission — however the capacity relates to the batch sizes.
pub proof fn lemma_stream_pagination_enumerates(
    states: Seq<StreamScanV>,
    chunks: Seq<Seq<Seq<CellV>>>,
    capacity: int,
)
    requires
        states.len() == chunks.len() + 1,
        states[0].history.len() == 0,
        stream_consumed(states[0]) == 0,
        forall|i: int|
            0 <= i < chunks.len() ==> stream_turn_post(
                #[trigger] states[i],
                states[i + 1],
                chunks[i],
                capacity,
            ),
        chunks.len() > 0,
        chunks.last().len() == 0,
    ensures
        chunks.flatten() == batches_rows(states.last().history),
{
    let n = chunks.len() as int;
    let full = states[n].history;
    lemma_stream_pagination_prefix(states, chunks, capacity, n);
    assert(stream_turn_post(states[n - 1], states[n], chunks[n - 1], capacity));
    assert(stream_consumed(states[n]) == batches_rows(full).len());
    assert(chunks.take(n) =~= chunks);
    assert(states.last() == states[n]);
    assert(batches_rows(full).subrange(0, batches_rows(full).len() as int) =~= batches_rows(
        full,
    ));
}

/// The running prefix of a produce run: after `k` produce calls that all
/// met the produce contract, the chunks seen so far are exactly the first
/// `rows_consumed` rows of the scan, in order.
proof fn lemma_pagination_prefix(
    states: Seq<InitV>,
    chunks: Seq<Seq<Seq<CellV>>>,
    capacity: int,
    k: int,
)
    requires
        states.len() == chunks.len() + 1,
        init_wf(states[0]),
        rows_consumed(states[0]) == 0,
        forall|i: int|
            0 <= i < chunks.len() ==> produce_post(
                #[trigger] states[i],
                states[i + 1],
                chunks[i],
                capacity,
            ),
        0 <= k <= chunks.len(),
    ensures
        states[k].batches == states[0].batches,
        rows_consumed(states[k]) == chunks.take(k).flatten().len(),
        chunks.take(k).flatten() == batches_rows(states[0].batches).subrange(
            0,
            rows_consumed(states[k]),
        ),
    decreases k,
{
    let bs = states[0].batches;
    if k == 0 {
        assert(chunks.take(0) =~= Seq::<Seq<Seq<CellV>>>::empty());
        assert(chunks.take(0).flatten() =~= Seq::<Seq<CellV>>::empty());
        assert(batches_rows(bs).subrange(0, 0) =~= Seq::<Seq<CellV>>::empty());
    } else {
        lemma_pagination_prefix(states, chunks, capacity, k - 1);
        assert(produce_post(states[k - 1], states[k], chunks[k - 1], capacity));
        let c_prev = rows_consumed(states[k - 1]);
        let c_now = rows_consumed(states[k]);
        assert(chunks.take(k) =~= chunks.take(k - 1).push(chunks[k - 1]));
        chunks.take(k - 1).lemma_flatten_push(chunks[k - 1]);
        assert(batches_rows(bs).subrange(0, c_prev) + batches_rows(bs).subrange(c_prev, c_now)
            =~= batches_rows(bs).subrange(0, c_now));
    }
}

/// Pagination correctness: a run of produce calls that starts fresh and
/// ends with an empty chunk has enumerated every row of the scan exactly
/// once, in the scan's order — no duplication, no omission — however the
/// capacity relates to the underlying batch sizes.
pub proof fn lemma_pagination_enumerates(
    states: Seq<InitV>,
    chunks: Seq<Seq<Seq<CellV>>>,
    capacity: int,
)
    requires
        states.len() == chunks.len() + 1,
        init_wf(states[0]),
        rows_consumed(states[0]) == 0,
        forall|i: int|
            0 <= i < chunks.len() ==> produce_post(
                #[trigger] states[i],
                states[i + 1],
                chunks[i],
                capacity,
            ),
        chunks.len() > 0,
        chunks.last().len() == 0,
    ensures
        chunks.flatten() == batches_rows(states[0].batches),
{
    let bs = states[0].batches;
    let n = chunks.len() as int;
    lemma_pagination_prefix(states, chunks, capacity, n);
    assert(produce_post(states[n - 1], states[n], chunks[n - 1], capacity));
    assert(rows_consumed(states[n]) == batches_rows(bs).len());
    assert(chunks.take(n) =~= chunks);
    assert(batches_rows(bs).subrange(0, batches_rows(bs).len() as int) =~= batches_rows(bs));
}

/// Round trip: a dataset version that holds exactly the batches a write
/// session committed, scanned back and paginated to the end, yields
/// exactly the rows that were written, in order.
pub proof fn lemma_write_read_round_trip(
    written: Seq<BatchV>,
    content: ContentV,
    states: Seq<InitV>,
    chunks: Seq<Seq<Seq<CellV>>>,
    capacity: int,
)
    requires
        content.batches == written,
        states.len() == chunks.len() + 1,
        init_wf(states[0]),
        rows_consumed(states[0]) == 0,
        states[0].batches == content.batches,
        forall|i: int|
            0 <= i < chunks.len() ==> produce_post(
                #[trigger] states[i],
                states[i + 1],
                chunks[i],
                capacity,
            ),
        chunks.len() > 0,
        chunks.last().len() == 0,
    ensures
        chunks.flatten() == batches_rows(written),
{
    lemma_pagination_enumerates(states, chunks, capacity);
}

} // verus!
