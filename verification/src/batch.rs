//! Columnar chunks: a fixed row count and one value column per schema
//! field.
//!
//! Cell values are plain: floating-point cells are carried as their bit
//! patterns and never interpreted numerically by the bridge, which only
//! moves them from one side of the boundary to the other.

use vstd::prelude::*;

use crate::error::BridgeError;
use crate::schema::FieldV;
use crate::schema::Schema;
use crate::types::LogicalType;

verus! {

/// One cell of a column.
#[derive(Debug, PartialEq)]
pub enum CellValue {
    /// An absent value; admitted only in nullable columns.
    Null,
    Truth(bool),
    /// A signed integer cell; carries every signed width as well as dates,
    /// times and timestamps, which the dataset side stores as integers.
    Int(i64),
    UInt(u64),
    /// The bit pattern of a 32-bit float.
    Real32(u32),
    /// The bit pattern of a 64-bit float; decimals degrade to this.
    Real64(u64),
    Text(String),
    Bytes(Vec<u8>),
}

/// The mathematical value of a `CellValue`.
pub enum CellV {
    Null,
    Truth(bool),
    Int(i64),
    UInt(u64),
    Real32(u32),
    Real64(u64),
    Text(Seq<char>),
    Bytes(Seq<u8>),
}

impl View for CellValue {
    type V = CellV;

    open spec fn view(&self) -> CellV {
        match self {
            CellValue::Null => CellV::Null,
            CellValue::Truth(b) => CellV::Truth(*b),
            CellValue::Int(i) => CellV::Int(*i),
            CellValue::UInt(u) => CellV::UInt(*u),
            CellValue::Real32(b) => CellV::Real32(*b),
            CellValue::Real64(b) => CellV::Real64(*b),
            CellValue::Text(s) => CellV::Text(s@),
            CellValue::Bytes(b) => CellV::Bytes(b@),
        }
    }
}

impl Clone for CellValue {
    fn clone(&self) -> (r: Self)
        ensures
            r@ == self@,
    {
        match self {
            CellValue::Null => CellValue::Null,
            CellValue::Truth(b) => CellValue::Truth(*b),
            CellValue::Int(i) => CellValue::Int(*i),
            CellValue::UInt(u) => CellValue::UInt(*u),
            CellValue::Real32(b) => CellValue::Real32(*b),
            CellValue::Real64(b) => CellValue::Real64(*b),
            CellValue::Text(s) => CellValue::Text(s.clone()),
            CellValue::Bytes(b) => {
                let mut copy: Vec<u8> = Vec::new();
                let n = b.len();
                for i in 0..n
                    invariant
                        n == b@.len(),
                        copy@.len() == i,
                        forall|j: int| 0 <= j < i ==> copy@[j] == b@[j],
                {
                    copy.push(b[i]);
                }
                proof {
                    assert(copy@ =~= b@);
                }
                CellValue::Bytes(copy)
            },
        }
    }
}

/// Whether a cell value may sit in a column whose field reads `f`.
pub open spec fn cell_fits(v: CellV, f: FieldV) -> bool {
    match v {
        CellV::Null => f.nullable,
        CellV::Truth(_) => f.dtype is Boolean,
        CellV::Int(i) => match f.dtype {
            LogicalType::Int8 => i8::MIN <= i <= i8::MAX,
            LogicalType::Int16 => i16::MIN <= i <= i16::MAX,
            LogicalType::Int32 => i32::MIN <= i <= i32::MAX,
            LogicalType::Int64 => true,
            LogicalType::Date32 => i32::MIN <= i <= i32::MAX,
            LogicalType::Date64 => true,
            LogicalType::Time32 => i32::MIN <= i <= i32::MAX,
            LogicalType::Time64 => true,
            LogicalType::Timestamp => true,
            _ => false,
        },
        CellV::UInt(u) => match f.dtype {
            LogicalType::UInt8 => u <= u8::MAX,
            LogicalType::UInt16 => u <= u16::MAX,
            LogicalType::UInt32 => u <= u32::MAX,
            LogicalType::UInt64 => true,
            _ => false,
        },
        CellV::Real32(_) => f.dtype is Float32,
        CellV::Real64(_) => f.dtype is Float64 || f.dtype is Decimal128 || f.dtype is Decimal256,
        CellV::Text(_) => f.dtype is Utf8 || f.dtype is LargeUtf8,
        CellV::Bytes(_) => f.dtype is Binary || f.dtype is LargeBinary,
    }
}

/// The mathematical value of a `Batch`.
pub struct BatchV {
    pub schema: Seq<FieldV>,
    pub columns: Seq<Seq<CellV>>,
    pub num_rows: nat,
}

/// A batch is well formed when it has one column per schema field, every
/// column has exactly the batch's row count, and every cell fits its
/// column's field.
pub open spec fn batch_wf(b: BatchV) -> bool {
    &&& b.columns.len() == b.schema.len()
    &&& forall|c: int| 0 <= c < b.columns.len() ==> (#[trigger] b.columns[c]).len() == b.num_rows
    &&& forall|c: int, r: int|
        0 <= c < b.columns.len() && 0 <= r < b.num_rows ==> cell_fits(
            #[trigger] b.columns[c][r],
            b.schema[c],
        )
}

/// A columnar chunk: a schema, one column of cells per field, and a row
/// count shared by every column.
#[derive(Debug)]
pub struct Batch {
    schema: Schema,
    columns: Vec<Vec<CellValue>>,
    num_rows: usize,
}

impl View for Batch {
    type V = BatchV;

    closed spec fn view(&self) -> BatchV {
        BatchV {
            schema: self.schema@,
            columns: self.columns@.map_values(|col: Vec<CellValue>| col@.map_values(|v: CellValue| v@)),
            num_rows: self.num_rows as nat,
        }
    }
}

/// The row at index `r` of a batch: one cell per column, in field order.
pub open spec fn row_of(b: BatchV, r: int) -> Seq<CellV> {
    Seq::new(b.columns.len(), |c: int| b.columns[c][r])
}

/// All rows of a batch, in order.
pub open spec fn rows_of(b: BatchV) -> Seq<Seq<CellV>> {
    Seq::new(b.num_rows, |r: int| row_of(b, r))
}

impl Clone for Batch {
    fn clone(&self) -> (r: Self)
        ensures
            r@ == self@,
    {
        let mut columns: Vec<Vec<CellValue>> = Vec::new();
        let ncols = self.columns.len();
        for c in 0..ncols
            invariant
                ncols == self.columns@.len(),
                columns@.len() == c,
                forall|j: int|
                    0 <= j < c ==> (#[trigger] columns@[j])@.map_values(|v: CellValue| v@)
                        == self.columns@[j]@.map_values(|v: CellValue| v@),
        {
            let src = &self.columns[c];
            let mut col: Vec<CellValue> = Vec::new();
            let nrows = src.len();
            for i in 0..nrows
                invariant
                    nrows == src@.len(),
                    col@.len() == i,
                    forall|j: int| 0 <= j < i ==> (#[trigger] col@[j])@ == src@[j]@,
            {
                col.push(src[i].clone());
            }
            proof {
                assert(col@.map_values(|v: CellValue| v@) =~= src@.map_values(
                    |v: CellValue| v@,
                ));
            }
            columns.push(col);
        }
        let r = Batch { schema: self.schema.clone(), columns, num_rows: self.num_rows };
        proof {
            assert(r@.columns =~= self@.columns);
            assert(r@ =~= self@);
        }
        r
    }
}

impl Batch {
    /// Assemble a batch after checking its shape: one column per field,
    /// every column of length `num_rows`, every cell fitting its field.
    /// A malformed assembly is rejected without being built.
    pub fn new(schema: Schema, columns: Vec<Vec<CellValue>>, num_rows: usize) -> (r: Result<
        Batch,
        BridgeError,
    >)
        ensures
            r matches Ok(b) ==> {
                &&& batch_wf(b@)
                &&& b@.schema == schema@
                &&& b@.columns == columns@.map_values(
                    |col: Vec<CellValue>| col@.map_values(|v: CellValue| v@),
                )
                &&& b@.num_rows == num_rows
            },
            r is Ok <==> batch_wf(
                BatchV {
                    schema: schema@,
                    columns: columns@.map_values(
                        |col: Vec<CellValue>| col@.map_values(|v: CellValue| v@),
                    ),
                    num_rows: num_rows as nat,
                },
            ),
            r matches Err(e) ==> e == BridgeError::InvalidArgument,
    {
        let ghost target = BatchV {
            schema: schema@,
            columns: columns@.map_values(|col: Vec<CellValue>| col@.map_values(|v: CellValue| v@)),
            num_rows: num_rows as nat,
        };
        if columns.len() != schema.num_fields() {
            return Err(BridgeError::InvalidArgument);
        }
        let ncols = columns.len();
        for c in 0..ncols
            invariant
                ncols == columns@.len(),
                ncols == schema@.len(),
                target.schema == schema@,
                target.num_rows == num_rows as nat,
                target.columns == columns@.map_values(
                    |col: Vec<CellValue>| col@.map_values(|v: CellValue| v@),
                ),
                forall|j: int| 0 <= j < c ==> (#[trigger] target.columns[j]).len() == num_rows,
                forall|j: int, r: int|
                    0 <= j < c && 0 <= r < num_rows ==> cell_fits(
                        #[trigger] target.columns[j][r],
                        target.schema[j],
                    ),
        {
            let col = &columns[c];
            if col.len() != num_rows {
                proof {
                    assert(target.columns[c as int] == columns@[c as int]@.map_values(
                        |v: CellValue| v@,
                    ));
                    assert(target.columns[c as int].len() != target.num_rows);
                    assert(!batch_wf(target));
                }
                return Err(BridgeError::InvalidArgument);
            }
            let field = &schema.fields[c];
            let nrows = col.len();
            for i in 0..nrows
                invariant
                    nrows == num_rows,
                    nrows == col@.len(),
                    0 <= c < ncols,
                    ncols == columns@.len(),
                    ncols == schema@.len(),
                    col@ == columns@[c as int]@,
                    field@ == schema@[c as int],
                    target.schema == schema@,
                    target.num_rows == num_rows as nat,
                    target.columns == columns@.map_values(
                        |col: Vec<CellValue>| col@.map_values(|v: CellValue| v@),
                    ),
                    forall|r: int|
                        0 <= r < i ==> cell_fits(
                            #[trigger] target.columns[c as int][r],
                            target.schema[c as int],
                        ),
            {
                if !cell_matches_field(&col[i], field) {
                    proof {
                        assert(target.columns[c as int] == columns@[c as int]@.map_values(
                            |v: CellValue| v@,
                        ));
                        assert(target.columns[c as int][i as int] == col@[i as int]@);
                        assert(!cell_fits(
                            target.columns[c as int][i as int],
                            target.schema[c as int],
                        ));
                        assert(!batch_wf(target));
                    }
                    return Err(BridgeError::InvalidArgument);
                }
            }
            proof {
                assert(target.columns[c as int] == columns@[c as int]@.map_values(
                    |v: CellValue| v@,
                ));
                assert(target.columns[c as int].len() == num_rows);
                assert(forall|r: int|
                    0 <= r < num_rows ==> cell_fits(
                        #[trigger] target.columns[c as int][r],
                        target.schema[c as int],
                    ));
            }
        }
        Ok(Batch { schema, columns, num_rows })
    }

    /// The batch's row count.
    pub fn num_rows(&self) -> (n: usize)
        ensures
            n == self@.num_rows,
    {
        self.num_rows
    }

    /// The batch's column count.
    pub fn num_columns(&self) -> (n: usize)
        ensures
            n == self@.columns.len(),
    {
        self.columns.len()
    }


    /// The row at `row_idx`: one cloned cell per column, in field order.
    pub fn row(&self, row_idx: usize) -> (r: Vec<CellValue>)
        requires
            batch_wf(self@),
            row_idx < self@.num_rows,
        ensures
            r@.map_values(|v: CellValue| v@) == row_of(self@, row_idx as int),
    {
        let mut out: Vec<CellValue> = Vec::new();
        let n = self.columns.len();
        for c in 0..n
            invariant
                n == self.columns@.len(),
                batch_wf(self@),
                row_idx < self@.num_rows,
                out@.len() == c,
                forall|j: int|
                    0 <= j < c ==> (#[trigger] out@[j])@ == self@.columns[j][row_idx as int],
        {
            proof {
                assert(self@.columns[c as int] == self.columns@[c as int]@.map_values(
                    |v: CellValue| v@,
                ));
                assert(self@.columns[c as int].len() == self@.num_rows);
            }
            out.push(self.columns[c][row_idx].clone());
        }
        proof {
            assert(self@.columns.len() == self.columns@.len());
            assert(out@.map_values(|v: CellValue| v@) =~= row_of(self@, row_idx as int));
        }
        out
    }

    /// The schema the batch was built under.
    pub fn schema(&self) -> (s: &Schema)
        ensures
            s@ == self@.schema,
    {
        &self.schema
    }

    /// The whole column at `col_idx` as signed 64-bit integers, with null
    /// cells read as zero; nothing unless the column exists and its field
    /// is the 64-bit signed integer type.
    pub fn get_int64_column(&self, col_idx: usize) -> (r: Option<Vec<i64>>)
        requires
            batch_wf(self@),
        ensures
            r is Some <==> col_idx < self@.columns.len() && self@.schema[col_idx as int].dtype
                is Int64,
            r matches Some(v) ==> {
                &&& v@.len() == self@.num_rows
                &&& forall|i: int|
                    0 <= i < v@.len() ==> v@[i] == spec_int64_cell(
                        #[trigger] self@.columns[col_idx as int][i],
                    )
            },
    {
        if col_idx >= self.columns.len() {
            return None;
        }
        let is_int64 = match self.schema.fields[col_idx].dtype {
            LogicalType::Int64 => true,
            _ => false,
        };
        if !is_int64 {
            return None;
        }
        let col = &self.columns[col_idx];
        let mut out: Vec<i64> = Vec::new();
        let n = col.len();
        for i in 0..n
            invariant
                n == col@.len(),
                col@ == self.columns@[col_idx as int]@,
                col_idx < self.columns@.len(),
                self@.columns[col_idx as int] == col@.map_values(|v: CellValue| v@),
                out@.len() == i,
                forall|j: int|
                    0 <= j < i ==> out@[j] == spec_int64_cell(
                        #[trigger] self@.columns[col_idx as int][j],
                    ),
        {
            let v: i64 = match &col[i] {
                CellValue::Int(x) => *x,
                _ => 0,
            };
            proof {
                assert(self@.columns[col_idx as int][i as int] == col@[i as int]@);
            }
            out.push(v);
        }
        proof {
            assert(self@.columns[col_idx as int].len() == self@.num_rows);
        }
        Some(out)
    }

    /// The whole column at `col_idx` as 64-bit float bit patterns, with
    /// null cells read as the bits of zero; nothing unless the column
    /// exists and its field is the 64-bit float type.
    pub fn get_float64_column(&self, col_idx: usize) -> (r: Option<Vec<u64>>)
        requires
            batch_wf(self@),
        ensures
            r is Some <==> col_idx < self@.columns.len() && self@.schema[col_idx as int].dtype
                is Float64,
            r matches Some(v) ==> {
                &&& v@.len() == self@.num_rows
                &&& forall|i: int|
                    0 <= i < v@.len() ==> v@[i] == spec_float64_cell(
                        #[trigger] self@.columns[col_idx as int][i],
                    )
            },
    {
        if col_idx >= self.columns.len() {
            return None;
        }
        let is_float64 = match self.schema.fields[col_idx].dtype {
            LogicalType::Float64 => true,
            _ => false,
        };
        if !is_float64 {
            return None;
        }
        let col = &self.columns[col_idx];
        let mut out: Vec<u64> = Vec::new();
        let n = col.len();
        for i in 0..n
            invariant
                n == col@.len(),
                col@ == self.columns@[col_idx as int]@,
                col_idx < self.columns@.len(),
                self@.columns[col_idx as int] == col@.map_values(|v: CellValue| v@),
                out@.len() == i,
                forall|j: int|
                    0 <= j < i ==> out@[j] == spec_float64_cell(
                        #[trigger] self@.columns[col_idx as int][j],
                    ),
        {
            let v: u64 = match &col[i] {
                CellValue::Real64(bits) => *bits,
                _ => 0,
            };
            proof {
                assert(self@.columns[col_idx as int][i as int] == col@[i as int]@);
            }
            out.push(v);
        }
        proof {
            assert(self@.columns[col_idx as int].len() == self@.num_rows);
        }
        Some(out)
    }

    /// The text cell at `(col_idx, row_idx)`; nothing when either index is
    /// out of bounds, the field is not the plain string type, or the cell
    /// is null.
    pub fn get_string_value(&self, col_idx: usize, row_idx: usize) -> (r: Option<String>)
        requires
            batch_wf(self@),
        ensures
            r is Some <==> col_idx < self@.columns.len() && row_idx < self@.num_rows
                && self@.schema[col_idx as int].dtype is Utf8 && self@.columns[col_idx as int][row_idx as int]
                is Text,
            r matches Some(s) ==> CellV::Text(s@) == self@.columns[col_idx as int][row_idx as int],
    {
        if col_idx >= self.columns.len() {
            return None;
        }
        if row_idx >= self.num_rows {
            return None;
        }
        let is_utf8 = match self.schema.fields[col_idx].dtype {
            LogicalType::Utf8 => true,
            _ => false,
        };
        if !is_utf8 {
            return None;
        }
        match &self.columns[col_idx][row_idx] {
            CellValue::Text(s) => Some(s.clone()),
            _ => None,
        }
    }
}

/// What the signed 64-bit column accessor reads out of one cell: the value
/// of an integer cell, and zero for a null.
pub open spec fn spec_int64_cell(v: CellV) -> i64 {
    match v {
        CellV::Int(x) => x,
        _ => 0,
    }
}

/// What the 64-bit float column accessor reads out of one cell: the bits
/// of a float cell, and the bits of zero for a null.
pub open spec fn spec_float64_cell(v: CellV) -> u64 {
    match v {
        CellV::Real64(bits) => bits,
        _ => 0,
    }
}

/// Whether one cell fits one field, decided at run time; agrees with
/// `cell_fits` exactly.
pub fn cell_matches_field(v: &CellValue, f: &crate::schema::Field) -> (r: bool)
    ensures
        r == cell_fits(v@, f@),
{
    match v {
        CellValue::Null => f.nullable,
        CellValue::Truth(_) => match f.dtype {
            LogicalType::Boolean => true,
            _ => false,
        },
        CellValue::Int(i) => match f.dtype {
            LogicalType::Int8 => i8::MIN as i64 <= *i && *i <= i8::MAX as i64,
            LogicalType::Int16 => i16::MIN as i64 <= *i && *i <= i16::MAX as i64,
            LogicalType::Int32 => i32::MIN as i64 <= *i && *i <= i32::MAX as i64,
            LogicalType::Int64 => true,
            LogicalType::Date32 => i32::MIN as i64 <= *i && *i <= i32::MAX as i64,
            LogicalType::Date64 => true,
            LogicalType::Time32 => i32::MIN as i64 <= *i && *i <= i32::MAX as i64,
            LogicalType::Time64 => true,
            LogicalType::Timestamp => true,
            _ => false,
        },
        CellValue::UInt(u) => match f.dtype {
            LogicalType::UInt8 => *u <= u8::MAX as u64,
            LogicalType::UInt16 => *u <= u16::MAX as u64,
            LogicalType::UInt32 => *u <= u32::MAX as u64,
            LogicalType::UInt64 => true,
            _ => false,
        },
        CellValue::Real32(_) => match f.dtype {
            LogicalType::Float32 => true,
            _ => false,
        },
        CellValue::Real64(_) => match f.dtype {
            LogicalType::Float64 => true,
            LogicalType::Decimal128 => true,
            LogicalType::Decimal256 => true,
            _ => false,
        },
        CellValue::Text(_) => match f.dtype {
            LogicalType::Utf8 => true,
            LogicalType::LargeUtf8 => true,
            _ => false,
        },
        CellValue::Bytes(_) => match f.dtype {
            LogicalType::Binary => true,
            LogicalType::LargeBinary => true,
            _ => false,
        },
    }
}


/// All rows of a sequence of batches: batch order first, row order within
/// each batch.
pub open spec fn batches_rows(bs: Seq<BatchV>) -> Seq<Seq<CellV>>
    decreases bs.len(),
{
    if bs.len() == 0 {
        Seq::empty()
    } else {
        rows_of(bs[0]) + batches_rows(bs.skip(1))
    }
}

/// Concatenating batch sequences concatenates their rows.
pub proof fn lemma_batches_rows_concat(a: Seq<BatchV>, b: Seq<BatchV>)
    ensures
        batches_rows(a + b) == batches_rows(a) + batches_rows(b),
    decreases a.len(),
{
    if a.len() == 0 {
        assert(a + b =~= b);
        assert(batches_rows(a) + batches_rows(b) =~= batches_rows(b));
    } else {
        assert((a + b)[0] == a[0]);
        assert((a + b).skip(1) =~= a.skip(1) + b);
        lemma_batches_rows_concat(a.skip(1), b);
        assert(batches_rows(a + b) =~= batches_rows(a) + batches_rows(b));
    }
}

/// Extending a prefix by one batch appends exactly that batch's rows.
pub proof fn lemma_batches_rows_take_succ(bs: Seq<BatchV>, k: int)
    requires
        0 <= k < bs.len(),
    ensures
        batches_rows(bs.take(k + 1)) == batches_rows(bs.take(k)) + rows_of(bs[k]),
{
    assert(bs.take(k + 1) =~= bs.take(k) + seq![bs[k]]);
    lemma_batches_rows_concat(bs.take(k), seq![bs[k]]);
    assert(seq![bs[k]].skip(1) =~= Seq::<BatchV>::empty());
    assert(batches_rows(Seq::<BatchV>::empty()) == Seq::<Seq<CellV>>::empty());
    assert(seq![bs[k]][0] == bs[k]);
    assert(batches_rows(seq![bs[k]]) =~= rows_of(bs[k]));
}

/// A sequence's rows split at any point into the prefix's rows and the
/// suffix's rows.
pub proof fn lemma_batches_rows_split(bs: Seq<BatchV>, k: int)
    requires
        0 <= k <= bs.len(),
    ensures
        batches_rows(bs) == batches_rows(bs.take(k)) + batches_rows(bs.skip(k)),
{
    assert(bs.take(k) + bs.skip(k) =~= bs);
    lemma_batches_rows_concat(bs.take(k), bs.skip(k));
}


/// How many rows are left in the batch that row `consumed` of the scan
/// falls in, with zero-row batches skipped; zero once every row has been
/// delivered. This is the widest chunk one produce call may emit from
/// that position.
pub open spec fn rows_left_in_batch(bs: Seq<BatchV>, consumed: int) -> int
    decreases bs.len(),
{
    if bs.len() == 0 {
        0
    } else if consumed < bs[0].num_rows {
        bs[0].num_rows - consumed
    } else {
        rows_left_in_batch(bs.skip(1), consumed - bs[0].num_rows)
    }
}

/// At a position inside batch `k`, the rows left are exactly what remains
/// of that batch.
pub proof fn lemma_rows_left_at(bs: Seq<BatchV>, k: int, offset: int)
    requires
        0 <= k < bs.len(),
        0 <= offset < bs[k].num_rows,
    ensures
        rows_left_in_batch(bs, batches_rows(bs.take(k)).len() + offset) == bs[k].num_rows
            - offset,
    decreases k,
{
    if k == 0 {
        assert(bs.take(0) =~= Seq::<BatchV>::empty());
        assert(batches_rows(Seq::<BatchV>::empty()) == Seq::<Seq<CellV>>::empty());
    } else {
        assert(batches_rows(bs.take(k)) == rows_of(bs.take(k)[0]) + batches_rows(
            bs.take(k).skip(1),
        ));
        assert(bs.take(k)[0] == bs[0]);
        assert(bs.take(k).skip(1) =~= bs.skip(1).take(k - 1));
        assert(rows_of(bs[0]).len() == bs[0].num_rows);
        assert(bs.skip(1)[k - 1] == bs[k]);
        lemma_rows_left_at(bs.skip(1), k - 1, offset);
    }
}

/// Once the whole scan is consumed, no rows are left anywhere.
pub proof fn lemma_rows_left_at_end(bs: Seq<BatchV>)
    ensures
        rows_left_in_batch(bs, batches_rows(bs).len() as int) == 0,
    decreases bs.len(),
{
    if bs.len() > 0 {
        assert(batches_rows(bs) == rows_of(bs[0]) + batches_rows(bs.skip(1)));
        assert(rows_of(bs[0]).len() == bs[0].num_rows);
        lemma_rows_left_at_end(bs.skip(1));
    }
}

/// Copy a vector of batches, value for value.
pub(crate) fn clone_batches(batches: &Vec<Batch>) -> (r: Vec<Batch>)
    ensures
        r@.map_values(|b: Batch| b@) == batches@.map_values(|b: Batch| b@),
{
    let mut out: Vec<Batch> = Vec::new();
    let n = batches.len();
    for i in 0..n
        invariant
            n == batches@.len(),
            out@.len() == i,
            forall|j: int| 0 <= j < i ==> (#[trigger] out@[j])@ == batches@[j]@,
    {
        out.push(batches[i].clone());
    }
    proof {
        assert(out@.map_values(|b: Batch| b@) =~= batches@.map_values(|b: Batch| b@));
    }
    out
}

} // verus!
