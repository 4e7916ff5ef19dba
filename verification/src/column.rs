//! The columnar data model: typed columns with validity bitmaps, schemas of
//! named fields, record batches, and the tagged scalar cells that decoding
//! produces.
//!
//! A column stores its physical values in full, one slot per row, together
//! with a validity flag per row; a slot whose flag is false may hold any
//! bit pattern, and decoding must never let it through.  Floating-point
//! slots carry the raw IEEE-754 bit pattern, which decoding passes along
//! untouched; the host reassembles its own floating-point value from it.

use vstd::prelude::*;
use crate::date::{CalendarDate, valid_date, days_of_date, date_in_range};

verus! {

/// The integer width of a dictionary column's key array.
#[derive(Clone, Copy, PartialEq, Eq, Structural, Debug)]
pub enum DictKeyType {
    Int8,
    Int16,
    Int32,
    Int64,
}

/// The logical type a schema field declares for its column.
#[derive(Clone, Copy, PartialEq, Eq, Structural, Debug)]
pub enum LogicalType {
    Boolean,
    Int8,
    Int16,
    Int32,
    Int64,
    Float32,
    Float64,
    Utf8,
    /// Days since 1970-01-01.
    Date32,
    /// Milliseconds since 1970-01-01T00:00:00.
    TimestampMs,
    /// Integer keys of the given width into a shared string table.
    Dictionary(DictKeyType),
}

/// The key array of a dictionary column, one key slot per row.
pub enum DictKeys {
    Int8(Vec<i8>),
    Int16(Vec<i16>),
    Int32(Vec<i32>),
    Int64(Vec<i64>),
}

/// The physical value slots of one column, one slot per row.
pub enum ColumnValues {
    Boolean(Vec<bool>),
    Int8(Vec<i8>),
    Int16(Vec<i16>),
    Int32(Vec<i32>),
    Int64(Vec<i64>),
    /// IEEE-754 bit patterns of 32-bit floats.
    Float32(Vec<u32>),
    /// IEEE-754 bit patterns of 64-bit floats.
    Float64(Vec<u64>),
    Utf8(Vec<String>),
    /// Days since 1970-01-01.
    Date32(Vec<i32>),
    /// Milliseconds since 1970-01-01T00:00:00.
    TimestampMs(Vec<i64>),
    /// Keys indexing into the shared string table `table`.
    Dictionary { keys: DictKeys, table: Vec<String> },
}

impl DictKeys {
    pub open spec fn key_type(&self) -> DictKeyType {
        match self {
            DictKeys::Int8(_) => DictKeyType::Int8,
            DictKeys::Int16(_) => DictKeyType::Int16,
            DictKeys::Int32(_) => DictKeyType::Int32,
            DictKeys::Int64(_) => DictKeyType::Int64,
        }
    }

    pub open spec fn spec_len(&self) -> nat {
        match self {
            DictKeys::Int8(v) => v@.len(),
            DictKeys::Int16(v) => v@.len(),
            DictKeys::Int32(v) => v@.len(),
            DictKeys::Int64(v) => v@.len(),
        }
    }
}

impl ColumnValues {
    /// The logical type this physical layout encodes.
    pub open spec fn dtype(&self) -> LogicalType {
        match self {
            ColumnValues::Boolean(_) => LogicalType::Boolean,
            ColumnValues::Int8(_) => LogicalType::Int8,
            ColumnValues::Int16(_) => LogicalType::Int16,
            ColumnValues::Int32(_) => LogicalType::Int32,
            ColumnValues::Int64(_) => LogicalType::Int64,
            ColumnValues::Float32(_) => LogicalType::Float32,
            ColumnValues::Float64(_) => LogicalType::Float64,
            ColumnValues::Utf8(_) => LogicalType::Utf8,
            ColumnValues::Date32(_) => LogicalType::Date32,
            ColumnValues::TimestampMs(_) => LogicalType::TimestampMs,
            ColumnValues::Dictionary { keys, .. } => LogicalType::Dictionary(keys.key_type()),
        }
    }

    /// The number of value slots, one per row.
    pub open spec fn spec_len(&self) -> nat {
        match self {
            ColumnValues::Boolean(v) => v@.len(),
            ColumnValues::Int8(v) => v@.len(),
            ColumnValues::Int16(v) => v@.len(),
            ColumnValues::Int32(v) => v@.len(),
            ColumnValues::Int64(v) => v@.len(),
            ColumnValues::Float32(v) => v@.len(),
            ColumnValues::Float64(v) => v@.len(),
            ColumnValues::Utf8(v) => v@.len(),
            ColumnValues::Date32(v) => v@.len(),
            ColumnValues::TimestampMs(v) => v@.len(),
            ColumnValues::Dictionary { keys, .. } => keys.spec_len(),
        }
    }

    /// The exec counterpart of `dtype`.
    pub fn logical_type(&self) -> (t: LogicalType)
        ensures
            t == self.dtype(),
    {
        match self {
            ColumnValues::Boolean(_) => LogicalType::Boolean,
            ColumnValues::Int8(_) => LogicalType::Int8,
            ColumnValues::Int16(_) => LogicalType::Int16,
            ColumnValues::Int32(_) => LogicalType::Int32,
            ColumnValues::Int64(_) => LogicalType::Int64,
            ColumnValues::Float32(_) => LogicalType::Float32,
            ColumnValues::Float64(_) => LogicalType::Float64,
            ColumnValues::Utf8(_) => LogicalType::Utf8,
            ColumnValues::Date32(_) => LogicalType::Date32,
            ColumnValues::TimestampMs(_) => LogicalType::TimestampMs,
            ColumnValues::Dictionary { keys: DictKeys::Int8(_), .. } => LogicalType::Dictionary(
                DictKeyType::Int8,
            ),
            ColumnValues::Dictionary { keys: DictKeys::Int16(_), .. } => LogicalType::Dictionary(
                DictKeyType::Int16,
            ),
            ColumnValues::Dictionary { keys: DictKeys::Int32(_), .. } => LogicalType::Dictionary(
                DictKeyType::Int32,
            ),
            ColumnValues::Dictionary { keys: DictKeys::Int64(_), .. } => LogicalType::Dictionary(
                DictKeyType::Int64,
            ),
        }
    }
}

/// The logical types the materializer decodes; every other type is a fatal
/// schema mismatch, dictionary keys wider or narrower than 32 bits included.
pub open spec fn supported(t: LogicalType) -> bool {
    match t {
        LogicalType::Boolean => true,
        LogicalType::Int32 => true,
        LogicalType::Int64 => true,
        LogicalType::Float64 => true,
        LogicalType::Date32 => true,
        LogicalType::TimestampMs => true,
        LogicalType::Dictionary(k) => k == DictKeyType::Int32,
        _ => false,
    }
}

/// One column: value slots plus the validity flag of each row.
pub struct Column {
    pub values: ColumnValues,
    pub validity: Vec<bool>,
}

impl Column {
    /// One validity flag per value slot.
    pub open spec fn wf(&self) -> bool {
        self.validity@.len() == self.values.spec_len()
    }

    pub open spec fn spec_len(&self) -> nat {
        self.values.spec_len()
    }
}

/// One schema field: the column's name and declared logical type.
pub struct Field {
    pub name: String,
    pub dtype: LogicalType,
}

/// An ordered sequence of field descriptors; names may repeat.
pub struct Schema {
    pub fields: Vec<Field>,
}

/// A record batch: columns of equal row count, aligned positionally with
/// the fields of its schema.
pub struct RecordBatch {
    pub nrows: usize,
    pub columns: Vec<Column>,
}

impl RecordBatch {
    /// Every column is well formed and has exactly `nrows` rows.
    pub open spec fn wf(&self) -> bool {
        forall|j: int|
            0 <= j < self.columns@.len() ==> (#[trigger] self.columns@[j]).wf()
                && self.columns@[j].spec_len() == self.nrows
    }

    pub fn num_columns(&self) -> (n: usize)
        ensures
            n == self.columns@.len(),
    {
        self.columns.len()
    }
}

/// The batch's columns carry exactly the logical types its schema declares,
/// position by position.
pub open spec fn aligned(batch: RecordBatch, schema: Schema) -> bool {
    &&& batch.columns@.len() == schema.fields@.len()
    &&& forall|j: int|
        0 <= j < schema.fields@.len() ==> (#[trigger] batch.columns@[j]).values.dtype()
            == schema.fields@[j].dtype
}

/// One decoded scalar, tagged by what it holds.
#[derive(PartialEq, Debug)]
pub enum Cell {
    /// The explicit marker for a row whose validity flag was false.
    Null,
    Bool(bool),
    Int(i32),
    /// A 64-bit integer or a millisecond timestamp, emitted whole; the host
    /// widens it to its own numeric type.
    Num(i64),
    /// The IEEE-754 bit pattern of a 64-bit float, passed through untouched.
    Float(u64),
    Str(String),
    Date(CalendarDate),
}

/// What cell `c` must be for row `i` of a column with slots `vals` and
/// validity flags `validity`: the null marker wherever the flag is false —
/// whatever the slot holds — and otherwise the slot's value, decoded by the
/// column's logical type.
pub open spec fn decoded_cell(vals: ColumnValues, validity: Seq<bool>, i: int, c: Cell) -> bool {
    if !validity[i] {
        c == Cell::Null
    } else {
        match vals {
            ColumnValues::Boolean(v) => c == Cell::Bool(v@[i]),
            ColumnValues::Int32(v) => c == Cell::Int(v@[i]),
            ColumnValues::Int64(v) => c == Cell::Num(v@[i]),
            ColumnValues::Float64(v) => c == Cell::Float(v@[i]),
            ColumnValues::Date32(v) => c matches Cell::Date(d) && valid_date(
                d.year as int,
                d.month as int,
                d.day as int,
            ) && days_of_date(d.year as int, d.month as int, d.day as int) == v@[i] as int,
            ColumnValues::TimestampMs(v) => c == Cell::Num(v@[i]),
            ColumnValues::Dictionary { keys: DictKeys::Int32(k), table } => c matches Cell::Str(s)
                && 0 <= k@[i] < table@.len() && s@ == table@[k@[i] as int]@,
            _ => false,
        }
    }
}

/// A row whose validity flag is false decodes to the null marker and to
/// nothing else, whatever bit pattern its value slot holds: the slots play
/// no part, so garbage in an invalid slot can never leak through.
pub proof fn lemma_invalid_row_decodes_to_null(
    vals: ColumnValues,
    validity: Seq<bool>,
    i: int,
    c: Cell,
)
    requires
        !validity[i],
    ensures
        decoded_cell(vals, validity, i, c) <==> c == Cell::Null,
{
}

/// Every day-count slot at a row whose validity flag is true names a
/// representable year.  Slots at invalid rows are unconstrained.
pub open spec fn date_slots_in_range(v: Seq<i32>, validity: Seq<bool>) -> bool {
    forall|i: int| 0 <= i < v.len() && validity[i] ==> date_in_range((#[trigger] v[i]) as int)
}

/// Every key slot at a row whose validity flag is true indexes into a
/// string table of `ntable` entries.  Slots at invalid rows are
/// unconstrained.
pub open spec fn dict_slots_in_range(k: Seq<i32>, ntable: int, validity: Seq<bool>) -> bool {
    forall|i: int| 0 <= i < k.len() && validity[i] ==> 0 <= #[trigger] k[i] < ntable
}

/// The inputs on which decoding a column cannot fault: every valid date
/// slot names a representable year, and every valid dictionary key indexes
/// into the string table.  Slots at rows whose validity flag is false are
/// unconstrained.
pub open spec fn column_decodable(col: Column) -> bool {
    match col.values {
        ColumnValues::Date32(v) => date_slots_in_range(v@, col.validity@),
        ColumnValues::Dictionary { keys: DictKeys::Int32(k), table } => dict_slots_in_range(
            k@,
            table@.len() as int,
            col.validity@,
        ),
        _ => true,
    }
}

} // verus!
