//! The column materializer: one pass over a record batch that decodes
//! every column into a sequence of tagged scalar cells, or fails as a
//! whole on the first column whose logical type it does not support.

use vstd::prelude::*;
use crate::column::{
    Cell, Column, ColumnValues, DictKeys, DictKeyType, Field, LogicalType, RecordBatch, Schema,
    aligned, column_decodable, decoded_cell, supported,
};
use crate::date::date_from_epoch_days;
use crate::index::ColumnIndexMap;

verus! {

/// The whole result of materializing one record batch: the column names in
/// schema order, the name-to-position mapping (last position winning for a
/// repeated name), and one decoded cell sequence per column.
pub struct MaterializedTable {
    pub column_paths: Vec<String>,
    pub column_indices: ColumnIndexMap,
    pub data: Vec<Vec<Cell>>,
}

/// The error a batch with a column of unsupported logical type produces:
/// the position of the first such column and its type.
pub struct UnsupportedType {
    pub column: usize,
    pub dtype: LogicalType,
}

/// The name-to-position mapping over the first `n` fields: each field
/// recorded in order, a later position overwriting an earlier one that
/// carries the same name.
pub open spec fn column_index_map(fields: Seq<Field>, n: int) -> Map<Seq<char>, usize>
    decreases n,
{
    if n <= 0 {
        Map::empty()
    } else {
        column_index_map(fields, n - 1).insert(fields[n - 1].name@, (n - 1) as usize)
    }
}

/// The name-to-position mapping holds exactly the names of the first `n`
/// fields, and for each the highest position carrying it: recording in
/// order with the last write winning is the same as keeping, per name, the
/// greatest index that bears it.
pub proof fn lemma_column_index_map_keeps_highest(fields: Seq<Field>, n: int, name: Seq<char>)
    requires
        0 <= n <= fields.len(),
        fields.len() <= usize::MAX,
    ensures
        column_index_map(fields, n).contains_key(name) <==> exists|j: int|
            0 <= j < n && (#[trigger] fields[j]).name@ == name,
        column_index_map(fields, n).contains_key(name) ==> {
            let i = column_index_map(fields, n)[name] as int;
            &&& 0 <= i < n
            &&& fields[i].name@ == name
            &&& forall|j: int| i < j < n ==> (#[trigger] fields[j]).name@ != name
        },
    decreases n,
{
    if n > 0 {
        lemma_column_index_map_keeps_highest(fields, n - 1, name);
    }
}

/// What a completed materialization holds: one path and one cell sequence
/// per schema field, in schema order; every cell sequence of the batch's
/// row count, each cell decoded from its column's slot and validity flag;
/// and the name mapping with the highest position winning for each name.
pub open spec fn table_matches(t: MaterializedTable, batch: RecordBatch, schema: Schema) -> bool {
    &&& t.column_paths@.len() == schema.fields@.len()
    &&& forall|j: int|
        0 <= j < schema.fields@.len() ==> (#[trigger] t.column_paths@[j])@
            == schema.fields@[j].name@
    &&& t.data@.len() == schema.fields@.len()
    &&& forall|j: int| 0 <= j < schema.fields@.len() ==> (#[trigger] t.data@[j])@.len()
        == batch.nrows
    &&& forall|j: int, i: int|
        0 <= j < schema.fields@.len() && 0 <= i < batch.nrows ==> decoded_cell(
            batch.columns@[j].values,
            batch.columns@[j].validity@,
            i,
            #[trigger] t.data@[j]@[i],
        )
    &&& t.column_indices@ == column_index_map(schema.fields@, schema.fields@.len() as int)
}

/// Decodes one column into one cell per row: the null marker wherever the
/// validity flag is false, and otherwise the slot's value decoded by the
/// column's logical type.  A column of unsupported type is rejected whole,
/// with its type.
pub fn decode_column(col: &Column) -> (r: Result<Vec<Cell>, LogicalType>)
    requires
        col.wf(),
        column_decodable(*col),
    ensures
        match r {
            Ok(cells) => supported(col.values.dtype()) && cells@.len() == col.spec_len()
                && forall|i: int|
                0 <= i < cells@.len() ==> decoded_cell(
                    col.values,
                    col.validity@,
                    i,
                    #[trigger] cells@[i],
                ),
            Err(t) => t == col.values.dtype() && !supported(col.values.dtype()),
        },
{
    match &col.values {
        ColumnValues::Boolean(v) => {
            let mut cells: Vec<Cell> = Vec::new();
            let n = v.len();
            let mut ridx: usize = 0;
            while ridx < n
                invariant
                    col.values == ColumnValues::Boolean(*v),
                    col.validity@.len() == n,
                    v@.len() == n,
                    ridx <= n,
                    cells@.len() == ridx,
                    forall|i: int|
                        0 <= i < ridx ==> decoded_cell(
                            col.values,
                            col.validity@,
                            i,
                            #[trigger] cells@[i],
                        ),
                decreases n - ridx,
            {
                if col.validity[ridx] {
                    cells.push(Cell::Bool(v[ridx]));
                } else {
                    cells.push(Cell::Null);
                }
                ridx = ridx + 1;
            }
            Ok(cells)
        },
        ColumnValues::Int32(v) => {
            let mut cells: Vec<Cell> = Vec::new();
            let n = v.len();
            let mut ridx: usize = 0;
            while ridx < n
                invariant
                    col.values == ColumnValues::Int32(*v),
                    col.validity@.len() == n,
                    v@.len() == n,
                    ridx <= n,
                    cells@.len() == ridx,
                    forall|i: int|
                        0 <= i < ridx ==> decoded_cell(
                            col.values,
                            col.validity@,
                            i,
                            #[trigger] cells@[i],
                        ),
                decreases n - ridx,
            {
                if col.validity[ridx] {
                    cells.push(Cell::Int(v[ridx]));
                } else {
                    cells.push(Cell::Null);
                }
                ridx = ridx + 1;
            }
            Ok(cells)
        },
        ColumnValues::Int64(v) => {
            let mut cells: Vec<Cell> = Vec::new();
            let n = v.len();
            let mut ridx: usize = 0;
            while ridx < n
                invariant
                    col.values == ColumnValues::Int64(*v),
                    col.validity@.len() == n,
                    v@.len() == n,
                    ridx <= n,
                    cells@.len() == ridx,
                    forall|i: int|
                        0 <= i < ridx ==> decoded_cell(
                            col.values,
                            col.validity@,
                            i,
                            #[trigger] cells@[i],
                        ),
                decreases n - ridx,
            {
                if col.validity[ridx] {
                    cells.push(Cell::Num(v[ridx]));
                } else {
                    cells.push(Cell::Null);
                }
                ridx = ridx + 1;
            }
            Ok(cells)
        },
        ColumnValues::Float64(v) => {
            let mut cells: Vec<Cell> = Vec::new();
            let n = v.len();
            let mut ridx: usize = 0;
            while ridx < n
                invariant
                    col.values == ColumnValues::Float64(*v),
                    col.validity@.len() == n,
                    v@.len() == n,
                    ridx <= n,
                    cells@.len() == ridx,
                    forall|i: int|
                        0 <= i < ridx ==> decoded_cell(
                            col.values,
                            col.validity@,
                            i,
                            #[trigger] cells@[i],
                        ),
                decreases n - ridx,
            {
                if col.validity[ridx] {
                    cells.push(Cell::Float(v[ridx]));
                } else {
                    cells.push(Cell::Null);
                }
                ridx = ridx + 1;
            }
            Ok(cells)
        },
        ColumnValues::Date32(v) => {
            let mut cells: Vec<Cell> = Vec::new();
            let n = v.len();
            let mut ridx: usize = 0;
            while ridx < n
                invariant
                    col.values == ColumnValues::Date32(*v),
                    column_decodable(*col),
                    col.validity@.len() == n,
                    v@.len() == n,
                    ridx <= n,
                    cells@.len() == ridx,
                    forall|i: int|
                        0 <= i < ridx ==> decoded_cell(
                            col.values,
                            col.validity@,
                            i,
                            #[trigger] cells@[i],
                        ),
                decreases n - ridx,
            {
                if col.validity[ridx] {
                    proof {
                        assert(crate::column::date_slots_in_range(v@, col.validity@));
                        assert(crate::date::date_in_range(v@[ridx as int] as int));
                    }
                    match date_from_epoch_days(v[ridx]) {
                        Some(d) => cells.push(Cell::Date(d)),
                        None => vstd::pervasive::unreached(),
                    }
                } else {
                    cells.push(Cell::Null);
                }
                ridx = ridx + 1;
            }
            Ok(cells)
        },
        ColumnValues::TimestampMs(v) => {
            let mut cells: Vec<Cell> = Vec::new();
            let n = v.len();
            let mut ridx: usize = 0;
            while ridx < n
                invariant
                    col.values == ColumnValues::TimestampMs(*v),
                    col.validity@.len() == n,
                    v@.len() == n,
                    ridx <= n,
                    cells@.len() == ridx,
                    forall|i: int|
                        0 <= i < ridx ==> decoded_cell(
                            col.values,
                            col.validity@,
                            i,
                            #[trigger] cells@[i],
                        ),
                decreases n - ridx,
            {
                if col.validity[ridx] {
                    cells.push(Cell::Num(v[ridx]));
                } else {
                    cells.push(Cell::Null);
                }
                ridx = ridx + 1;
            }
            Ok(cells)
        },
        ColumnValues::Dictionary { keys: DictKeys::Int32(k), table } => {
            let mut cells: Vec<Cell> = Vec::new();
            let n = k.len();
            let mut ridx: usize = 0;
            while ridx < n
                invariant
                    col.values == (ColumnValues::Dictionary {
                        keys: DictKeys::Int32(*k),
                        table: *table,
                    }),
                    column_decodable(*col),
                    col.validity@.len() == n,
                    k@.len() == n,
                    ridx <= n,
                    cells@.len() == ridx,
                    forall|i: int|
                        0 <= i < ridx ==> decoded_cell(
                            col.values,
                            col.validity@,
                            i,
                            #[trigger] cells@[i],
                        ),
                decreases n - ridx,
            {
                if col.validity[ridx] {
                    proof {
                        assert(crate::column::dict_slots_in_range(
                            k@,
                            table@.len() as int,
                            col.validity@,
                        ));
                        assert(0 <= k@[ridx as int] < table@.len());
                    }
                    let key = k[ridx];
                    cells.push(Cell::Str(table[key as usize].clone()));
                } else {
                    cells.push(Cell::Null);
                }
                ridx = ridx + 1;
            }
            Ok(cells)
        },
        ColumnValues::Int8(_) => Err(LogicalType::Int8),
        ColumnValues::Int16(_) => Err(LogicalType::Int16),
        ColumnValues::Float32(_) => Err(LogicalType::Float32),
        ColumnValues::Utf8(_) => Err(LogicalType::Utf8),
        ColumnValues::Dictionary { keys: DictKeys::Int8(_), .. } => Err(
            LogicalType::Dictionary(DictKeyType::Int8),
        ),
        ColumnValues::Dictionary { keys: DictKeys::Int16(_), .. } => Err(
            LogicalType::Dictionary(DictKeyType::Int16),
        ),
        ColumnValues::Dictionary { keys: DictKeys::Int64(_), .. } => Err(
            LogicalType::Dictionary(DictKeyType::Int64),
        ),
    }
}

/// Materializes one record batch against its schema, in a single pass over
/// the columns in schema order.  Succeeds with a wholly decoded table, or
/// fails on the first column of unsupported logical type, leaving no
/// partial output; the error names that column and its type.
pub fn materialize(batch: &RecordBatch, schema: &Schema) -> (r: Result<
    MaterializedTable,
    UnsupportedType,
>)
    requires
        batch.wf(),
        aligned(*batch, *schema),
        forall|j: int|
            0 <= j < batch.columns@.len() ==> column_decodable(#[trigger] batch.columns@[j]),
    ensures
        match r {
            Ok(t) => table_matches(t, *batch, *schema) && forall|j: int|
                0 <= j < schema.fields@.len() ==> supported(
                    (#[trigger] schema.fields@[j]).dtype,
                ),
            Err(e) => {
                &&& 0 <= e.column < schema.fields@.len()
                &&& !supported(schema.fields@[e.column as int].dtype)
                &&& e.dtype == schema.fields@[e.column as int].dtype
                &&& forall|j: int|
                    0 <= j < e.column ==> supported((#[trigger] schema.fields@[j]).dtype)
            },
        },
{
    let num_columns = batch.num_columns();
    let mut column_paths: Vec<String> = Vec::new();
    let mut column_indices = ColumnIndexMap::new();
    let mut data: Vec<Vec<Cell>> = Vec::new();
    let mut cidx: usize = 0;
    while cidx < num_columns
        invariant
            batch.wf(),
            aligned(*batch, *schema),
            forall|j: int|
                0 <= j < batch.columns@.len() ==> column_decodable(#[trigger] batch.columns@[j]),
            num_columns == batch.columns@.len(),
            cidx <= num_columns,
            column_paths@.len() == cidx,
            forall|j: int|
                0 <= j < cidx ==> (#[trigger] column_paths@[j])@ == schema.fields@[j].name@,
            data@.len() == cidx,
            forall|j: int| 0 <= j < cidx ==> (#[trigger] data@[j])@.len() == batch.nrows,
            forall|j: int, i: int|
                0 <= j < cidx && 0 <= i < batch.nrows ==> decoded_cell(
                    batch.columns@[j].values,
                    batch.columns@[j].validity@,
                    i,
                    #[trigger] data@[j]@[i],
                ),
            column_indices@ == column_index_map(schema.fields@, cidx as int),
            forall|j: int| 0 <= j < cidx ==> supported((#[trigger] schema.fields@[j]).dtype),
        decreases num_columns - cidx,
    {
        let col = &batch.columns[cidx];
        match decode_column(col) {
            Ok(cells) => {
                let name = schema.fields[cidx].name.clone();
                column_paths.push(name.clone());
                column_indices.record(name, cidx);
                data.push(cells);
            },
            Err(t) => {
                return Err(UnsupportedType { column: cidx, dtype: t });
            },
        }
        cidx = cidx + 1;
    }
    Ok(MaterializedTable { column_paths, column_indices, data })
}

} // verus!
