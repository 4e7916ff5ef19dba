use arrow_accessor::column::{
    Cell, Column, ColumnValues, DictKeyType, DictKeys, Field, LogicalType, RecordBatch, Schema,
};
use arrow_accessor::date::{date_from_epoch_days, CalendarDate};
use arrow_accessor::materialize::{materialize, MaterializedTable};

fn field(name: &str, dtype: LogicalType) -> Field {
    Field { name: String::from(name), dtype }
}

fn batch_of(nrows: usize, columns: Vec<Column>) -> RecordBatch {
    RecordBatch { nrows, columns }
}

fn ok_table(batch: &RecordBatch, schema: &Schema) -> MaterializedTable {
    match materialize(batch, schema) {
        Ok(t) => t,
        Err(e) => panic!("materialize failed on column {} of type {:?}", e.column, e.dtype),
    }
}

#[test]
fn lengths_match_schema_and_row_count() {
    let columns = vec![
        Column {
            values: ColumnValues::Boolean(vec![true, false, true]),
            validity: vec![true, true, false],
        },
        Column {
            values: ColumnValues::Int32(vec![7, -2, 0]),
            validity: vec![true, false, true],
        },
    ];
    let schema = Schema {
        fields: vec![field("flag", LogicalType::Boolean), field("count", LogicalType::Int32)],
    };
    let t = ok_table(&batch_of(3, columns), &schema);
    assert_eq!(t.column_paths.len(), 2);
    assert_eq!(t.data.len(), 2);
    for col in &t.data {
        assert_eq!(col.len(), 3);
    }
    assert_eq!(t.column_paths, vec![String::from("flag"), String::from("count")]);
}

#[test]
fn invalid_rows_become_null_whatever_the_slot_holds() {
    let columns = vec![
        Column {
            values: ColumnValues::Int32(vec![1234567, 42]),
            validity: vec![false, true],
        },
        Column {
            values: ColumnValues::Int64(vec![i64::MIN, 5]),
            validity: vec![false, true],
        },
        Column {
            values: ColumnValues::Float64(vec![u64::MAX, 0]),
            validity: vec![false, true],
        },
        Column {
            values: ColumnValues::Boolean(vec![true, true]),
            validity: vec![false, true],
        },
        Column {
            // Day counts far outside the representable years: the validity
            // flag is false, so the garbage must never be decoded.
            values: ColumnValues::Date32(vec![i32::MAX, 0]),
            validity: vec![false, true],
        },
        Column {
            values: ColumnValues::TimestampMs(vec![i64::MAX, 9]),
            validity: vec![false, true],
        },
        Column {
            // An out-of-bounds key in an invalid slot must never be looked up.
            values: ColumnValues::Dictionary {
                keys: DictKeys::Int32(vec![99, 0]),
                table: vec![String::from("only")],
            },
            validity: vec![false, true],
        },
    ];
    let schema = Schema {
        fields: vec![
            field("a", LogicalType::Int32),
            field("b", LogicalType::Int64),
            field("c", LogicalType::Float64),
            field("d", LogicalType::Boolean),
            field("e", LogicalType::Date32),
            field("f", LogicalType::TimestampMs),
            field("g", LogicalType::Dictionary(DictKeyType::Int32)),
        ],
    };
    let t = ok_table(&batch_of(2, columns), &schema);
    for col in &t.data {
        assert_eq!(col[0], Cell::Null);
        assert_ne!(col[1], Cell::Null);
    }
}

#[test]
fn boolean_round_trip() {
    let columns = vec![Column {
        values: ColumnValues::Boolean(vec![true, false]),
        validity: vec![true, true],
    }];
    let schema = Schema { fields: vec![field("b", LogicalType::Boolean)] };
    let t = ok_table(&batch_of(2, columns), &schema);
    assert_eq!(t.data[0], vec![Cell::Bool(true), Cell::Bool(false)]);
}

#[test]
fn int32_round_trip() {
    let columns = vec![Column {
        values: ColumnValues::Int32(vec![i32::MIN, -1, 0, i32::MAX]),
        validity: vec![true, true, true, true],
    }];
    let schema = Schema { fields: vec![field("i", LogicalType::Int32)] };
    let t = ok_table(&batch_of(4, columns), &schema);
    assert_eq!(
        t.data[0],
        vec![Cell::Int(i32::MIN), Cell::Int(-1), Cell::Int(0), Cell::Int(i32::MAX)]
    );
}

#[test]
fn float64_round_trip_is_bit_exact() {
    let values = [1.5f64, -0.0, f64::NAN, 6.02214076e23];
    let bits: Vec<u64> = values.iter().map(|x| x.to_bits()).collect();
    let columns = vec![Column {
        values: ColumnValues::Float64(bits.clone()),
        validity: vec![true; 4],
    }];
    let schema = Schema { fields: vec![field("f", LogicalType::Float64)] };
    let t = ok_table(&batch_of(4, columns), &schema);
    for (i, b) in bits.iter().enumerate() {
        match t.data[0][i] {
            Cell::Float(out) => {
                assert_eq!(out, *b);
                // Bit-for-bit round trip, NaN included.
                assert_eq!(f64::from_bits(out).to_bits(), values[i].to_bits());
            }
            ref other => panic!("expected a float cell, got {:?}", other),
        }
    }
    assert_eq!(f64::from_bits(bits[0]), 1.5);
}

#[test]
fn int64_round_trip_and_widening() {
    let columns = vec![Column {
        values: ColumnValues::Int64(vec![42, -7, 1 << 60]),
        validity: vec![true, true, true],
    }];
    let schema = Schema { fields: vec![field("n", LogicalType::Int64)] };
    let t = ok_table(&batch_of(3, columns), &schema);
    assert_eq!(t.data[0], vec![Cell::Num(42), Cell::Num(-7), Cell::Num(1 << 60)]);
    // The host widens the emitted integer to a 64-bit float; for values
    // within the exactly representable range the widening is exact.
    match t.data[0][0] {
        Cell::Num(n) => assert_eq!(n as f64, 42.0),
        ref other => panic!("expected a numeric cell, got {:?}", other),
    }
}

#[test]
fn timestamp_round_trip_and_widening() {
    let ms: i64 = 1_615_766_400_000; // 2021-03-15T00:00:00 UTC
    let columns = vec![Column {
        values: ColumnValues::TimestampMs(vec![ms]),
        validity: vec![true],
    }];
    let schema = Schema { fields: vec![field("t", LogicalType::TimestampMs)] };
    let t = ok_table(&batch_of(1, columns), &schema);
    assert_eq!(t.data[0], vec![Cell::Num(ms)]);
    match t.data[0][0] {
        Cell::Num(n) => assert_eq!(n as f64, 1_615_766_400_000.0),
        ref other => panic!("expected a numeric cell, got {:?}", other),
    }
}

#[test]
fn date_decode_by_calendar_fields() {
    // 18701 days after 1970-01-01 is 2021-03-15.
    let columns = vec![Column {
        values: ColumnValues::Date32(vec![18701, 0, -1]),
        validity: vec![true, true, true],
    }];
    let schema = Schema { fields: vec![field("d", LogicalType::Date32)] };
    let t = ok_table(&batch_of(3, columns), &schema);
    match t.data[0][0] {
        Cell::Date(d) => {
            assert_eq!(d.year, 2021);
            assert_eq!(d.month, 3);
            assert_eq!(d.day, 15);
        }
        ref other => panic!("expected a date cell, got {:?}", other),
    }
    assert_eq!(t.data[0][1], Cell::Date(CalendarDate { year: 1970, month: 1, day: 1 }));
    assert_eq!(t.data[0][2], Cell::Date(CalendarDate { year: 1969, month: 12, day: 31 }));
}

#[test]
fn date_from_epoch_days_handles_leap_years_and_range() {
    // 2000-02-29, a leap day in a century year divisible by 400.
    assert_eq!(
        date_from_epoch_days(11016),
        Some(CalendarDate { year: 2000, month: 2, day: 29 })
    );
    assert_eq!(
        date_from_epoch_days(11017),
        Some(CalendarDate { year: 2000, month: 3, day: 1 })
    );
    // The bounds of the representable years, and one day past each.
    assert_eq!(
        date_from_epoch_days(-96465292),
        Some(CalendarDate { year: -262143, month: 1, day: 1 })
    );
    assert_eq!(
        date_from_epoch_days(95026236),
        Some(CalendarDate { year: 262142, month: 12, day: 31 })
    );
    assert_eq!(date_from_epoch_days(-96465293), None);
    assert_eq!(date_from_epoch_days(95026237), None);
    assert_eq!(date_from_epoch_days(i32::MAX), None);
    assert_eq!(date_from_epoch_days(i32::MIN), None);
}

#[test]
fn date_from_epoch_days_matches_known_dates() {
    let cases = [
        (10837, 1999, 9, 3),
        // Century years not divisible by 400 are not leap years.
        (-25509, 1900, 2, 28),
        (-25508, 1900, 3, 1),
        (47540, 2100, 2, 28),
        (47541, 2100, 3, 1),
        (-135081, 1600, 2, 29),
        // Year zero and the year before it, proleptic.
        (-719528, 0, 1, 1),
        (-719529, -1, 12, 31),
        (24855, 2038, 1, 19),
    ];
    for (days, year, month, day) in cases {
        assert_eq!(date_from_epoch_days(days), Some(CalendarDate { year, month, day }));
    }
}

#[test]
fn dictionary_decode() {
    let columns = vec![Column {
        values: ColumnValues::Dictionary {
            keys: DictKeys::Int32(vec![0, 0, 1, 0]),
            table: vec![String::from("alpha"), String::from("beta")],
        },
        // The key slot of the second row is unread garbage: the row is null.
        validity: vec![true, false, true, true],
    }];
    let schema = Schema { fields: vec![field("s", LogicalType::Dictionary(DictKeyType::Int32))] };
    let t = ok_table(&batch_of(4, columns), &schema);
    assert_eq!(
        t.data[0],
        vec![
            Cell::Str(String::from("alpha")),
            Cell::Null,
            Cell::Str(String::from("beta")),
            Cell::Str(String::from("alpha")),
        ]
    );
}

#[test]
fn unsupported_type_fails_whole() {
    let columns = vec![
        Column {
            values: ColumnValues::Boolean(vec![true]),
            validity: vec![true],
        },
        Column {
            values: ColumnValues::Int16(vec![3]),
            validity: vec![true],
        },
    ];
    let schema = Schema {
        fields: vec![field("ok", LogicalType::Boolean), field("bad", LogicalType::Int16)],
    };
    match materialize(&batch_of(1, columns), &schema) {
        Ok(_) => panic!("a 16-bit integer column must not materialize"),
        Err(e) => {
            assert_eq!(e.column, 1);
            assert_eq!(e.dtype, LogicalType::Int16);
        }
    }
}

#[test]
fn unsupported_dictionary_key_width_fails() {
    let columns = vec![Column {
        values: ColumnValues::Dictionary {
            keys: DictKeys::Int64(vec![0]),
            table: vec![String::from("alpha")],
        },
        validity: vec![true],
    }];
    let schema = Schema { fields: vec![field("s", LogicalType::Dictionary(DictKeyType::Int64))] };
    match materialize(&batch_of(1, columns), &schema) {
        Ok(_) => panic!("a 64-bit dictionary key column must not materialize"),
        Err(e) => {
            assert_eq!(e.column, 0);
            assert_eq!(e.dtype, LogicalType::Dictionary(DictKeyType::Int64));
        }
    }
}

#[test]
fn unsupported_type_reports_the_first_offender() {
    let columns = vec![
        Column {
            values: ColumnValues::Utf8(vec![String::from("plain")]),
            validity: vec![true],
        },
        Column {
            values: ColumnValues::Float32(vec![0]),
            validity: vec![true],
        },
    ];
    let schema = Schema {
        fields: vec![field("u", LogicalType::Utf8), field("h", LogicalType::Float32)],
    };
    match materialize(&batch_of(1, columns), &schema) {
        Ok(_) => panic!("a plain string column must not materialize"),
        Err(e) => {
            assert_eq!(e.column, 0);
            assert_eq!(e.dtype, LogicalType::Utf8);
        }
    }
}

#[test]
fn name_collision_keeps_highest_index() {
    let columns = vec![
        Column {
            values: ColumnValues::Int32(vec![1]),
            validity: vec![true],
        },
        Column {
            values: ColumnValues::Int32(vec![2]),
            validity: vec![true],
        },
        Column {
            values: ColumnValues::Int32(vec![3]),
            validity: vec![true],
        },
    ];
    let schema = Schema {
        fields: vec![
            field("x", LogicalType::Int32),
            field("y", LogicalType::Int32),
            field("x", LogicalType::Int32),
        ],
    };
    let t = ok_table(&batch_of(1, columns), &schema);
    assert_eq!(
        t.column_paths,
        vec![String::from("x"), String::from("y"), String::from("x")]
    );
    assert_eq!(t.column_indices.get(&String::from("x")), Some(2));
    assert_eq!(t.column_indices.get(&String::from("y")), Some(1));
    assert_eq!(t.column_indices.get(&String::from("z")), None);
}

#[test]
fn empty_batch_and_zero_rows() {
    let t = ok_table(&batch_of(0, vec![]), &Schema { fields: vec![] });
    assert_eq!(t.column_paths.len(), 0);
    assert_eq!(t.data.len(), 0);

    let columns = vec![Column {
        values: ColumnValues::Int32(vec![]),
        validity: vec![],
    }];
    let schema = Schema { fields: vec![field("empty", LogicalType::Int32)] };
    let t = ok_table(&batch_of(0, columns), &schema);
    assert_eq!(t.column_paths, vec![String::from("empty")]);
    assert_eq!(t.data, vec![Vec::<Cell>::new()]);
}
