use lance_bridge::batch::Batch;
use lance_bridge::batch::CellValue;
use lance_bridge::cursor::LanceStream;
use lance_bridge::dataset::DatasetContent;
use lance_bridge::error::BridgeError;
use lance_bridge::scan::DEFAULT_BATCH_SIZE;
use lance_bridge::scan::LanceScanVTab;
use lance_bridge::scan::StreamScan;
use lance_bridge::schema::Field;
use lance_bridge::schema::Schema;
use lance_bridge::types::LogicalType;
use lance_bridge::writer::LanceWriter;

fn field(name: &str, dtype: LogicalType, nullable: bool) -> Field {
    Field::new(name.to_string(), dtype, nullable)
}

fn example_schema() -> Schema {
    Schema::new(vec![
        field("id", LogicalType::Int64, false),
        field("name", LogicalType::Utf8, false),
        field("value", LogicalType::Float64, false),
    ])
}

fn example_batch(rows: &[(i64, &str, f64)]) -> Batch {
    let ids: Vec<CellValue> = rows.iter().map(|(id, _, _)| CellValue::Int(*id)).collect();
    let names: Vec<CellValue> =
        rows.iter().map(|(_, name, _)| CellValue::Text(name.to_string())).collect();
    let values: Vec<CellValue> =
        rows.iter().map(|(_, _, v)| CellValue::Real64(v.to_bits())).collect();
    Batch::new(example_schema(), vec![ids, names, values], rows.len()).unwrap()
}

fn int_batch(schema: Schema, values: &[i64]) -> Batch {
    let col: Vec<CellValue> = values.iter().map(|v| CellValue::Int(*v)).collect();
    Batch::new(schema, vec![col], values.len()).unwrap()
}

/// Drive produce to the end, recording each chunk's length and every row.
fn scan_all(content: &DatasetContent, capacity: usize) -> (Vec<usize>, Vec<Vec<CellValue>>) {
    let mut init = LanceScanVTab::init(content);
    let mut sizes = Vec::new();
    let mut rows = Vec::new();
    loop {
        let chunk = LanceScanVTab::func(&mut init, capacity);
        if chunk.is_empty() {
            break;
        }
        sizes.push(chunk.len());
        for row in chunk {
            rows.push(row);
        }
    }
    (sizes, rows)
}

#[test]
fn example_scenario_five_rows_capacity_two() {
    let data = [
        (1i64, "Alice", 1.1f64),
        (2, "Bob", 2.2),
        (3, "Carol", 3.3),
        (4, "Dave", 4.4),
        (5, "Eve", 5.5),
    ];
    let content =
        DatasetContent { schema: example_schema(), batches: vec![example_batch(&data)] };
    let (sizes, rows) = scan_all(&content, 2);
    assert_eq!(sizes, vec![2, 2, 1]);
    assert_eq!(rows.len(), 5);
    for (i, (id, name, value)) in data.iter().enumerate() {
        assert_eq!(
            rows[i],
            vec![
                CellValue::Int(*id),
                CellValue::Text(name.to_string()),
                CellValue::Real64(value.to_bits()),
            ]
        );
    }
}

#[test]
fn pagination_visits_every_row_once_across_uneven_batches() {
    let schema = Schema::new(vec![field("n", LogicalType::Int64, false)]);
    let batches = vec![
        int_batch(schema.clone(), &[0, 1, 2]),
        int_batch(schema.clone(), &[]),
        int_batch(schema.clone(), &[3, 4, 5, 6]),
        int_batch(schema.clone(), &[7]),
    ];
    let content = DatasetContent { schema: schema.clone(), batches };
    // Each chunk holds exactly min(rows left in the current batch, capacity).
    let expected_sizes: [(usize, Vec<usize>); 5] = [
        (1, vec![1, 1, 1, 1, 1, 1, 1, 1]),
        (2, vec![2, 1, 2, 2, 1]),
        (3, vec![3, 3, 1, 1]),
        (5, vec![3, 4, 1]),
        (100, vec![3, 4, 1]),
    ];
    for (capacity, expected) in expected_sizes {
        let (sizes, rows) = scan_all(&content, capacity);
        assert_eq!(sizes, expected, "capacity {capacity}");
        let flat: Vec<i64> = rows
            .iter()
            .map(|row| match row[0] {
                CellValue::Int(v) => v,
                _ => panic!("expected an integer cell"),
            })
            .collect();
        assert_eq!(flat, vec![0, 1, 2, 3, 4, 5, 6, 7], "capacity {capacity}");
    }
}

#[test]
fn zero_row_batches_do_not_end_the_scan() {
    let schema = Schema::new(vec![field("n", LogicalType::Int64, false)]);
    let batches = vec![
        int_batch(schema.clone(), &[]),
        int_batch(schema.clone(), &[10]),
        int_batch(schema.clone(), &[]),
        int_batch(schema.clone(), &[20]),
        int_batch(schema.clone(), &[]),
    ];
    let content = DatasetContent { schema: schema.clone(), batches };
    let (sizes, rows) = scan_all(&content, 4);
    assert_eq!(sizes, vec![1, 1]);
    assert_eq!(rows, vec![vec![CellValue::Int(10)], vec![CellValue::Int(20)]]);
}

#[test]
fn empty_dataset_produces_no_rows() {
    let schema = Schema::new(vec![field("n", LogicalType::Int64, false)]);
    let content = DatasetContent { schema, batches: vec![] };
    let mut init = LanceScanVTab::init(&content);
    assert!(LanceScanVTab::func(&mut init, 7).is_empty());
    // Produce after the end keeps signalling the end.
    assert!(LanceScanVTab::func(&mut init, 7).is_empty());
}

#[test]
fn write_then_scan_round_trip() {
    let data = [
        (1i64, "Alice", 1.1f64),
        (2, "Bob", 2.2),
        (3, "Carol", 3.3),
        (4, "Dave", 4.4),
        (5, "Eve", 5.5),
    ];
    let mut writer = LanceWriter::new("data.lance".to_string(), example_schema());
    writer.write_batch(example_batch(&data[..2])).unwrap();
    writer.write_batch(example_batch(&data[2..])).unwrap();

    let mut store: Option<DatasetContent> = None;
    writer.finish(&mut store, true).unwrap();
    let content = store.expect("a committed dataset version");

    for capacity in [1usize, 2, 3, 8192] {
        let (_, rows) = scan_all(&content, capacity);
        assert_eq!(rows.len(), 5);
        for (i, (id, name, value)) in data.iter().enumerate() {
            assert_eq!(
                rows[i],
                vec![
                    CellValue::Int(*id),
                    CellValue::Text(name.to_string()),
                    CellValue::Real64(value.to_bits()),
                ]
            );
        }
    }
}

#[test]
fn bind_translates_all_columns() {
    let schema = example_schema();
    let bind = LanceScanVTab::bind("data.lance".to_string(), &schema, None).unwrap();
    assert_eq!(bind.path, "data.lance");
    assert_eq!(bind.batch_size, DEFAULT_BATCH_SIZE);
    assert_eq!(bind.host_columns.len(), 3);
    assert_eq!(bind.host_columns[0].name, "id");
    assert_eq!(bind.host_columns[1].name, "name");
    assert_eq!(bind.host_columns[2].name, "value");
}

#[test]
fn bind_honors_batch_size_parameter() {
    let schema = example_schema();
    let bind = LanceScanVTab::bind("data.lance".to_string(), &schema, Some(100)).unwrap();
    assert_eq!(bind.batch_size, 100);
}

#[test]
fn bind_rejects_nested_schema_before_any_row() {
    let schema = Schema::new(vec![
        field("id", LogicalType::Int64, false),
        field("tags", LogicalType::List, true),
        field("name", LogicalType::Utf8, false),
    ]);
    let err = LanceScanVTab::bind("data.lance".to_string(), &schema, None).unwrap_err();
    assert_eq!(err, BridgeError::UnsupportedType(LogicalType::List));

    let schema = Schema::new(vec![field("payload", LogicalType::Struct, true)]);
    let err = LanceScanVTab::bind("data.lance".to_string(), &schema, None).unwrap_err();
    assert_eq!(err, BridgeError::UnsupportedType(LogicalType::Struct));

    let schema = Schema::new(vec![field("attrs", LogicalType::KeyMap, true)]);
    let err = LanceScanVTab::bind("data.lance".to_string(), &schema, None).unwrap_err();
    assert_eq!(err, BridgeError::UnsupportedType(LogicalType::KeyMap));
}

#[test]
fn capacity_larger_than_the_dataset_yields_one_chunk() {
    let data = [(1i64, "Alice", 1.1f64), (2, "Bob", 2.2)];
    let content =
        DatasetContent { schema: example_schema(), batches: vec![example_batch(&data)] };
    let (sizes, rows) = scan_all(&content, 8192);
    assert_eq!(sizes, vec![2]);
    assert_eq!(rows.len(), 2);
}

#[test]
fn stream_delivers_batches_in_scan_order() {
    let schema = Schema::new(vec![field("n", LogicalType::Int64, false)]);
    let batches = vec![
        int_batch(schema.clone(), &[1, 2]),
        int_batch(schema.clone(), &[3]),
        int_batch(schema.clone(), &[4, 5, 6]),
    ];
    let content = DatasetContent { schema, batches };
    let mut stream = LanceStream::new(&content);
    let mut seen: Vec<i64> = Vec::new();
    while let Some(batch) = stream.next() {
        seen.extend(batch.get_int64_column(0).unwrap());
    }
    assert_eq!(seen, vec![1, 2, 3, 4, 5, 6]);
}

#[test]
fn bind_accepts_the_null_column_type_as_text() {
    // A null-typed column is carried as a string column, not rejected.
    let schema = Schema::new(vec![
        field("id", LogicalType::Int64, false),
        field("empty", LogicalType::Null, true),
    ]);
    let bind = LanceScanVTab::bind("data.lance".to_string(), &schema, None).unwrap();
    assert_eq!(bind.host_columns.len(), 2);
}


#[test]
fn streamed_scan_slices_one_batch_at_a_time() {
    let schema = Schema::new(vec![field("n", LogicalType::Int64, false)]);
    let source = vec![
        int_batch(schema.clone(), &[1, 2, 3]),
        int_batch(schema.clone(), &[]),
        int_batch(schema.clone(), &[4, 5]),
    ];
    // Drive the chunker the way a produce loop would: pull only when it
    // asks, then emit.
    let mut pending = source.into_iter();
    let mut scan = StreamScan::new();
    let mut sizes = Vec::new();
    let mut seen: Vec<i64> = Vec::new();
    loop {
        while scan.wants_batch() {
            match pending.next() {
                Some(batch) => scan.accept_batch(batch),
                None => scan.accept_end(),
            }
        }
        let chunk = scan.emit(2);
        if chunk.is_empty() {
            break;
        }
        sizes.push(chunk.len());
        for row in chunk {
            match row[0] {
                CellValue::Int(v) => seen.push(v),
                _ => panic!("expected an integer cell"),
            }
        }
    }
    assert_eq!(sizes, vec![2, 1, 2]);
    assert_eq!(seen, vec![1, 2, 3, 4, 5]);
    // After the end signal, emit keeps returning empty chunks.
    assert!(!scan.wants_batch());
    assert!(scan.emit(2).is_empty());
    assert!(scan.emit(7).is_empty());
}
