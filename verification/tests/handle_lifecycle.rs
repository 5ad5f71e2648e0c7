use lance_bridge::batch::Batch;
use lance_bridge::batch::CellValue;
use lance_bridge::cursor::CursorPhase;
use lance_bridge::cursor::LanceStream;
use lance_bridge::cursor::PullEvent;
use lance_bridge::cursor::PullSignal;
use lance_bridge::cursor::cursor_should_pull;
use lance_bridge::cursor::cursor_step;
use lance_bridge::dataset::DatasetContent;
use lance_bridge::dataset::DatasetHandle;
use lance_bridge::error::BridgeError;
use lance_bridge::replacement::replacement_scan_matches;
use lance_bridge::schema::Field;
use lance_bridge::schema::Schema;
use lance_bridge::schema::duckdb_to_arrow_schema;
use lance_bridge::types::LogicalType;
use lance_bridge::writer::LanceWriter;

fn field(name: &str, dtype: LogicalType, nullable: bool) -> Field {
    Field::new(name.to_string(), dtype, nullable)
}

fn int_schema() -> Schema {
    Schema::new(vec![field("n", LogicalType::Int64, true)])
}

fn int_batch(values: &[Option<i64>]) -> Batch {
    let col: Vec<CellValue> = values
        .iter()
        .map(|v| match v {
            Some(x) => CellValue::Int(*x),
            None => CellValue::Null,
        })
        .collect();
    Batch::new(int_schema(), vec![col], values.len()).unwrap()
}

fn int_content(values: &[Option<i64>]) -> DatasetContent {
    DatasetContent { schema: int_schema(), batches: vec![int_batch(values)] }
}

#[test]
fn cursor_exhaustion_is_idempotent() {
    let content = int_content(&[Some(1), Some(2)]);
    let mut stream = LanceStream::new(&content);
    assert!(stream.next().is_some());
    assert!(stream.next().is_none());
    assert!(stream.next().is_none());
    assert!(stream.next().is_none());
}

#[test]
fn independent_cursors_do_not_interfere() {
    let content = int_content(&[Some(1)]);
    let handle = DatasetHandle::open(content);
    let mut first = handle.create_stream().unwrap();
    let mut second = handle.create_stream().unwrap();
    assert!(first.next().is_some());
    assert!(first.next().is_none());
    // The second cursor still stands before its first batch.
    assert!(second.next().is_some());
    assert!(second.next().is_none());
}

#[test]
fn closed_handle_refuses_every_operation() {
    let mut handle = DatasetHandle::open(int_content(&[Some(1)]));
    assert!(handle.schema().is_ok());
    assert!(handle.create_stream().is_ok());
    handle.close();
    assert!(!handle.is_open());
    assert_eq!(handle.schema().unwrap_err(), BridgeError::InvalidHandle);
    assert!(matches!(handle.create_stream(), Err(BridgeError::InvalidHandle)));
    // Closing again changes nothing more.
    handle.close();
    assert!(!handle.is_open());
}

#[test]
fn cursor_phase_machine_follows_the_protocol() {
    assert!(cursor_should_pull(&CursorPhase::Created));
    assert!(cursor_should_pull(&CursorPhase::HasBatch));
    assert!(!cursor_should_pull(&CursorPhase::Exhausted));
    assert!(!cursor_should_pull(&CursorPhase::Failed));

    assert_eq!(
        cursor_step(CursorPhase::Created, PullEvent::Delivered),
        (CursorPhase::HasBatch, PullSignal::Deliver)
    );
    assert_eq!(
        cursor_step(CursorPhase::HasBatch, PullEvent::Delivered),
        (CursorPhase::HasBatch, PullSignal::Deliver)
    );
    assert_eq!(
        cursor_step(CursorPhase::Created, PullEvent::EndOfData),
        (CursorPhase::Exhausted, PullSignal::End)
    );
    assert_eq!(
        cursor_step(CursorPhase::HasBatch, PullEvent::PullFailed),
        (CursorPhase::Failed, PullSignal::Fail)
    );
    // Terminal phases absorb every event, and the end never turns into an
    // error nor the other way round.
    for event in [PullEvent::Delivered, PullEvent::EndOfData, PullEvent::PullFailed] {
        assert_eq!(
            cursor_step(CursorPhase::Exhausted, event),
            (CursorPhase::Exhausted, PullSignal::End)
        );
        assert_eq!(cursor_step(CursorPhase::Failed, event), (CursorPhase::Failed, PullSignal::Fail));
    }
}

#[test]
fn writer_rejects_mismatched_batches_without_accumulating() {
    let mut writer = LanceWriter::new("out.lance".to_string(), int_schema());
    let wrong_name = Schema::new(vec![field("m", LogicalType::Int64, true)]);
    let b = Batch::new(wrong_name, vec![vec![CellValue::Int(1)]], 1).unwrap();
    assert_eq!(writer.write_batch(b).unwrap_err(), BridgeError::SchemaMismatch);

    let wrong_type = Schema::new(vec![field("n", LogicalType::Int32, true)]);
    let b = Batch::new(wrong_type, vec![vec![CellValue::Int(1)]], 1).unwrap();
    assert_eq!(writer.write_batch(b).unwrap_err(), BridgeError::SchemaMismatch);

    assert_eq!(writer.num_pending(), 0);

    // Nullability is not part of the match: count, names and types are.
    let other_nullability = Schema::new(vec![field("n", LogicalType::Int64, false)]);
    let b = Batch::new(other_nullability, vec![vec![CellValue::Int(1)]], 1).unwrap();
    assert!(writer.write_batch(b).is_ok());
    assert_eq!(writer.num_pending(), 1);
}

#[test]
fn failed_commit_leaves_prior_version_untouched() {
    // A first session commits a version.
    let mut store: Option<DatasetContent> = None;
    let mut first = LanceWriter::new("out.lance".to_string(), int_schema());
    first.write_batch(int_batch(&[Some(1), Some(2)])).unwrap();
    first.finish(&mut store, true).unwrap();
    assert!(store.is_some());

    // A second session's commit is refused by the engine.
    let mut second = LanceWriter::new("out.lance".to_string(), int_schema());
    second.write_batch(int_batch(&[Some(99)])).unwrap();
    assert_eq!(second.finish(&mut store, false).unwrap_err(), BridgeError::WriteError);

    // The prior version is byte-for-byte what the first session wrote.
    let content = store.expect("the prior version must survive");
    let mut stream = LanceStream::new(&content);
    let batch = stream.next().unwrap();
    assert_eq!(batch.num_rows(), 2);
    assert_eq!(batch.get_int64_column(0).unwrap(), vec![1, 2]);
    assert!(stream.next().is_none());
}

#[test]
fn empty_commit_is_a_no_op_success() {
    let mut store: Option<DatasetContent> = None;
    let mut writer = LanceWriter::new("out.lance".to_string(), int_schema());
    assert!(writer.finish(&mut store, true).is_ok());
    assert!(store.is_none());
}

#[test]
fn close_discards_pending_batches_without_committing() {
    let mut store: Option<DatasetContent> = None;
    let mut writer = LanceWriter::new("out.lance".to_string(), int_schema());
    writer.write_batch(int_batch(&[Some(1)])).unwrap();
    writer.close();
    assert_eq!(writer.num_pending(), 0);
    assert_eq!(writer.write_batch(int_batch(&[Some(2)])).unwrap_err(), BridgeError::InvalidHandle);
    assert_eq!(writer.finish(&mut store, true).unwrap_err(), BridgeError::InvalidHandle);
    assert!(store.is_none());
}

#[test]
fn schema_accessors_check_bounds() {
    let schema = Schema::new(vec![
        field("id", LogicalType::Int64, false),
        field("name", LogicalType::Utf8, true),
    ]);
    assert_eq!(schema.num_fields(), 2);
    assert_eq!(schema.field_name(0).unwrap().as_str(), "id");
    assert_eq!(schema.field_name(1).unwrap().as_str(), "name");
    assert!(schema.field_name(2).is_none());
    assert_eq!(schema.field_type_name(0).unwrap(), "int64");
    assert_eq!(schema.field_type_name(1).unwrap(), "utf8");
    assert!(schema.field_type_name(2).is_none());
}

#[test]
fn schema_builder_round_trips_host_arrays() {
    let names = vec!["id".to_string(), "name".to_string(), "value".to_string()];
    let types = vec!["int64".to_string(), "utf8".to_string(), "mystery".to_string()];
    let schema = duckdb_to_arrow_schema(&names, &types).unwrap();
    assert_eq!(schema.num_fields(), 3);
    assert_eq!(schema.field_name(0).unwrap().as_str(), "id");
    assert_eq!(schema.fields[0].dtype, LogicalType::Int64);
    assert_eq!(schema.fields[1].dtype, LogicalType::Utf8);
    // An unrecognized type name falls back to text.
    assert_eq!(schema.fields[2].dtype, LogicalType::Utf8);
    assert!(schema.fields.iter().all(|f| f.nullable));

    assert!(duckdb_to_arrow_schema(&vec![], &vec![]).is_none());
    assert!(duckdb_to_arrow_schema(&names, &vec!["int64".to_string()]).is_none());
}

#[test]
fn batch_construction_validates_shape() {
    // Column count must match the schema.
    assert!(matches!(
        Batch::new(int_schema(), vec![], 0),
        Err(BridgeError::InvalidArgument)
    ));
    // Column length must match the row count.
    assert!(matches!(
        Batch::new(int_schema(), vec![vec![CellValue::Int(1)]], 2),
        Err(BridgeError::InvalidArgument)
    ));
    // A null cell needs a nullable field.
    let strict = Schema::new(vec![field("n", LogicalType::Int64, false)]);
    assert!(matches!(
        Batch::new(strict, vec![vec![CellValue::Null]], 1),
        Err(BridgeError::InvalidArgument)
    ));
    // An integer cell must fit its column's width.
    let narrow = Schema::new(vec![field("n", LogicalType::Int8, false)]);
    assert!(matches!(
        Batch::new(narrow.clone(), vec![vec![CellValue::Int(1000)]], 1),
        Err(BridgeError::InvalidArgument)
    ));
    assert!(Batch::new(narrow, vec![vec![CellValue::Int(100)]], 1).is_ok());
}

#[test]
fn column_accessors_match_their_types() {
    let schema = Schema::new(vec![
        field("n", LogicalType::Int64, true),
        field("x", LogicalType::Float64, true),
        field("s", LogicalType::Utf8, true),
    ]);
    let batch = Batch::new(
        schema,
        vec![
            vec![CellValue::Int(7), CellValue::Null],
            vec![CellValue::Real64(2.5f64.to_bits()), CellValue::Null],
            vec![CellValue::Text("hi".to_string()), CellValue::Null],
        ],
        2,
    )
    .unwrap();

    // Nulls read as zero, as the per-cell fallback documents.
    assert_eq!(batch.get_int64_column(0).unwrap(), vec![7, 0]);
    assert!(batch.get_int64_column(1).is_none());
    assert!(batch.get_int64_column(9).is_none());

    let bits = batch.get_float64_column(1).unwrap();
    assert_eq!(f64::from_bits(bits[0]), 2.5);
    assert_eq!(f64::from_bits(bits[1]), 0.0);
    assert!(batch.get_float64_column(0).is_none());

    assert_eq!(batch.get_string_value(2, 0).unwrap(), "hi");
    assert!(batch.get_string_value(2, 1).is_none()); // null cell
    assert!(batch.get_string_value(0, 0).is_none()); // not a string column
    assert!(batch.get_string_value(2, 5).is_none()); // row out of bounds
    assert!(batch.get_string_value(9, 0).is_none()); // column out of bounds
}

#[test]
fn replacement_scan_matches_only_the_extension() {
    assert!(replacement_scan_matches(b"data.lance"));
    assert!(replacement_scan_matches(b"/tmp/deep/path/table.lance"));
    assert!(replacement_scan_matches(b".lance"));
    assert!(!replacement_scan_matches(b"lance"));
    assert!(!replacement_scan_matches(b"data.parquet"));
    assert!(!replacement_scan_matches(b"data.lance.csv"));
    assert!(!replacement_scan_matches(b""));
}

#[test]
fn field_type_names_keep_the_width_variants_apart() {
    let schema = Schema::new(vec![
        field("a", LogicalType::Utf8, true),
        field("b", LogicalType::LargeUtf8, true),
        field("c", LogicalType::LargeBinary, true),
    ]);
    assert_eq!(schema.field_type_name(0).unwrap(), "utf8");
    assert_eq!(schema.field_type_name(1).unwrap(), "string");
    assert_eq!(schema.field_type_name(2).unwrap(), "large_binary");
}
