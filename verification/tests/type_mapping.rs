use lance_bridge::error::BridgeError;
use lance_bridge::types::HostType;
use lance_bridge::types::LogicalType;
use lance_bridge::types::arrow_to_duckdb_type;
use lance_bridge::types::arrow_type_to_string;
use lance_bridge::types::host_type_to_string;
use lance_bridge::types::string_to_arrow_type;

#[test]
fn maps_every_supported_scalar() {
    let table = [
        (LogicalType::Boolean, HostType::Boolean),
        (LogicalType::Int8, HostType::Tinyint),
        (LogicalType::Int16, HostType::Smallint),
        (LogicalType::Int32, HostType::Integer),
        (LogicalType::Int64, HostType::Bigint),
        (LogicalType::UInt8, HostType::UTinyint),
        (LogicalType::UInt16, HostType::USmallint),
        (LogicalType::UInt32, HostType::UInteger),
        (LogicalType::UInt64, HostType::UBigint),
        (LogicalType::Float32, HostType::Float),
        (LogicalType::Float64, HostType::Double),
        (LogicalType::Utf8, HostType::Varchar),
        (LogicalType::LargeUtf8, HostType::Varchar),
        (LogicalType::Binary, HostType::Blob),
        (LogicalType::LargeBinary, HostType::Blob),
        (LogicalType::Date32, HostType::Date),
        (LogicalType::Date64, HostType::Date),
        (LogicalType::Time32, HostType::Time),
        (LogicalType::Time64, HostType::Time),
        (LogicalType::Timestamp, HostType::TimestampMs),
        (LogicalType::Decimal128, HostType::Double),
        (LogicalType::Decimal256, HostType::Double),
        (LogicalType::Null, HostType::Varchar),
    ];
    for (dataset_type, host_type) in table {
        assert_eq!(arrow_to_duckdb_type(&dataset_type), Ok(host_type));
    }
}

#[test]
fn rejects_every_nested_type() {
    let nested = [
        LogicalType::List,
        LogicalType::LargeList,
        LogicalType::FixedSizeList,
        LogicalType::Struct,
        LogicalType::KeyMap,
    ];
    for t in nested {
        assert_eq!(arrow_to_duckdb_type(&t), Err(BridgeError::UnsupportedType(t)));
    }
}

#[test]
fn encodes_type_names() {
    assert_eq!(arrow_type_to_string(&LogicalType::Boolean), "bool");
    assert_eq!(arrow_type_to_string(&LogicalType::Int64), "int64");
    assert_eq!(arrow_type_to_string(&LogicalType::UInt16), "uint16");
    assert_eq!(arrow_type_to_string(&LogicalType::Float32), "float");
    assert_eq!(arrow_type_to_string(&LogicalType::Float64), "double");
    assert_eq!(arrow_type_to_string(&LogicalType::Utf8), "utf8");
    assert_eq!(arrow_type_to_string(&LogicalType::LargeUtf8), "string");
    assert_eq!(arrow_type_to_string(&LogicalType::Binary), "binary");
    assert_eq!(arrow_type_to_string(&LogicalType::Date32), "date32");
    assert_eq!(arrow_type_to_string(&LogicalType::Timestamp), "timestamp");
    assert_eq!(arrow_type_to_string(&LogicalType::Decimal128), "decimal128");
    assert_eq!(arrow_type_to_string(&LogicalType::List), "list");
    assert_eq!(arrow_type_to_string(&LogicalType::Struct), "struct");
}

#[test]
fn decodes_type_names() {
    assert_eq!(string_to_arrow_type("bool"), LogicalType::Boolean);
    assert_eq!(string_to_arrow_type("int8"), LogicalType::Int8);
    assert_eq!(string_to_arrow_type("int64"), LogicalType::Int64);
    assert_eq!(string_to_arrow_type("uint32"), LogicalType::UInt32);
    assert_eq!(string_to_arrow_type("float"), LogicalType::Float32);
    assert_eq!(string_to_arrow_type("double"), LogicalType::Float64);
    assert_eq!(string_to_arrow_type("utf8"), LogicalType::Utf8);
    assert_eq!(string_to_arrow_type("string"), LogicalType::Utf8);
    assert_eq!(string_to_arrow_type("binary"), LogicalType::Binary);
    assert_eq!(string_to_arrow_type("timestamp"), LogicalType::Timestamp);
}

#[test]
fn unrecognized_names_fall_back_to_text() {
    assert_eq!(string_to_arrow_type("unknown"), LogicalType::Utf8);
    assert_eq!(string_to_arrow_type(""), LogicalType::Utf8);
    assert_eq!(string_to_arrow_type("list"), LogicalType::Utf8);
    assert_eq!(string_to_arrow_type("struct"), LogicalType::Utf8);
    assert_eq!(string_to_arrow_type("map"), LogicalType::Utf8);
    assert_eq!(string_to_arrow_type("BOOL"), LogicalType::Utf8);
}

#[test]
fn host_types_round_trip_exactly() {
    let hosts = [
        HostType::Boolean,
        HostType::Tinyint,
        HostType::Smallint,
        HostType::Integer,
        HostType::Bigint,
        HostType::UTinyint,
        HostType::USmallint,
        HostType::UInteger,
        HostType::UBigint,
        HostType::Float,
        HostType::Double,
        HostType::Varchar,
        HostType::Blob,
        HostType::Date,
        HostType::Time,
        HostType::TimestampMs,
    ];
    for h in hosts {
        let name = host_type_to_string(&h);
        let back = string_to_arrow_type(&name);
        assert_eq!(arrow_to_duckdb_type(&back), Ok(h));
    }
}

#[test]
fn lossy_mappings_keep_category() {
    // A decimal travels as a 64-bit float.
    let host = arrow_to_duckdb_type(&LogicalType::Decimal128).unwrap();
    assert_eq!(host, HostType::Double);
    let back = string_to_arrow_type(&host_type_to_string(&host));
    assert_eq!(back, LogicalType::Float64);

    // The wide string type collapses onto the plain one.
    let host = arrow_to_duckdb_type(&LogicalType::LargeUtf8).unwrap();
    assert_eq!(host, HostType::Varchar);
    let back = string_to_arrow_type(&host_type_to_string(&host));
    assert_eq!(back, LogicalType::Utf8);

    // Integer widths survive both directions.
    let name = arrow_type_to_string(&LogicalType::Int16);
    assert_eq!(string_to_arrow_type(&name), LogicalType::Int16);
    let name = arrow_type_to_string(&LogicalType::UInt64);
    assert_eq!(string_to_arrow_type(&name), LogicalType::UInt64);
}
