//! The bidirectional type mapper.
//!
//! The dataset store and the host engine each have their own catalogue of
//! logical column types. The mapper translates one into the other, encodes
//! types as strings for the boundary, and reads such strings back. Nested
//! types have no representation in the host's flat column model; translating
//! a schema that contains one fails fast instead of degrading silently.

use vstd::prelude::*;

use crate::error::BridgeError;

verus! {

/// The dataset side's logical column types.
///
/// Type parameters that the bridge never inspects (a timestamp's precision
/// and zone, a decimal's precision and scale, a nested type's element types)
/// are left out: every rule below is independent of them.
#[derive(Clone, Copy, Debug, PartialEq, Eq, Structural)]
pub enum LogicalType {
    Boolean,
    Int8,
    Int16,
    Int32,
    Int64,
    UInt8,
    UInt16,
    UInt32,
    UInt64,
    Float32,
    Float64,
    Utf8,
    LargeUtf8,
    Binary,
    LargeBinary,
    Date32,
    Date64,
    Time32,
    Time64,
    Timestamp,
    Decimal128,
    Decimal256,
    List,
    LargeList,
    FixedSizeList,
    Struct,
    KeyMap,
    Null,
}

/// The host engine's logical column types, as far as the bridge emits them.
#[derive(Clone, Copy, Debug, PartialEq, Eq, Structural)]
pub enum HostType {
    Boolean,
    Tinyint,
    Smallint,
    Integer,
    Bigint,
    UTinyint,
    USmallint,
    UInteger,
    UBigint,
    Float,
    Double,
    Varchar,
    Blob,
    Date,
    Time,
    TimestampMs,
}

/// What a type stores, disregarding which side of the bridge names it.
#[derive(Clone, Copy, Debug, PartialEq, Eq, Structural)]
pub enum TypeCategory {
    Truth,
    Signed(u32),
    Unsigned(u32),
    Floating(u32),
    Text,
    Bytes,
    CalendarDate,
    TimeOfDay,
    Instant,
    DecimalNumber,
    Nested,
    Missing,
}

/// A dataset type is supported when the host's flat column model can carry
/// its values; only nested types are not.
pub open spec fn type_supported(t: LogicalType) -> bool {
    !(t is List || t is LargeList || t is FixedSizeList || t is Struct || t is KeyMap)
}

/// The dataset-to-host translation table. Decimals degrade to a 64-bit
/// float (documented as lossy), null columns are carried as strings, and
/// nested types are rejected with the offending type named.
pub open spec fn spec_host_type(t: LogicalType) -> Result<HostType, BridgeError> {
    match t {
        LogicalType::Boolean => Ok(HostType::Boolean),
        LogicalType::Int8 => Ok(HostType::Tinyint),
        LogicalType::Int16 => Ok(HostType::Smallint),
        LogicalType::Int32 => Ok(HostType::Integer),
        LogicalType::Int64 => Ok(HostType::Bigint),
        LogicalType::UInt8 => Ok(HostType::UTinyint),
        LogicalType::UInt16 => Ok(HostType::USmallint),
        LogicalType::UInt32 => Ok(HostType::UInteger),
        LogicalType::UInt64 => Ok(HostType::UBigint),
        LogicalType::Float32 => Ok(HostType::Float),
        LogicalType::Float64 => Ok(HostType::Double),
        LogicalType::Utf8 => Ok(HostType::Varchar),
        LogicalType::LargeUtf8 => Ok(HostType::Varchar),
        LogicalType::Binary => Ok(HostType::Blob),
        LogicalType::LargeBinary => Ok(HostType::Blob),
        LogicalType::Date32 => Ok(HostType::Date),
        LogicalType::Date64 => Ok(HostType::Date),
        LogicalType::Time32 => Ok(HostType::Time),
        LogicalType::Time64 => Ok(HostType::Time),
        LogicalType::Timestamp => Ok(HostType::TimestampMs),
        LogicalType::Decimal128 => Ok(HostType::Double),
        LogicalType::Decimal256 => Ok(HostType::Double),
        LogicalType::Null => Ok(HostType::Varchar),
        LogicalType::List => Err(BridgeError::UnsupportedType(t)),
        LogicalType::LargeList => Err(BridgeError::UnsupportedType(t)),
        LogicalType::FixedSizeList => Err(BridgeError::UnsupportedType(t)),
        LogicalType::Struct => Err(BridgeError::UnsupportedType(t)),
        LogicalType::KeyMap => Err(BridgeError::UnsupportedType(t)),
    }
}

/// Translate a dataset type into the host type that will carry it, or report
/// it as unsupported.
pub fn arrow_to_duckdb_type(arrow_type: &LogicalType) -> (r: Result<HostType, BridgeError>)
    ensures
        r == spec_host_type(*arrow_type),
        r is Ok <==> type_supported(*arrow_type),
{
    match arrow_type {
        LogicalType::Boolean => Ok(HostType::Boolean),
        LogicalType::Int8 => Ok(HostType::Tinyint),
        LogicalType::Int16 => Ok(HostType::Smallint),
        LogicalType::Int32 => Ok(HostType::Integer),
        LogicalType::Int64 => Ok(HostType::Bigint),
        LogicalType::UInt8 => Ok(HostType::UTinyint),
        LogicalType::UInt16 => Ok(HostType::USmallint),
        LogicalType::UInt32 => Ok(HostType::UInteger),
        LogicalType::UInt64 => Ok(HostType::UBigint),
        LogicalType::Float32 => Ok(HostType::Float),
        LogicalType::Float64 => Ok(HostType::Double),
        LogicalType::Utf8 => Ok(HostType::Varchar),
        LogicalType::LargeUtf8 => Ok(HostType::Varchar),
        LogicalType::Binary => Ok(HostType::Blob),
        LogicalType::LargeBinary => Ok(HostType::Blob),
        LogicalType::Date32 => Ok(HostType::Date),
        LogicalType::Date64 => Ok(HostType::Date),
        LogicalType::Time32 => Ok(HostType::Time),
        LogicalType::Time64 => Ok(HostType::Time),
        LogicalType::Timestamp => Ok(HostType::TimestampMs),
        LogicalType::Decimal128 => Ok(HostType::Double),
        LogicalType::Decimal256 => Ok(HostType::Double),
        LogicalType::Null => Ok(HostType::Varchar),
        LogicalType::List => Err(BridgeError::UnsupportedType(LogicalType::List)),
        LogicalType::LargeList => Err(BridgeError::UnsupportedType(LogicalType::LargeList)),
        LogicalType::FixedSizeList => Err(BridgeError::UnsupportedType(LogicalType::FixedSizeList)),
        LogicalType::Struct => Err(BridgeError::UnsupportedType(LogicalType::Struct)),
        LogicalType::KeyMap => Err(BridgeError::UnsupportedType(LogicalType::KeyMap)),
    }
}

/// The string encoding of a dataset type, as the boundary reports it.
pub open spec fn spec_type_name(t: LogicalType) -> Seq<char> {
    match t {
        LogicalType::Boolean => "bool"@,
        LogicalType::Int8 => "int8"@,
        LogicalType::Int16 => "int16"@,
        LogicalType::Int32 => "int32"@,
        LogicalType::Int64 => "int64"@,
        LogicalType::UInt8 => "uint8"@,
        LogicalType::UInt16 => "uint16"@,
        LogicalType::UInt32 => "uint32"@,
        LogicalType::UInt64 => "uint64"@,
        LogicalType::Float32 => "float"@,
        LogicalType::Float64 => "double"@,
        LogicalType::Utf8 => "utf8"@,
        LogicalType::LargeUtf8 => "string"@,
        LogicalType::Binary => "binary"@,
        LogicalType::LargeBinary => "large_binary"@,
        LogicalType::Date32 => "date32"@,
        LogicalType::Date64 => "date64"@,
        LogicalType::Time32 => "time32"@,
        LogicalType::Time64 => "time64"@,
        LogicalType::Timestamp => "timestamp"@,
        LogicalType::Decimal128 => "decimal128"@,
        LogicalType::Decimal256 => "decimal256"@,
        LogicalType::List => "list"@,
        LogicalType::LargeList => "large_list"@,
        LogicalType::FixedSizeList => "fixed_size_list"@,
        LogicalType::Struct => "struct"@,
        LogicalType::KeyMap => "map"@,
        LogicalType::Null => "null"@,
    }
}

/// Encode a dataset type as its boundary string.
pub fn arrow_type_to_string(data_type: &LogicalType) -> (s: String)
    ensures
        s@ == spec_type_name(*data_type),
{
    match data_type {
        LogicalType::Boolean => String::from_str("bool"),
        LogicalType::Int8 => String::from_str("int8"),
        LogicalType::Int16 => String::from_str("int16"),
        LogicalType::Int32 => String::from_str("int32"),
        LogicalType::Int64 => String::from_str("int64"),
        LogicalType::UInt8 => String::from_str("uint8"),
        LogicalType::UInt16 => String::from_str("uint16"),
        LogicalType::UInt32 => String::from_str("uint32"),
        LogicalType::UInt64 => String::from_str("uint64"),
        LogicalType::Float32 => String::from_str("float"),
        LogicalType::Float64 => String::from_str("double"),
        LogicalType::Utf8 => String::from_str("utf8"),
        LogicalType::LargeUtf8 => String::from_str("string"),
        LogicalType::Binary => String::from_str("binary"),
        LogicalType::LargeBinary => String::from_str("large_binary"),
        LogicalType::Date32 => String::from_str("date32"),
        LogicalType::Date64 => String::from_str("date64"),
        LogicalType::Time32 => String::from_str("time32"),
        LogicalType::Time64 => String::from_str("time64"),
        LogicalType::Timestamp => String::from_str("timestamp"),
        LogicalType::Decimal128 => String::from_str("decimal128"),
        LogicalType::Decimal256 => String::from_str("decimal256"),
        LogicalType::List => String::from_str("list"),
        LogicalType::LargeList => String::from_str("large_list"),
        LogicalType::FixedSizeList => String::from_str("fixed_size_list"),
        LogicalType::Struct => String::from_str("struct"),
        LogicalType::KeyMap => String::from_str("map"),
        LogicalType::Null => String::from_str("null"),
    }
}

/// What a type-name string decodes to. Unrecognized names, the names of
/// nested types among them, fall back to the variable-length string type:
/// the write path can always encode as text, and the fallback can never
/// smuggle a nested type past the supported set.
pub open spec fn spec_type_of_name(name: Seq<char>) -> LogicalType {
    if name == "bool"@ {
        LogicalType::Boolean
    } else if name == "int8"@ {
        LogicalType::Int8
    } else if name == "int16"@ {
        LogicalType::Int16
    } else if name == "int32"@ {
        LogicalType::Int32
    } else if name == "int64"@ {
        LogicalType::Int64
    } else if name == "uint8"@ {
        LogicalType::UInt8
    } else if name == "uint16"@ {
        LogicalType::UInt16
    } else if name == "uint32"@ {
        LogicalType::UInt32
    } else if name == "uint64"@ {
        LogicalType::UInt64
    } else if name == "float"@ {
        LogicalType::Float32
    } else if name == "double"@ {
        LogicalType::Float64
    } else if name == "utf8"@ || name == "string"@ {
        LogicalType::Utf8
    } else if name == "binary"@ {
        LogicalType::Binary
    } else if name == "large_binary"@ {
        LogicalType::LargeBinary
    } else if name == "date32"@ {
        LogicalType::Date32
    } else if name == "date64"@ {
        LogicalType::Date64
    } else if name == "time32"@ {
        LogicalType::Time32
    } else if name == "time64"@ {
        LogicalType::Time64
    } else if name == "timestamp"@ {
        LogicalType::Timestamp
    } else if name == "decimal128"@ {
        LogicalType::Decimal128
    } else if name == "decimal256"@ {
        LogicalType::Decimal256
    } else {
        LogicalType::Utf8
    }
}

/// Decode a boundary string into a dataset type, falling back to the
/// variable-length string type for anything unrecognized.
pub fn string_to_arrow_type(type_str: &str) -> (t: LogicalType)
    ensures
        t == spec_type_of_name(type_str@),
{
    let name = type_str.to_owned();
    if name == String::from_str("bool") {
        LogicalType::Boolean
    } else if name == String::from_str("int8") {
        LogicalType::Int8
    } else if name == String::from_str("int16") {
        LogicalType::Int16
    } else if name == String::from_str("int32") {
        LogicalType::Int32
    } else if name == String::from_str("int64") {
        LogicalType::Int64
    } else if name == String::from_str("uint8") {
        LogicalType::UInt8
    } else if name == String::from_str("uint16") {
        LogicalType::UInt16
    } else if name == String::from_str("uint32") {
        LogicalType::UInt32
    } else if name == String::from_str("uint64") {
        LogicalType::UInt64
    } else if name == String::from_str("float") {
        LogicalType::Float32
    } else if name == String::from_str("double") {
        LogicalType::Float64
    } else if name == String::from_str("utf8") || name == String::from_str("string") {
        LogicalType::Utf8
    } else if name == String::from_str("binary") {
        LogicalType::Binary
    } else if name == String::from_str("large_binary") {
        LogicalType::LargeBinary
    } else if name == String::from_str("date32") {
        LogicalType::Date32
    } else if name == String::from_str("date64") {
        LogicalType::Date64
    } else if name == String::from_str("time32") {
        LogicalType::Time32
    } else if name == String::from_str("time64") {
        LogicalType::Time64
    } else if name == String::from_str("timestamp") {
        LogicalType::Timestamp
    } else if name == String::from_str("decimal128") {
        LogicalType::Decimal128
    } else if name == String::from_str("decimal256") {
        LogicalType::Decimal256
    } else {
        LogicalType::Utf8
    }
}

/// The string encoding of a host type, as the boundary hands it back for
/// schema construction.
pub open spec fn spec_host_type_name(h: HostType) -> Seq<char> {
    match h {
        HostType::Boolean => "bool"@,
        HostType::Tinyint => "int8"@,
        HostType::Smallint => "int16"@,
        HostType::Integer => "int32"@,
        HostType::Bigint => "int64"@,
        HostType::UTinyint => "uint8"@,
        HostType::USmallint => "uint16"@,
        HostType::UInteger => "uint32"@,
        HostType::UBigint => "uint64"@,
        HostType::Float => "float"@,
        HostType::Double => "double"@,
        HostType::Varchar => "utf8"@,
        HostType::Blob => "binary"@,
        HostType::Date => "date32"@,
        HostType::Time => "time32"@,
        HostType::TimestampMs => "timestamp"@,
    }
}

/// Encode a host type as its boundary string.
pub fn host_type_to_string(host_type: &HostType) -> (s: String)
    ensures
        s@ == spec_host_type_name(*host_type),
{
    match host_type {
        HostType::Boolean => String::from_str("bool"),
        HostType::Tinyint => String::from_str("int8"),
        HostType::Smallint => String::from_str("int16"),
        HostType::Integer => String::from_str("int32"),
        HostType::Bigint => String::from_str("int64"),
        HostType::UTinyint => String::from_str("uint8"),
        HostType::USmallint => String::from_str("uint16"),
        HostType::UInteger => String::from_str("uint32"),
        HostType::UBigint => String::from_str("uint64"),
        HostType::Float => String::from_str("float"),
        HostType::Double => String::from_str("double"),
        HostType::Varchar => String::from_str("utf8"),
        HostType::Blob => String::from_str("binary"),
        HostType::Date => String::from_str("date32"),
        HostType::Time => String::from_str("time32"),
        HostType::TimestampMs => String::from_str("timestamp"),
    }
}

/// The category a dataset type stores.
pub open spec fn type_category(t: LogicalType) -> TypeCategory {
    match t {
        LogicalType::Boolean => TypeCategory::Truth,
        LogicalType::Int8 => TypeCategory::Signed(8),
        LogicalType::Int16 => TypeCategory::Signed(16),
        LogicalType::Int32 => TypeCategory::Signed(32),
        LogicalType::Int64 => TypeCategory::Signed(64),
        LogicalType::UInt8 => TypeCategory::Unsigned(8),
        LogicalType::UInt16 => TypeCategory::Unsigned(16),
        LogicalType::UInt32 => TypeCategory::Unsigned(32),
        LogicalType::UInt64 => TypeCategory::Unsigned(64),
        LogicalType::Float32 => TypeCategory::Floating(32),
        LogicalType::Float64 => TypeCategory::Floating(64),
        LogicalType::Utf8 => TypeCategory::Text,
        LogicalType::LargeUtf8 => TypeCategory::Text,
        LogicalType::Binary => TypeCategory::Bytes,
        LogicalType::LargeBinary => TypeCategory::Bytes,
        LogicalType::Date32 => TypeCategory::CalendarDate,
        LogicalType::Date64 => TypeCategory::CalendarDate,
        LogicalType::Time32 => TypeCategory::TimeOfDay,
        LogicalType::Time64 => TypeCategory::TimeOfDay,
        LogicalType::Timestamp => TypeCategory::Instant,
        LogicalType::Decimal128 => TypeCategory::DecimalNumber,
        LogicalType::Decimal256 => TypeCategory::DecimalNumber,
        LogicalType::List => TypeCategory::Nested,
        LogicalType::LargeList => TypeCategory::Nested,
        LogicalType::FixedSizeList => TypeCategory::Nested,
        LogicalType::Struct => TypeCategory::Nested,
        LogicalType::KeyMap => TypeCategory::Nested,
        LogicalType::Null => TypeCategory::Missing,
    }
}

/// The category a host type stores.
pub open spec fn host_category(h: HostType) -> TypeCategory {
    match h {
        HostType::Boolean => TypeCategory::Truth,
        HostType::Tinyint => TypeCategory::Signed(8),
        HostType::Smallint => TypeCategory::Signed(16),
        HostType::Integer => TypeCategory::Signed(32),
        HostType::Bigint => TypeCategory::Signed(64),
        HostType::UTinyint => TypeCategory::Unsigned(8),
        HostType::USmallint => TypeCategory::Unsigned(16),
        HostType::UInteger => TypeCategory::Unsigned(32),
        HostType::UBigint => TypeCategory::Unsigned(64),
        HostType::Float => TypeCategory::Floating(32),
        HostType::Double => TypeCategory::Floating(64),
        HostType::Varchar => TypeCategory::Text,
        HostType::Blob => TypeCategory::Bytes,
        HostType::Date => TypeCategory::CalendarDate,
        HostType::Time => TypeCategory::TimeOfDay,
        HostType::TimestampMs => TypeCategory::Instant,
    }
}

/// The category a supported dataset type keeps after the mapping's two
/// documented losses: decimals travel as 64-bit floats, and null columns
/// travel as text.
pub open spec fn degraded_category(t: LogicalType) -> TypeCategory {
    match type_category(t) {
        TypeCategory::DecimalNumber => TypeCategory::Floating(64),
        TypeCategory::Missing => TypeCategory::Text,
        c => c,
    }
}

/// Mapping a supported dataset type to the host preserves its category, up
/// to the documented degradations.
pub proof fn lemma_host_mapping_preserves_category(t: LogicalType)
    requires
        type_supported(t),
    ensures
        spec_host_type(t) matches Ok(h) && host_category(h) == degraded_category(t),
{
}

/// The character content of every type-name literal, spelled out so that
/// proofs can decide which names are equal and which are not.
proof fn lemma_type_name_chars()
    ensures
        "bool"@.len() == 4,
        "bool"@[0] == 'b',
        "bool"@[1] == 'o',
        "bool"@[2] == 'o',
        "bool"@[3] == 'l',
        "int8"@.len() == 4,
        "int8"@[0] == 'i',
        "int8"@[1] == 'n',
        "int8"@[2] == 't',
        "int8"@[3] == '8',
        "int16"@.len() == 5,
        "int16"@[0] == 'i',
        "int16"@[1] == 'n',
        "int16"@[2] == 't',
        "int16"@[3] == '1',
        "int16"@[4] == '6',
        "int32"@.len() == 5,
        "int32"@[0] == 'i',
        "int32"@[1] == 'n',
        "int32"@[2] == 't',
        "int32"@[3] == '3',
        "int32"@[4] == '2',
        "int64"@.len() == 5,
        "int64"@[0] == 'i',
        "int64"@[1] == 'n',
        "int64"@[2] == 't',
        "int64"@[3] == '6',
        "int64"@[4] == '4',
        "uint8"@.len() == 5,
        "uint8"@[0] == 'u',
        "uint8"@[1] == 'i',
        "uint8"@[2] == 'n',
        "uint8"@[3] == 't',
        "uint8"@[4] == '8',
        "uint16"@.len() == 6,
        "uint16"@[0] == 'u',
        "uint16"@[1] == 'i',
        "uint16"@[2] == 'n',
        "uint16"@[3] == 't',
        "uint16"@[4] == '1',
        "uint16"@[5] == '6',
        "uint32"@.len() == 6,
        "uint32"@[0] == 'u',
        "uint32"@[1] == 'i',
        "uint32"@[2] == 'n',
        "uint32"@[3] == 't',
        "uint32"@[4] == '3',
        "uint32"@[5] == '2',
        "uint64"@.len() == 6,
        "uint64"@[0] == 'u',
        "uint64"@[1] == 'i',
        "uint64"@[2] == 'n',
        "uint64"@[3] == 't',
        "uint64"@[4] == '6',
        "uint64"@[5] == '4',
        "float"@.len() == 5,
        "float"@[0] == 'f',
        "float"@[1] == 'l',
        "float"@[2] == 'o',
        "float"@[3] == 'a',
        "float"@[4] == 't',
        "double"@.len() == 6,
        "double"@[0] == 'd',
        "double"@[1] == 'o',
        "double"@[2] == 'u',
        "double"@[3] == 'b',
        "double"@[4] == 'l',
        "double"@[5] == 'e',
        "utf8"@.len() == 4,
        "utf8"@[0] == 'u',
        "utf8"@[1] == 't',
        "utf8"@[2] == 'f',
        "utf8"@[3] == '8',
        "string"@.len() == 6,
        "string"@[0] == 's',
        "string"@[1] == 't',
        "string"@[2] == 'r',
        "string"@[3] == 'i',
        "string"@[4] == 'n',
        "string"@[5] == 'g',
        "binary"@.len() == 6,
        "binary"@[0] == 'b',
        "binary"@[1] == 'i',
        "binary"@[2] == 'n',
        "binary"@[3] == 'a',
        "binary"@[4] == 'r',
        "binary"@[5] == 'y',
        "large_binary"@.len() == 12,
        "large_binary"@[0] == 'l',
        "large_binary"@[1] == 'a',
        "large_binary"@[2] == 'r',
        "large_binary"@[3] == 'g',
        "large_binary"@[4] == 'e',
        "large_binary"@[5] == '_',
        "large_binary"@[6] == 'b',
        "large_binary"@[7] == 'i',
        "large_binary"@[8] == 'n',
        "large_binary"@[9] == 'a',
        "large_binary"@[10] == 'r',
        "large_binary"@[11] == 'y',
        "date32"@.len() == 6,
        "date32"@[0] == 'd',
        "date32"@[1] == 'a',
        "date32"@[2] == 't',
        "date32"@[3] == 'e',
        "date32"@[4] == '3',
        "date32"@[5] == '2',
        "date64"@.len() == 6,
        "date64"@[0] == 'd',
        "date64"@[1] == 'a',
        "date64"@[2] == 't',
        "date64"@[3] == 'e',
        "date64"@[4] == '6',
        "date64"@[5] == '4',
        "time32"@.len() == 6,
        "time32"@[0] == 't',
        "time32"@[1] == 'i',
        "time32"@[2] == 'm',
        "time32"@[3] == 'e',
        "time32"@[4] == '3',
        "time32"@[5] == '2',
        "time64"@.len() == 6,
        "time64"@[0] == 't',
        "time64"@[1] == 'i',
        "time64"@[2] == 'm',
        "time64"@[3] == 'e',
        "time64"@[4] == '6',
        "time64"@[5] == '4',
        "timestamp"@.len() == 9,
        "timestamp"@[0] == 't',
        "timestamp"@[1] == 'i',
        "timestamp"@[2] == 'm',
        "timestamp"@[3] == 'e',
        "timestamp"@[4] == 's',
        "timestamp"@[5] == 't',
        "timestamp"@[6] == 'a',
        "timestamp"@[7] == 'm',
        "timestamp"@[8] == 'p',
        "decimal128"@.len() == 10,
        "decimal128"@[0] == 'd',
        "decimal128"@[1] == 'e',
        "decimal128"@[2] == 'c',
        "decimal128"@[3] == 'i',
        "decimal128"@[4] == 'm',
        "decimal128"@[5] == 'a',
        "decimal128"@[6] == 'l',
        "decimal128"@[7] == '1',
        "decimal128"@[8] == '2',
        "decimal128"@[9] == '8',
        "decimal256"@.len() == 10,
        "decimal256"@[0] == 'd',
        "decimal256"@[1] == 'e',
        "decimal256"@[2] == 'c',
        "decimal256"@[3] == 'i',
        "decimal256"@[4] == 'm',
        "decimal256"@[5] == 'a',
        "decimal256"@[6] == 'l',
        "decimal256"@[7] == '2',
        "decimal256"@[8] == '5',
        "decimal256"@[9] == '6',
        "list"@.len() == 4,
        "list"@[0] == 'l',
        "list"@[1] == 'i',
        "list"@[2] == 's',
        "list"@[3] == 't',
        "large_list"@.len() == 10,
        "large_list"@[0] == 'l',
        "large_list"@[1] == 'a',
        "large_list"@[2] == 'r',
        "large_list"@[3] == 'g',
        "large_list"@[4] == 'e',
        "large_list"@[5] == '_',
        "large_list"@[6] == 'l',
        "large_list"@[7] == 'i',
        "large_list"@[8] == 's',
        "large_list"@[9] == 't',
        "fixed_size_list"@.len() == 15,
        "fixed_size_list"@[0] == 'f',
        "fixed_size_list"@[1] == 'i',
        "fixed_size_list"@[2] == 'x',
        "fixed_size_list"@[3] == 'e',
        "fixed_size_list"@[4] == 'd',
        "fixed_size_list"@[5] == '_',
        "fixed_size_list"@[6] == 's',
        "fixed_size_list"@[7] == 'i',
        "fixed_size_list"@[8] == 'z',
        "fixed_size_list"@[9] == 'e',
        "fixed_size_list"@[10] == '_',
        "fixed_size_list"@[11] == 'l',
        "fixed_size_list"@[12] == 'i',
        "fixed_size_list"@[13] == 's',
        "fixed_size_list"@[14] == 't',
        "struct"@.len() == 6,
        "struct"@[0] == 's',
        "struct"@[1] == 't',
        "struct"@[2] == 'r',
        "struct"@[3] == 'u',
        "struct"@[4] == 'c',
        "struct"@[5] == 't',
        "map"@.len() == 3,
        "map"@[0] == 'm',
        "map"@[1] == 'a',
        "map"@[2] == 'p',
        "null"@.len() == 4,
        "null"@[0] == 'n',
        "null"@[1] == 'u',
        "null"@[2] == 'l',
        "null"@[3] == 'l',
{
    reveal_strlit("bool");
    reveal_strlit("int8");
    reveal_strlit("int16");
    reveal_strlit("int32");
    reveal_strlit("int64");
    reveal_strlit("uint8");
    reveal_strlit("uint16");
    reveal_strlit("uint32");
    reveal_strlit("uint64");
    reveal_strlit("float");
    reveal_strlit("double");
    reveal_strlit("utf8");
    reveal_strlit("string");
    reveal_strlit("binary");
    reveal_strlit("large_binary");
    reveal_strlit("date32");
    reveal_strlit("date64");
    reveal_strlit("time32");
    reveal_strlit("time64");
    reveal_strlit("timestamp");
    reveal_strlit("decimal128");
    reveal_strlit("decimal256");
    reveal_strlit("list");
    reveal_strlit("large_list");
    reveal_strlit("fixed_size_list");
    reveal_strlit("struct");
    reveal_strlit("map");
    reveal_strlit("null");
}

/// Decoding the name of a supported, non-degrading dataset type gives the
/// type back exactly. The two width collapses documented by the mapper are
/// the only supported exceptions: the wide string type decodes to the plain
/// one, and the null type's name is unrecognized and falls back to text.
pub proof fn lemma_dataset_name_round_trip(t: LogicalType)
    requires
        type_supported(t),
        !(t is LargeUtf8),
        !(t is Null),
    ensures
        spec_type_of_name(spec_type_name(t)) == t,
{
    lemma_type_name_chars();
}

/// Encoding a supported dataset type and decoding the name preserves the
/// type's category; the null type degrades to text as documented.
pub proof fn lemma_dataset_name_round_trip_category(t: LogicalType)
    requires
        type_supported(t),
    ensures
        type_category(spec_type_of_name(spec_type_name(t))) == if t is Null {
            TypeCategory::Text
        } else {
            type_category(t)
        },
{
    lemma_type_name_chars();
}

/// A host type, encoded as its boundary string and decoded back through the
/// dataset side, maps to exactly the same host type again.
pub proof fn lemma_host_name_round_trip(h: HostType)
    ensures
        spec_host_type(spec_type_of_name(spec_host_type_name(h))) == Result::<
            HostType,
            BridgeError,
        >::Ok(h),
{
    lemma_type_name_chars();
}

} // verus!
