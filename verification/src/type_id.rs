//! The closed set of column types that fixture data can be asked for.

use vstd::prelude::*;

verus! {

/// Identifier of `bool`.
pub const BOOL_OID: u32 = 16;

/// Identifier of `int8`.
pub const INT8_OID: u32 = 20;

/// Identifier of `int2`.
pub const INT2_OID: u32 = 21;

/// Identifier of `int4`.
pub const INT4_OID: u32 = 23;

/// Identifier of `text`.
pub const TEXT_OID: u32 = 25;

/// Identifier of `float4`.
pub const FLOAT4_OID: u32 = 700;

/// Identifier of `float8`.
pub const FLOAT8_OID: u32 = 701;

/// Identifier of `float4[]`.
pub const FLOAT4_ARRAY_OID: u32 = 1021;

/// Identifier of `float8[]`.
pub const FLOAT8_ARRAY_OID: u32 = 1022;

/// Identifier of `bpchar`, the blank-padded fixed-length text.
pub const BPCHAR_OID: u32 = 1042;

/// Identifier of `varchar`.
pub const VARCHAR_OID: u32 = 1043;

/// Identifier of `date`.
pub const DATE_OID: u32 = 1082;

/// Identifier of `time`.
pub const TIME_OID: u32 = 1083;

/// Identifier of `timestamp`.
pub const TIMESTAMP_OID: u32 = 1114;

/// Identifier of `numeric`.
pub const NUMERIC_OID: u32 = 1700;

/// Identifier of `uuid`.
pub const UUID_OID: u32 = 2950;

/// A column type, as a tag.
///
/// Every raw identifier maps to exactly one tag; the ones that the library
/// does not know map to [`TypeIdentifier::Unsupported`].
#[derive(Clone, Copy, Debug, PartialEq, Eq, Hash, Structural)]
pub enum TypeIdentifier {
    /// 16-bit integer.
    Int16,
    /// 32-bit integer.
    Int32,
    /// 64-bit integer.
    Int64,
    /// 32-bit float.
    Float32,
    /// 64-bit float.
    Float64,
    /// Array of 32-bit floats.
    Float32Array,
    /// Array of 64-bit floats.
    Float64Array,
    /// Boolean.
    Boolean,
    /// Arbitrary-precision decimal.
    Numeric,
    /// Variable-length text without a limit.
    Text,
    /// Variable-length text with a limit.
    Varchar,
    /// Fixed-length, blank-padded text.
    Bpchar,
    /// Calendar date.
    Date,
    /// Time of day.
    Time,
    /// Date and time; known, but no data is generated for it.
    Timestamp,
    /// UUID; known, but no data is generated for it.
    Uuid,
    /// Any other type.
    Unsupported,
}

impl TypeIdentifier {
    /// The tag that a raw identifier stands for.
    pub open spec fn of_oid(oid: u32) -> TypeIdentifier {
        if oid == INT2_OID {
            TypeIdentifier::Int16
        } else if oid == INT4_OID {
            TypeIdentifier::Int32
        } else if oid == INT8_OID {
            TypeIdentifier::Int64
        } else if oid == FLOAT4_OID {
            TypeIdentifier::Float32
        } else if oid == FLOAT8_OID {
            TypeIdentifier::Float64
        } else if oid == FLOAT4_ARRAY_OID {
            TypeIdentifier::Float32Array
        } else if oid == FLOAT8_ARRAY_OID {
            TypeIdentifier::Float64Array
        } else if oid == BOOL_OID {
            TypeIdentifier::Boolean
        } else if oid == NUMERIC_OID {
            TypeIdentifier::Numeric
        } else if oid == TEXT_OID {
            TypeIdentifier::Text
        } else if oid == VARCHAR_OID {
            TypeIdentifier::Varchar
        } else if oid == BPCHAR_OID {
            TypeIdentifier::Bpchar
        } else if oid == DATE_OID {
            TypeIdentifier::Date
        } else if oid == TIME_OID {
            TypeIdentifier::Time
        } else if oid == TIMESTAMP_OID {
            TypeIdentifier::Timestamp
        } else if oid == UUID_OID {
            TypeIdentifier::Uuid
        } else {
            TypeIdentifier::Unsupported
        }
    }

    /// Whether a value is generated for this type, by the library or,
    /// for floating-point data, by the caller on the library's description.
    pub open spec fn is_supported(self) -> bool {
        !(self is Timestamp || self is Uuid || self is Unsupported)
    }

    /// Looks a raw identifier up in the table of known types.
    pub fn from_oid(oid: u32) -> (type_id: TypeIdentifier)
        ensures
            type_id == Self::of_oid(oid),
    {
        if oid == INT2_OID {
            TypeIdentifier::Int16
        } else if oid == INT4_OID {
            TypeIdentifier::Int32
        } else if oid == INT8_OID {
            TypeIdentifier::Int64
        } else if oid == FLOAT4_OID {
            TypeIdentifier::Float32
        } else if oid == FLOAT8_OID {
            TypeIdentifier::Float64
        } else if oid == FLOAT4_ARRAY_OID {
            TypeIdentifier::Float32Array
        } else if oid == FLOAT8_ARRAY_OID {
            TypeIdentifier::Float64Array
        } else if oid == BOOL_OID {
            TypeIdentifier::Boolean
        } else if oid == NUMERIC_OID {
            TypeIdentifier::Numeric
        } else if oid == TEXT_OID {
            TypeIdentifier::Text
        } else if oid == VARCHAR_OID {
            TypeIdentifier::Varchar
        } else if oid == BPCHAR_OID {
            TypeIdentifier::Bpchar
        } else if oid == DATE_OID {
            TypeIdentifier::Date
        } else if oid == TIME_OID {
            TypeIdentifier::Time
        } else if oid == TIMESTAMP_OID {
            TypeIdentifier::Timestamp
        } else if oid == UUID_OID {
            TypeIdentifier::Uuid
        } else {
            TypeIdentifier::Unsupported
        }
    }
}

} // verus!
