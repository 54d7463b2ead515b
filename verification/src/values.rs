//! The tagged-value protocol: the closed set of column tags a caller may
//! request, the backend-independent value representation, and the decoding of
//! one stored value under one declared tag.

use vstd::prelude::*;

verus! {

/// Caller-supplied hint identifying a column's semantic type at query time.
/// The core has no schema catalog of its own, so every requested column
/// carries exactly one tag.
#[derive(Copy, Clone, PartialEq, Eq, Structural, Debug)]
pub enum ValueTag {
    Null,
    String,
    I64,
    I32,
    I16,
    Bool,
    F64,
    F32,
    Binary,
    Time,
    Date,
    DateTime,
}

/// A decoded, backend-independent column value.
///
/// Floating-point columns are carried as their IEEE 754 bit patterns
/// (`F64` and `F32` hold the raw bits), so a stored value round-trips
/// exactly; the host boundary converts between bits and native floats.
#[derive(Clone, PartialEq, Debug)]
pub enum Value {
    Null,
    String(String),
    I64(i64),
    I32(i32),
    I16(i16),
    Bool(bool),
    F64(u64),
    F32(u32),
}

/// Why the extraction of one column failed.
#[derive(Copy, Clone, PartialEq, Eq, Structural, Debug)]
pub enum DecodeFailure {
    /// The declared tag is one the decoder does not extract (`Binary`,
    /// `Time`, `Date`, `DateTime`). Such a request fails loudly instead of
    /// silently substituting a null for a real stored value.
    Unsupported,
    /// The stored value's type does not match the declared tag.
    TypeMismatch,
    /// A narrowing integer conversion fell outside the target range.
    OutOfRange,
    /// The requested column is not present in the row.
    MissingColumn,
}

/// The tags the decoder can extract.
pub open spec fn spec_tag_supported(tag: ValueTag) -> bool {
    match tag {
        ValueTag::Binary => false,
        ValueTag::Time => false,
        ValueTag::Date => false,
        ValueTag::DateTime => false,
        _ => true,
    }
}

/// What decoding one stored value under one declared tag yields: the decoded
/// value, or the failure. Dispatch is strictly on the tag; the only
/// coercions are in-range narrowings between integer widths, and an
/// out-of-range narrowing is an error, never a wrapped or clamped value.
pub open spec fn spec_decode_cell(stored: Value, tag: ValueTag) -> Result<Value, DecodeFailure> {
    match tag {
        ValueTag::Null => Ok(Value::Null),
        ValueTag::String => match stored {
            Value::String(s) => Ok(Value::String(s)),
            _ => Err(DecodeFailure::TypeMismatch),
        },
        ValueTag::I64 => match stored {
            Value::I64(v) => Ok(Value::I64(v)),
            _ => Err(DecodeFailure::TypeMismatch),
        },
        ValueTag::I32 => match stored {
            Value::I32(v) => Ok(Value::I32(v)),
            Value::I64(v) => if i32::MIN <= v && v <= i32::MAX {
                Ok(Value::I32(v as i32))
            } else {
                Err(DecodeFailure::OutOfRange)
            },
            _ => Err(DecodeFailure::TypeMismatch),
        },
        ValueTag::I16 => match stored {
            Value::I16(v) => Ok(Value::I16(v)),
            Value::I32(v) => if i16::MIN <= v && v <= i16::MAX {
                Ok(Value::I16(v as i16))
            } else {
                Err(DecodeFailure::OutOfRange)
            },
            Value::I64(v) => if i16::MIN <= v && v <= i16::MAX {
                Ok(Value::I16(v as i16))
            } else {
                Err(DecodeFailure::OutOfRange)
            },
            _ => Err(DecodeFailure::TypeMismatch),
        },
        ValueTag::Bool => match stored {
            Value::Bool(b) => Ok(Value::Bool(b)),
            _ => Err(DecodeFailure::TypeMismatch),
        },
        ValueTag::F64 => match stored {
            Value::F64(bits) => Ok(Value::F64(bits)),
            _ => Err(DecodeFailure::TypeMismatch),
        },
        ValueTag::F32 => match stored {
            Value::F32(bits) => Ok(Value::F32(bits)),
            _ => Err(DecodeFailure::TypeMismatch),
        },
        _ => Err(DecodeFailure::Unsupported),
    }
}

/// Decode one stored value under one declared tag.
pub fn decode_cell(stored: &Value, tag: ValueTag) -> (r: Result<Value, DecodeFailure>)
    ensures
        r == spec_decode_cell(*stored, tag),
{
    match tag {
        ValueTag::Null => Ok(Value::Null),
        ValueTag::String => match stored {
            Value::String(s) => Ok(Value::String(s.clone())),
            _ => Err(DecodeFailure::TypeMismatch),
        },
        ValueTag::I64 => match stored {
            Value::I64(v) => Ok(Value::I64(*v)),
            _ => Err(DecodeFailure::TypeMismatch),
        },
        ValueTag::I32 => match stored {
            Value::I32(v) => Ok(Value::I32(*v)),
            Value::I64(v) => if i32::MIN as i64 <= *v && *v <= i32::MAX as i64 {
                Ok(Value::I32(*v as i32))
            } else {
                Err(DecodeFailure::OutOfRange)
            },
            _ => Err(DecodeFailure::TypeMismatch),
        },
        ValueTag::I16 => match stored {
            Value::I16(v) => Ok(Value::I16(*v)),
            Value::I32(v) => if i16::MIN as i32 <= *v && *v <= i16::MAX as i32 {
                Ok(Value::I16(*v as i16))
            } else {
                Err(DecodeFailure::OutOfRange)
            },
            Value::I64(v) => if i16::MIN as i64 <= *v && *v <= i16::MAX as i64 {
                Ok(Value::I16(*v as i16))
            } else {
                Err(DecodeFailure::OutOfRange)
            },
            _ => Err(DecodeFailure::TypeMismatch),
        },
        ValueTag::Bool => match stored {
            Value::Bool(b) => Ok(Value::Bool(*b)),
            _ => Err(DecodeFailure::TypeMismatch),
        },
        ValueTag::F64 => match stored {
            Value::F64(bits) => Ok(Value::F64(*bits)),
            _ => Err(DecodeFailure::TypeMismatch),
        },
        ValueTag::F32 => match stored {
            Value::F32(bits) => Ok(Value::F32(*bits)),
            _ => Err(DecodeFailure::TypeMismatch),
        },
        ValueTag::Binary => Err(DecodeFailure::Unsupported),
        ValueTag::Time => Err(DecodeFailure::Unsupported),
        ValueTag::Date => Err(DecodeFailure::Unsupported),
        ValueTag::DateTime => Err(DecodeFailure::Unsupported),
    }
}

/// Decoding a stored `I64`, `F64`, `Bool` or `String` value under its own tag
/// returns the stored value unchanged: no precision loss and no coercion
/// beyond the declared tag. The same holds for the other exactly-matching
/// widths.
pub proof fn lemma_decode_round_trip(stored: Value)
    ensures
        stored is I64 ==> spec_decode_cell(stored, ValueTag::I64) == Ok::<Value, DecodeFailure>(stored),
        stored is F64 ==> spec_decode_cell(stored, ValueTag::F64) == Ok::<Value, DecodeFailure>(stored),
        stored is Bool ==> spec_decode_cell(stored, ValueTag::Bool) == Ok::<Value, DecodeFailure>(stored),
        stored is String ==> spec_decode_cell(stored, ValueTag::String) == Ok::<Value, DecodeFailure>(stored),
        stored is I32 ==> spec_decode_cell(stored, ValueTag::I32) == Ok::<Value, DecodeFailure>(stored),
        stored is I16 ==> spec_decode_cell(stored, ValueTag::I16) == Ok::<Value, DecodeFailure>(stored),
        stored is F32 ==> spec_decode_cell(stored, ValueTag::F32) == Ok::<Value, DecodeFailure>(stored),
{
}

} // verus!
