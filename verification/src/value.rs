//! The tagged union of primitive wire values and its checked accessors.

use vstd::prelude::*;
use crate::schema::spec_width_of;
use crate::schema::str_eq;

verus! {

/// One decoded primitive wire value.
///
/// `Float` carries the raw IEEE-754 bit pattern of the 32-bit value read off
/// the wire; callers that want the floating-point number reinterpret the bits.
/// Decoding never coerces between variants: an `Int` is never reinterpreted
/// as a `Float`.
#[derive(Debug, Clone, Copy, PartialEq, Eq, Structural)]
pub enum DataType {
    Int(i32),
    UInt(u32),
    Float(u32),
    UShort(u16),
    UByte(u8),
    SByte(i8),
}

/// The kind of a wire value, without its payload: used to report which
/// variant a checked conversion asked for and which it actually found.
#[derive(Debug, Clone, Copy, PartialEq, Eq, Structural)]
pub enum ValueKind {
    Int32,
    UInt32,
    Float32,
    UInt16,
    UInt8,
    Int8,
}

/// A checked conversion asked a `DataType` for the wrong variant.
/// Carries the requested kind and the actual kind for diagnostics.
#[derive(Debug, Clone, Copy, PartialEq, Eq, Structural)]
pub struct ConversionError {
    pub requested: ValueKind,
    pub actual: ValueKind,
}

impl DataType {
    /// The kind of this value.
    pub open spec fn spec_kind(self) -> ValueKind {
        match self {
            DataType::Int(_) => ValueKind::Int32,
            DataType::UInt(_) => ValueKind::UInt32,
            DataType::Float(_) => ValueKind::Float32,
            DataType::UShort(_) => ValueKind::UInt16,
            DataType::UByte(_) => ValueKind::UInt8,
            DataType::SByte(_) => ValueKind::Int8,
        }
    }

    /// The kind of this value.
    pub fn kind(&self) -> (k: ValueKind)
        ensures
            k == self.spec_kind(),
    {
        match self {
            DataType::Int(_) => ValueKind::Int32,
            DataType::UInt(_) => ValueKind::UInt32,
            DataType::Float(_) => ValueKind::Float32,
            DataType::UShort(_) => ValueKind::UInt16,
            DataType::UByte(_) => ValueKind::UInt8,
            DataType::SByte(_) => ValueKind::Int8,
        }
    }

    /// Size in bytes of this value's declared wire type.
    pub fn data_size(&self) -> (n: usize)
        ensures
            n == match *self {
                DataType::Int(_) => 4usize,
                DataType::UInt(_) => 4usize,
                DataType::Float(_) => 4usize,
                DataType::UShort(_) => 2usize,
                DataType::UByte(_) => 1usize,
                DataType::SByte(_) => 1usize,
            },
    {
        match self {
            DataType::Int(_) => 4,
            DataType::UInt(_) => 4,
            DataType::Float(_) => 4,
            DataType::UShort(_) => 2,
            DataType::UByte(_) => 1,
            DataType::SByte(_) => 1,
        }
    }

    /// Width in bytes of a field with the given type tag, or `None` for an
    /// unrecognized tag.
    pub fn size_from_str(name: &str) -> (r: Option<usize>)
        ensures
            r == spec_width_of(name@),
    {
        if str_eq(name, "s32") {
            Some(4)
        } else if str_eq(name, "u32") {
            Some(4)
        } else if str_eq(name, "f32") {
            Some(4)
        } else if str_eq(name, "hzn") {
            Some(12)
        } else if str_eq(name, "u16") {
            Some(2)
        } else if str_eq(name, "u8") {
            Some(1)
        } else if str_eq(name, "s8") {
            Some(1)
        } else {
            None
        }
    }

    /// The signed 32-bit payload; fails unless this value is an `Int`.
    pub fn as_int32(&self) -> (r: Result<i32, ConversionError>)
        ensures
            r == match *self {
                DataType::Int(v) => Ok::<i32, ConversionError>(v),
                _ => Err::<i32, ConversionError>(
                    (ConversionError { requested: ValueKind::Int32, actual: self.spec_kind() }),
                ),
            },
    {
        match *self {
            DataType::Int(v) => Ok(v),
            _ => Err(ConversionError { requested: ValueKind::Int32, actual: self.kind() }),
        }
    }

    /// The unsigned 32-bit payload; fails unless this value is a `UInt`.
    pub fn as_uint32(&self) -> (r: Result<u32, ConversionError>)
        ensures
            r == match *self {
                DataType::UInt(v) => Ok::<u32, ConversionError>(v),
                _ => Err::<u32, ConversionError>(
                    (ConversionError { requested: ValueKind::UInt32, actual: self.spec_kind() }),
                ),
            },
    {
        match *self {
            DataType::UInt(v) => Ok(v),
            _ => Err(ConversionError { requested: ValueKind::UInt32, actual: self.kind() }),
        }
    }

    /// The IEEE-754 bit pattern of the 32-bit float payload; fails unless
    /// this value is a `Float`.
    pub fn as_float32_bits(&self) -> (r: Result<u32, ConversionError>)
        ensures
            r == match *self {
                DataType::Float(v) => Ok::<u32, ConversionError>(v),
                _ => Err::<u32, ConversionError>(
                    (ConversionError { requested: ValueKind::Float32, actual: self.spec_kind() }),
                ),
            },
    {
        match *self {
            DataType::Float(v) => Ok(v),
            _ => Err(ConversionError { requested: ValueKind::Float32, actual: self.kind() }),
        }
    }

    /// The unsigned 16-bit payload; fails unless this value is a `UShort`.
    pub fn as_uint16(&self) -> (r: Result<u16, ConversionError>)
        ensures
            r == match *self {
                DataType::UShort(v) => Ok::<u16, ConversionError>(v),
                _ => Err::<u16, ConversionError>(
                    (ConversionError { requested: ValueKind::UInt16, actual: self.spec_kind() }),
                ),
            },
    {
        match *self {
            DataType::UShort(v) => Ok(v),
            _ => Err(ConversionError { requested: ValueKind::UInt16, actual: self.kind() }),
        }
    }

    /// The unsigned byte payload; fails unless this value is a `UByte`.
    pub fn as_uint8(&self) -> (r: Result<u8, ConversionError>)
        ensures
            r == match *self {
                DataType::UByte(v) => Ok::<u8, ConversionError>(v),
                _ => Err::<u8, ConversionError>(
                    (ConversionError { requested: ValueKind::UInt8, actual: self.spec_kind() }),
                ),
            },
    {
        match *self {
            DataType::UByte(v) => Ok(v),
            _ => Err(ConversionError { requested: ValueKind::UInt8, actual: self.kind() }),
        }
    }

    /// The signed byte payload; fails unless this value is an `SByte`.
    pub fn as_int8(&self) -> (r: Result<i8, ConversionError>)
        ensures
            r == match *self {
                DataType::SByte(v) => Ok::<i8, ConversionError>(v),
                _ => Err::<i8, ConversionError>(
                    (ConversionError { requested: ValueKind::Int8, actual: self.spec_kind() }),
                ),
            },
    {
        match *self {
            DataType::SByte(v) => Ok(v),
            _ => Err(ConversionError { requested: ValueKind::Int8, actual: self.kind() }),
        }
    }
}

} // verus!
