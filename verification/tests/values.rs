//! Tests of the value union: widths, tag lookup and checked conversions.

use telemetry::value::{ConversionError, DataType, ValueKind};

#[test]
fn size_from_str_recognized_tags() {
    assert_eq!(DataType::size_from_str("s32"), Some(4));
    assert_eq!(DataType::size_from_str("u32"), Some(4));
    assert_eq!(DataType::size_from_str("f32"), Some(4));
    assert_eq!(DataType::size_from_str("hzn"), Some(12));
    assert_eq!(DataType::size_from_str("u16"), Some(2));
    assert_eq!(DataType::size_from_str("u8"), Some(1));
    assert_eq!(DataType::size_from_str("s8"), Some(1));
}

#[test]
fn size_from_str_unrecognized_tags() {
    assert_eq!(DataType::size_from_str(""), None);
    assert_eq!(DataType::size_from_str("u64"), None);
    assert_eq!(DataType::size_from_str("S32"), None);
    assert_eq!(DataType::size_from_str("s3"), None);
    assert_eq!(DataType::size_from_str("s322"), None);
}

#[test]
fn data_size_per_variant() {
    assert_eq!(DataType::Int(-7).data_size(), 4);
    assert_eq!(DataType::UInt(7).data_size(), 4);
    assert_eq!(DataType::Float(0x4120_0000).data_size(), 4);
    assert_eq!(DataType::UShort(7).data_size(), 2);
    assert_eq!(DataType::UByte(7).data_size(), 1);
    assert_eq!(DataType::SByte(-7).data_size(), 1);
}

#[test]
fn conversions_succeed_on_the_matching_variant() {
    assert_eq!(DataType::Int(-5).as_int32(), Ok(-5));
    assert_eq!(DataType::UInt(5).as_uint32(), Ok(5));
    assert_eq!(DataType::Float(0x4120_0000).as_float32_bits(), Ok(0x4120_0000));
    assert_eq!(DataType::UShort(513).as_uint16(), Ok(513));
    assert_eq!(DataType::UByte(9).as_uint8(), Ok(9));
    assert_eq!(DataType::SByte(-9).as_int8(), Ok(-9));
}

#[test]
fn conversions_fail_on_a_mismatched_variant() {
    assert_eq!(
        DataType::UByte(1).as_int32(),
        Err(ConversionError { requested: ValueKind::Int32, actual: ValueKind::UInt8 })
    );
    assert_eq!(
        DataType::Int(1).as_uint32(),
        Err(ConversionError { requested: ValueKind::UInt32, actual: ValueKind::Int32 })
    );
    assert_eq!(
        DataType::Int(1).as_float32_bits(),
        Err(ConversionError { requested: ValueKind::Float32, actual: ValueKind::Int32 })
    );
    assert_eq!(
        DataType::Float(1).as_uint16(),
        Err(ConversionError { requested: ValueKind::UInt16, actual: ValueKind::Float32 })
    );
    assert_eq!(
        DataType::UShort(1).as_uint8(),
        Err(ConversionError { requested: ValueKind::UInt8, actual: ValueKind::UInt16 })
    );
    assert_eq!(
        DataType::UByte(1).as_int8(),
        Err(ConversionError { requested: ValueKind::Int8, actual: ValueKind::UInt8 })
    );
}

#[test]
fn conversions_never_coerce_between_numeric_kinds() {
    // An Int is never silently reinterpreted as a Float, nor the reverse.
    let as_int = DataType::Int(1);
    assert!(as_int.as_float32_bits().is_err());
    let as_float = DataType::Float(1);
    assert!(as_float.as_int32().is_err());
    assert_eq!(as_int.kind(), ValueKind::Int32);
    assert_eq!(as_float.kind(), ValueKind::Float32);
}
