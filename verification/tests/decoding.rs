//! Tests of the schema-driven decoder against concrete buffers.

use telemetry::decode::{decode_data, decode_with_schema};
use telemetry::packet::DecodedPacket;
use telemetry::schema::FieldDescriptor;
use telemetry::value::DataType;

/// Byte offset at which the named field starts in the fixed schema layout.
fn field_offset(schema: &Vec<FieldDescriptor>, name: &str) -> usize {
    let mut offset = 0;
    for fd in schema {
        if fd.name == name {
            return offset;
        }
        offset += DataType::size_from_str(&fd.tag).expect("recognized tag");
    }
    panic!("field not in schema");
}

#[test]
fn schema_shape() {
    let schema = telemetry::schema::data_schema();
    assert_eq!(schema.len(), 86);
    let total: usize = schema
        .iter()
        .map(|fd| DataType::size_from_str(&fd.tag).expect("recognized tag"))
        .sum();
    assert_eq!(total, 323);
    assert_eq!(field_offset(&schema, "IsRaceOn"), 0);
    assert_eq!(field_offset(&schema, "Speed"), 256);
    assert_eq!(field_offset(&schema, "LapNumber"), 312);
    assert_eq!(field_offset(&schema, "Gear"), 319);
}

#[test]
fn full_buffer_contains_every_field() {
    let schema = telemetry::schema::data_schema();
    let buffer = vec![0u8; 323];
    let packet = decode_data(&buffer);
    for fd in &schema {
        assert!(packet.get(&fd.name).is_some(), "missing field {}", fd.name);
    }
}

#[test]
fn longer_buffer_leaves_trailing_bytes_unconsumed() {
    let schema = telemetry::schema::data_schema();
    let buffer = vec![0u8; 400];
    let packet = decode_data(&buffer);
    for fd in &schema {
        assert!(packet.get(&fd.name).is_some());
    }
}

#[test]
fn decode_is_deterministic() {
    let buffer: Vec<u8> = (0..323).map(|i| (i % 251) as u8).collect();
    let first = decode_data(&buffer);
    let second = decode_data(&buffer);
    assert_eq!(first, second);
}

#[test]
fn race_on_flag_scenario() {
    // Field 0 is the race-on flag, a little-endian Int32.
    let buffer = vec![0x01u8, 0x00, 0x00, 0x00];
    let packet = decode_data(&buffer);
    assert_eq!(packet.get("IsRaceOn"), Some(&DataType::Int(1)));
    // The buffer ends after the first field, so everything else is absent.
    assert_eq!(packet.get("TimestampMS"), None);
    assert_eq!(packet.get("Speed"), None);
}

#[test]
fn speed_scenario() {
    let schema = telemetry::schema::data_schema();
    let mut buffer = vec![0u8; 323];
    let at = field_offset(&schema, "Speed");
    buffer[at..at + 4].copy_from_slice(&10.0f32.to_le_bytes());
    let packet = decode_data(&buffer);
    let bits = packet
        .get("Speed")
        .expect("speed present")
        .as_float32_bits()
        .expect("speed is a float");
    let speed = f32::from_bits(bits);
    assert_eq!(speed, 10.0);
    let displayed = speed * 3.6;
    assert!((displayed - 36.0).abs() < 1e-4);
}

#[test]
fn gear_scenario() {
    let schema = telemetry::schema::data_schema();
    let mut buffer = vec![0u8; 323];
    buffer[field_offset(&schema, "Gear")] = 0x03;
    let packet = decode_data(&buffer);
    assert_eq!(packet.get("Gear"), Some(&DataType::UByte(3)));
}

#[test]
fn unknown_tag_skips_single_field() {
    // An unrecognized tag drops only its own field: the offset is unchanged
    // and the surrounding fields decode as if the entry were not there.
    let schema = vec![
        FieldDescriptor::new("a", "s32"),
        FieldDescriptor::new("x", "weird"),
        FieldDescriptor::new("b", "u8"),
    ];
    let buffer = vec![0x2Au8, 0x00, 0x00, 0x00, 0x07];
    let packet = decode_with_schema(&schema, &buffer);
    assert_eq!(packet.get("a"), Some(&DataType::Int(42)));
    assert_eq!(packet.get("x"), None);
    assert_eq!(packet.get("b"), Some(&DataType::UByte(7)));
}

#[test]
fn truncation_at_field_boundary() {
    // 8 bytes cover exactly the first two fields; the third field's bounds
    // check fails, the offset freezes, and every later field fails it too.
    let buffer = vec![0xFFu8; 8];
    let packet = decode_data(&buffer);
    assert_eq!(packet.get("IsRaceOn"), Some(&DataType::Int(-1)));
    assert_eq!(packet.get("TimestampMS"), Some(&DataType::UInt(u32::MAX)));
    assert_eq!(packet.get("EngineMaxRpm"), None);
    assert_eq!(packet.get("Speed"), None);
    assert_eq!(packet.get("Gear"), None);
}

#[test]
fn truncation_can_resync_on_a_narrower_field() {
    // The offset freezes at the truncation point, but a later, narrower
    // field that fits at the frozen offset is still decoded from there.
    let schema = vec![
        FieldDescriptor::new("a", "u32"),
        FieldDescriptor::new("b", "u32"),
        FieldDescriptor::new("c", "u8"),
    ];
    let buffer = vec![0x01u8, 0x00, 0x00, 0x00, 0x63, 0x64];
    let packet = decode_with_schema(&schema, &buffer);
    assert_eq!(packet.get("a"), Some(&DataType::UInt(1)));
    assert_eq!(packet.get("b"), None);
    assert_eq!(packet.get("c"), Some(&DataType::UByte(0x63)));
}

#[test]
fn empty_buffer_decodes_to_empty_packet() {
    let packet = decode_data(&[]);
    assert_eq!(packet.get("IsRaceOn"), None);
    assert_eq!(packet.get("Gear"), None);
}

#[test]
fn little_endian_and_signed_decoding() {
    let schema = vec![
        FieldDescriptor::new("i", "s32"),
        FieldDescriptor::new("u", "u32"),
        FieldDescriptor::new("h", "u16"),
        FieldDescriptor::new("s", "s8"),
    ];
    let mut buffer = Vec::new();
    buffer.extend_from_slice(&(-2i32).to_le_bytes());
    buffer.extend_from_slice(&0xDEADBEEFu32.to_le_bytes());
    buffer.extend_from_slice(&[0x34, 0x12]);
    buffer.push(0xFF);
    let packet = decode_with_schema(&schema, &buffer);
    assert_eq!(packet.get("i"), Some(&DataType::Int(-2)));
    assert_eq!(packet.get("u"), Some(&DataType::UInt(0xDEADBEEF)));
    assert_eq!(packet.get("h"), Some(&DataType::UShort(0x1234)));
    assert_eq!(packet.get("s"), Some(&DataType::SByte(-1)));
}

/// The wire bytes of a value, little-endian, as the schema layout fixes them.
fn encode_value(v: &DataType) -> Vec<u8> {
    match *v {
        DataType::Int(x) => x.to_le_bytes().to_vec(),
        DataType::UInt(x) => x.to_le_bytes().to_vec(),
        DataType::Float(b) => b.to_le_bytes().to_vec(),
        DataType::UShort(x) => x.to_le_bytes().to_vec(),
        DataType::UByte(b) => vec![b],
        DataType::SByte(x) => x.to_le_bytes().to_vec(),
    }
}

#[test]
fn round_trip_over_the_full_schema() {
    let schema = telemetry::schema::data_schema();
    // One distinct value per field, of the kind its tag calls for.
    let mut values: Vec<Option<DataType>> = Vec::new();
    let mut buffer: Vec<u8> = Vec::new();
    for (i, fd) in schema.iter().enumerate() {
        let k = i as u32 + 1;
        match fd.tag.as_str() {
            "s32" => {
                let v = DataType::Int(-(k as i32));
                buffer.extend_from_slice(&encode_value(&v));
                values.push(Some(v));
            }
            "u32" => {
                let v = DataType::UInt(0x0100_0000 + k);
                buffer.extend_from_slice(&encode_value(&v));
                values.push(Some(v));
            }
            "f32" => {
                let v = DataType::Float((k as f32 * 1.5).to_bits());
                buffer.extend_from_slice(&encode_value(&v));
                values.push(Some(v));
            }
            "u16" => {
                let v = DataType::UShort(0x4000 + k as u16);
                buffer.extend_from_slice(&encode_value(&v));
                values.push(Some(v));
            }
            "u8" => {
                let v = DataType::UByte(100 + (k % 100) as u8);
                buffer.extend_from_slice(&encode_value(&v));
                values.push(Some(v));
            }
            "s8" => {
                let v = DataType::SByte(-((k % 100) as i8));
                buffer.extend_from_slice(&encode_value(&v));
                values.push(Some(v));
            }
            "hzn" => {
                // Reserved block: arbitrary nonzero content, discarded by design.
                buffer.extend_from_slice(&[0xABu8; 12]);
                values.push(None);
            }
            other => panic!("unexpected tag {}", other),
        }
    }
    assert_eq!(buffer.len(), 323);
    let packet = decode_data(&buffer);
    for (fd, expected) in schema.iter().zip(values.iter()) {
        match expected {
            // The reserved block decodes to the fixed sentinel regardless of
            // its encoded content.
            None => assert_eq!(packet.get(&fd.name), Some(&DataType::Int(0))),
            Some(v) => assert_eq!(packet.get(&fd.name), Some(v), "field {}", fd.name),
        }
    }
    // Bit-exact float round trip on a concrete field.
    let bits = packet.get("Speed").unwrap().as_float32_bits().unwrap();
    let at = field_offset(&schema, "Speed");
    assert_eq!(bits.to_le_bytes().as_slice(), &buffer[at..at + 4]);
}

#[test]
fn insert_overwrites_by_name() {
    let mut packet = DecodedPacket::new();
    assert_eq!(packet.get("x"), None);
    assert!(!packet.contains("x"));
    packet.insert("x".to_string(), DataType::Int(1));
    packet.insert("y".to_string(), DataType::UByte(2));
    packet.insert("x".to_string(), DataType::Int(3));
    assert_eq!(packet.get("x"), Some(&DataType::Int(3)));
    assert_eq!(packet.get("y"), Some(&DataType::UByte(2)));
    assert!(packet.contains("y"));
    assert!(!packet.contains("z"));
}

#[test]
fn duplicate_schema_names_keep_the_later_value() {
    let schema = vec![
        FieldDescriptor::new("twice", "u8"),
        FieldDescriptor::new("twice", "u8"),
    ];
    let buffer = vec![0x01u8, 0x02];
    let packet = decode_with_schema(&schema, &buffer);
    assert_eq!(packet.get("twice"), Some(&DataType::UByte(2)));
}
