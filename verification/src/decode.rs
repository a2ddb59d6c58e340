//! The schema-driven binary decoder.

use vstd::prelude::*;
use vstd::bytes::{spec_u16_from_le_bytes, spec_u32_from_le_bytes, u16_from_le_bytes,
    u32_from_le_bytes};
use vstd::slice::slice_subrange;
use crate::packet::DecodedPacket;
use crate::schema::{FieldDescriptor, data_schema, schema_model, spec_schema, spec_width_of,
    str_eq};
use crate::value::DataType;

verus! {

/// The signed value whose two's-complement 32-bit pattern is `u`.
pub open spec fn spec_u32_as_i32(u: u32) -> i32 {
    if u < 0x8000_0000 {
        u as i32
    } else {
        (u - 0x1_0000_0000) as i32
    }
}

/// The signed value whose two's-complement 8-bit pattern is `b`.
pub open spec fn spec_u8_as_i8(b: u8) -> i8 {
    if b < 0x80 {
        b as i8
    } else {
        (b - 0x100) as i8
    }
}

/// Reinterpret a 32-bit pattern as a signed integer.
fn u32_as_i32(u: u32) -> (r: i32)
    ensures
        r == spec_u32_as_i32(u),
{
    if u < 0x8000_0000 {
        u as i32
    } else {
        let d: u32 = 0xFFFF_FFFFu32 - u;
        -(d as i32) - 1
    }
}

/// Reinterpret an 8-bit pattern as a signed integer.
fn u8_as_i8(b: u8) -> (r: i8)
    ensures
        r == spec_u8_as_i8(b),
{
    if b < 0x80 {
        b as i8
    } else {
        let d: u8 = 0xFFu8 - b;
        -(d as i8) - 1
    }
}

/// The value a field slice decodes to under the given type tag: little-endian
/// for the multi-byte numeric tags, the raw byte for the one-byte tags, and
/// the fixed sentinel `Int(0)` for any tag with no numeric interpretation
/// (in particular the reserved `"hzn"` block, whose content is discarded by
/// design).
pub open spec fn spec_value_of(tag: Seq<char>, bytes: Seq<u8>) -> DataType {
    if tag == "s32"@ {
        DataType::Int(spec_u32_as_i32(spec_u32_from_le_bytes(bytes)))
    } else if tag == "u32"@ {
        DataType::UInt(spec_u32_from_le_bytes(bytes))
    } else if tag == "f32"@ {
        DataType::Float(spec_u32_from_le_bytes(bytes))
    } else if tag == "u16"@ {
        DataType::UShort(spec_u16_from_le_bytes(bytes))
    } else if tag == "u8"@ {
        DataType::UByte(bytes[0])
    } else if tag == "s8"@ {
        DataType::SByte(spec_u8_as_i8(bytes[0]))
    } else {
        DataType::Int(0)
    }
}

/// Decode one field slice under the given type tag.
fn decode_slice(tag: &str, bytes: &[u8]) -> (r: DataType)
    requires
        spec_width_of(tag@) is Some,
        bytes@.len() == spec_width_of(tag@)->Some_0,
    ensures
        r == spec_value_of(tag@, bytes@),
{
    proof {
        crate::schema::lemma_tags_distinct();
    }
    if str_eq(tag, "s32") {
        DataType::Int(u32_as_i32(u32_from_le_bytes(bytes)))
    } else if str_eq(tag, "u32") {
        DataType::UInt(u32_from_le_bytes(bytes))
    } else if str_eq(tag, "f32") {
        DataType::Float(u32_from_le_bytes(bytes))
    } else if str_eq(tag, "u16") {
        DataType::UShort(u16_from_le_bytes(bytes))
    } else if str_eq(tag, "u8") {
        DataType::UByte(*vstd::slice::slice_index_get(bytes, 0))
    } else if str_eq(tag, "s8") {
        DataType::SByte(u8_as_i8(*vstd::slice::slice_index_get(bytes, 0)))
    } else {
        DataType::Int(0)
    }
}

/// The mapping and the running byte offset after the first `n` schema fields
/// have been processed against `data`.
///
/// Each step follows the decode algorithm exactly: an unrecognized tag is
/// skipped with the offset unchanged; a field whose byte range does not fit
/// in `data` is skipped with the offset unchanged (so one truncation point
/// normally drops every following field as well); otherwise the field's
/// slice is decoded and inserted under its name, overwriting any earlier
/// entry with the same name, and the offset advances by the field's width.
pub open spec fn spec_decode_state(
    schema: Seq<(Seq<char>, Seq<char>)>,
    data: Seq<u8>,
    n: int,
) -> (Map<Seq<char>, DataType>, int)
    decreases n,
{
    if n <= 0 {
        (Map::empty(), 0)
    } else {
        let (m, off) = spec_decode_state(schema, data, n - 1);
        let name = schema[n - 1].0;
        let tag = schema[n - 1].1;
        match spec_width_of(tag) {
            None => (m, off),
            Some(w) => if off + w > data.len() {
                (m, off)
            } else {
                (m.insert(name, spec_value_of(tag, data.subrange(off, off + w))), off + w)
            },
        }
    }
}

/// The mapping produced by decoding `data` against `schema`: a pure function
/// of its inputs.
pub open spec fn spec_decode(
    schema: Seq<(Seq<char>, Seq<char>)>,
    data: Seq<u8>,
) -> Map<Seq<char>, DataType> {
    spec_decode_state(schema, data, schema.len() as int).0
}

/// Decode a raw datagram against the given field schema.
///
/// Walks the schema in order, keeping a running byte offset. A descriptor
/// with an unrecognized tag is skipped (nothing inserted, offset unchanged).
/// A descriptor whose byte range does not fit in the remaining buffer is
/// skipped without advancing the offset. Every other descriptor has its
/// slice decoded per its tag and inserted under its name. No anomaly is
/// fatal: the result is always a (possibly partial) mapping.
pub fn decode_with_schema(schema: &Vec<FieldDescriptor>, data: &[u8]) -> (r: DecodedPacket)
    ensures
        r@ == spec_decode(schema_model(schema@), data@),
{
    let ghost model = schema_model(schema@);
    let mut result = DecodedPacket::new();
    let mut offset: usize = 0;
    let mut i: usize = 0;
    let n = schema.len();
    while i < n
        invariant
            i <= n,
            n == schema.len(),
            model == schema_model(schema@),
            offset <= data@.len(),
            (result@, offset as int) == spec_decode_state(model, data@, i as int),
        decreases n - i,
    {
        let fd = &schema[i];
        proof {
            assert(model[i as int] == (fd.name@, fd.tag@));
        }
        match DataType::size_from_str(fd.tag.as_str()) {
            None => {},
            Some(jump) => {
                if jump > data.len() - offset {
                    // insufficient data for this field: skip without
                    // advancing the offset
                } else {
                    let bytes = slice_subrange(data, offset, offset + jump);
                    let decoded = decode_slice(fd.tag.as_str(), bytes);
                    result.insert(fd.name.clone(), decoded);
                    offset = offset + jump;
                }
            },
        }
        i = i + 1;
    }
    result
}

/// Decode a raw datagram against the fixed telemetry schema.
///
/// Pure function of the input bytes: the result is exactly
/// `spec_decode(spec_schema(), data@)`.
pub fn decode_data(data: &[u8]) -> (r: DecodedPacket)
    ensures
        r@ == spec_decode(spec_schema(), data@),
{
    let schema = data_schema();
    decode_with_schema(&schema, data)
}

} // verus!
