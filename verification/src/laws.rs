//! Laws of the decoder: coverage, determinism, round trip, truncation.

use vstd::prelude::*;
use vstd::bytes::{spec_u16_to_le_bytes, spec_u32_from_le_bytes, spec_u32_to_le_bytes,
    lemma_auto_spec_u16_to_from_le_bytes, lemma_auto_spec_u32_to_from_le_bytes};
use crate::decode::{spec_decode, spec_decode_state, spec_u32_as_i32, spec_u8_as_i8, spec_value_of};
use crate::schema::{lemma_tags_distinct, spec_field, spec_schema, spec_tag_kind, spec_width_of};
use crate::value::DataType;

verus! {

/// Bytes a field with the given tag consumes: its width for a recognized
/// tag, and nothing for an unrecognized one (such a field is skipped with
/// the offset unchanged).
pub open spec fn spec_field_width(tag: Seq<char>) -> int {
    match spec_width_of(tag) {
        Some(w) => w as int,
        None => 0,
    }
}

/// Byte offset at which field `n` starts: the bytes consumed by fields
/// `0..n`.
pub open spec fn spec_partial_width(schema: Seq<(Seq<char>, Seq<char>)>, n: int) -> int
    decreases n,
{
    if n <= 0 {
        0
    } else {
        spec_partial_width(schema, n - 1) + spec_field_width(schema[n - 1].1)
    }
}

/// Total width in bytes of the schema's layout.
pub open spec fn spec_total_width(schema: Seq<(Seq<char>, Seq<char>)>) -> int {
    spec_partial_width(schema, schema.len() as int)
}

/// No two schema entries share a name.
pub open spec fn unique_names(schema: Seq<(Seq<char>, Seq<char>)>) -> bool {
    forall|i: int, j: int|
        0 <= i < schema.len() && 0 <= j < schema.len() && i != j ==> schema[i].0 != schema[j].0
}

/// Every schema entry carries a recognized type tag.
pub open spec fn all_tags_recognized(schema: Seq<(Seq<char>, Seq<char>)>) -> bool {
    forall|i: int| 0 <= i < schema.len() ==> spec_width_of(#[trigger] schema[i].1) is Some
}

/// After `n` fields of a buffer long enough for all of them, the offset is
/// the sum of their widths, every recognized field so far is present in the
/// mapping, and nothing else is.
proof fn lemma_decode_state_basic(schema: Seq<(Seq<char>, Seq<char>)>, data: Seq<u8>, n: int)
    requires
        0 <= n <= schema.len(),
        spec_partial_width(schema, n) <= data.len(),
    ensures
        spec_decode_state(schema, data, n).1 == spec_partial_width(schema, n),
        forall|i: int|
            0 <= i < n && spec_width_of(#[trigger] schema[i].1) is Some
                ==> spec_decode_state(schema, data, n).0.contains_key(schema[i].0),
        forall|k: Seq<char>|
            spec_decode_state(schema, data, n).0.contains_key(k)
                ==> exists|j: int| 0 <= j < n && #[trigger] schema[j].0 == k,
    decreases n,
{
    if n > 0 {
        assert(spec_field_width(schema[n - 1].1) >= 0);
        lemma_decode_state_basic(schema, data, n - 1);
        let name = schema[n - 1].0;
        if spec_width_of(schema[n - 1].1) is Some {
            assert forall|k: Seq<char>|
                spec_decode_state(schema, data, n).0.contains_key(k)
                    implies exists|j: int| 0 <= j < n && #[trigger] schema[j].0 == k by {
                if k == name {
                    assert(schema[n - 1].0 == k);
                } else {
                    assert(spec_decode_state(schema, data, n - 1).0.contains_key(k));
                }
            }
        }
    }
}

/// With unique names, each recognized field of a long-enough buffer maps to
/// the decoded value of its own byte range.
proof fn lemma_decode_state_values(schema: Seq<(Seq<char>, Seq<char>)>, data: Seq<u8>, n: int)
    requires
        0 <= n <= schema.len(),
        spec_partial_width(schema, n) <= data.len(),
        unique_names(schema),
    ensures
        forall|i: int|
            0 <= i < n && spec_width_of(#[trigger] schema[i].1) is Some
                ==> spec_decode_state(schema, data, n).0.contains_key(schema[i].0)
                    && spec_decode_state(schema, data, n).0[schema[i].0] == spec_value_of(
                    schema[i].1,
                    data.subrange(
                        spec_partial_width(schema, i),
                        spec_partial_width(schema, i) + spec_width_of(schema[i].1)->Some_0,
                    ),
                ),
    decreases n,
{
    if n > 0 {
        assert(spec_field_width(schema[n - 1].1) >= 0);
        lemma_decode_state_basic(schema, data, n - 1);
        lemma_decode_state_values(schema, data, n - 1);
    }
}

/// Law (coverage): a buffer at least as long as the schema's total width
/// decodes to a mapping that contains every schema field whose tag is
/// recognized — and, the result being a map, each name is carried exactly
/// once.
pub proof fn lemma_decode_covers_schema(schema: Seq<(Seq<char>, Seq<char>)>, data: Seq<u8>)
    requires
        spec_total_width(schema) <= data.len(),
    ensures
        forall|i: int|
            0 <= i < schema.len() && spec_width_of(#[trigger] schema[i].1) is Some
                ==> spec_decode(schema, data).contains_key(schema[i].0),
{
    lemma_decode_state_basic(schema, data, schema.len() as int);
}

/// Law (determinism): decoding is a pure function of the schema and the
/// input bytes — identical inputs yield an identical mapping.
pub proof fn lemma_decode_deterministic(
    schema1: Seq<(Seq<char>, Seq<char>)>,
    schema2: Seq<(Seq<char>, Seq<char>)>,
    data1: Seq<u8>,
    data2: Seq<u8>,
)
    requires
        schema1 == schema2,
        data1 == data2,
    ensures
        spec_decode(schema1, data1) == spec_decode(schema2, data2),
{
}

/// The unsigned 32-bit pattern whose two's-complement value is `x`.
pub open spec fn spec_i32_as_u32(x: i32) -> u32 {
    if x >= 0 {
        x as u32
    } else {
        (x + 0x1_0000_0000) as u32
    }
}

/// The unsigned 8-bit pattern whose two's-complement value is `x`.
pub open spec fn spec_i8_as_u8(x: i8) -> u8 {
    if x >= 0 {
        x as u8
    } else {
        (x + 0x100) as u8
    }
}

/// The bytes a value occupies on the wire, per the schema layout:
/// little-endian for the multi-byte numeric kinds, one raw byte for the
/// one-byte kinds.
pub open spec fn spec_encode_value(v: DataType) -> Seq<u8> {
    match v {
        DataType::Int(x) => spec_u32_to_le_bytes(spec_i32_as_u32(x)),
        DataType::UInt(x) => spec_u32_to_le_bytes(x),
        DataType::Float(b) => spec_u32_to_le_bytes(b),
        DataType::UShort(x) => spec_u16_to_le_bytes(x),
        DataType::UByte(b) => seq![b],
        DataType::SByte(x) => seq![spec_i8_as_u8(x)],
    }
}

/// Law (value round trip): decoding the wire bytes of a value whose kind
/// matches the field's tag reproduces the value exactly — bit-exact for the
/// float bit pattern, exact for the integers.
pub proof fn lemma_value_round_trip(tag: Seq<char>, v: DataType)
    requires
        spec_tag_kind(tag) == Some(v.spec_kind()),
    ensures
        spec_value_of(tag, spec_encode_value(v)) == v,
{
    lemma_tags_distinct();
    lemma_auto_spec_u32_to_from_le_bytes();
    lemma_auto_spec_u16_to_from_le_bytes();
    match v {
        DataType::Int(x) => {
            let u = spec_i32_as_u32(x);
            assert(spec_u32_to_le_bytes(u).len() == 4);
            assert(spec_u32_as_i32(spec_u32_from_le_bytes(spec_u32_to_le_bytes(u))) == x);
        },
        DataType::UInt(x) => {
            assert(spec_u32_to_le_bytes(x).len() == 4);
        },
        DataType::Float(b) => {
            assert(spec_u32_to_le_bytes(b).len() == 4);
        },
        DataType::UShort(x) => {
            assert(spec_u16_to_le_bytes(x).len() == 2);
        },
        DataType::UByte(b) => {
            assert(spec_encode_value(v)[0] == b);
        },
        DataType::SByte(x) => {
            assert(spec_encode_value(v)[0] == spec_i8_as_u8(x));
            assert(spec_u8_as_i8(spec_i8_as_u8(x)) == x);
        },
    }
}

/// Law (round trip): take any assignment of values to the schema's fields
/// whose kinds match the field tags, and any buffer that holds each value's
/// wire bytes in that field's byte range. Decoding the buffer reproduces
/// every value exactly — except reserved (`"hzn"`) fields, which decode to
/// the fixed sentinel `Int(0)` regardless of the bytes in their range.
pub proof fn lemma_round_trip(
    schema: Seq<(Seq<char>, Seq<char>)>,
    values: Seq<DataType>,
    data: Seq<u8>,
)
    requires
        unique_names(schema),
        all_tags_recognized(schema),
        values.len() == schema.len(),
        spec_total_width(schema) <= data.len(),
        forall|i: int|
            0 <= i < schema.len() && #[trigger] schema[i].1 != "hzn"@ ==> spec_tag_kind(schema[i].1)
                == Some(values[i].spec_kind()) && data.subrange(
                spec_partial_width(schema, i),
                spec_partial_width(schema, i) + spec_width_of(schema[i].1)->Some_0,
            ) == spec_encode_value(values[i]),
    ensures
        forall|i: int|
            0 <= i < schema.len() ==> spec_decode(schema, data).contains_key(#[trigger] schema[i].0)
                && spec_decode(schema, data)[schema[i].0] == (if schema[i].1 == "hzn"@ {
                DataType::Int(0)
            } else {
                values[i]
            }),
{
    let n = schema.len() as int;
    lemma_decode_state_basic(schema, data, n);
    lemma_decode_state_values(schema, data, n);
    assert forall|i: int| 0 <= i < n implies spec_decode(schema, data).contains_key(
        #[trigger] schema[i].0,
    ) && spec_decode(schema, data)[schema[i].0] == (if schema[i].1 == "hzn"@ {
        DataType::Int(0)
    } else {
        values[i]
    }) by {
        assert(spec_width_of(schema[i].1) is Some);
        if schema[i].1 == "hzn"@ {
            lemma_tags_distinct();
        } else {
            lemma_value_round_trip(schema[i].1, values[i]);
        }
    }
}

/// From field `k` on, a buffer too short for field `k` (and for every later
/// field at field `k`'s frozen offset) leaves the decode state unchanged.
proof fn lemma_decode_state_frozen(
    schema: Seq<(Seq<char>, Seq<char>)>,
    data: Seq<u8>,
    k: int,
    n: int,
)
    requires
        0 <= k <= n <= schema.len(),
        all_tags_recognized(schema),
        spec_decode_state(schema, data, k).1 == spec_partial_width(schema, k),
        data.len() < spec_partial_width(schema, k + 1) || k == schema.len(),
        forall|j: int|
            k < j < schema.len() ==> spec_partial_width(schema, k) + spec_field_width(
                #[trigger] schema[j].1,
            ) > data.len(),
    ensures
        spec_decode_state(schema, data, n) == spec_decode_state(schema, data, k),
    decreases n,
{
    if n > k {
        lemma_decode_state_frozen(schema, data, k, n - 1);
        assert(spec_width_of(schema[n - 1].1) is Some);
        if n - 1 == k {
            assert(spec_partial_width(schema, k + 1) == spec_partial_width(schema, k)
                + spec_field_width(schema[k].1));
        }
    }
}

/// Law (truncation boundary): a buffer that reaches field `k`'s starting
/// offset but not its end — and is too short for every later field at that
/// frozen offset — decodes to a mapping that contains fields `0..k` and
/// omits field `k` and every field after it.
pub proof fn lemma_truncation(schema: Seq<(Seq<char>, Seq<char>)>, data: Seq<u8>, k: int)
    requires
        0 <= k < schema.len(),
        unique_names(schema),
        all_tags_recognized(schema),
        spec_partial_width(schema, k) <= data.len(),
        data.len() < spec_partial_width(schema, k + 1),
        forall|j: int|
            k < j < schema.len() ==> spec_partial_width(schema, k) + spec_field_width(
                #[trigger] schema[j].1,
            ) > data.len(),
    ensures
        forall|i: int|
            0 <= i < k ==> spec_decode(schema, data).contains_key(#[trigger] schema[i].0),
        forall|i: int|
            k <= i < schema.len() ==> !spec_decode(schema, data).contains_key(
                #[trigger] schema[i].0,
            ),
{
    let n = schema.len() as int;
    lemma_decode_state_basic(schema, data, k);
    lemma_decode_state_frozen(schema, data, k, n);
    assert forall|i: int| 0 <= i < k implies spec_decode(schema, data).contains_key(
        #[trigger] schema[i].0,
    ) by {
        assert(spec_width_of(schema[i].1) is Some);
        assert(spec_decode_state(schema, data, k).0.contains_key(schema[i].0));
    }
    assert forall|i: int| k <= i < n implies !spec_decode(schema, data).contains_key(
        #[trigger] schema[i].0,
    ) by {
        if spec_decode(schema, data).contains_key(schema[i].0) {
            let j = choose|j: int| 0 <= j < k && #[trigger] schema[j].0 == schema[i].0;
            assert(schema[j].0 == schema[i].0 && j != i);
        }
    }
}

/// The fixed schema is a contiguous, gapless layout: every tag is
/// recognized, and field `n` starts at the sum of the widths of fields
/// `0..n`, for a total width of 323 bytes.
pub proof fn lemma_fixed_schema_layout()
    ensures
        all_tags_recognized(spec_schema()),
        spec_total_width(spec_schema()) == 323,
{
    lemma_tags_distinct();
    assert forall|i: int|
        0 <= i < spec_schema().len() implies spec_width_of(
        #[trigger] spec_schema()[i].1,
    ) is Some by {
        assert(spec_schema()[i].1 == spec_field(i).1);
    }
    let s = spec_schema();
    assert(spec_partial_width(s, 0) == 0);
    assert(spec_partial_width(s, 1) == 4);
    assert(spec_partial_width(s, 2) == 8);
    assert(spec_partial_width(s, 3) == 12);
    assert(spec_partial_width(s, 4) == 16);
    assert(spec_partial_width(s, 5) == 20);
    assert(spec_partial_width(s, 6) == 24);
    assert(spec_partial_width(s, 7) == 28);
    assert(spec_partial_width(s, 8) == 32);
    assert(spec_partial_width(s, 9) == 36);
    assert(spec_partial_width(s, 10) == 40);
    assert(spec_partial_width(s, 11) == 44);
    assert(spec_partial_width(s, 12) == 48);
    assert(spec_partial_width(s, 13) == 52);
    assert(spec_partial_width(s, 14) == 56);
    assert(spec_partial_width(s, 15) == 60);
    assert(spec_partial_width(s, 16) == 64);
    assert(spec_partial_width(s, 17) == 68);
    assert(spec_partial_width(s, 18) == 72);
    assert(spec_partial_width(s, 19) == 76);
    assert(spec_partial_width(s, 20) == 80);
    assert(spec_partial_width(s, 21) == 84);
    assert(spec_partial_width(s, 22) == 88);
    assert(spec_partial_width(s, 23) == 92);
    assert(spec_partial_width(s, 24) == 96);
    assert(spec_partial_width(s, 25) == 100);
    assert(spec_partial_width(s, 26) == 104);
    assert(spec_partial_width(s, 27) == 108);
    assert(spec_partial_width(s, 28) == 112);
    assert(spec_partial_width(s, 29) == 116);
    assert(spec_partial_width(s, 30) == 120);
    assert(spec_partial_width(s, 31) == 124);
    assert(spec_partial_width(s, 32) == 128);
    assert(spec_partial_width(s, 33) == 132);
    assert(spec_partial_width(s, 34) == 136);
    assert(spec_partial_width(s, 35) == 140);
    assert(spec_partial_width(s, 36) == 144);
    assert(spec_partial_width(s, 37) == 148);
    assert(spec_partial_width(s, 38) == 152);
    assert(spec_partial_width(s, 39) == 156);
    assert(spec_partial_width(s, 40) == 160);
    assert(spec_partial_width(s, 41) == 164);
    assert(spec_partial_width(s, 42) == 168);
    assert(spec_partial_width(s, 43) == 172);
    assert(spec_partial_width(s, 44) == 176);
    assert(spec_partial_width(s, 45) == 180);
    assert(spec_partial_width(s, 46) == 184);
    assert(spec_partial_width(s, 47) == 188);
    assert(spec_partial_width(s, 48) == 192);
    assert(spec_partial_width(s, 49) == 196);
    assert(spec_partial_width(s, 50) == 200);
    assert(spec_partial_width(s, 51) == 204);
    assert(spec_partial_width(s, 52) == 208);
    assert(spec_partial_width(s, 53) == 212);
    assert(spec_partial_width(s, 54) == 216);
    assert(spec_partial_width(s, 55) == 220);
    assert(spec_partial_width(s, 56) == 224);
    assert(spec_partial_width(s, 57) == 228);
    assert(spec_partial_width(s, 58) == 232);
    assert(spec_partial_width(s, 59) == 244);
    assert(spec_partial_width(s, 60) == 248);
    assert(spec_partial_width(s, 61) == 252);
    assert(spec_partial_width(s, 62) == 256);
    assert(spec_partial_width(s, 63) == 260);
    assert(spec_partial_width(s, 64) == 264);
    assert(spec_partial_width(s, 65) == 268);
    assert(spec_partial_width(s, 66) == 272);
    assert(spec_partial_width(s, 67) == 276);
    assert(spec_partial_width(s, 68) == 280);
    assert(spec_partial_width(s, 69) == 284);
    assert(spec_partial_width(s, 70) == 288);
    assert(spec_partial_width(s, 71) == 292);
    assert(spec_partial_width(s, 72) == 296);
    assert(spec_partial_width(s, 73) == 300);
    assert(spec_partial_width(s, 74) == 304);
    assert(spec_partial_width(s, 75) == 308);
    assert(spec_partial_width(s, 76) == 312);
    assert(spec_partial_width(s, 77) == 314);
    assert(spec_partial_width(s, 78) == 315);
    assert(spec_partial_width(s, 79) == 316);
    assert(spec_partial_width(s, 80) == 317);
    assert(spec_partial_width(s, 81) == 318);
    assert(spec_partial_width(s, 82) == 319);
    assert(spec_partial_width(s, 83) == 320);
    assert(spec_partial_width(s, 84) == 321);
    assert(spec_partial_width(s, 85) == 322);
    assert(spec_partial_width(s, 86) == 323);
}

} // verus!
