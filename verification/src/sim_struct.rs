//! Interpreting the packed values of a registered structure.
//!
//! The host packs the fields of a structure tightly, in the order in which
//! they were declared to it. Decoding walks the same fields in the same order
//! and keeps the offset of the next one: a number takes the bytes of its
//! width, a string takes its bytes and its terminator.

use crate::errors::DecodeError;
use crate::sim_var_types::ScalarType;
use crate::wire::find_nul;
use crate::wire::first_nul;
use crate::wire::i32_at;
use crate::wire::i64_at;
use crate::wire::in_bounds;
use crate::wire::lemma_first_nul;
use crate::wire::lemma_first_nul_is;
use crate::wire::read_c_string_in;
use crate::wire::read_i32;
use crate::wire::read_i64;
use crate::wire::read_u32;
use crate::wire::read_u64;
use crate::wire::u32_at;
use crate::wire::u64_at;
use vstd::prelude::*;
use vstd::utf8::*;

verus! {

/// The value of one field. A floating point number is held as the bits the
/// host sent, in the IEEE 754 layout of its width.
#[derive(Debug, Clone, PartialEq, Eq)]
pub enum FieldValue {
    I32(i32),
    I64(i64),
    F32(u32),
    F64(u64),
    Text(String),
}

/// A value as contracts see it: a string as a text.
pub enum FieldValueView {
    I32(i32),
    I64(i64),
    F32(u32),
    F64(u64),
    Text(Seq<char>),
}

impl View for FieldValue {
    type V = FieldValueView;

    open spec fn view(&self) -> FieldValueView {
        match self {
            FieldValue::I32(v) => FieldValueView::I32(*v),
            FieldValue::I64(v) => FieldValueView::I64(*v),
            FieldValue::F32(bits) => FieldValueView::F32(*bits),
            FieldValue::F64(bits) => FieldValueView::F64(*bits),
            FieldValue::Text(text) => FieldValueView::Text(text@),
        }
    }
}

impl FieldValueView {
    /// The scalar type the value has.
    pub open spec fn scalar_type(self) -> ScalarType {
        match self {
            FieldValueView::I32(_) => ScalarType::I32,
            FieldValueView::I64(_) => ScalarType::I64,
            FieldValueView::F32(_) => ScalarType::F32,
            FieldValueView::F64(_) => ScalarType::F64,
            FieldValueView::Text(_) => ScalarType::Text,
        }
    }
}

/// The views of a sequence of values.
pub open spec fn field_views(values: Seq<FieldValue>) -> Seq<FieldValueView> {
    Seq::new(values.len(), |i: int| values[i]@)
}

/// The string that starts at `at` and runs up to the first zero byte. A
/// buffer that ends before the string does is truncated.
pub open spec fn text_at(data: Seq<u8>, at: int) -> Result<(Seq<char>, int), DecodeError> {
    match first_nul(data, at, data.len() as int) {
        None => Err(DecodeError::Truncated),
        Some(end) => if valid_utf8(data.subrange(at, end)) {
            Ok((decode_utf8(data.subrange(at, end)), end + 1))
        } else {
            Err(DecodeError::MalformedString)
        },
    }
}

/// The value of a field of type `kind` that starts at `at`, and the offset of
/// the byte behind it.
pub open spec fn field_at(kind: ScalarType, data: Seq<u8>, at: int) -> Result<
    (FieldValueView, int),
    DecodeError,
> {
    match kind {
        ScalarType::I32 => if in_bounds(data, at, 4) {
            Ok((FieldValueView::I32(i32_at(data, at) as i32), at + 4))
        } else {
            Err(DecodeError::Truncated)
        },
        ScalarType::I64 => if in_bounds(data, at, 8) {
            Ok((FieldValueView::I64(i64_at(data, at) as i64), at + 8))
        } else {
            Err(DecodeError::Truncated)
        },
        ScalarType::F32 => if in_bounds(data, at, 4) {
            Ok((FieldValueView::F32(u32_at(data, at) as u32), at + 4))
        } else {
            Err(DecodeError::Truncated)
        },
        ScalarType::F64 => if in_bounds(data, at, 8) {
            Ok((FieldValueView::F64(u64_at(data, at) as u64), at + 8))
        } else {
            Err(DecodeError::Truncated)
        },
        ScalarType::Text => match text_at(data, at) {
            Ok((text, next)) => Ok((FieldValueView::Text(text), next)),
            Err(e) => Err(e),
        },
    }
}

/// The values of the first `count` fields and the offset behind them. The
/// walk starts at offset zero and stops at the first field that cannot be
/// read.
pub open spec fn walk(fields: Seq<ScalarType>, data: Seq<u8>, count: nat) -> Result<
    (Seq<FieldValueView>, int),
    DecodeError,
>
    decreases count,
{
    if count == 0 {
        Ok((Seq::empty(), 0))
    } else {
        match walk(fields, data, (count - 1) as nat) {
            Err(e) => Err(e),
            Ok((values, at)) => match field_at(fields[count - 1], data, at) {
                Err(e) => Err(e),
                Ok((value, next)) => Ok((values.push(value), next)),
            },
        }
    }
}

/// The values of a structure with the given fields, read from the packed
/// bytes `data`. Bytes behind the last field are not looked at.
pub open spec fn struct_of(fields: Seq<ScalarType>, data: Seq<u8>) -> Result<
    Seq<FieldValueView>,
    DecodeError,
> {
    match walk(fields, data, fields.len()) {
        Ok((values, _)) => Ok(values),
        Err(e) => Err(e),
    }
}

/// Reads the field of type `kind` that starts at `at`.
pub fn read_field(kind: ScalarType, data: &[u8], at: usize) -> (r: Result<
    (FieldValue, usize),
    DecodeError,
>)
    requires
        at <= data.len(),
    ensures
        match r {
            Ok((value, next)) => field_at(kind, data@, at as int) == Ok::<_, DecodeError>(
                (value@, next as int),
            ) && next <= data.len(),
            Err(e) => field_at(kind, data@, at as int) == Err::<(FieldValueView, int), _>(e),
        },
{
    match kind {
        ScalarType::I32 => {
            let v = read_i32(data, at)?;
            Ok((FieldValue::I32(v), at + 4))
        },
        ScalarType::I64 => {
            let v = read_i64(data, at)?;
            Ok((FieldValue::I64(v), at + 8))
        },
        ScalarType::F32 => {
            let bits = read_u32(data, at)?;
            Ok((FieldValue::F32(bits), at + 4))
        },
        ScalarType::F64 => {
            let bits = read_u64(data, at)?;
            Ok((FieldValue::F64(bits), at + 8))
        },
        ScalarType::Text => {
            match find_nul(data, at, data.len()) {
                None => Err(DecodeError::Truncated),
                Some(end) => {
                    proof {
                        lemma_first_nul(data@, at as int, data@.len() as int);
                    }
                    let text = read_c_string_in(data, at, data.len())?;
                    Ok((FieldValue::Text(text), end + 1))
                },
            }
        },
    }
}

/// Reads the values of a structure with the given fields from the packed
/// bytes `data`.
pub fn parse_struct(fields: &[ScalarType], data: &[u8]) -> (r: Result<Vec<FieldValue>, DecodeError>)
    ensures
        match r {
            Ok(values) => struct_of(fields@, data@) == Ok::<_, DecodeError>(field_views(values@)),
            Err(e) => struct_of(fields@, data@) == Err::<Seq<FieldValueView>, _>(e),
        },
{
    let mut values: Vec<FieldValue> = Vec::new();
    let mut at: usize = 0;
    let mut i: usize = 0;
    assert(field_views(values@) =~= Seq::empty());
    while i < fields.len()
        invariant
            i <= fields.len(),
            at <= data.len(),
            walk(fields@, data@, i as nat) == Ok::<_, DecodeError>(
                (field_views(values@), at as int),
            ),
        decreases fields.len() - i,
    {
        match read_field(fields[i], data, at) {
            Err(e) => {
                assert(walk(fields@, data@, (i + 1) as nat) == Err::<(Seq<FieldValueView>, int), _>(
                    e,
                ));
                proof {
                    lemma_walk_stops(fields@, data@, (i + 1) as nat, fields@.len());
                }
                return Err(e);
            },
            Ok((value, next)) => {
                let ghost before = field_views(values@);
                values.push(value);
                assert(field_views(values@) =~= before.push(value@));
                at = next;
            },
        }
        i += 1;
    }
    Ok(values)
}

/// A walk that has failed stays failed, with the same error, however many
/// more fields are asked for.
pub proof fn lemma_walk_stops(fields: Seq<ScalarType>, data: Seq<u8>, count: nat, more: nat)
    requires
        count <= more,
        walk(fields, data, count) is Err,
    ensures
        walk(fields, data, more) == walk(fields, data, count),
    decreases more,
{
    if count < more {
        lemma_walk_stops(fields, data, count, (more - 1) as nat);
    }
}

/// The four bytes of an unsigned number of 32 bits, least significant first.
pub open spec fn le32(x: int) -> Seq<u8> {
    seq![
        (x % 0x100) as u8,
        (x / 0x100 % 0x100) as u8,
        (x / 0x1_0000 % 0x100) as u8,
        (x / 0x100_0000 % 0x100) as u8,
    ]
}

/// The eight bytes of an unsigned number of 64 bits, least significant first.
pub open spec fn le64(x: int) -> Seq<u8> {
    le32(x % 0x1_0000_0000) + le32(x / 0x1_0000_0000)
}

/// The bytes the host packs for one value: a number as the bytes of its
/// width in two's complement, least significant first; a floating point
/// number as the bytes of its bits; a string as its encoding and a
/// terminator.
pub open spec fn packed_field(value: FieldValueView) -> Seq<u8> {
    match value {
        FieldValueView::I32(v) => le32(
            if v >= 0 {
                v as int
            } else {
                v + 0x1_0000_0000
            },
        ),
        FieldValueView::I64(v) => le64(
            if v >= 0 {
                v as int
            } else {
                v + 0x1_0000_0000_0000_0000
            },
        ),
        FieldValueView::F32(bits) => le32(bits as int),
        FieldValueView::F64(bits) => le64(bits as int),
        FieldValueView::Text(text) => encode_utf8(text).push(0u8),
    }
}

/// The bytes the host packs for the values of a structure: the bytes of each
/// value, one right behind the other, in declaration order.
pub open spec fn packed(values: Seq<FieldValueView>) -> Seq<u8>
    decreases values.len(),
{
    if values.len() == 0 {
        Seq::empty()
    } else {
        packed(values.drop_last()) + packed_field(values.last())
    }
}

/// The scalar types of a sequence of values.
pub open spec fn types_of(values: Seq<FieldValueView>) -> Seq<ScalarType> {
    Seq::new(values.len(), |i: int| values[i].scalar_type())
}

/// Whether a value can be packed and found again: a string can only if its
/// encoding holds no zero byte, because the first zero byte ends it.
pub open spec fn packable(value: FieldValueView) -> bool {
    value matches FieldValueView::Text(text) ==> !encode_utf8(text).contains(0u8)
}

proof fn lemma_le32(data: Seq<u8>, at: int, x: int)
    requires
        0 <= x < 0x1_0000_0000,
        0 <= at,
        at + 4 <= data.len(),
        data.subrange(at, at + 4) == le32(x),
    ensures
        u32_at(data, at) == x,
{
    let bytes = data.subrange(at, at + 4);
    assert(data[at] == bytes[0]);
    assert(data[at + 1] == bytes[1]);
    assert(data[at + 2] == bytes[2]);
    assert(data[at + 3] == bytes[3]);
}

proof fn lemma_le64(data: Seq<u8>, at: int, x: int)
    requires
        0 <= x < 0x1_0000_0000_0000_0000,
        0 <= at,
        at + 8 <= data.len(),
        data.subrange(at, at + 8) == le64(x),
    ensures
        u64_at(data, at) == x,
{
    let bytes = data.subrange(at, at + 8);
    let low = le32(x % 0x1_0000_0000);
    let high = le32(x / 0x1_0000_0000);
    assert(data.subrange(at, at + 4) =~= low) by {
        assert forall|i: int| 0 <= i < 4 implies data.subrange(at, at + 4)[i] == #[trigger] low[i] by {
            assert(data[at + i] == bytes[i]);
            assert(bytes[i] == (low + high)[i]);
        }
    }
    assert(data.subrange(at + 4, at + 8) =~= high) by {
        assert forall|i: int| 0 <= i < 4 implies data.subrange(at + 4, at + 8)[i]
            == #[trigger] high[i] by {
            assert(data[at + 4 + i] == bytes[4 + i]);
            assert(bytes[4 + i] == (low + high)[4 + i]);
        }
    }
    lemma_le32(data, at, x % 0x1_0000_0000);
    lemma_le32(data, at + 4, x / 0x1_0000_0000);
}

/// A packed value is read back as it was, wherever in the buffer it stands.
pub proof fn lemma_field_round_trip(value: FieldValueView, data: Seq<u8>, at: int)
    requires
        packable(value),
        0 <= at,
        at + packed_field(value).len() <= data.len(),
        data.subrange(at, at + packed_field(value).len()) == packed_field(value),
    ensures
        field_at(value.scalar_type(), data, at) == Ok::<_, DecodeError>(
            (value, at + packed_field(value).len()),
        ),
{
    match value {
        FieldValueView::I32(v) => {
            lemma_le32(data, at, if v >= 0 { v as int } else { v + 0x1_0000_0000 });
        },
        FieldValueView::I64(v) => {
            lemma_le64(data, at, if v >= 0 { v as int } else { v + 0x1_0000_0000_0000_0000 });
        },
        FieldValueView::F32(bits) => {
            lemma_le32(data, at, bits as int);
        },
        FieldValueView::F64(bits) => {
            lemma_le64(data, at, bits as int);
        },
        FieldValueView::Text(text) => {
            let encoded = encode_utf8(text);
            let end = at + encoded.len();
            let bytes = data.subrange(at, end + 1);
            assert(data[end] == bytes[encoded.len() as int]);
            assert forall|i: int| at <= i < end implies data[i] != 0 by {
                assert(data[i] == bytes[i - at]);
                assert(encoded[i - at] == bytes[i - at]);
                assert(encoded.contains(encoded[i - at]));
            }
            lemma_first_nul_is(data, at, data.len() as int, end);
            assert(data.subrange(at, end) =~= encoded) by {
                assert forall|i: int| 0 <= i < encoded.len() implies data.subrange(at, end)[i]
                    == #[trigger] encoded[i] by {
                    assert(data[at + i] == bytes[i]);
                }
            }
            encode_utf8_valid_utf8(text);
            encode_utf8_decode_utf8(text);
        },
    }
}

/// The packed bytes of the first `count` values stand at the front of the
/// packed bytes of all of them.
pub proof fn lemma_packed_prefix(values: Seq<FieldValueView>, count: int)
    requires
        0 <= count <= values.len(),
    ensures
        packed(values.take(count)).is_prefix_of(packed(values)),
        count < values.len() ==> packed(values.take(count + 1)) == packed(values.take(count))
            + packed_field(values[count]),
    decreases values.len() - count,
{
    if count == values.len() {
        assert(values.take(count) =~= values);
    } else {
        let longer = values.take(count + 1);
        assert(longer.drop_last() =~= values.take(count));
        assert(longer.last() == values[count]);
        lemma_packed_prefix(values, count + 1);
    }
}

/// Packing and decoding undo each other: the values of a structure, packed
/// in declaration order and decoded in the same order, come back exactly as
/// they were.
pub proof fn lemma_round_trip(values: Seq<FieldValueView>)
    requires
        forall|i: int| 0 <= i < values.len() ==> packable(#[trigger] values[i]),
    ensures
        struct_of(types_of(values), packed(values)) == Ok::<_, DecodeError>(values),
{
    lemma_walk_packed(values, values.len());
    assert(values.take(values.len() as int) =~= values);
}

proof fn lemma_walk_packed(values: Seq<FieldValueView>, count: nat)
    requires
        forall|i: int| 0 <= i < values.len() ==> packable(#[trigger] values[i]),
        count <= values.len(),
    ensures
        walk(types_of(values), packed(values), count) == Ok::<_, DecodeError>(
            (values.take(count as int), packed(values.take(count as int)).len() as int),
        ),
    decreases count,
{
    let data = packed(values);
    if count == 0 {
        assert(values.take(0) =~= Seq::empty());
    } else {
        let before = (count - 1) as nat;
        lemma_walk_packed(values, before);
        lemma_packed_prefix(values, before as int);
        lemma_packed_prefix(values, count as int);
        let value = values[before as int];
        let at = packed(values.take(before as int)).len() as int;
        let upto = packed(values.take(count as int));
        assert(data.subrange(at, at + packed_field(value).len()) =~= packed_field(value)) by {
            assert forall|i: int| 0 <= i < packed_field(value).len() implies data.subrange(
                at,
                at + packed_field(value).len(),
            )[i] == #[trigger] packed_field(value)[i] by {
                assert(data[at + i] == upto[at + i]);
            }
        }
        lemma_field_round_trip(value, data, at);
        assert(values.take(before as int).push(value) =~= values.take(count as int));
    }
}

} // verus!
