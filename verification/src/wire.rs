//! The messages that clients send over the socket, in the Protocol Buffers
//! wire format: a sequence of fields, each a key (field number and wire type)
//! followed by a value. The two messages each hold one enumeration field; a
//! field read more than once keeps the last value, and fields with other
//! numbers are skipped.
use vstd::prelude::*;

verus! {

/// The number of the `call` field of a request message.
pub const REQUEST_CALL_FIELD: u32 = 1;

/// The number of the `op` field of a profile request message.
pub const PROFILE_OP_FIELD: u32 = 1;

/// The wire type of a field, as the key of the field gives it.
#[derive(Clone, Copy, PartialEq, Eq, Structural, Debug)]
pub enum WireKind {
    Varint,
    SixtyFourBit,
    LengthDelimited,
    StartGroup,
    EndGroup,
    ThirtyTwoBit,
}

/// A message that is not well formed.
#[derive(Clone, Copy, PartialEq, Eq, Structural, Debug)]
pub struct DecodeFailure;

#[verifier::external_type_specification]
#[verifier::external_body]
pub struct ExDecodeError(prost::DecodeError);

/// The base-128 varint that starts at index `at` of `bytes`, as
/// `prost::encoding::decode_varint` reads it: each byte gives its low seven
/// bits, least significant first, and a byte below 0x80 ends the varint. It
/// is the value of the bytes from `at` and the index just past its last byte;
/// `None` where the bytes end first, where ten bytes pass without an end, or
/// where the tenth byte is 2 or more (the value would not fit in 64 bits).
pub open spec fn varint_at(bytes: Seq<u8>, at: nat) -> Option<(int, nat)>
    decreases 10 - at,
{
    if at >= 10 || at >= bytes.len() {
        None
    } else {
        let b = bytes[at as int];
        if b < 0x80 {
            if at == 9 && b >= 2 {
                None
            } else {
                Some((b as int, at + 1))
            }
        } else {
            match varint_at(bytes, at + 1) {
                None => None,
                Some((high, end)) => Some(((b - 0x80) + 0x80 * high, end)),
            }
        }
    }
}

/// The wire type with the number `value`, if there is one.
pub open spec fn wire_kind_of(value: int) -> Option<WireKind> {
    if value == 0 {
        Some(WireKind::Varint)
    } else if value == 1 {
        Some(WireKind::SixtyFourBit)
    } else if value == 2 {
        Some(WireKind::LengthDelimited)
    } else if value == 3 {
        Some(WireKind::StartGroup)
    } else if value == 4 {
        Some(WireKind::EndGroup)
    } else if value == 5 {
        Some(WireKind::ThirtyTwoBit)
    } else {
        None
    }
}

/// The key at the front of `bytes`, as `prost::encoding::decode_key` reads
/// it: a varint `key` no greater than `u32::MAX`, whose low three bits give
/// the wire type and whose other bits give the field number, which must be 1
/// or more. It is the field number, the wire type and what follows the key;
/// `None` where the key is not well formed.
pub open spec fn field_key(bytes: Seq<u8>) -> Option<(u32, WireKind, Seq<u8>)> {
    match varint_at(bytes, 0) {
        None => None,
        Some((key, end)) => if key > u32::MAX {
            None
        } else {
            match wire_kind_of(key % 8) {
                None => None,
                Some(kind) => if key / 8 < 1 {
                    None
                } else {
                    Some(((key / 8) as u32, kind, bytes.skip(end as int)))
                },
            }
        },
    }
}

/// The value of an `int32` field at the front of `bytes`, as
/// `prost::encoding::int32::merge` reads it: the wire type must be `Varint`,
/// and the value is the varint cut to its low 32 bits, as a signed number.
/// It is the value and what follows it; `None` where it is not well formed.
pub open spec fn int32_value(kind: WireKind, bytes: Seq<u8>) -> Option<(i32, Seq<u8>)> {
    if kind != WireKind::Varint {
        None
    } else {
        match varint_at(bytes, 0) {
            None => None,
            Some((value, end)) => Some((value as i32, bytes.skip(end as int))),
        }
    }
}

/// What is left of `bytes` after `prost::encoding::skip_field` has skipped the
/// value of a field of the given wire type and number; `None` where it fails.
pub uninterp spec fn skipped_value(kind: WireKind, tag: u32, bytes: Seq<u8>) -> Option<Seq<u8>>;

/// Calls `prost::encoding::decode_key` on `bytes`. Trusted: its result is
/// `field_key` of the bytes, as the source of `decode_key` and
/// `decode_varint` reads keys; on success the key took at least one byte.
#[verifier::external_body]
fn read_key(bytes: &[u8]) -> (res: Result<(u32, WireKind, &[u8]), prost::DecodeError>)
    ensures
        match res {
            Ok((tag, kind, rest)) => field_key(bytes@) == Some((tag, kind, rest@))
                && rest@.len() < bytes@.len(),
            Err(_) => field_key(bytes@) is None,
        },
{
    let mut buf = bytes;
    let (tag, wire) = prost::encoding::decode_key(&mut buf)?;
    let kind = match wire {
        prost::encoding::WireType::Varint => WireKind::Varint,
        prost::encoding::WireType::SixtyFourBit => WireKind::SixtyFourBit,
        prost::encoding::WireType::LengthDelimited => WireKind::LengthDelimited,
        prost::encoding::WireType::StartGroup => WireKind::StartGroup,
        prost::encoding::WireType::EndGroup => WireKind::EndGroup,
        prost::encoding::WireType::ThirtyTwoBit => WireKind::ThirtyTwoBit,
    };
    Ok((tag, kind, buf))
}

/// Calls `prost::encoding::int32::merge` on `bytes`. Trusted: its result is
/// `int32_value` of the wire type and the bytes, as the source of `merge`
/// (which checks the wire type first) and `decode_varint` reads values; it
/// fails for any wire type but `Varint`, and on success the value took at
/// least one byte.
#[verifier::external_body]
fn read_int32(kind: WireKind, bytes: &[u8]) -> (res: Result<(i32, &[u8]), prost::DecodeError>)
    ensures
        match res {
            Ok((value, rest)) => int32_value(kind, bytes@) == Some((value, rest@))
                && rest@.len() < bytes@.len(),
            Err(_) => int32_value(kind, bytes@) is None,
        },
        kind != WireKind::Varint ==> res is Err,
{
    let wire = match kind {
        WireKind::Varint => prost::encoding::WireType::Varint,
        WireKind::SixtyFourBit => prost::encoding::WireType::SixtyFourBit,
        WireKind::LengthDelimited => prost::encoding::WireType::LengthDelimited,
        WireKind::StartGroup => prost::encoding::WireType::StartGroup,
        WireKind::EndGroup => prost::encoding::WireType::EndGroup,
        WireKind::ThirtyTwoBit => prost::encoding::WireType::ThirtyTwoBit,
    };
    let mut value: i32 = 0;
    let mut buf = bytes;
    prost::encoding::int32::merge(wire, &mut value, &mut buf, Default::default())?;
    Ok((value, buf))
}

/// What is left of `bytes` after the value of a field of the given wire type
/// and number is skipped, as `prost::encoding::skip_field` skips it: a
/// varint; eight or four bytes; a varint length and that many bytes; for a
/// group, what `skipped_value` names; `None` for a stray group end, and where
/// the bytes are not well formed or run out.
pub open spec fn skipped_field(kind: WireKind, tag: u32, bytes: Seq<u8>) -> Option<Seq<u8>> {
    match kind {
        WireKind::Varint => match varint_at(bytes, 0) {
            None => None,
            Some((_, end)) => Some(bytes.skip(end as int)),
        },
        WireKind::SixtyFourBit => if bytes.len() >= 8 {
            Some(bytes.skip(8))
        } else {
            None
        },
        WireKind::ThirtyTwoBit => if bytes.len() >= 4 {
            Some(bytes.skip(4))
        } else {
            None
        },
        WireKind::LengthDelimited => match varint_at(bytes, 0) {
            None => None,
            Some((len, end)) => if len <= bytes.len() - end {
                Some(bytes.skip(end + len))
            } else {
                None
            },
        },
        WireKind::StartGroup => skipped_value(kind, tag, bytes),
        WireKind::EndGroup => None,
    }
}

/// Calls `prost::encoding::skip_field` on `bytes`. Trusted: what is left is
/// the name `skipped_value` of the wire type, the field number and the bytes,
/// and no longer than the bytes; it is also `skipped_field` of them, as the
/// source of `skip_field` skips each wire type (it rejects an `EndGroup`
/// value before reading anything).
#[verifier::external_body]
fn skip_value(kind: WireKind, tag: u32, bytes: &[u8]) -> (res: Result<&[u8], prost::DecodeError>)
    ensures
        match res {
            Ok(rest) => skipped_value(kind, tag, bytes@) == Some(rest@)
                && skipped_field(kind, tag, bytes@) == Some(rest@)
                && rest@.len() <= bytes@.len(),
            Err(_) => skipped_value(kind, tag, bytes@) is None
                && skipped_field(kind, tag, bytes@) is None,
        },
        kind == WireKind::EndGroup ==> res is Err,
{
    let wire = match kind {
        WireKind::Varint => prost::encoding::WireType::Varint,
        WireKind::SixtyFourBit => prost::encoding::WireType::SixtyFourBit,
        WireKind::LengthDelimited => prost::encoding::WireType::LengthDelimited,
        WireKind::StartGroup => prost::encoding::WireType::StartGroup,
        WireKind::EndGroup => prost::encoding::WireType::EndGroup,
        WireKind::ThirtyTwoBit => prost::encoding::WireType::ThirtyTwoBit,
    };
    let mut buf = bytes;
    prost::encoding::skip_field(wire, tag, &mut buf, Default::default())?;
    Ok(buf)
}

/// The value that a message gives the `int32` field number `field`, reading
/// the fields of `bytes` in order from `current`: each field with that number
/// (which must have the wire type `Varint`) replaces the value, every other
/// field is skipped; `None` where a key or a value is not well formed.
pub open spec fn scan_int32(bytes: Seq<u8>, field: u32, current: i32) -> Option<i32>
    decreases bytes.len(),
{
    if bytes.len() == 0 {
        Some(current)
    } else {
        match field_key(bytes) {
            None => None,
            Some((tag, kind, rest)) => {
                if rest.len() >= bytes.len() {
                    None
                } else if tag == field {
                    match int32_value(kind, rest) {
                        None => None,
                        Some((value, after)) => if after.len() > rest.len() {
                            None
                        } else {
                            scan_int32(after, field, value)
                        },
                    }
                } else {
                    match skipped_field(kind, tag, rest) {
                        None => None,
                        Some(after) => if after.len() > rest.len() {
                            None
                        } else {
                            scan_int32(after, field, current)
                        },
                    }
                }
            },
        }
    }
}

/// The value of the `int32` field number `field` of the message `bytes`: the
/// last one that the message holds, or 0 where it holds none.
pub open spec fn message_int32(bytes: Seq<u8>, field: u32) -> Option<i32> {
    scan_int32(bytes, field, 0)
}

/// A message with no fields gives the field its default value, 0.
pub proof fn lemma_empty_message_is_default(field: u32)
    ensures
        message_int32(Seq::<u8>::empty(), field) == Some(0i32),
{
}

/// A field with a number below 16 and a value below 128 is sent in two
/// bytes, its key `field * 8` and its value; a message of that field alone
/// gives the value.
pub proof fn lemma_single_small_field(field: u32, value: u8)
    requires
        1 <= field < 16,
        value < 0x80,
    ensures
        message_int32(seq![(field * 8) as u8, value], field) == Some(value as i32),
{
    let m = seq![(field * 8) as u8, value];
    let rest = m.skip(1);
    assert(rest =~= seq![value]);
    assert(varint_at(m, 0) == Some(((field * 8) as int, 1nat)));
    assert(field_key(m) == Some((field, WireKind::Varint, rest)));
    assert(varint_at(rest, 0) == Some((value as int, 1nat)));
    assert((value as int) as i32 == value as i32);
    assert(int32_value(WireKind::Varint, rest) == Some((value as i32, rest.skip(1))));
    assert(rest.skip(1).len() == 0);
    assert(scan_int32(rest.skip(1), field, value as i32) == Some(value as i32));
    assert(scan_int32(m, field, 0) == Some(value as i32));
}

/// A field sent twice keeps its last value.
pub proof fn lemma_last_value_wins(field: u32, first: u8, second: u8)
    requires
        1 <= field < 16,
        first < 0x80,
        second < 0x80,
    ensures
        message_int32(seq![(field * 8) as u8, first, (field * 8) as u8, second], field) == Some(
            second as i32,
        ),
{
    let m = seq![(field * 8) as u8, first, (field * 8) as u8, second];
    let r1 = m.skip(1);
    let r2 = r1.skip(1);
    let r3 = r2.skip(1);
    assert(r1 =~= seq![first, (field * 8) as u8, second]);
    assert(r2 =~= seq![(field * 8) as u8, second]);
    assert(r3 =~= seq![second]);
    assert(varint_at(m, 0) == Some(((field * 8) as int, 1nat)));
    assert(field_key(m) == Some((field, WireKind::Varint, r1)));
    assert(varint_at(r1, 0) == Some((first as int, 1nat)));
    assert(int32_value(WireKind::Varint, r1) == Some((first as i32, r2)));
    assert(varint_at(r2, 0) == Some(((field * 8) as int, 1nat)));
    assert(field_key(r2) == Some((field, WireKind::Varint, r3)));
    assert(varint_at(r3, 0) == Some((second as int, 1nat)));
    assert((first as int) as i32 == first as i32);
    assert((second as int) as i32 == second as i32);
    assert(int32_value(WireKind::Varint, r3) == Some((second as i32, r3.skip(1))));
    assert(r3.skip(1).len() == 0);
    assert(scan_int32(r3.skip(1), field, second as i32) == Some(second as i32));
    assert(scan_int32(r2, field, first as i32) == Some(second as i32));
    assert(scan_int32(m, field, 0) == Some(second as i32));
}

/// A field with another number leaves the value read so far as it is: the
/// message gives what what follows the skipped field gives, from the same
/// value.
pub proof fn lemma_other_field_keeps_value(
    bytes: Seq<u8>,
    field: u32,
    current: i32,
    tag: u32,
    kind: WireKind,
    rest: Seq<u8>,
    after: Seq<u8>,
)
    requires
        field_key(bytes) == Some((tag, kind, rest)),
        tag != field,
        skipped_field(kind, tag, rest) == Some(after),
        after.len() <= rest.len(),
    ensures
        scan_int32(bytes, field, current) == scan_int32(after, field, current),
{
    lemma_varint_end(bytes, 0);
}

/// A field with the number asked for replaces the value read so far with
/// its own.
pub proof fn lemma_field_replaces_value(
    bytes: Seq<u8>,
    field: u32,
    current: i32,
    kind: WireKind,
    rest: Seq<u8>,
    value: i32,
    after: Seq<u8>,
)
    requires
        field_key(bytes) == Some((field, kind, rest)),
        int32_value(kind, rest) == Some((value, after)),
    ensures
        scan_int32(bytes, field, current) == scan_int32(after, field, value),
{
    lemma_varint_end(bytes, 0);
    lemma_varint_end(rest, 0);
}

/// A varint that starts at `at` ends after it, within the bytes.
pub proof fn lemma_varint_end(bytes: Seq<u8>, at: nat)
    ensures
        varint_at(bytes, at) matches Some((_, end)) ==> at < end <= bytes.len(),
    decreases 10 - at,
{
    if at < 10 && at < bytes.len() && bytes[at as int] >= 0x80 {
        lemma_varint_end(bytes, at + 1);
    }
}

/// Fields with other numbers are skipped without touching the value: a small
/// field sent before or after a small field of another number gives its own
/// value.
pub proof fn lemma_other_field_ignored(field: u32, other: u32, value: u8, noise: u8)
    requires
        1 <= field < 16,
        1 <= other < 16,
        field != other,
        value < 0x80,
        noise < 0x80,
    ensures
        message_int32(seq![(field * 8) as u8, value, (other * 8) as u8, noise], field) == Some(
            value as i32,
        ),
        message_int32(seq![(other * 8) as u8, noise, (field * 8) as u8, value], field) == Some(
            value as i32,
        ),
{
    assert((value as int) as i32 == value as i32);
    let m = seq![(field * 8) as u8, value, (other * 8) as u8, noise];
    let m1 = m.skip(1);
    let m2 = m1.skip(1);
    let m3 = m2.skip(1);
    assert(m1 =~= seq![value, (other * 8) as u8, noise]);
    assert(m2 =~= seq![(other * 8) as u8, noise]);
    assert(m3 =~= seq![noise]);
    assert(varint_at(m, 0) == Some(((field * 8) as int, 1nat)));
    assert(field_key(m) == Some((field, WireKind::Varint, m1)));
    assert(varint_at(m1, 0) == Some((value as int, 1nat)));
    assert(int32_value(WireKind::Varint, m1) == Some((value as i32, m2)));
    assert(varint_at(m2, 0) == Some(((other * 8) as int, 1nat)));
    assert(field_key(m2) == Some((other, WireKind::Varint, m3)));
    assert(varint_at(m3, 0) == Some((noise as int, 1nat)));
    assert(skipped_field(WireKind::Varint, other, m3) == Some(m3.skip(1)));
    assert(m3.skip(1).len() == 0);
    assert(scan_int32(m3.skip(1), field, value as i32) == Some(value as i32));
    assert(scan_int32(m2, field, value as i32) == Some(value as i32));
    assert(scan_int32(m, field, 0) == Some(value as i32));

    let n = seq![(other * 8) as u8, noise, (field * 8) as u8, value];
    let n1 = n.skip(1);
    let n2 = n1.skip(1);
    let n3 = n2.skip(1);
    assert(n1 =~= seq![noise, (field * 8) as u8, value]);
    assert(n2 =~= seq![(field * 8) as u8, value]);
    assert(n3 =~= seq![value]);
    assert(varint_at(n, 0) == Some(((other * 8) as int, 1nat)));
    assert(field_key(n) == Some((other, WireKind::Varint, n1)));
    assert(varint_at(n1, 0) == Some((noise as int, 1nat)));
    assert(skipped_field(WireKind::Varint, other, n1) == Some(n2));
    assert(varint_at(n2, 0) == Some(((field * 8) as int, 1nat)));
    assert(field_key(n2) == Some((field, WireKind::Varint, n3)));
    assert(varint_at(n3, 0) == Some((value as int, 1nat)));
    assert(int32_value(WireKind::Varint, n3) == Some((value as i32, n3.skip(1))));
    assert(n3.skip(1).len() == 0);
    assert(scan_int32(n3.skip(1), field, value as i32) == Some(value as i32));
    assert(scan_int32(n2, field, 0) == Some(value as i32));
    assert(scan_int32(n, field, 0) == Some(value as i32));
}

/// A varint is read least significant group first: a byte with the high bit
/// set gives the low seven bits, and the next byte, below 0x80, gives the
/// next seven.
pub proof fn lemma_two_byte_varint(low: u8, high: u8, rest: Seq<u8>)
    requires
        low < 0x80,
        high < 0x80,
    ensures
        varint_at(seq![(low + 0x80) as u8, high] + rest, 0) == Some(
            ((low as int) + 0x80 * (high as int), 2nat),
        ),
{
    let m = seq![(low + 0x80) as u8, high] + rest;
    assert(m[0] == (low + 0x80) as u8);
    assert(m[1] == high);
    assert(varint_at(m, 1) == Some((high as int, 2nat)));
}

/// A single byte below 0x80 is a whole varint, worth the byte; whatever
/// follows it is left unread.
pub proof fn lemma_one_byte_varint(byte: u8, rest: Seq<u8>)
    requires
        byte < 0x80,
    ensures
        varint_at(seq![byte] + rest, 0) == Some((byte as int, 1nat)),
{
    assert((seq![byte] + rest)[0] == byte);
}

/// A varint that goes on for ten bytes without ending is refused, and so is
/// one whose tenth byte is 2 or more; a varint never reaches past its tenth
/// byte.
pub proof fn lemma_varint_at_most_ten_bytes(bytes: Seq<u8>, at: nat)
    requires
        at <= 10,
        forall|i: int| at <= i < 10 && i < bytes.len() ==> bytes[i] >= 0x80,
    ensures
        varint_at(bytes, at) is None,
    decreases 10 - at,
{
    if at < 10 && at < bytes.len() {
        lemma_varint_at_most_ten_bytes(bytes, at + 1);
    }
}

/// The tenth byte of a varint can only add one more bit: 0 or 1 are taken,
/// 2 and above are refused.
pub proof fn lemma_tenth_byte(bytes: Seq<u8>)
    requires
        bytes.len() >= 10,
        bytes[9] >= 2,
        bytes[9] < 0x80,
    ensures
        varint_at(bytes, 9) is None,
{
}

/// A one-byte key gives the field number in its high five bits and the wire
/// type in its low three; number 0 and the wire types 6 and 7 are refused.
pub proof fn lemma_one_byte_key(key: u8, rest: Seq<u8>)
    requires
        key < 0x80,
    ensures
        field_key(seq![key] + rest) == if key / 8 >= 1 && key % 8 <= 5 {
            Some(
                (
                    (key / 8) as u32,
                    match key % 8 {
                        0 => WireKind::Varint,
                        1 => WireKind::SixtyFourBit,
                        2 => WireKind::LengthDelimited,
                        3 => WireKind::StartGroup,
                        4 => WireKind::EndGroup,
                        _ => WireKind::ThirtyTwoBit,
                    },
                    rest,
                ),
            )
        } else {
            None
        },
{
    lemma_one_byte_varint(key, rest);
    assert((seq![key] + rest).skip(1) =~= rest);
}

/// Skipping a value of a fixed width takes exactly that many bytes; a
/// length-delimited value takes its length byte and that many bytes; a stray
/// group end is refused.
pub proof fn lemma_skip_widths(tag: u32, bytes: Seq<u8>, len: u8, body: Seq<u8>)
    requires
        len < 0x80,
        body.len() >= len,
    ensures
        bytes.len() >= 4 ==> skipped_field(WireKind::ThirtyTwoBit, tag, bytes) == Some(
            bytes.skip(4),
        ),
        bytes.len() < 4 ==> skipped_field(WireKind::ThirtyTwoBit, tag, bytes) is None,
        bytes.len() >= 8 ==> skipped_field(WireKind::SixtyFourBit, tag, bytes) == Some(
            bytes.skip(8),
        ),
        bytes.len() < 8 ==> skipped_field(WireKind::SixtyFourBit, tag, bytes) is None,
        skipped_field(WireKind::LengthDelimited, tag, seq![len] + body) == Some(
            body.skip(len as int),
        ),
        skipped_field(WireKind::EndGroup, tag, bytes) is None,
{
    lemma_one_byte_varint(len, body);
    assert((seq![len] + body).skip(1 + len) =~= body.skip(len as int));
}

/// Reads the `int32` field number `field` of the message `bytes`.
pub fn decode_int32_field(bytes: &[u8], field: u32) -> (res: Result<i32, DecodeFailure>)
    ensures
        match res {
            Ok(value) => message_int32(bytes@, field) == Some(value),
            Err(_) => message_int32(bytes@, field) is None,
        },
{
    let mut buf = bytes;
    let mut value: i32 = 0;
    while buf.len() > 0
        invariant
            scan_int32(buf@, field, value) == message_int32(bytes@, field),
        decreases buf@.len(),
    {
        let (tag, kind, rest) = match read_key(buf) {
            Ok(key) => key,
            Err(_) => return Err(DecodeFailure),
        };
        if tag == field {
            match read_int32(kind, rest) {
                Ok((v, after)) => {
                    value = v;
                    buf = after;
                },
                Err(_) => return Err(DecodeFailure),
            }
        } else {
            match skip_value(kind, tag, rest) {
                Ok(after) => {
                    buf = after;
                },
                Err(_) => return Err(DecodeFailure),
            }
        }
    }
    Ok(value)
}

/// The `call` values that a request message can name.
#[derive(Clone, Copy, PartialEq, Eq, Structural, Debug)]
pub enum RequestCall {
    Daemon,
    Logs,
    Status,
    Unconfined,
    Profile,
}

/// The `call` named by its number on the wire, if the number is known.
pub open spec fn request_call_of(value: i32) -> Option<RequestCall> {
    if value == 0 {
        Some(RequestCall::Daemon)
    } else if value == 1 {
        Some(RequestCall::Logs)
    } else if value == 2 {
        Some(RequestCall::Status)
    } else if value == 3 {
        Some(RequestCall::Unconfined)
    } else if value == 4 {
        Some(RequestCall::Profile)
    } else {
        None
    }
}

impl RequestCall {
    /// The `call` with the number `value`, or `None` for an unknown number.
    pub fn try_from_i32(value: i32) -> (res: Option<RequestCall>)
        ensures
            res == request_call_of(value),
    {
        if value == 0 {
            Some(RequestCall::Daemon)
        } else if value == 1 {
            Some(RequestCall::Logs)
        } else if value == 2 {
            Some(RequestCall::Status)
        } else if value == 3 {
            Some(RequestCall::Unconfined)
        } else if value == 4 {
            Some(RequestCall::Profile)
        } else {
            None
        }
    }
}

/// The operations that a profile request message can name.
#[derive(Clone, Copy, PartialEq, Eq, Structural, Debug)]
pub enum ProfileReqOp {
    Load,
    Status,
    Disable,
}

/// The `op` named by its number on the wire, if the number is known.
pub open spec fn profile_req_op_of(value: i32) -> Option<ProfileReqOp> {
    if value == 0 {
        Some(ProfileReqOp::Load)
    } else if value == 1 {
        Some(ProfileReqOp::Status)
    } else if value == 2 {
        Some(ProfileReqOp::Disable)
    } else {
        None
    }
}

impl ProfileReqOp {
    /// The `op` with the number `value`, or `None` for an unknown number.
    pub fn try_from_i32(value: i32) -> (res: Option<ProfileReqOp>)
        ensures
            res == profile_req_op_of(value),
    {
        if value == 0 {
            Some(ProfileReqOp::Load)
        } else if value == 1 {
            Some(ProfileReqOp::Status)
        } else if value == 2 {
            Some(ProfileReqOp::Disable)
        } else {
            None
        }
    }
}

/// A request message: the number of the `call` it names.
#[derive(Clone, Copy, PartialEq, Eq, Structural, Debug)]
pub struct Request {
    pub call: i32,
}

/// A profile request message: the number of the `op` it names.
#[derive(Clone, Copy, PartialEq, Eq, Structural, Debug)]
pub struct ProfileReq {
    pub op: i32,
}

impl Request {
    /// Decodes a request message.
    pub fn decode(bytes: &[u8]) -> (res: Result<Request, DecodeFailure>)
        ensures
            match res {
                Ok(req) => message_int32(bytes@, REQUEST_CALL_FIELD) == Some(req.call),
                Err(_) => message_int32(bytes@, REQUEST_CALL_FIELD) is None,
            },
    {
        match decode_int32_field(bytes, REQUEST_CALL_FIELD) {
            Ok(call) => Ok(Request { call }),
            Err(e) => Err(e),
        }
    }
}

impl ProfileReq {
    /// Decodes a profile request message.
    pub fn decode(bytes: &[u8]) -> (res: Result<ProfileReq, DecodeFailure>)
        ensures
            match res {
                Ok(req) => message_int32(bytes@, PROFILE_OP_FIELD) == Some(req.op),
                Err(_) => message_int32(bytes@, PROFILE_OP_FIELD) is None,
            },
    {
        match decode_int32_field(bytes, PROFILE_OP_FIELD) {
            Ok(op) => Ok(ProfileReq { op }),
            Err(e) => Err(e),
        }
    }
}

/// The numbers of the `call` and `op` values: `DAEMON = 0`, `LOGS = 1`,
/// `STATUS = 2`, `UNCONFINED = 3`, `PROFILE = 4`; `LOAD = 0`, `STATUS = 1`,
/// `DISABLE = 2`; every other number names nothing.
pub proof fn lemma_enum_numbers(value: i32)
    ensures
        request_call_of(0) == Some(RequestCall::Daemon),
        request_call_of(1) == Some(RequestCall::Logs),
        request_call_of(2) == Some(RequestCall::Status),
        request_call_of(3) == Some(RequestCall::Unconfined),
        request_call_of(4) == Some(RequestCall::Profile),
        (value < 0 || value > 4) ==> request_call_of(value) is None,
        profile_req_op_of(0) == Some(ProfileReqOp::Load),
        profile_req_op_of(1) == Some(ProfileReqOp::Status),
        profile_req_op_of(2) == Some(ProfileReqOp::Disable),
        (value < 0 || value > 2) ==> profile_req_op_of(value) is None,
{
}

} // verus!
