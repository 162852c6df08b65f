//! The binary encoding of values: little-endian integers, texts as a 32-bit
//! length and UTF-8 bytes, records as their fields in order, unions as a
//! 32-bit tag and the fields of the variant. This is the layout that the
//! `speedy` crate gives to derived types in its little-endian context.

use vstd::prelude::*;
use vstd::utf8::{decode_utf8, encode_utf8, valid_utf8};
use vstd::utf8::{decode_utf8_encode_utf8, encode_utf8_decode_utf8, encode_utf8_valid_utf8};
use vstd::string::StringSliceAdditionalSpecFns;
use crate::network::error::WireError;

verus! {

/// The four bytes of `value`, least significant first.
pub open spec fn u32_le(value: u32) -> Seq<u8> {
    seq![
        (value % 256) as u8,
        ((value / 256) % 256) as u8,
        ((value / 65536) % 256) as u8,
        ((value / 16777216) % 256) as u8,
    ]
}

/// The number that four bytes stand for, least significant first.
pub open spec fn u32_from_le(bytes: Seq<u8>) -> u32
    recommends
        bytes.len() == 4,
{
    (bytes[0] as int + bytes[1] as int * 256 + bytes[2] as int * 65536 + bytes[3] as int
        * 16777216) as u32
}

/// The eight bytes of `value`, least significant first.
pub open spec fn u64_le(value: u64) -> Seq<u8> {
    u32_le((value % 0x1_0000_0000) as u32) + u32_le((value / 0x1_0000_0000) as u32)
}

/// The number that eight bytes stand for, least significant first.
pub open spec fn u64_from_le(bytes: Seq<u8>) -> u64
    recommends
        bytes.len() == 8,
{
    (u32_from_le(bytes.subrange(0, 4)) as int + u32_from_le(bytes.subrange(4, 8)) as int
        * 0x1_0000_0000) as u64
}

/// The unsigned number with the same 32 bits as `value` in two's complement.
pub open spec fn i32_bits(value: i32) -> u32 {
    if value >= 0 {
        value as u32
    } else {
        (value + 0x1_0000_0000) as u32
    }
}

/// The signed number with the same 32 bits as `bits` in two's complement.
pub open spec fn i32_from_bits(bits: u32) -> i32 {
    if bits < 0x8000_0000 {
        bits as i32
    } else {
        (bits - 0x1_0000_0000) as i32
    }
}

pub proof fn lemma_u32_le_round_trip(value: u32)
    ensures
        u32_le(value).len() == 4,
        u32_from_le(u32_le(value)) == value,
{
    let whole = value as int;
    let upper3 = whole / 256;
    let upper2 = upper3 / 256;
    let upper1 = upper2 / 256;
    assert(whole / 65536 == upper2);
    assert(whole / 16777216 == upper1);
    assert(upper1 % 256 == upper1);
    assert(whole == whole % 256 + 256 * (upper3 % 256 + 256 * (upper2 % 256 + 256 * upper1)));
}

pub proof fn lemma_u32_from_le_round_trip(bytes: Seq<u8>)
    requires
        bytes.len() == 4,
    ensures
        u32_le(u32_from_le(bytes)) == bytes,
{
    let b0 = bytes[0] as int;
    let b1 = bytes[1] as int;
    let b2 = bytes[2] as int;
    let b3 = bytes[3] as int;
    let upper3 = b1 + 256 * (b2 + 256 * b3);
    let upper2 = b2 + 256 * b3;
    let value = u32_from_le(bytes) as int;
    assert(value == b0 + 256 * upper3);
    assert(value % 256 == b0 && value / 256 == upper3);
    assert(upper3 % 256 == b1 && upper3 / 256 == upper2);
    assert(upper2 % 256 == b2 && upper2 / 256 == b3);
    assert(value / 65536 == upper2);
    assert(value / 16777216 == b3);
    assert(u32_le(u32_from_le(bytes)) =~= bytes);
}

pub proof fn lemma_u64_le_round_trip(value: u64)
    ensures
        u64_le(value).len() == 8,
        u64_from_le(u64_le(value)) == value,
{
    let low = (value % 0x1_0000_0000) as u32;
    let high = (value / 0x1_0000_0000) as u32;
    lemma_u32_le_round_trip(low);
    lemma_u32_le_round_trip(high);
    assert(u64_le(value).subrange(0, 4) =~= u32_le(low));
    assert(u64_le(value).subrange(4, 8) =~= u32_le(high));
}

pub proof fn lemma_u64_from_le_round_trip(bytes: Seq<u8>)
    requires
        bytes.len() == 8,
    ensures
        u64_le(u64_from_le(bytes)) == bytes,
{
    let low = bytes.subrange(0, 4);
    let high = bytes.subrange(4, 8);
    let low_value = u32_from_le(low);
    let high_value = u32_from_le(high);
    let value = u64_from_le(bytes);
    assert(value == low_value + high_value * 0x1_0000_0000);
    assert((value % 0x1_0000_0000) as u32 == low_value);
    assert((value / 0x1_0000_0000) as u32 == high_value);
    assert(u32_le(low_value) == low) by {
        lemma_u32_from_le_round_trip(low);
    }
    assert(u32_le(high_value) == high) by {
        lemma_u32_from_le_round_trip(high);
    }
    assert(low + high =~= bytes);
}

pub proof fn lemma_i32_bits_round_trip(value: i32)
    ensures
        i32_from_bits(i32_bits(value)) == value,
{
}

pub proof fn lemma_i32_from_bits_round_trip(bits: u32)
    ensures
        i32_bits(i32_from_bits(bits)) == bits,
{
}

/// A type with a place in the wire format.
///
/// `wire` says which bytes stand for a value, `parse` what reading at a
/// position of a buffer gives. The two lemmas tie them together: what was
/// written is read back, and what is read was written there.
pub trait Wire: Sized + View {
    /// The bytes that stand for `value`.
    spec fn wire(value: Self::V) -> Seq<u8>;

    /// Whether `value` can be written: every length in it fits its prefix.
    spec fn fits(value: Self::V) -> bool;

    /// The value that starts at `at` in `bytes` and the position behind it,
    /// or the reason why there is none.
    spec fn parse(bytes: Seq<u8>, at: int) -> core::result::Result<(Self::V, int), WireError>;

    /// Bytes that hold the encoding of a value at `at` parse to that value.
    proof fn lemma_parse_wire(bytes: Seq<u8>, at: int, value: Self::V)
        requires
            Self::fits(value),
            0 <= at,
            at + Self::wire(value).len() <= bytes.len(),
            bytes.subrange(at, at + Self::wire(value).len()) == Self::wire(value),
        ensures
            Self::parse(bytes, at) == Ok::<(Self::V, int), WireError>(
                (value, at + Self::wire(value).len()),
            ),
    ;

    /// Where bytes parse to a value, they hold its encoding there.
    proof fn lemma_wire_parse(bytes: Seq<u8>, at: int)
        requires
            0 <= at <= bytes.len(),
        ensures
            Self::parse(bytes, at) matches Ok((value, next)) ==> {
                &&& Self::fits(value)
                &&& at <= next <= bytes.len()
                &&& bytes.subrange(at, next) == Self::wire(value)
            },
    ;

    /// Appends the encoding of `self` to `out`; fails, with `TooLong`, only
    /// for a value that does not fit.
    fn write_to(&self, out: &mut Vec<u8>) -> (done: core::result::Result<(), WireError>)
        ensures
            done is Ok <==> Self::fits(self@),
            done is Ok ==> final(out)@ == old(out)@ + Self::wire(self@),
            done is Err ==> done == Err::<(), WireError>(WireError::TooLong),
    ;

    /// Reads a value at `at`, and says where the next one starts.
    fn read_from(bytes: &[u8], at: usize) -> (read: core::result::Result<(Self, usize), WireError>)
        requires
            at <= bytes@.len(),
        ensures
            match Self::parse(bytes@, at as int) {
                Ok((value, next)) => {
                    &&& read is Ok
                    &&& read->Ok_0.0@ == value
                    &&& read->Ok_0.1 == next
                    &&& at <= next <= bytes@.len()
                },
                Err(error) => read is Err && read->Err_0 == error,
            },
    ;
}

/// A stretch of bytes that holds two encodings in a row holds each of them.
pub proof fn lemma_split_subrange(bytes: Seq<u8>, at: int, first: Seq<u8>, second: Seq<u8>)
    requires
        0 <= at,
        at + first.len() + second.len() <= bytes.len(),
        bytes.subrange(at, at + first.len() + second.len()) == first + second,
    ensures
        bytes.subrange(at, at + first.len()) == first,
        bytes.subrange(at + first.len(), at + first.len() + second.len()) == second,
{
    let whole = bytes.subrange(at, at + first.len() + second.len());
    assert forall|i: int| 0 <= i < first.len() implies bytes[at + i] == first[i] by {
        assert(whole[i] == bytes[at + i]);
    }
    assert forall|i: int| 0 <= i < second.len() implies bytes[at + first.len() + i] == second[i] by {
        assert(whole[first.len() + i] == bytes[at + first.len() + i]);
    }
    assert(bytes.subrange(at, at + first.len()) =~= first);
    assert(bytes.subrange(at + first.len(), at + first.len() + second.len()) =~= second);
}

/// Two encodings that stand in a row form the concatenation of the two.
pub proof fn lemma_join_subrange(bytes: Seq<u8>, at: int, middle: int, next: int)
    requires
        0 <= at <= middle <= next <= bytes.len(),
    ensures
        bytes.subrange(at, next) == bytes.subrange(at, middle) + bytes.subrange(middle, next),
{
    assert(bytes.subrange(at, next) =~= bytes.subrange(at, middle) + bytes.subrange(middle, next));
}

/// Bytes that hold a tag and then the encoding of a payload parse to that tag
/// and then to that payload.
pub proof fn lemma_parse_tagged<P: Wire>(bytes: Seq<u8>, at: int, tag: u32, payload: P::V)
    requires
        P::fits(payload),
        0 <= at,
        at + 4 + P::wire(payload).len() <= bytes.len(),
        bytes.subrange(at, at + 4 + P::wire(payload).len()) == u32_le(tag) + P::wire(payload),
    ensures
        u32::parse(bytes, at) == Ok::<(u32, int), WireError>((tag, at + 4)),
        P::parse(bytes, at + 4) == Ok::<(P::V, int), WireError>(
            (payload, at + 4 + P::wire(payload).len()),
        ),
{
    lemma_u32_le_round_trip(tag);
    lemma_split_subrange(bytes, at, u32_le(tag), P::wire(payload));
    u32::lemma_parse_wire(bytes, at, tag);
    P::lemma_parse_wire(bytes, at + 4, payload);
}

/// `core::str::from_utf8`: accepts exactly the byte strings that are valid
/// UTF-8, and yields the text that they encode.
#[verifier::external_body]
fn text_from_utf8(bytes: &[u8]) -> (text: Option<String>)
    ensures
        text is Some <==> valid_utf8(bytes@),
        text matches Some(decoded) ==> decoded@ == decode_utf8(bytes@),
{
    match core::str::from_utf8(bytes) {
        Ok(text) => Some(text.to_owned()),
        Err(_) => None,
    }
}

/// Appends `more` to `out`.
pub fn append_bytes(out: &mut Vec<u8>, more: &[u8])
    ensures
        final(out)@ == old(out)@ + more@,
{
    let mut i: usize = 0;
    while i < more.len()
        invariant
            i <= more@.len(),
            out@ == old(out)@ + more@.take(i as int),
        decreases more@.len() - i,
    {
        out.push(more[i]);
        i = i + 1;
        assert(out@ =~= old(out)@ + more@.take(i as int));
    }
    assert(more@.take(i as int) =~= more@);
}

impl Wire for u32 {
    open spec fn wire(value: u32) -> Seq<u8> {
        u32_le(value)
    }

    open spec fn fits(value: u32) -> bool {
        true
    }

    open spec fn parse(bytes: Seq<u8>, at: int) -> core::result::Result<(u32, int), WireError> {
        if at + 4 <= bytes.len() {
            Ok((u32_from_le(bytes.subrange(at, at + 4)), at + 4))
        } else {
            Err(WireError::UnexpectedEnd)
        }
    }

    proof fn lemma_parse_wire(bytes: Seq<u8>, at: int, value: u32) {
        lemma_u32_le_round_trip(value);
    }

    proof fn lemma_wire_parse(bytes: Seq<u8>, at: int) {
        if at + 4 <= bytes.len() {
            lemma_u32_from_le_round_trip(bytes.subrange(at, at + 4));
        }
    }

    fn write_to(&self, out: &mut Vec<u8>) -> (done: core::result::Result<(), WireError>) {
        let value = *self;
        out.push((value % 256) as u8);
        out.push(((value / 256) % 256) as u8);
        out.push(((value / 65536) % 256) as u8);
        out.push(((value / 16777216) % 256) as u8);
        assert(out@ =~= old(out)@ + u32_le(value));
        assert(self@ == value && Self::fits(value) && Self::wire(value) == u32_le(value));
        Ok(())
    }

    fn read_from(bytes: &[u8], at: usize) -> (read: core::result::Result<(u32, usize), WireError>) {
        if bytes.len() - at < 4 {
            return Err(WireError::UnexpectedEnd);
        }
        let b0 = bytes[at] as u32;
        let b1 = bytes[at + 1] as u32;
        let b2 = bytes[at + 2] as u32;
        let b3 = bytes[at + 3] as u32;
        Ok((b0 + b1 * 256 + b2 * 65536 + b3 * 16777216, at + 4))
    }
}


impl Wire for u64 {
    open spec fn wire(value: u64) -> Seq<u8> {
        u64_le(value)
    }

    open spec fn fits(value: u64) -> bool {
        true
    }

    open spec fn parse(bytes: Seq<u8>, at: int) -> core::result::Result<(u64, int), WireError> {
        if at + 8 <= bytes.len() {
            Ok((u64_from_le(bytes.subrange(at, at + 8)), at + 8))
        } else {
            Err(WireError::UnexpectedEnd)
        }
    }

    proof fn lemma_parse_wire(bytes: Seq<u8>, at: int, value: u64) {
        lemma_u64_le_round_trip(value);
    }

    proof fn lemma_wire_parse(bytes: Seq<u8>, at: int) {
        if at + 8 <= bytes.len() {
            lemma_u64_from_le_round_trip(bytes.subrange(at, at + 8));
        }
    }

    fn write_to(&self, out: &mut Vec<u8>) -> (done: core::result::Result<(), WireError>) {
        let value = *self;
        let low = (value % 0x1_0000_0000) as u32;
        let high = (value / 0x1_0000_0000) as u32;
        let _ = low.write_to(out);
        let _ = high.write_to(out);
        assert(out@ =~= old(out)@ + u64_le(value));
        Ok(())
    }

    fn read_from(bytes: &[u8], at: usize) -> (read: core::result::Result<(u64, usize), WireError>) {
        if bytes.len() - at < 8 {
            return Err(WireError::UnexpectedEnd);
        }
        let low = match u32::read_from(bytes, at) {
            Ok((low, _)) => low,
            Err(error) => return Err(error),
        };
        let high = match u32::read_from(bytes, at + 4) {
            Ok((high, _)) => high,
            Err(error) => return Err(error),
        };
        proof {
            let whole = bytes@.subrange(at as int, at + 8);
            assert(whole.subrange(0, 4) =~= bytes@.subrange(at as int, at + 4));
            assert(whole.subrange(4, 8) =~= bytes@.subrange(at + 4, at + 8));
        }
        Ok((low as u64 + (high as u64) * 0x1_0000_0000, at + 8))
    }
}

impl Wire for i32 {
    open spec fn wire(value: i32) -> Seq<u8> {
        u32_le(i32_bits(value))
    }

    open spec fn fits(value: i32) -> bool {
        true
    }

    open spec fn parse(bytes: Seq<u8>, at: int) -> core::result::Result<(i32, int), WireError> {
        match u32::parse(bytes, at) {
            Ok((bits, next)) => Ok((i32_from_bits(bits), next)),
            Err(error) => Err(error),
        }
    }

    proof fn lemma_parse_wire(bytes: Seq<u8>, at: int, value: i32) {
        u32::lemma_parse_wire(bytes, at, i32_bits(value));
    }

    proof fn lemma_wire_parse(bytes: Seq<u8>, at: int) {
        u32::lemma_wire_parse(bytes, at);
    }

    fn write_to(&self, out: &mut Vec<u8>) -> (done: core::result::Result<(), WireError>) {
        let value = *self;
        let bits: u32 = if value >= 0 {
            value as u32
        } else {
            (value as i64 + 0x1_0000_0000) as u32
        };
        bits.write_to(out)
    }

    fn read_from(bytes: &[u8], at: usize) -> (read: core::result::Result<(i32, usize), WireError>) {
        match u32::read_from(bytes, at) {
            Ok((bits, next)) => {
                let value: i32 = if bits < 0x8000_0000 {
                    bits as i32
                } else {
                    (bits as i64 - 0x1_0000_0000) as i32
                };
                Ok((value, next))
            },
            Err(error) => Err(error),
        }
    }
}

impl Wire for String {
    open spec fn wire(value: Seq<char>) -> Seq<u8> {
        u32_le(encode_utf8(value).len() as u32) + encode_utf8(value)
    }

    open spec fn fits(value: Seq<char>) -> bool {
        encode_utf8(value).len() <= u32::MAX
    }

    open spec fn parse(bytes: Seq<u8>, at: int) -> core::result::Result<(Seq<char>, int), WireError> {
        match u32::parse(bytes, at) {
            Ok((length, start)) => {
                if start + length > bytes.len() {
                    Err(WireError::UnexpectedEnd)
                } else if !valid_utf8(bytes.subrange(start, start + length)) {
                    Err(WireError::InvalidUtf8)
                } else {
                    Ok((decode_utf8(bytes.subrange(start, start + length)), start + length))
                }
            },
            Err(error) => Err(error),
        }
    }

    proof fn lemma_parse_wire(bytes: Seq<u8>, at: int, value: Seq<char>) {
        let text = encode_utf8(value);
        let prefix = u32_le(text.len() as u32);
        lemma_split_subrange(bytes, at, prefix, text);
        u32::lemma_parse_wire(bytes, at, text.len() as u32);
        encode_utf8_valid_utf8(value);
        encode_utf8_decode_utf8(value);
    }

    proof fn lemma_wire_parse(bytes: Seq<u8>, at: int) {
        u32::lemma_wire_parse(bytes, at);
        if let Ok((value, next)) = Self::parse(bytes, at) {
            let text = bytes.subrange(at + 4, next);
            decode_utf8_encode_utf8(text);
            lemma_join_subrange(bytes, at, at + 4, next);
        }
    }

    fn write_to(&self, out: &mut Vec<u8>) -> (done: core::result::Result<(), WireError>) {
        let text = self.as_str().as_bytes();
        if text.len() > u32::MAX as usize {
            return Err(WireError::TooLong);
        }
        let _ = (text.len() as u32).write_to(out);
        append_bytes(out, text);
        assert(out@ =~= old(out)@ + Self::wire(self@));
        Ok(())
    }

    fn read_from(bytes: &[u8], at: usize) -> (read: core::result::Result<
        (String, usize),
        WireError,
    >) {
        let (length, start) = match u32::read_from(bytes, at) {
            Ok(read) => read,
            Err(error) => return Err(error),
        };
        if bytes.len() - start < length as usize {
            return Err(WireError::UnexpectedEnd);
        }
        let end = start + length as usize;
        match text_from_utf8(vstd::slice::slice_subrange(bytes, start, end)) {
            Some(text) => Ok((text, end)),
            None => Err(WireError::InvalidUtf8),
        }
    }
}

impl Wire for crate::id::NetworkId {
    open spec fn wire(value: u64) -> Seq<u8> {
        u64_le(value)
    }

    open spec fn fits(value: u64) -> bool {
        true
    }

    open spec fn parse(bytes: Seq<u8>, at: int) -> core::result::Result<(u64, int), WireError> {
        u64::parse(bytes, at)
    }

    proof fn lemma_parse_wire(bytes: Seq<u8>, at: int, value: u64) {
        u64::lemma_parse_wire(bytes, at, value);
    }

    proof fn lemma_wire_parse(bytes: Seq<u8>, at: int) {
        u64::lemma_wire_parse(bytes, at);
    }

    fn write_to(&self, out: &mut Vec<u8>) -> (done: core::result::Result<(), WireError>) {
        self.0.write_to(out)
    }

    fn read_from(bytes: &[u8], at: usize) -> (read: core::result::Result<
        (crate::id::NetworkId, usize),
        WireError,
    >) {
        match u64::read_from(bytes, at) {
            Ok((value, next)) => Ok((crate::id::NetworkId(value), next)),
            Err(error) => Err(error),
        }
    }
}

} // verus!
