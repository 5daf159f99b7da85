//! 128-bit identifiers with a big-endian in-memory form.

use vstd::prelude::*;
use vstd::string::StringSliceAdditionalSpecFns;
use vstd::string::StringExecFns;
use crate::sha1::{sha1, Sha1NonSecret};
use crate::bytes::{
    hex_digit, lemma_u16_big, lemma_u32_big, lemma_u64_big, u16_bytes, u32_bytes, u64_bytes,
    ByteOrder,
};

verus! {

/// A GUID, held as sixteen bytes in RFC 4122 (big-endian) order.
#[derive(Clone, Copy, Debug, PartialEq, Eq, Hash, PartialOrd, Ord)]
pub struct Guid(pub [u8; 16]);

impl View for Guid {
    type V = Seq<u8>;

    open spec fn view(&self) -> Seq<u8> {
        self.0@
    }
}

/// The sixteen bytes of a GUID with the first three fields byte-swapped:
/// big-endian to little-endian, or back. The last eight bytes stay.
pub open spec fn swap_fields(s: Seq<u8>) -> Seq<u8> {
    seq![
        s[3], s[2], s[1], s[0], s[5], s[4], s[7], s[6],
        s[8], s[9], s[10], s[11], s[12], s[13], s[14], s[15],
    ]
}

/// The big-endian bytes of a 128-bit value.
pub open spec fn u128_be(x: u128) -> Seq<u8> {
    u64_bytes(ByteOrder::Big, (x >> 64) as u64) + u64_bytes(
        ByteOrder::Big,
        (x & 0xffff_ffff_ffff_ffff) as u64,
    )
}

/// The 16-bit value whose big-endian bytes are `b0`, `b1`.
pub open spec fn be_u16(b0: u8, b1: u8) -> u16 {
    ((b0 as u16) << 8) | (b1 as u16)
}

/// The 32-bit value whose big-endian bytes are `b0` to `b3`.
pub open spec fn be_u32(b0: u8, b1: u8, b2: u8, b3: u8) -> u32 {
    ((b0 as u32) << 24) | ((b1 as u32) << 16) | ((b2 as u32) << 8) | (b3 as u32)
}

/// The 64-bit value whose big-endian bytes are the eight bytes of `s` from `at`.
pub open spec fn be_u64(s: Seq<u8>, at: int) -> u64 {
    ((s[at] as u64) << 56) | ((s[at + 1] as u64) << 48) | ((s[at + 2] as u64) << 40) | ((s[at
        + 3] as u64) << 32) | ((s[at + 4] as u64) << 24) | ((s[at + 5] as u64) << 16) | ((s[at
        + 6] as u64) << 8) | (s[at + 7] as u64)
}

/// The 128-bit value whose big-endian bytes are the sixteen bytes of `s`.
pub open spec fn be_u128(s: Seq<u8>) -> u128 {
    ((be_u64(s, 0) as u128) << 64) | (be_u64(s, 8) as u128)
}

/// The bytes of a GUID given by its four fields.
pub open spec fn fields_bytes(data1: u32, data2: u16, data3: u16, data4: Seq<u8>) -> Seq<u8> {
    u32_bytes(ByteOrder::Big, data1) + u16_bytes(ByteOrder::Big, data2) + u16_bytes(
        ByteOrder::Big,
        data3,
    ) + data4
}

impl Guid {
    /// The all-zero GUID.
    pub fn zero() -> (guid: Guid)
        ensures
            guid@ == Seq::new(16, |i: int| 0u8),
    {
        let guid = Guid([0u8; 16]);
        assert(guid@ =~= Seq::new(16, |i: int| 0u8));
        guid
    }

    /// Creates a GUID from its four fields.
    pub fn from_fields(data1: u32, data2: u16, data3: u16, data4: [u8; 8]) -> (guid: Guid)
        ensures
            guid@ == fields_bytes(data1, data2, data3, data4@),
    {
        proof {
            lemma_u32_big(data1);
            lemma_u16_big(data2);
            lemma_u16_big(data3);
        }
        let guid = Guid(
            [
                (data1 >> 24) as u8,
                ((data1 >> 16) & 0xff) as u8,
                ((data1 >> 8) & 0xff) as u8,
                (data1 & 0xff) as u8,
                (data2 >> 8) as u8,
                (data2 & 0xff) as u8,
                (data3 >> 8) as u8,
                (data3 & 0xff) as u8,
                data4[0],
                data4[1],
                data4[2],
                data4[3],
                data4[4],
                data4[5],
                data4[6],
                data4[7],
            ],
        );
        assert(guid@ =~= fields_bytes(data1, data2, data3, data4@));
        guid
    }

    /// Creates a GUID from bytes in RFC (big-endian) order.
    pub fn from_bytes_be(bytes_be: &[u8; 16]) -> (guid: Guid)
        ensures
            guid@ == bytes_be@,
    {
        Guid(*bytes_be)
    }

    /// Creates a GUID from bytes in little-endian order.
    pub fn from_bytes_le(bytes_le: &[u8; 16]) -> (guid: Guid)
        ensures
            guid@ == swap_fields(bytes_le@),
    {
        let b = bytes_le;
        let guid = Guid(
            [
                b[3], b[2], b[1], b[0], b[5], b[4], b[7], b[6],
                b[8], b[9], b[10], b[11], b[12], b[13], b[14], b[15],
            ],
        );
        assert(guid@ =~= swap_fields(bytes_le@));
        guid
    }

    /// Creates a GUID from a 128-bit value, most significant byte first.
    pub fn from_u128(value: &u128) -> (guid: Guid)
        ensures
            guid@ == u128_be(*value),
    {
        let x = *value;
        let hi = (x >> 64) as u64;
        let lo = (x & 0xffff_ffff_ffff_ffff) as u64;
        let mut bytes: Vec<u8> = Vec::new();
        crate::bytes::push_u64(&mut bytes, ByteOrder::Big, hi);
        crate::bytes::push_u64(&mut bytes, ByteOrder::Big, lo);
        let mut out = [0u8; 16];
        let mut i: usize = 0;
        while i < 16
            invariant
                i <= 16,
                bytes@.len() == 16,
                forall|j: int| 0 <= j < i ==> out@[j] == bytes@[j],
            decreases 16 - i,
        {
            out[i] = bytes[i];
            i += 1;
        }
        assert(out@ =~= u128_be(x));
        Guid(out)
    }

    /// The four fields of the GUID.
    pub fn to_fields(&self) -> (fields: (u32, u16, u16, [u8; 8]))
        ensures
            fields.0 == be_u32(self@[0], self@[1], self@[2], self@[3]),
            fields.1 == be_u16(self@[4], self@[5]),
            fields.2 == be_u16(self@[6], self@[7]),
            fields.3@ == self@.subrange(8, 16),
    {
        let b = &self.0;
        let data4 = [b[8], b[9], b[10], b[11], b[12], b[13], b[14], b[15]];
        assert(data4@ =~= self@.subrange(8, 16));
        (
            ((b[0] as u32) << 24) | ((b[1] as u32) << 16) | ((b[2] as u32) << 8) | (b[3] as u32),
            ((b[4] as u16) << 8) | (b[5] as u16),
            ((b[6] as u16) << 8) | (b[7] as u16),
            data4,
        )
    }

    /// The bytes as held in memory: RFC order.
    pub fn as_bytes_raw(&self) -> (bytes: &[u8; 16])
        ensures
            bytes@ == self@,
    {
        &self.0
    }

    /// The bytes in RFC (big-endian) order.
    pub fn to_bytes_be(&self) -> (bytes: [u8; 16])
        ensures
            bytes@ == self@,
    {
        self.0
    }

    /// The bytes in little-endian order.
    pub fn to_bytes_le(&self) -> (bytes: [u8; 16])
        ensures
            bytes@ == swap_fields(self@),
    {
        let b = &self.0;
        let bytes = [
            b[3], b[2], b[1], b[0], b[5], b[4], b[7], b[6],
            b[8], b[9], b[10], b[11], b[12], b[13], b[14], b[15],
        ];
        assert(bytes@ =~= swap_fields(self@));
        bytes
    }

    /// The GUID as a 128-bit value, first byte most significant.
    pub fn to_u128(&self) -> (value: u128)
        ensures
            value == be_u128(self@),
    {
        let b = &self.0;
        let hi: u64 = ((b[0] as u64) << 56) | ((b[1] as u64) << 48) | ((b[2] as u64) << 40) | ((
        b[3] as u64) << 32) | ((b[4] as u64) << 24) | ((b[5] as u64) << 16) | ((b[6] as u64) << 8)
            | (b[7] as u64);
        let lo: u64 = ((b[8] as u64) << 56) | ((b[9] as u64) << 48) | ((b[10] as u64) << 40) | ((
        b[11] as u64) << 32) | ((b[12] as u64) << 24) | ((b[13] as u64) << 16) | ((b[14] as u64)
            << 8) | (b[15] as u64);
        ((hi as u128) << 64) | (lo as u128)
    }
}

/// The value of a hex digit of either case, or `None` for any other byte.
pub open spec fn hex_value(ch: u8) -> Option<u8> {
    if 48 <= ch <= 57 {
        Some((ch - 48) as u8)
    } else if 97 <= ch <= 102 {
        Some((ch - 87) as u8)
    } else if 65 <= ch <= 70 {
        Some((ch - 55) as u8)
    } else {
        None
    }
}

/// The bytes of `s` as lower-case hex digits, two for each byte, high
/// nibble first.
pub open spec fn hex_of(s: Seq<u8>) -> Seq<u8> {
    Seq::new(
        2 * s.len(),
        |i: int|
            if i % 2 == 0 {
                hex_digit(s[i / 2] >> 4)
            } else {
                hex_digit(s[i / 2] & 0xf)
            },
    )
}

/// The 36-byte text of a GUID: `xxxxxxxx-xxxx-xxxx-xxxx-xxxxxxxxxxxx`.
pub open spec fn guid_text(g: Seq<u8>) -> Seq<u8> {
    hex_of(g.subrange(0, 4)) + seq![45u8] + hex_of(g.subrange(4, 6)) + seq![45u8] + hex_of(
        g.subrange(6, 8),
    ) + seq![45u8] + hex_of(g.subrange(8, 10)) + seq![45u8] + hex_of(g.subrange(10, 16))
}

/// A text without its outer braces, if it has both.
pub open spec fn strip_braces(v: Seq<u8>) -> Seq<u8> {
    if v.len() >= 2 && v[0] == 123 && v[v.len() - 1] == 125 {
        v.subrange(1, v.len() - 1)
    } else {
        v
    }
}

/// True for a 36-byte text with a dash in each of the four places.
pub open spec fn is_dashed(input: Seq<u8>) -> bool {
    input.len() == 36 && input[8] == 45 && input[13] == 45 && input[18] == 45 && input[23] == 45
}

/// Where the two digits of byte `k` start in a text.
pub open spec fn digit_pos(k: int, dashed: bool) -> int {
    if dashed {
        2 * k + (if k >= 4 { 1int } else { 0 }) + (if k >= 6 { 1int } else { 0 }) + (if k >= 8 {
            1int
        } else {
            0
        }) + (if k >= 10 { 1int } else { 0 })
    } else {
        2 * k
    }
}

/// Byte `k` of the GUID that a text spells, if both of its digits are hex digits.
pub open spec fn parsed_byte(input: Seq<u8>, k: int, dashed: bool) -> Option<u8> {
    let at = digit_pos(k, dashed);
    match (hex_value(input[at]), hex_value(input[at + 1])) {
        (Some(high), Some(low)) => Some((high * 16 + low) as u8),
        _ => None,
    }
}

/// The GUID that a text spells. The text is 32 hex digits, or 36 bytes with
/// dashes after digits 8, 12, 16 and 20, in both cases with or without a
/// pair of braces around it. Anything else spells nothing.
pub open spec fn parse_guid(v: Seq<u8>) -> Option<Seq<u8>> {
    let input = strip_braces(v);
    let dashed = is_dashed(input);
    if v.len() < 32 {
        None
    } else if !dashed && input.len() != 32 {
        None
    } else if forall|k: int| 0 <= k < 16 ==> (#[trigger] parsed_byte(input, k, dashed)) is Some {
        Some(Seq::new(16, |k: int| parsed_byte(input, k, dashed).unwrap()))
    } else {
        None
    }
}

fn hex_char(n: u8) -> (ch: u8)
    requires
        n < 16,
    ensures
        ch == hex_digit(n),
{
    if n < 10 {
        48 + n
    } else {
        87 + n
    }
}

fn high_hex(b: u8) -> (ch: u8)
    ensures
        ch == hex_digit(b >> 4),
{
    assert(b >> 4 < 16) by (bit_vector);
    hex_char(b >> 4)
}

fn low_hex(b: u8) -> (ch: u8)
    ensures
        ch == hex_digit(b & 0xf),
{
    assert(b & 0xf < 16) by (bit_vector);
    hex_char(b & 0xf)
}

/// The cursor of the text parser.
struct GuidParseState<'a> {
    input: &'a [u8],
    pos: usize,
    dash: usize,
    highbits: u32,
}

impl<'a> GuidParseState<'a> {
    /// True while every digit read so far was a hex digit.
    spec fn clean(&self) -> bool {
        self.highbits & 0xFFFFFF00 == 0
    }

    /// The value of a hex digit, or 256 for any other byte.
    fn hex_to_u4(ch: u8) -> (hexval: u32)
        ensures
            match hex_value(ch) {
                Some(v) => hexval == v,
                None => hexval == 256,
            },
    {
        let index = ch.wrapping_sub(48);
        if index < 10 {
            index as u32
        } else {
            let folded = ch | 32;
            assert((97 <= folded <= 102) <==> (65 <= ch <= 70 || 97 <= ch <= 102)) by (bit_vector)
                requires
                    folded == ch | 32,
            ;
            assert(65 <= ch <= 70 ==> folded == ch + 32) by (bit_vector)
                requires
                    folded == ch | 32,
            ;
            assert(97 <= ch <= 102 ==> folded == ch) by (bit_vector)
                requires
                    folded == ch | 32,
            ;
            let index = folded.wrapping_sub(97);
            if index < 6 {
                (index + 10) as u32
            } else {
                256
            }
        }
    }

    /// Reads the two digits at the cursor as one byte.
    fn next(&mut self) -> (val: u8)
        requires
            old(self).pos + 2 <= old(self).input@.len(),
        ensures
            final(self).input == old(self).input,
            final(self).dash == old(self).dash,
            final(self).pos == old(self).pos + 2,
            final(self).clean() <==> old(self).clean() && hex_value(
                old(self).input@[old(self).pos as int],
            ) is Some && hex_value(old(self).input@[old(self).pos + 1]) is Some,
            hex_value(old(self).input@[old(self).pos as int]) is Some && hex_value(
                old(self).input@[old(self).pos + 1],
            ) is Some ==> val == hex_value(old(self).input@[old(self).pos as int]).unwrap() * 16
                + hex_value(old(self).input@[old(self).pos + 1]).unwrap(),
    {
        let val1 = Self::hex_to_u4(self.input[self.pos]);
        let val2 = Self::hex_to_u4(self.input[self.pos + 1]);
        self.pos += 2;
        let val = (val1 << 4) | val2;
        let old_bits = self.highbits;
        self.highbits |= val;
        let new_bits = self.highbits;
        assert((new_bits & 0xFFFFFF00 == 0) <==> (old_bits & 0xFFFFFF00 == 0) && val1 < 16 && val2
            < 16) by (bit_vector)
            requires
                new_bits == old_bits | val,
                val == (val1 << 4) | val2,
                val1 < 16 || val1 == 256,
                val2 < 16 || val2 == 256,
        ;
        assert(val1 < 16 && val2 < 16 ==> val == val1 * 16 + val2) by (bit_vector)
            requires
                val == (val1 << 4) | val2,
        ;
        #[verifier::truncate]
        (val as u8)
    }

    /// Steps over a dash, if the text has dashes, and reads the next byte.
    fn next_dash(&mut self) -> (val: u8)
        requires
            old(self).dash <= 1,
            old(self).pos + old(self).dash + 2 <= old(self).input@.len(),
        ensures
            final(self).input == old(self).input,
            final(self).dash == old(self).dash,
            final(self).pos == old(self).pos + old(self).dash + 2,
            final(self).clean() <==> old(self).clean() && hex_value(
                old(self).input@[old(self).pos + old(self).dash],
            ) is Some && hex_value(old(self).input@[old(self).pos + old(self).dash + 1]) is Some,
            hex_value(old(self).input@[old(self).pos + old(self).dash]) is Some && hex_value(
                old(self).input@[old(self).pos + old(self).dash + 1],
            ) is Some ==> val == hex_value(
                old(self).input@[old(self).pos + old(self).dash],
            ).unwrap() * 16 + hex_value(
                old(self).input@[old(self).pos + old(self).dash + 1],
            ).unwrap(),
    {
        let len = self.input.len();
        assert(self.pos + self.dash + 2 <= len);
        self.pos += self.dash;
        self.next()
    }
}

impl Guid {
    /// The GUID as text, e.g. `a3a2a1a0-b1b0-c1c0-d7d6-d5d4d3d2d1d0`.
    pub fn to_utf8_bytes(&self) -> (text: [u8; 36])
        ensures
            text@ == guid_text(self@),
    {
        let b = &self.0;
        let text = [
            high_hex(b[0]), low_hex(b[0]), high_hex(b[1]), low_hex(b[1]),
            high_hex(b[2]), low_hex(b[2]), high_hex(b[3]), low_hex(b[3]),
            45u8,
            high_hex(b[4]), low_hex(b[4]), high_hex(b[5]), low_hex(b[5]),
            45u8,
            high_hex(b[6]), low_hex(b[6]), high_hex(b[7]), low_hex(b[7]),
            45u8,
            high_hex(b[8]), low_hex(b[8]), high_hex(b[9]), low_hex(b[9]),
            45u8,
            high_hex(b[10]), low_hex(b[10]), high_hex(b[11]), low_hex(b[11]),
            high_hex(b[12]), low_hex(b[12]), high_hex(b[13]), low_hex(b[13]),
            high_hex(b[14]), low_hex(b[14]), high_hex(b[15]), low_hex(b[15]),
        ];
        assert(text@ =~= guid_text(self@));
        text
    }

    /// Reads a GUID from text with optional braces and optional dashes.
    pub fn try_parse(value: &str) -> (guid: Option<Guid>)
        ensures
            match guid {
                Some(g) => parse_guid(value.spec_bytes()) == Some(g@),
                None => parse_guid(value.spec_bytes()) is None,
            },
    {
        Self::try_parse_ascii(value.as_bytes())
    }

    /// Reads a GUID from text with optional braces and optional dashes.
    pub fn try_parse_ascii(value: &[u8]) -> (guid: Option<Guid>)
        ensures
            match guid {
                Some(g) => parse_guid(value@) == Some(g@),
                None => parse_guid(value@) is None,
            },
    {
        if value.len() < 32 {
            return None;
        }
        let input: &[u8] = if value[0] != 123 || value[value.len() - 1] != 125 {
            value
        } else {
            vstd::slice::slice_subrange(value, 1, value.len() - 1)
        };
        assert(input@ == strip_braces(value@));
        let mut state = GuidParseState { input, pos: 0, dash: 0, highbits: 0 };
        if input.len() == 36 && input[8] == 45 && input[13] == 45 && input[18] == 45 && input[23]
            == 45 {
            state.dash = 1;
        } else if input.len() != 32 {
            return None;
        }
        let ghost dashed = is_dashed(input@);
        assert(0u32 & 0xFFFFFF00 == 0) by (bit_vector);

        let mut b = [0u8; 16];
        let mut k: usize = 0;
        while k < 16
            invariant
                k <= 16,
                state.input == input,
                dashed == is_dashed(input@),
                state.dash == (if dashed { 1usize } else { 0usize }),
                input@.len() == (if dashed { 36nat } else { 32nat }),
                state.pos == (if k == 0 { 0 } else { digit_pos(k - 1, dashed) + 2 }),
                state.clean() <==> forall|j: int|
                    0 <= j < k ==> (#[trigger] parsed_byte(input@, j, dashed)) is Some,
                forall|j: int|
                    0 <= j < k && parsed_byte(input@, j, dashed) is Some ==> b@[j] == (
                    #[trigger] parsed_byte(input@, j, dashed)).unwrap(),
            decreases 16 - k,
        {
            let ghost was_clean = state.clean();
            let ghost at = digit_pos(k as int, dashed);
            let val = if k == 4 || k == 6 || k == 8 || k == 10 {
                state.next_dash()
            } else {
                state.next()
            };
            b[k] = val;
            assert(state.pos == at + 2);
            assert(parsed_byte(input@, k as int, dashed) is Some <==> hex_value(input@[at]) is Some
                && hex_value(input@[at + 1]) is Some);
            assert(state.clean() <==> was_clean && parsed_byte(input@, k as int, dashed) is Some);
            assert(parsed_byte(input@, k as int, dashed) is Some ==> val == parsed_byte(
                input@,
                k as int,
                dashed,
            ).unwrap());
            k += 1;
        }

        if (state.highbits & 0xFFFFFF00) != 0 {
            return None;
        }
        let guid = Self::from_bytes_be(&b);
        assert(guid@ =~= Seq::new(16, |j: int| parsed_byte(input@, j, dashed).unwrap()));
        Some(guid)
    }
}

/// The upper-case mapping of a character outside ASCII, as the Unicode
/// tables of the standard library give it.
pub uninterp spec fn unicode_uppercase(c: char) -> Seq<char>;

/// The upper-case mapping of a character: `a` to `z` go to `A` to `Z`, the
/// rest of ASCII stays, and other characters go by the Unicode tables.
pub open spec fn uppercase(c: char) -> Seq<char> {
    if 97 <= c as u32 <= 122 {
        seq![((c as u32 - 32) as u8) as char]
    } else if (c as u32) < 128 {
        seq![c]
    } else {
        unicode_uppercase(c)
    }
}

/// The UTF-16 code units of a character: one unit up to U+FFFF, a
/// surrogate pair above.
pub open spec fn utf16_units(c: char) -> Seq<u16> {
    let v = c as u32;
    if v < 0x10000 {
        seq![v as u16]
    } else {
        seq![
            (0xD800 + ((v - 0x10000) as u32 >> 10)) as u16,
            (0xDC00 + ((v - 0x10000) as u32 & 0x3FF)) as u16,
        ]
    }
}

/// The UTF-16 code units of a character as bytes, each unit big-endian.
pub open spec fn utf16be_char(c: char) -> Seq<u8> {
    let units = utf16_units(c);
    if units.len() == 1 {
        u16_bytes(ByteOrder::Big, units[0])
    } else {
        u16_bytes(ByteOrder::Big, units[0]) + u16_bytes(ByteOrder::Big, units[1])
    }
}

/// The big-endian UTF-16 bytes of a sequence of characters.
pub open spec fn utf16be(chars: Seq<char>) -> Seq<u8>
    decreases chars.len(),
{
    if chars.len() == 0 {
        Seq::empty()
    } else {
        utf16be(chars.drop_last()) + utf16be_char(chars.last())
    }
}

/// The bytes that a name contributes to its hash: each character
/// upper-cased, then encoded as big-endian UTF-16.
pub open spec fn name_bytes(name: Seq<char>) -> Seq<u8>
    decreases name.len(),
{
    if name.len() == 0 {
        Seq::empty()
    } else {
        name_bytes(name.drop_last()) + utf16be(uppercase(name.last()))
    }
}

/// The namespace that every name is hashed under.
pub open spec fn name_namespace() -> Seq<u8> {
    seq![
        0x48u8, 0x2C, 0x2D, 0xB2, 0xC3, 0x90, 0x47, 0xC8, 0x87, 0xF8, 0x1A, 0x15, 0xBF, 0xC1,
        0x30, 0xFB,
    ]
}

/// The GUID of a name: the first sixteen bytes of the SHA-1 of the
/// namespace and the name's bytes, with the high nibble of byte 7 set to 5,
/// read as little-endian.
pub open spec fn name_guid(name: Seq<char>) -> Seq<u8> {
    let h = sha1(name_namespace() + name_bytes(name));
    swap_fields(h.subrange(0, 16).update(7, (h[7] & 0x0F) | 0x50))
}

/// Calls `char::to_uppercase` and collects what it yields. For ASCII the
/// result is the one character that `uppercase` states; for every other
/// character it is whatever the standard library's Unicode tables map it
/// to, which is given a name and not spelled out.
#[verifier::external_body]
fn char_to_uppercase(c: char) -> (upper: Vec<char>)
    ensures
        upper@ == uppercase(c),
        c as u32 >= 128 ==> upper@ == unicode_uppercase(c),
{
    c.to_uppercase().collect()
}

/// Appends the big-endian UTF-16 bytes of `c` to the hasher.
fn write_utf16be(hasher: &mut Sha1NonSecret, c: char)
    requires
        old(hasher).wf(),
    ensures
        final(hasher).wf(),
        final(hasher)@ == old(hasher)@ + utf16be_char(c),
{
    let v = c as u32;
    let mut bytes: Vec<u8> = Vec::new();
    if v < 0x10000 {
        crate::bytes::push_u16(&mut bytes, ByteOrder::Big, v as u16);
    } else {
        let w = v - 0x10000;
        assert(w >> 10 <= 0x3FF && w & 0x3FF <= 0x3FF) by (bit_vector)
            requires
                w < 0x100000,
        ;
        crate::bytes::push_u16(&mut bytes, ByteOrder::Big, (0xD800 + (w >> 10)) as u16);
        crate::bytes::push_u16(&mut bytes, ByteOrder::Big, (0xDC00 + (w & 0x3FF)) as u16);
    }
    assert(bytes@ =~= utf16be_char(c));
    hasher.write(bytes.as_slice());
}

impl Guid {
    /// The GUID that a provider name hashes to. The hash takes no notice of
    /// case: the name is upper-cased first.
    pub fn from_name(event_provider_name: &str) -> (guid: Guid)
        ensures
            guid@ == name_guid(event_provider_name@),
    {
        let mut hasher = Sha1NonSecret::new();
        let namespace: [u8; 16] = [
            0x48, 0x2C, 0x2D, 0xB2, 0xC3, 0x90, 0x47, 0xC8, 0x87, 0xF8, 0x1A, 0x15, 0xBF, 0xC1,
            0x30, 0xFB,
        ];
        hasher.write(namespace.as_slice());
        assert(hasher@ =~= name_namespace());
        let ghost name = event_provider_name@;

        for ch in it: event_provider_name.chars()
            invariant
                hasher.wf(),
                it.seq() == name,
                hasher@ == name_namespace() + name_bytes(name.subrange(0, it.index() as int)),
        {
            let upper = char_to_uppercase(ch);
            let ghost before = hasher@;
            let mut i: usize = 0;
            while i < upper.len()
                invariant
                    i <= upper.len(),
                    hasher.wf(),
                    hasher@ == before + utf16be(upper@.subrange(0, i as int)),
                decreases upper.len() - i,
            {
                write_utf16be(&mut hasher, upper[i]);
                assert(upper@.subrange(0, i + 1).drop_last() =~= upper@.subrange(0, i as int));
                i += 1;
            }
            proof {
                assert(upper@.subrange(0, i as int) =~= upper@);
                let done = name.subrange(0, it.index() as int + 1);
                assert(done.drop_last() =~= name.subrange(0, it.index() as int));
                assert(done.last() == ch);
            }
        }
        assert(name.subrange(0, name.len() as int) =~= name);

        let h = hasher.finish();
        let mut v = [0u8; 16];
        let mut i: usize = 0;
        while i < 16
            invariant
                i <= 16,
                forall|j: int| 0 <= j < i ==> v@[j] == h@[j],
            decreases 16 - i,
        {
            v[i] = h[i];
            i += 1;
        }
        v[7] = (v[7] & 0x0F) | 0x50;
        assert(v@ =~= h@.subrange(0, 16).update(7, (h@[7] & 0x0F) | 0x50));
        Guid::from_bytes_le(&v)
    }
}

/// True for the bytes that the text of a GUID is made of: the lower-case
/// hex digits and the dash.
pub open spec fn is_text_byte(b: u8) -> bool {
    (48 <= b <= 57) || (97 <= b <= 102) || b == 45
}

/// The characters that ASCII bytes stand for.
pub open spec fn ascii_chars(bytes: Seq<u8>) -> Seq<char> {
    Seq::new(bytes.len(), |i: int| bytes[i] as char)
}

/// The one-character string for a byte of the text of a GUID.
fn text_str(b: u8) -> (s: &'static str)
    requires
        is_text_byte(b),
    ensures
        s@ == seq![b as char],
{
    match b {
        48 => {
            proof {
                reveal_strlit("0");
            }
            "0"
        },
        49 => {
            proof {
                reveal_strlit("1");
            }
            "1"
        },
        50 => {
            proof {
                reveal_strlit("2");
            }
            "2"
        },
        51 => {
            proof {
                reveal_strlit("3");
            }
            "3"
        },
        52 => {
            proof {
                reveal_strlit("4");
            }
            "4"
        },
        53 => {
            proof {
                reveal_strlit("5");
            }
            "5"
        },
        54 => {
            proof {
                reveal_strlit("6");
            }
            "6"
        },
        55 => {
            proof {
                reveal_strlit("7");
            }
            "7"
        },
        56 => {
            proof {
                reveal_strlit("8");
            }
            "8"
        },
        57 => {
            proof {
                reveal_strlit("9");
            }
            "9"
        },
        97 => {
            proof {
                reveal_strlit("a");
            }
            "a"
        },
        98 => {
            proof {
                reveal_strlit("b");
            }
            "b"
        },
        99 => {
            proof {
                reveal_strlit("c");
            }
            "c"
        },
        100 => {
            proof {
                reveal_strlit("d");
            }
            "d"
        },
        101 => {
            proof {
                reveal_strlit("e");
            }
            "e"
        },
        102 => {
            proof {
                reveal_strlit("f");
            }
            "f"
        },
        _ => {
            proof {
                reveal_strlit("-");
            }
            "-"
        },
    }
}

/// Every byte of the text of a GUID is a lower-case hex digit or a dash.
proof fn lemma_text_bytes_are_text(g: Seq<u8>, i: int)
    requires
        g.len() == 16,
        0 <= i < 36,
    ensures
        is_text_byte(guid_text(g)[i]),
{
    assert forall|b: u8| is_text_byte(hex_digit(b >> 4)) && is_text_byte(hex_digit(b & 0xf)) by {
        assert((b >> 4) < 16 && (b & 0xf) < 16) by (bit_vector);
    }
    let t = guid_text(g);
    if i < 8 {
        assert(t[i] == hex_of(g.subrange(0, 4))[i]);
    } else if i == 8 {
    } else if i < 13 {
        assert(t[i] == hex_of(g.subrange(4, 6))[i - 9]);
    } else if i == 13 {
    } else if i < 18 {
        assert(t[i] == hex_of(g.subrange(6, 8))[i - 14]);
    } else if i == 18 {
    } else if i < 23 {
        assert(t[i] == hex_of(g.subrange(8, 10))[i - 19]);
    } else if i == 23 {
    } else {
        assert(t[i] == hex_of(g.subrange(10, 16))[i - 24]);
    }
}

impl Guid {
    /// The GUID as a string, e.g. `a3a2a1a0-b1b0-c1c0-d7d6-d5d4d3d2d1d0`.
    pub fn to_text(&self) -> (text: String)
        ensures
            text@ == ascii_chars(guid_text(self@)),
    {
        let bytes = self.to_utf8_bytes();
        let mut text = String::new();
        let mut i: usize = 0;
        while i < 36
            invariant
                i <= 36,
                bytes@ == guid_text(self@),
                text@ == ascii_chars(bytes@.subrange(0, i as int)),
            decreases 36 - i,
        {
            proof {
                lemma_text_bytes_are_text(self@, i as int);
            }
            text.append(text_str(bytes[i]));
            assert(text@ =~= ascii_chars(bytes@.subrange(0, i + 1)));
            i += 1;
        }
        assert(bytes@.subrange(0, 36) =~= bytes@);
        text
    }
}

impl Default for Guid {
    fn default() -> (guid: Guid)
        ensures
            guid@ == Seq::new(16, |i: int| 0u8),
    {
        Guid::zero()
    }
}

/// Turning the fields around twice gives the bytes back.
pub proof fn lemma_swap_fields_involution(s: Seq<u8>)
    requires
        s.len() == 16,
    ensures
        swap_fields(swap_fields(s)) == s,
{
    assert(swap_fields(swap_fields(s)) =~= s);
}

/// A GUID is its sixteen bytes: two GUIDs with the same bytes are the same.
pub proof fn lemma_guid_is_its_bytes(g: Guid, h: Guid)
    requires
        g@ == h@,
    ensures
        g == h,
{
    assert(g.0@ =~= h.0@);
    assert(g.0 == h.0);
}

/// Byte round trips. The big-endian bytes of a GUID are its view, so the
/// GUID made of them is the same GUID; the little-endian bytes are the view
/// with its fields turned around, and the GUID made of them, which turns
/// them around once more, is the same GUID again.
pub proof fn lemma_bytes_roundtrip(g: Guid, from_be: Guid, from_le: Guid)
    requires
        from_be@ == g@,
        from_le@ == swap_fields(swap_fields(g@)),
    ensures
        from_be == g,
        from_le == g,
{
    lemma_swap_fields_involution(g@);
    lemma_guid_is_its_bytes(from_be, g);
    lemma_guid_is_its_bytes(from_le, g);
}

/// The fields of a GUID put together again give the GUID.
pub proof fn lemma_fields_roundtrip(s: Seq<u8>)
    requires
        s.len() == 16,
    ensures
        fields_bytes(
            be_u32(s[0], s[1], s[2], s[3]),
            be_u16(s[4], s[5]),
            be_u16(s[6], s[7]),
            s.subrange(8, 16),
        ) == s,
{
    let (b0, b1, b2, b3) = (s[0], s[1], s[2], s[3]);
    let d1 = be_u32(b0, b1, b2, b3);
    lemma_u32_big(d1);
    assert((d1 >> 24) as u8 == b0 && ((d1 >> 16) & 0xff) as u8 == b1 && ((d1 >> 8) & 0xff) as u8
        == b2 && (d1 & 0xff) as u8 == b3) by (bit_vector)
        requires
            d1 == ((b0 as u32) << 24) | ((b1 as u32) << 16) | ((b2 as u32) << 8) | (b3 as u32),
    ;
    let (c0, c1) = (s[4], s[5]);
    let d2 = be_u16(c0, c1);
    lemma_u16_big(d2);
    assert((d2 >> 8) as u8 == c0 && (d2 & 0xff) as u8 == c1) by (bit_vector)
        requires
            d2 == ((c0 as u16) << 8) | (c1 as u16),
    ;
    let (e0, e1) = (s[6], s[7]);
    let d3 = be_u16(e0, e1);
    lemma_u16_big(d3);
    assert((d3 >> 8) as u8 == e0 && (d3 & 0xff) as u8 == e1) by (bit_vector)
        requires
            d3 == ((e0 as u16) << 8) | (e1 as u16),
    ;
    assert(fields_bytes(d1, d2, d3, s.subrange(8, 16)) =~= s);
}

/// An ASCII character with `a` to `z` folded to `A` to `Z`, as a number.
pub open spec fn ascii_fold(c: char) -> u32 {
    if 97 <= c as u32 <= 122 {
        (c as u32 - 32) as u32
    } else {
        c as u32
    }
}

/// True when two names are ASCII and differ at most in the case of letters.
pub open spec fn same_ascii_ignoring_case(a: Seq<char>, b: Seq<char>) -> bool {
    &&& a.len() == b.len()
    &&& forall|i: int|
        0 <= i < a.len() ==> (a[i] as u32) < 128 && (b[i] as u32) < 128 && ascii_fold(a[i])
            == ascii_fold(b[i])
}

/// Two ASCII characters that differ at most in case have the same
/// upper-case mapping.
proof fn lemma_uppercase_ignores_case(x: char, y: char)
    requires
        (x as u32) < 128,
        (y as u32) < 128,
        ascii_fold(x) == ascii_fold(y),
    ensures
        uppercase(x) == uppercase(y),
{
    let ux = uppercase(x);
    let uy = uppercase(y);
    assert(ux.len() == 1 && uy.len() == 1);
    assert(ux[0] as u32 == ascii_fold(x));
    assert(uy[0] as u32 == ascii_fold(y));
    assert(ux[0] == uy[0]);
    assert(ux =~= uy);
}

/// Two ASCII names that differ at most in case contribute the same bytes.
proof fn lemma_name_bytes_ignore_case(a: Seq<char>, b: Seq<char>)
    requires
        same_ascii_ignoring_case(a, b),
    ensures
        name_bytes(a) == name_bytes(b),
    decreases a.len(),
{
    if a.len() > 0 {
        let i = a.len() - 1;
        assert(ascii_fold(a[i]) == ascii_fold(b[i]));
        lemma_uppercase_ignores_case(a.last(), b.last());
        assert(same_ascii_ignoring_case(a.drop_last(), b.drop_last())) by {
            assert forall|j: int| 0 <= j < a.drop_last().len() implies (a.drop_last()[j] as u32)
                < 128 && (b.drop_last()[j] as u32) < 128 && ascii_fold(a.drop_last()[j])
                == ascii_fold(b.drop_last()[j]) by {
                assert(a.drop_last()[j] == a[j]);
                assert(b.drop_last()[j] == b[j]);
            }
        }
        lemma_name_bytes_ignore_case(a.drop_last(), b.drop_last());
    }
}

/// The GUID of a name takes no notice of ASCII case: two ASCII names that
/// differ at most in the case of their letters have the same GUID.
pub proof fn lemma_name_guid_ignores_case(a: Seq<char>, b: Seq<char>)
    requires
        same_ascii_ignoring_case(a, b),
    ensures
        name_guid(a) == name_guid(b),
{
    lemma_name_bytes_ignore_case(a, b);
}

/// A byte's two hex digits read back give the byte.
proof fn lemma_hex_pair(b: u8)
    ensures
        hex_value(hex_digit(b >> 4)) == Some(b >> 4),
        hex_value(hex_digit(b & 0xf)) == Some(b & 0xf),
        (b >> 4) * 16 + (b & 0xf) == b,
        hex_digit(b >> 4) != 123,
        hex_digit(b >> 4) != 45,
{
    assert((b >> 4) < 16 && (b & 0xf) < 16 && (b >> 4) * 16 + (b & 0xf) == b) by (bit_vector);
}

/// In both texts of a GUID, with and without dashes, the digits of byte `k`
/// stand where `digit_pos` says and spell that byte.
proof fn lemma_text_digits(g: Seq<u8>, k: int)
    requires
        g.len() == 16,
        0 <= k < 16,
    ensures
        parsed_byte(guid_text(g), k, true) == Some(g[k]),
        parsed_byte(hex_of(g), k, false) == Some(g[k]),
{
    lemma_hex_pair(g[k]);
    let t = guid_text(g);
    let at = digit_pos(k, true);
    if k < 4 {
        assert(t[at] == hex_of(g.subrange(0, 4))[2 * k]);
        assert(t[at + 1] == hex_of(g.subrange(0, 4))[2 * k + 1]);
    } else if k < 6 {
        assert(t[at] == hex_of(g.subrange(4, 6))[2 * (k - 4)]);
        assert(t[at + 1] == hex_of(g.subrange(4, 6))[2 * (k - 4) + 1]);
    } else if k < 8 {
        assert(t[at] == hex_of(g.subrange(6, 8))[2 * (k - 6)]);
        assert(t[at + 1] == hex_of(g.subrange(6, 8))[2 * (k - 6) + 1]);
    } else if k < 10 {
        assert(t[at] == hex_of(g.subrange(8, 10))[2 * (k - 8)]);
        assert(t[at + 1] == hex_of(g.subrange(8, 10))[2 * (k - 8) + 1]);
    } else {
        assert(t[at] == hex_of(g.subrange(10, 16))[2 * (k - 10)]);
        assert(t[at + 1] == hex_of(g.subrange(10, 16))[2 * (k - 10) + 1]);
    }
    assert(t[at] == hex_digit(g[k] >> 4));
    assert(t[at + 1] == hex_digit(g[k] & 0xf));
    let p = hex_of(g);
    assert(p[2 * k] == hex_digit(g[k] >> 4));
    assert(p[2 * k + 1] == hex_digit(g[k] & 0xf));
}

/// The dashed text has 36 bytes with its dashes in place, the plain one
/// has 32, and neither starts with a brace.
proof fn lemma_text_shape(g: Seq<u8>)
    requires
        g.len() == 16,
    ensures
        guid_text(g).len() == 36,
        is_dashed(guid_text(g)),
        guid_text(g)[0] != 123,
        hex_of(g).len() == 32,
        hex_of(g)[0] != 123,
{
    let t = guid_text(g);
    lemma_hex_pair(g[0]);
    assert(t[0] == hex_of(g.subrange(0, 4))[0]);
}

/// Both texts of a GUID spell each of its bytes.
proof fn lemma_text_bytes(g: Seq<u8>)
    requires
        g.len() == 16,
    ensures
        forall|k: int| 0 <= k < 16 ==> (#[trigger] parsed_byte(guid_text(g), k, true)) is Some,
        forall|k: int| 0 <= k < 16 ==> (#[trigger] parsed_byte(hex_of(g), k, false)) is Some,
        Seq::new(16, |k: int| parsed_byte(guid_text(g), k, true).unwrap()) == g,
        Seq::new(16, |k: int| parsed_byte(hex_of(g), k, false).unwrap()) == g,
{
    let t = guid_text(g);
    let p = hex_of(g);
    assert forall|k: int| 0 <= k < 16 implies (#[trigger] parsed_byte(t, k, true)) == Some(
        g[k],
    ) by {
        lemma_text_digits(g, k);
    }
    assert forall|k: int| 0 <= k < 16 implies (#[trigger] parsed_byte(p, k, false)) == Some(
        g[k],
    ) by {
        lemma_text_digits(g, k);
    }
    let a = Seq::new(16, |k: int| parsed_byte(t, k, true).unwrap());
    assert forall|k: int| 0 <= k < 16 implies a[k] == g[k] by {
        assert(parsed_byte(t, k, true) == Some(g[k]));
    }
    assert(a =~= g);
    let b = Seq::new(16, |k: int| parsed_byte(p, k, false).unwrap());
    assert forall|k: int| 0 <= k < 16 implies b[k] == g[k] by {
        assert(parsed_byte(p, k, false) == Some(g[k]));
    }
    assert(b =~= g);
}

/// Text round trip: the text of a GUID spells that GUID, with or without
/// braces around it, and with or without its dashes.
pub proof fn lemma_text_roundtrip(g: Seq<u8>)
    requires
        g.len() == 16,
    ensures
        parse_guid(guid_text(g)) == Some(g),
        parse_guid(seq![123u8] + guid_text(g) + seq![125u8]) == Some(g),
        parse_guid(hex_of(g)) == Some(g),
        parse_guid(seq![123u8] + hex_of(g) + seq![125u8]) == Some(g),
{
    let t = guid_text(g);
    let p = hex_of(g);
    lemma_text_shape(g);
    lemma_text_bytes(g);
    assert(strip_braces(t) == t);
    assert(strip_braces(p) == p);
    assert(!is_dashed(p));
    let bt = seq![123u8] + t + seq![125u8];
    let bp = seq![123u8] + p + seq![125u8];
    assert(strip_braces(bt) =~= t);
    assert(strip_braces(bp) =~= p);
}

/// The eight big-endian bytes of a 64-bit value read back give the value.
proof fn lemma_be_u64_of_bytes(x: u64)
    ensures
        be_u64(u64_bytes(ByteOrder::Big, x), 0) == x,
{
    lemma_u64_big(x);
    let s = u64_bytes(ByteOrder::Big, x);
    let (b0, b1, b2, b3, b4, b5, b6, b7) = (s[0], s[1], s[2], s[3], s[4], s[5], s[6], s[7]);
    assert(((b0 as u64) << 56) | ((b1 as u64) << 48) | ((b2 as u64) << 40) | ((b3 as u64) << 32)
        | ((b4 as u64) << 24) | ((b5 as u64) << 16) | ((b6 as u64) << 8) | (b7 as u64) == x)
        by (bit_vector)
        requires
            b0 == (x >> 56) as u8,
            b1 == ((x >> 48) & 0xff) as u8,
            b2 == ((x >> 40) & 0xff) as u8,
            b3 == ((x >> 32) & 0xff) as u8,
            b4 == ((x >> 24) & 0xff) as u8,
            b5 == ((x >> 16) & 0xff) as u8,
            b6 == ((x >> 8) & 0xff) as u8,
            b7 == (x & 0xff) as u8,
    ;
}

/// A 128-bit value turned into a GUID and read back is unchanged.
pub proof fn lemma_u128_roundtrip(x: u128)
    ensures
        be_u128(u128_be(x)) == x,
{
    let hi = (x >> 64) as u64;
    let lo = (x & 0xffff_ffff_ffff_ffff) as u64;
    let s = u128_be(x);
    lemma_be_u64_of_bytes(hi);
    lemma_be_u64_of_bytes(lo);
    lemma_u64_big(hi);
    lemma_u64_big(lo);
    let h = u64_bytes(ByteOrder::Big, hi);
    let l = u64_bytes(ByteOrder::Big, lo);
    assert(forall|i: int| 0 <= i < 8 ==> s[i] == h[i]);
    assert(forall|i: int| 0 <= i < 8 ==> s[8 + i] == l[i]);
    assert(be_u64(s, 0) == be_u64(h, 0));
    assert(be_u64(s, 8) == be_u64(l, 0));
    assert(((hi as u128) << 64) | (lo as u128) == x) by (bit_vector)
        requires
            hi == (x >> 64) as u64,
            lo == (x & 0xffff_ffff_ffff_ffff) as u64,
    ;
}

} // verus!

