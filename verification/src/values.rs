//! The types whose values a field can hold, and the bytes they turn into.

use vstd::prelude::*;
use crate::bytes::{push_u16, push_u32, push_u64, u16_bytes, u32_bytes, u64_bytes, ByteOrder};
use crate::enums::FieldEncoding;

verus! {

/// The bits of a signed byte, read as unsigned.
pub open spec fn i8_bits(x: i8) -> u8 {
    (if x < 0 { x + 0x100 } else { x as int }) as u8
}

/// The bits of a signed 16-bit value, read as unsigned.
pub open spec fn i16_bits(x: i16) -> u16 {
    (if x < 0 { x + 0x1_0000 } else { x as int }) as u16
}

/// The bits of a signed 32-bit value, read as unsigned.
pub open spec fn i32_bits(x: i32) -> u32 {
    (if x < 0 { x + 0x1_0000_0000 } else { x as int }) as u32
}

/// The bits of a signed 64-bit value, read as unsigned.
pub open spec fn i64_bits(x: i64) -> u64 {
    (if x < 0 { x + 0x1_0000_0000_0000_0000 } else { x as int }) as u64
}

/// `n` zero bytes.
pub open spec fn zero_bytes(n: nat) -> Seq<u8> {
    Seq::new(n, |i: int| 0u8)
}

/// A type whose values can stand in a field: 1, 2, 4, 8 or 16 bytes that
/// are copied into the event as they are, multi-byte numbers in the byte
/// order of the event. Floating-point values are passed as their bits.
pub trait ValueField: Copy {
    /// The size of a value in bytes.
    spec fn spec_size() -> nat;

    /// The bytes of the value in the given byte order.
    spec fn value_bytes(&self, order: ByteOrder) -> Seq<u8>;

    /// A value has as many bytes as its type says, and the size is one that
    /// has an encoding.
    proof fn lemma_value_size(&self, order: ByteOrder)
        ensures
            self.value_bytes(order).len() == Self::spec_size(),
            FieldEncoding::spec_for_value_size(Self::spec_size()) is Some,
    ;

    /// The encoding of a field that holds one value of this type.
    fn value_encoding() -> (encoding: FieldEncoding)
        ensures
            Some(encoding) == FieldEncoding::spec_for_value_size(Self::spec_size()),
    ;

    /// The size of a value in bytes.
    fn value_size() -> (size: usize)
        ensures
            size == Self::spec_size(),
    ;

    /// Appends the bytes of the value to `buf`.
    fn append_value(&self, buf: &mut Vec<u8>, order: ByteOrder)
        ensures
            final(buf)@ == old(buf)@ + self.value_bytes(order),
    ;
}

/// A type whose values can be the units of a string: 1, 2 or 4 bytes, with
/// a zero value that ends a zero-terminated string.
pub trait StringField: ValueField {
    /// True for the value that ends a zero-terminated string.
    spec fn spec_is_zero(&self) -> bool;

    /// The zero value is the one whose bytes are all zero, and the size is
    /// one that has string encodings.
    proof fn lemma_zero(&self, order: ByteOrder)
        ensures
            self.spec_is_zero() <==> self.value_bytes(order) == zero_bytes(Self::spec_size()),
            FieldEncoding::spec_for_counted_unit(Self::spec_size()) is Some,
            FieldEncoding::spec_for_zstring_unit(Self::spec_size()) is Some,
    ;

    /// True for the value that ends a zero-terminated string.
    fn is_zero(&self) -> (zero: bool)
        ensures
            zero == self.spec_is_zero(),
    ;

    /// The encoding of a counted string of units of this type.
    fn string_encoding() -> (encoding: FieldEncoding)
        ensures
            Some(encoding) == FieldEncoding::spec_for_counted_unit(Self::spec_size()),
    ;

    /// The encoding of a zero-terminated string of units of this type.
    fn zstring_encoding() -> (encoding: FieldEncoding)
        ensures
            Some(encoding) == FieldEncoding::spec_for_zstring_unit(Self::spec_size()),
    ;
}

impl ValueField for u8 {
    open spec fn spec_size() -> nat {
        1
    }

    open spec fn value_bytes(&self, order: ByteOrder) -> Seq<u8> {
        seq![*self]
    }

    proof fn lemma_value_size(&self, order: ByteOrder) {
    }

    fn value_encoding() -> (encoding: FieldEncoding) {
        FieldEncoding::value8()
    }

    fn value_size() -> (size: usize) {
        1
    }

    fn append_value(&self, buf: &mut Vec<u8>, order: ByteOrder) {
        buf.push(*self);
        assert(buf@ =~= old(buf)@ + seq![*self]);
    }
}

impl StringField for u8 {
    open spec fn spec_is_zero(&self) -> bool {
        *self == 0
    }

    proof fn lemma_zero(&self, order: ByteOrder) {
        let bits = *self;
        if bits == 0 {
            assert(seq![bits] =~= zero_bytes(1));
        } else {
            assert(seq![bits][0] != zero_bytes(1)[0]);
        }
    }

    fn is_zero(&self) -> (zero: bool) {
        *self == 0
    }

    fn string_encoding() -> (encoding: FieldEncoding) {
        FieldEncoding::string_length16_char8()
    }

    fn zstring_encoding() -> (encoding: FieldEncoding) {
        FieldEncoding::zstring_char8()
    }
}

impl ValueField for u16 {
    open spec fn spec_size() -> nat {
        2
    }

    open spec fn value_bytes(&self, order: ByteOrder) -> Seq<u8> {
        u16_bytes(order, *self)
    }

    proof fn lemma_value_size(&self, order: ByteOrder) {
    }

    fn value_encoding() -> (encoding: FieldEncoding) {
        FieldEncoding::value16()
    }

    fn value_size() -> (size: usize) {
        2
    }

    fn append_value(&self, buf: &mut Vec<u8>, order: ByteOrder) {
        push_u16(buf, order, *self);
    }
}

impl StringField for u16 {
    open spec fn spec_is_zero(&self) -> bool {
        *self == 0
    }

    proof fn lemma_zero(&self, order: ByteOrder) {
        let bits: u16 = *self;
        assert(bits == 0 <==> ((bits & 0xff) as u8 == 0 && (bits >> 8) as u8 == 0)) by (bit_vector);
        crate::bytes::lemma_u16_big(bits);
        let bytes = u16_bytes(order, bits);
        if bits == 0 {
            assert(bytes =~= zero_bytes(2));
        } else {
            let z = zero_bytes(2);
            assert(z[0] == 0 && z[1] == 0);
        }
    }

    fn is_zero(&self) -> (zero: bool) {
        *self == 0
    }

    fn string_encoding() -> (encoding: FieldEncoding) {
        FieldEncoding::string_length16_char16()
    }

    fn zstring_encoding() -> (encoding: FieldEncoding) {
        FieldEncoding::zstring_char16()
    }
}

impl ValueField for u32 {
    open spec fn spec_size() -> nat {
        4
    }

    open spec fn value_bytes(&self, order: ByteOrder) -> Seq<u8> {
        u32_bytes(order, *self)
    }

    proof fn lemma_value_size(&self, order: ByteOrder) {
    }

    fn value_encoding() -> (encoding: FieldEncoding) {
        FieldEncoding::value32()
    }

    fn value_size() -> (size: usize) {
        4
    }

    fn append_value(&self, buf: &mut Vec<u8>, order: ByteOrder) {
        push_u32(buf, order, *self);
    }
}

impl StringField for u32 {
    open spec fn spec_is_zero(&self) -> bool {
        *self == 0
    }

    proof fn lemma_zero(&self, order: ByteOrder) {
        let bits: u32 = *self;
        assert(bits == 0 <==> ((bits & 0xff) as u8 == 0 && ((bits >> 8) & 0xff) as u8 == 0 && ((bits >> 16) & 0xff) as u8 == 0 && (bits >> 24) as u8 == 0)) by (bit_vector);
        crate::bytes::lemma_u32_big(bits);
        let bytes = u32_bytes(order, bits);
        if bits == 0 {
            assert(bytes =~= zero_bytes(4));
        } else {
            let z = zero_bytes(4);
            assert(z[0] == 0 && z[1] == 0 && z[2] == 0 && z[3] == 0);
        }
    }

    fn is_zero(&self) -> (zero: bool) {
        *self == 0
    }

    fn string_encoding() -> (encoding: FieldEncoding) {
        FieldEncoding::string_length16_char32()
    }

    fn zstring_encoding() -> (encoding: FieldEncoding) {
        FieldEncoding::zstring_char32()
    }
}

impl ValueField for u64 {
    open spec fn spec_size() -> nat {
        8
    }

    open spec fn value_bytes(&self, order: ByteOrder) -> Seq<u8> {
        u64_bytes(order, *self)
    }

    proof fn lemma_value_size(&self, order: ByteOrder) {
    }

    fn value_encoding() -> (encoding: FieldEncoding) {
        FieldEncoding::value64()
    }

    fn value_size() -> (size: usize) {
        8
    }

    fn append_value(&self, buf: &mut Vec<u8>, order: ByteOrder) {
        push_u64(buf, order, *self);
    }
}

impl ValueField for i8 {
    open spec fn spec_size() -> nat {
        1
    }

    open spec fn value_bytes(&self, order: ByteOrder) -> Seq<u8> {
        seq![i8_bits(*self)]
    }

    proof fn lemma_value_size(&self, order: ByteOrder) {
    }

    fn value_encoding() -> (encoding: FieldEncoding) {
        FieldEncoding::value8()
    }

    fn value_size() -> (size: usize) {
        1
    }

    fn append_value(&self, buf: &mut Vec<u8>, order: ByteOrder) {
        let bits = *self as u8;
        assert(bits == i8_bits(*self)) by (bit_vector)
            requires
                bits == *self as u8,
        ;
        buf.push(bits);
        assert(buf@ =~= old(buf)@ + seq![bits]);
    }
}

impl StringField for i8 {
    open spec fn spec_is_zero(&self) -> bool {
        *self == 0
    }

    proof fn lemma_zero(&self, order: ByteOrder) {
        let bits = i8_bits(*self);
        if bits == 0 {
            assert(seq![bits] =~= zero_bytes(1));
        } else {
            assert(seq![bits][0] != zero_bytes(1)[0]);
        }
    }

    fn is_zero(&self) -> (zero: bool) {
        *self == 0
    }

    fn string_encoding() -> (encoding: FieldEncoding) {
        FieldEncoding::string_length16_char8()
    }

    fn zstring_encoding() -> (encoding: FieldEncoding) {
        FieldEncoding::zstring_char8()
    }
}

impl ValueField for i16 {
    open spec fn spec_size() -> nat {
        2
    }

    open spec fn value_bytes(&self, order: ByteOrder) -> Seq<u8> {
        u16_bytes(order, i16_bits(*self))
    }

    proof fn lemma_value_size(&self, order: ByteOrder) {
    }

    fn value_encoding() -> (encoding: FieldEncoding) {
        FieldEncoding::value16()
    }

    fn value_size() -> (size: usize) {
        2
    }

    fn append_value(&self, buf: &mut Vec<u8>, order: ByteOrder) {
        let bits = *self as u16;
        assert(bits == i16_bits(*self)) by (bit_vector)
            requires
                bits == *self as u16,
        ;
        push_u16(buf, order, bits);
    }
}

impl StringField for i16 {
    open spec fn spec_is_zero(&self) -> bool {
        *self == 0
    }

    proof fn lemma_zero(&self, order: ByteOrder) {
        let bits: u16 = i16_bits(*self);
        assert(bits == 0 <==> ((bits & 0xff) as u8 == 0 && (bits >> 8) as u8 == 0)) by (bit_vector);
        crate::bytes::lemma_u16_big(bits);
        let bytes = u16_bytes(order, bits);
        if bits == 0 {
            assert(bytes =~= zero_bytes(2));
        } else {
            let z = zero_bytes(2);
            assert(z[0] == 0 && z[1] == 0);
        }
    }

    fn is_zero(&self) -> (zero: bool) {
        *self == 0
    }

    fn string_encoding() -> (encoding: FieldEncoding) {
        FieldEncoding::string_length16_char16()
    }

    fn zstring_encoding() -> (encoding: FieldEncoding) {
        FieldEncoding::zstring_char16()
    }
}

impl ValueField for i32 {
    open spec fn spec_size() -> nat {
        4
    }

    open spec fn value_bytes(&self, order: ByteOrder) -> Seq<u8> {
        u32_bytes(order, i32_bits(*self))
    }

    proof fn lemma_value_size(&self, order: ByteOrder) {
    }

    fn value_encoding() -> (encoding: FieldEncoding) {
        FieldEncoding::value32()
    }

    fn value_size() -> (size: usize) {
        4
    }

    fn append_value(&self, buf: &mut Vec<u8>, order: ByteOrder) {
        let bits = *self as u32;
        assert(bits == i32_bits(*self)) by (bit_vector)
            requires
                bits == *self as u32,
        ;
        push_u32(buf, order, bits);
    }
}

impl StringField for i32 {
    open spec fn spec_is_zero(&self) -> bool {
        *self == 0
    }

    proof fn lemma_zero(&self, order: ByteOrder) {
        let bits: u32 = i32_bits(*self);
        assert(bits == 0 <==> ((bits & 0xff) as u8 == 0 && ((bits >> 8) & 0xff) as u8 == 0 && ((bits >> 16) & 0xff) as u8 == 0 && (bits >> 24) as u8 == 0)) by (bit_vector);
        crate::bytes::lemma_u32_big(bits);
        let bytes = u32_bytes(order, bits);
        if bits == 0 {
            assert(bytes =~= zero_bytes(4));
        } else {
            let z = zero_bytes(4);
            assert(z[0] == 0 && z[1] == 0 && z[2] == 0 && z[3] == 0);
        }
    }

    fn is_zero(&self) -> (zero: bool) {
        *self == 0
    }

    fn string_encoding() -> (encoding: FieldEncoding) {
        FieldEncoding::string_length16_char32()
    }

    fn zstring_encoding() -> (encoding: FieldEncoding) {
        FieldEncoding::zstring_char32()
    }
}

impl ValueField for i64 {
    open spec fn spec_size() -> nat {
        8
    }

    open spec fn value_bytes(&self, order: ByteOrder) -> Seq<u8> {
        u64_bytes(order, i64_bits(*self))
    }

    proof fn lemma_value_size(&self, order: ByteOrder) {
    }

    fn value_encoding() -> (encoding: FieldEncoding) {
        FieldEncoding::value64()
    }

    fn value_size() -> (size: usize) {
        8
    }

    fn append_value(&self, buf: &mut Vec<u8>, order: ByteOrder) {
        let bits = *self as u64;
        assert(bits == i64_bits(*self)) by (bit_vector)
            requires
                bits == *self as u64,
        ;
        push_u64(buf, order, bits);
    }
}

impl ValueField for bool {
    open spec fn spec_size() -> nat {
        1
    }

    open spec fn value_bytes(&self, order: ByteOrder) -> Seq<u8> {
        seq![if *self { 1u8 } else { 0u8 }]
    }

    proof fn lemma_value_size(&self, order: ByteOrder) {
    }

    fn value_encoding() -> (encoding: FieldEncoding) {
        FieldEncoding::value8()
    }

    fn value_size() -> (size: usize) {
        1
    }

    fn append_value(&self, buf: &mut Vec<u8>, order: ByteOrder) {
        let byte: u8 = if *self { 1 } else { 0 };
        buf.push(byte);
        assert(buf@ =~= old(buf)@ + seq![byte]);
    }
}

impl ValueField for char {
    open spec fn spec_size() -> nat {
        4
    }

    open spec fn value_bytes(&self, order: ByteOrder) -> Seq<u8> {
        u32_bytes(order, *self as u32)
    }

    proof fn lemma_value_size(&self, order: ByteOrder) {
    }

    fn value_encoding() -> (encoding: FieldEncoding) {
        FieldEncoding::value32()
    }

    fn value_size() -> (size: usize) {
        4
    }

    fn append_value(&self, buf: &mut Vec<u8>, order: ByteOrder) {
        push_u32(buf, order, *self as u32);
    }
}

impl StringField for char {
    open spec fn spec_is_zero(&self) -> bool {
        *self as u32 == 0
    }

    proof fn lemma_zero(&self, order: ByteOrder) {
        let bits: u32 = *self as u32;
        assert(bits == 0 <==> ((bits & 0xff) as u8 == 0 && ((bits >> 8) & 0xff) as u8 == 0 && ((bits >> 16) & 0xff) as u8 == 0 && (bits >> 24) as u8 == 0)) by (bit_vector);
        crate::bytes::lemma_u32_big(bits);
        let bytes = u32_bytes(order, bits);
        if bits == 0 {
            assert(bytes =~= zero_bytes(4));
        } else {
            let z = zero_bytes(4);
            assert(z[0] == 0 && z[1] == 0 && z[2] == 0 && z[3] == 0);
        }
    }

    fn is_zero(&self) -> (zero: bool) {
        *self as u32 == 0
    }

    fn string_encoding() -> (encoding: FieldEncoding) {
        FieldEncoding::string_length16_char32()
    }

    fn zstring_encoding() -> (encoding: FieldEncoding) {
        FieldEncoding::zstring_char32()
    }
}

impl ValueField for usize {
    open spec fn spec_size() -> nat {
        if usize::BITS == 64 {
            8
        } else {
            4
        }
    }

    open spec fn value_bytes(&self, order: ByteOrder) -> Seq<u8> {
        if usize::BITS == 64 {
            u64_bytes(order, *self as u64)
        } else {
            u32_bytes(order, *self as u32)
        }
    }

    proof fn lemma_value_size(&self, order: ByteOrder) {
    }

    fn value_encoding() -> (encoding: FieldEncoding) {
        FieldEncoding::value_size()
    }

    fn value_size() -> (size: usize) {
        if usize::BITS == 64 {
            8
        } else {
            4
        }
    }

    fn append_value(&self, buf: &mut Vec<u8>, order: ByteOrder) {
        if usize::BITS == 64 {
            push_u64(buf, order, *self as u64);
        } else {
            push_u32(buf, order, *self as u32);
        }
    }
}

impl ValueField for isize {
    open spec fn spec_size() -> nat {
        if usize::BITS == 64 {
            8
        } else {
            4
        }
    }

    open spec fn value_bytes(&self, order: ByteOrder) -> Seq<u8> {
        if usize::BITS == 64 {
            u64_bytes(order, i64_bits(*self as i64))
        } else {
            u32_bytes(order, i32_bits(*self as i32))
        }
    }

    proof fn lemma_value_size(&self, order: ByteOrder) {
    }

    fn value_encoding() -> (encoding: FieldEncoding) {
        FieldEncoding::value_size()
    }

    fn value_size() -> (size: usize) {
        if usize::BITS == 64 {
            8
        } else {
            4
        }
    }

    fn append_value(&self, buf: &mut Vec<u8>, order: ByteOrder) {
        if usize::BITS == 64 {
            (*self as i64).append_value(buf, order);
        } else {
            (*self as i32).append_value(buf, order);
        }
    }
}

impl ValueField for [u8; 1] {
    open spec fn spec_size() -> nat {
        1
    }

    open spec fn value_bytes(&self, order: ByteOrder) -> Seq<u8> {
        self@
    }

    proof fn lemma_value_size(&self, order: ByteOrder) {
    }

    fn value_encoding() -> (encoding: FieldEncoding) {
        FieldEncoding::value8()
    }

    fn value_size() -> (size: usize) {
        1
    }

    fn append_value(&self, buf: &mut Vec<u8>, order: ByteOrder) {
        let mut i: usize = 0;
        while i < 1
            invariant
                i <= 1,
                buf@ == old(buf)@ + self@.subrange(0, i as int),
            decreases 1 - i,
        {
            buf.push(self[i]);
            assert(self@.subrange(0, i as int).push(self@[i as int]) =~= self@.subrange(0, i + 1));
            i += 1;
        }
        assert(self@.subrange(0, 1) =~= self@);
    }
}

impl ValueField for [u8; 2] {
    open spec fn spec_size() -> nat {
        2
    }

    open spec fn value_bytes(&self, order: ByteOrder) -> Seq<u8> {
        self@
    }

    proof fn lemma_value_size(&self, order: ByteOrder) {
    }

    fn value_encoding() -> (encoding: FieldEncoding) {
        FieldEncoding::value16()
    }

    fn value_size() -> (size: usize) {
        2
    }

    fn append_value(&self, buf: &mut Vec<u8>, order: ByteOrder) {
        let mut i: usize = 0;
        while i < 2
            invariant
                i <= 2,
                buf@ == old(buf)@ + self@.subrange(0, i as int),
            decreases 2 - i,
        {
            buf.push(self[i]);
            assert(self@.subrange(0, i as int).push(self@[i as int]) =~= self@.subrange(0, i + 1));
            i += 1;
        }
        assert(self@.subrange(0, 2) =~= self@);
    }
}

impl ValueField for [u8; 4] {
    open spec fn spec_size() -> nat {
        4
    }

    open spec fn value_bytes(&self, order: ByteOrder) -> Seq<u8> {
        self@
    }

    proof fn lemma_value_size(&self, order: ByteOrder) {
    }

    fn value_encoding() -> (encoding: FieldEncoding) {
        FieldEncoding::value32()
    }

    fn value_size() -> (size: usize) {
        4
    }

    fn append_value(&self, buf: &mut Vec<u8>, order: ByteOrder) {
        let mut i: usize = 0;
        while i < 4
            invariant
                i <= 4,
                buf@ == old(buf)@ + self@.subrange(0, i as int),
            decreases 4 - i,
        {
            buf.push(self[i]);
            assert(self@.subrange(0, i as int).push(self@[i as int]) =~= self@.subrange(0, i + 1));
            i += 1;
        }
        assert(self@.subrange(0, 4) =~= self@);
    }
}

impl ValueField for [u8; 8] {
    open spec fn spec_size() -> nat {
        8
    }

    open spec fn value_bytes(&self, order: ByteOrder) -> Seq<u8> {
        self@
    }

    proof fn lemma_value_size(&self, order: ByteOrder) {
    }

    fn value_encoding() -> (encoding: FieldEncoding) {
        FieldEncoding::value64()
    }

    fn value_size() -> (size: usize) {
        8
    }

    fn append_value(&self, buf: &mut Vec<u8>, order: ByteOrder) {
        let mut i: usize = 0;
        while i < 8
            invariant
                i <= 8,
                buf@ == old(buf)@ + self@.subrange(0, i as int),
            decreases 8 - i,
        {
            buf.push(self[i]);
            assert(self@.subrange(0, i as int).push(self@[i as int]) =~= self@.subrange(0, i + 1));
            i += 1;
        }
        assert(self@.subrange(0, 8) =~= self@);
    }
}

impl ValueField for [u8; 16] {
    open spec fn spec_size() -> nat {
        16
    }

    open spec fn value_bytes(&self, order: ByteOrder) -> Seq<u8> {
        self@
    }

    proof fn lemma_value_size(&self, order: ByteOrder) {
    }

    fn value_encoding() -> (encoding: FieldEncoding) {
        FieldEncoding::value128()
    }

    fn value_size() -> (size: usize) {
        16
    }

    fn append_value(&self, buf: &mut Vec<u8>, order: ByteOrder) {
        let mut i: usize = 0;
        while i < 16
            invariant
                i <= 16,
                buf@ == old(buf)@ + self@.subrange(0, i as int),
            decreases 16 - i,
        {
            buf.push(self[i]);
            assert(self@.subrange(0, i as int).push(self@[i as int]) =~= self@.subrange(0, i + 1));
            i += 1;
        }
        assert(self@.subrange(0, 16) =~= self@);
    }
}

} // verus!
