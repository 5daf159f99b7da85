//! Numeric vocabularies of the wire format: header flags, extension kinds,
//! field encodings and formats, severity levels and opcodes.
//!
//! Each is a thin wrapper around the integer that travels on the wire, so
//! that values this library has no name for pass through unchanged.

#![allow(non_upper_case_globals)]

use vstd::prelude::*;
use crate::bytes::ByteOrder;

verus! {

/// Flag bits of [`crate::descriptors::EventHeader`]: pointer width, byte
/// order and whether header extension blocks follow.
#[derive(Clone, Copy, Debug, PartialEq, Eq, Structural, Hash, PartialOrd, Ord)]
pub struct HeaderFlags(pub u8);

impl HeaderFlags {
    /// Bit set when the producer uses 64-bit pointers.
    pub const POINTER64: u8 = 0x01;

    /// Bit set when the producer is little-endian.
    pub const LITTLE_ENDIAN: u8 = 0x02;

    /// Bit set when one or more extension blocks follow the header.
    pub const EXTENSION: u8 = 0x04;

    /// Returns flags with the given numeric value.
    pub fn from_int(value: u8) -> (result: HeaderFlags)
        ensures
            result == HeaderFlags(value),
    {
        HeaderFlags(value)
    }

    /// Returns the numeric value.
    pub fn as_int(self) -> (value: u8)
        ensures
            value == self.0,
    {
        self.0
    }

    /// 32-bit pointers, big-endian, no extension blocks.
    pub fn none() -> (value: HeaderFlags)
        ensures
            value == HeaderFlags(0),
    {
        HeaderFlags(0)
    }

    /// Producer uses 64-bit pointers.
    pub fn pointer64() -> (value: HeaderFlags)
        ensures
            value == HeaderFlags(0x01),
    {
        HeaderFlags(0x01)
    }

    /// Producer uses little-endian byte order.
    pub fn little_endian() -> (value: HeaderFlags)
        ensures
            value == HeaderFlags(0x02),
    {
        HeaderFlags(0x02)
    }

    /// One or more extension blocks follow the header.
    pub fn extension() -> (value: HeaderFlags)
        ensures
            value == HeaderFlags(0x04),
    {
        HeaderFlags(0x04)
    }

    /// The flags of a producer with the given pointer width and byte order,
    /// with or without the extension bit.
    pub open spec fn spec_for_target(pointer64: bool, little_endian: bool, extension: bool) -> HeaderFlags {
        HeaderFlags(
            ((if pointer64 { 0x01u8 } else { 0u8 })
                + (if little_endian { 0x02u8 } else { 0u8 })
                + (if extension { 0x04u8 } else { 0u8 })) as u8,
        )
    }

    /// Builds the flags of a producer with the given pointer width and byte
    /// order, with or without the extension bit.
    pub fn for_target(pointer64: bool, little_endian: bool, extension: bool) -> (flags: HeaderFlags)
        ensures
            flags == Self::spec_for_target(pointer64, little_endian, extension),
    {
        let p: u8 = if pointer64 { 0x01 } else { 0 };
        let l: u8 = if little_endian { 0x02 } else { 0 };
        let e: u8 = if extension { 0x04 } else { 0 };
        HeaderFlags(p + l + e)
    }

    /// The flags that describe the machine this runs on, with or without
    /// the extension bit. The pointer bit follows the width of `usize`; the
    /// byte-order bit is the machine's, whichever that is.
    pub fn native(extension: bool) -> (flags: HeaderFlags)
        ensures
            flags == Self::spec_for_target(
                usize::BITS == 64,
                flags.spec_is_little_endian(),
                extension,
            ),
    {
        let little = ByteOrder::native().is_little();
        let flags = Self::for_target(usize::BITS == 64, little, extension);
        let bits = flags.0;
        assert(bits & 0x02 != 0 <==> little) by (bit_vector)
            requires
                bits == 0x02 || bits == 0x03 || bits == 0x06 || bits == 0x07 <==> little,
                bits <= 7,
        ;
        flags
    }

    /// The byte order that the flags name.
    pub open spec fn spec_byte_order(self) -> ByteOrder {
        if self.spec_is_little_endian() {
            ByteOrder::Little
        } else {
            ByteOrder::Big
        }
    }

    /// The byte order that the flags name.
    pub fn byte_order(self) -> (order: ByteOrder)
        ensures
            order == self.spec_byte_order(),
    {
        if self.0 & 0x02 != 0 {
            ByteOrder::Little
        } else {
            ByteOrder::Big
        }
    }

    /// True when the little-endian bit is set.
    pub open spec fn spec_is_little_endian(self) -> bool {
        self.0 & 0x02 != 0
    }

    /// True when the little-endian bit is set.
    pub fn is_little_endian(self) -> (little: bool)
        ensures
            little == self.spec_is_little_endian(),
    {
        self.0 & 0x02 != 0
    }

    /// True when the extension bit is set.
    pub open spec fn spec_has_extension(self) -> bool {
        self.0 & 0x04 != 0
    }

    /// True when the extension bit is set.
    pub fn has_extension(self) -> (extension: bool)
        ensures
            extension == self.spec_has_extension(),
    {
        self.0 & 0x04 != 0
    }
}

/// The kind of data in a header extension block. The top bit is the chain
/// flag: when set, another extension block follows this one.
#[derive(Clone, Copy, Debug, PartialEq, Eq, Structural, Hash, PartialOrd, Ord)]
pub struct ExtensionKind(pub u16);

impl ExtensionKind {
    /// Set when another extension block follows.
    pub const ChainFlag: u16 = 0x8000;

    /// Mask for the kind proper.
    pub const ValueMask: u16 = 0x7FFF;

    /// Returns an extension kind with the given numeric value.
    pub fn from_int(value: u16) -> (result: ExtensionKind)
        ensures
            result == ExtensionKind(value),
    {
        ExtensionKind(value)
    }

    /// Returns the numeric value.
    pub fn as_int(self) -> (value: u16)
        ensures
            value == self.0,
    {
        self.0
    }

    /// Invalid extension kind.
    pub fn invalid() -> (value: ExtensionKind)
        ensures
            value == ExtensionKind(0),
    {
        ExtensionKind(0)
    }

    /// Event name and field definitions.
    pub fn metadata() -> (value: ExtensionKind)
        ensures
            value == ExtensionKind(1),
    {
        ExtensionKind(1)
    }

    /// Activity id, optionally followed by the related activity id.
    pub fn activity_id() -> (value: ExtensionKind)
        ensures
            value == ExtensionKind(2),
    {
        ExtensionKind(2)
    }

}

/// The encoding byte of a field definition: a 5-bit kind that tells a decoder
/// how to find the size of the field, and three flag bits.
#[derive(Clone, Copy, Debug, PartialEq, Eq, Structural, Hash, PartialOrd, Ord)]
pub struct FieldEncoding(pub u8);

impl FieldEncoding {
    /// Mask for the kind.
    pub const ValueMask: u8 = 0x1F;

    /// Mask for the flags.
    pub const FlagMask: u8 = 0xE0;

    /// Constant-length array: 16-bit element count in the metadata, never 0.
    pub const CArrayFlag: u8 = 0x20;

    /// Variable-length array: 16-bit element count in the payload, may be 0.
    pub const VArrayFlag: u8 = 0x40;

    /// A format byte follows the encoding byte.
    pub const ChainFlag: u8 = 0x80;

    /// Returns a field encoding with the given numeric value.
    pub fn from_int(value: u8) -> (result: FieldEncoding)
        ensures
            result == FieldEncoding(value),
    {
        FieldEncoding(value)
    }

    /// Returns the numeric value.
    pub fn as_int(self) -> (value: u8)
        ensures
            value == self.0,
    {
        self.0
    }

    /// Invalid encoding.
    pub fn invalid() -> (value: FieldEncoding)
        ensures
            value == FieldEncoding(0),
    {
        FieldEncoding(0)
    }

    /// No data of its own: groups the following N logical fields, N in the format byte.
    pub fn structure() -> (value: FieldEncoding)
        ensures
            value == FieldEncoding(1),
    {
        FieldEncoding(1)
    }

    /// 1-byte value.
    pub fn value8() -> (value: FieldEncoding)
        ensures
            value == FieldEncoding(2),
    {
        FieldEncoding(2)
    }

    /// 2-byte value.
    pub fn value16() -> (value: FieldEncoding)
        ensures
            value == FieldEncoding(3),
    {
        FieldEncoding(3)
    }

    /// 4-byte value.
    pub fn value32() -> (value: FieldEncoding)
        ensures
            value == FieldEncoding(4),
    {
        FieldEncoding(4)
    }

    /// 8-byte value.
    pub fn value64() -> (value: FieldEncoding)
        ensures
            value == FieldEncoding(5),
    {
        FieldEncoding(5)
    }

    /// 16-byte value.
    pub fn value128() -> (value: FieldEncoding)
        ensures
            value == FieldEncoding(6),
    {
        FieldEncoding(6)
    }

    /// Zero-terminated string of 8-bit units.
    pub fn zstring_char8() -> (value: FieldEncoding)
        ensures
            value == FieldEncoding(7),
    {
        FieldEncoding(7)
    }

    /// Zero-terminated string of 16-bit units.
    pub fn zstring_char16() -> (value: FieldEncoding)
        ensures
            value == FieldEncoding(8),
    {
        FieldEncoding(8)
    }

    /// Zero-terminated string of 32-bit units.
    pub fn zstring_char32() -> (value: FieldEncoding)
        ensures
            value == FieldEncoding(9),
    {
        FieldEncoding(9)
    }

    /// 16-bit length, then that many 8-bit units.
    pub fn string_length16_char8() -> (value: FieldEncoding)
        ensures
            value == FieldEncoding(10),
    {
        FieldEncoding(10)
    }

    /// 16-bit length, then that many 16-bit units.
    pub fn string_length16_char16() -> (value: FieldEncoding)
        ensures
            value == FieldEncoding(11),
    {
        FieldEncoding(11)
    }

    /// 16-bit length, then that many 32-bit units.
    pub fn string_length16_char32() -> (value: FieldEncoding)
        ensures
            value == FieldEncoding(12),
    {
        FieldEncoding(12)
    }

    /// The encoding of a pointer-sized value: `value64` where `usize` has
    /// 64 bits, `value32` otherwise.
    pub fn value_size() -> (value: FieldEncoding)
        ensures
            value == (if usize::BITS == 64 { FieldEncoding(5) } else { FieldEncoding(4) }),
    {
        if usize::BITS == 64 {
            FieldEncoding(5)
        } else {
            FieldEncoding(4)
        }
    }

    /// The encoding of a scalar of `size` bytes, where there is one.
    pub open spec fn spec_for_value_size(size: nat) -> Option<FieldEncoding> {
        if size == 1 {
            Some(FieldEncoding(2))
        } else if size == 2 {
            Some(FieldEncoding(3))
        } else if size == 4 {
            Some(FieldEncoding(4))
        } else if size == 8 {
            Some(FieldEncoding(5))
        } else if size == 16 {
            Some(FieldEncoding(6))
        } else {
            None
        }
    }

    /// The counted-string encoding for units of `size` bytes, where there is one.
    pub open spec fn spec_for_counted_unit(size: nat) -> Option<FieldEncoding> {
        if size == 1 {
            Some(FieldEncoding(10))
        } else if size == 2 {
            Some(FieldEncoding(11))
        } else if size == 4 {
            Some(FieldEncoding(12))
        } else {
            None
        }
    }

    /// The zero-terminated-string encoding for units of `size` bytes, where
    /// there is one.
    pub open spec fn spec_for_zstring_unit(size: nat) -> Option<FieldEncoding> {
        if size == 1 {
            Some(FieldEncoding(7))
        } else if size == 2 {
            Some(FieldEncoding(8))
        } else if size == 4 {
            Some(FieldEncoding(9))
        } else {
            None
        }
    }
}

/// The format byte of a field definition: a 7-bit semantic format, and a
/// flag bit that says a 16-bit tag follows. For the struct encoding the low
/// 7 bits hold the number of member fields instead.
#[derive(Clone, Copy, Debug, PartialEq, Eq, Structural, Hash, PartialOrd, Ord)]
pub struct FieldFormat(pub u8);

impl FieldFormat {
    /// Mask for the format proper.
    pub const ValueMask: u8 = 0x7F;

    /// A 16-bit field tag follows the format byte.
    pub const ChainFlag: u8 = 0x80;

    /// Returns a field format with the given numeric value.
    pub fn from_int(value: u8) -> (result: FieldFormat)
        ensures
            result == FieldFormat(value),
    {
        FieldFormat(value)
    }

    /// Returns the numeric value.
    pub fn as_int(self) -> (value: u8)
        ensures
            value == self.0,
    {
        self.0
    }

    /// Use the encoding's default format.
    pub fn default_format() -> (value: FieldFormat)
        ensures
            value == FieldFormat(0),
    {
        FieldFormat(0)
    }

    /// Unsigned integer.
    pub fn unsigned_int() -> (value: FieldFormat)
        ensures
            value == FieldFormat(1),
    {
        FieldFormat(1)
    }

    /// Signed integer.
    pub fn signed_int() -> (value: FieldFormat)
        ensures
            value == FieldFormat(2),
    {
        FieldFormat(2)
    }

    /// Hexadecimal integer.
    pub fn hex_int() -> (value: FieldFormat)
        ensures
            value == FieldFormat(3),
    {
        FieldFormat(3)
    }

    /// An errno value.
    pub fn errno() -> (value: FieldFormat)
        ensures
            value == FieldFormat(4),
    {
        FieldFormat(4)
    }

    /// Process id.
    pub fn pid() -> (value: FieldFormat)
        ensures
            value == FieldFormat(5),
    {
        FieldFormat(5)
    }

    /// Signed seconds since 1970.
    pub fn time() -> (value: FieldFormat)
        ensures
            value == FieldFormat(6),
    {
        FieldFormat(6)
    }

    /// 0 is false, 1 is true.
    pub fn boolean() -> (value: FieldFormat)
        ensures
            value == FieldFormat(7),
    {
        FieldFormat(7)
    }

    /// Floating point.
    pub fn float() -> (value: FieldFormat)
        ensures
            value == FieldFormat(8),
    {
        FieldFormat(8)
    }

    /// Binary, shown as a hex dump.
    pub fn hex_bytes() -> (value: FieldFormat)
        ensures
            value == FieldFormat(9),
    {
        FieldFormat(9)
    }

    /// 8-bit character string of unspecified character set.
    pub fn string8() -> (value: FieldFormat)
        ensures
            value == FieldFormat(10),
    {
        FieldFormat(10)
    }

    /// UTF string, unit size from the encoding.
    pub fn string_utf() -> (value: FieldFormat)
        ensures
            value == FieldFormat(11),
    {
        FieldFormat(11)
    }

    /// UTF string with an optional byte order mark.
    pub fn string_utf_bom() -> (value: FieldFormat)
        ensures
            value == FieldFormat(12),
    {
        FieldFormat(12)
    }

    /// XML string.
    pub fn string_xml() -> (value: FieldFormat)
        ensures
            value == FieldFormat(13),
    {
        FieldFormat(13)
    }

    /// JSON string.
    pub fn string_json() -> (value: FieldFormat)
        ensures
            value == FieldFormat(14),
    {
        FieldFormat(14)
    }

    /// UUID in network byte order.
    pub fn uuid() -> (value: FieldFormat)
        ensures
            value == FieldFormat(15),
    {
        FieldFormat(15)
    }

    /// IP port in network byte order.
    pub fn port() -> (value: FieldFormat)
        ensures
            value == FieldFormat(16),
    {
        FieldFormat(16)
    }

    /// IPv4 address in network byte order.
    pub fn ipv4() -> (value: FieldFormat)
        ensures
            value == FieldFormat(17),
    {
        FieldFormat(17)
    }

    /// IPv6 address.
    pub fn ipv6() -> (value: FieldFormat)
        ensures
            value == FieldFormat(18),
    {
        FieldFormat(18)
    }

}

/// Severity of an event: 1 is critical, 5 is verbose, 0 is invalid.
#[derive(Clone, Copy, Debug, PartialEq, Eq, Structural, Hash, PartialOrd, Ord)]
pub struct Level(pub u8);

impl Level {
    /// Returns a level with the given numeric value.
    pub fn from_int(value: u8) -> (result: Level)
        ensures
            result == Level(value),
    {
        Level(value)
    }

    /// Returns the numeric value.
    pub fn as_int(self) -> (value: u8)
        ensures
            value == self.0,
    {
        self.0
    }

    /// Invalid level.
    pub fn invalid() -> (value: Level)
        ensures
            value == Level(0),
    {
        Level(0)
    }

    /// Critical error.
    pub fn critical_error() -> (value: Level)
        ensures
            value == Level(1),
    {
        Level(1)
    }

    /// Error.
    pub fn error() -> (value: Level)
        ensures
            value == Level(2),
    {
        Level(2)
    }

    /// Warning.
    pub fn warning() -> (value: Level)
        ensures
            value == Level(3),
    {
        Level(3)
    }

    /// Informational.
    pub fn informational() -> (value: Level)
        ensures
            value == Level(4),
    {
        Level(4)
    }

    /// Verbose.
    pub fn verbose() -> (value: Level)
        ensures
            value == Level(5),
    {
        Level(5)
    }

}

/// Special semantics of an event, used by decoders to group events into
/// activities.
#[derive(Clone, Copy, Debug, PartialEq, Eq, Structural, Hash, PartialOrd, Ord)]
pub struct Opcode(pub u8);

impl Opcode {
    /// Returns an opcode with the given numeric value.
    pub fn from_int(value: u8) -> (result: Opcode)
        ensures
            result == Opcode(value),
    {
        Opcode(value)
    }

    /// Returns the numeric value.
    pub fn as_int(self) -> (value: u8)
        ensures
            value == self.0,
    {
        self.0
    }

    /// Ordinary event.
    pub fn info() -> (value: Opcode)
        ensures
            value == Opcode(0),
    {
        Opcode(0)
    }

    /// Begins an activity.
    pub fn activity_start() -> (value: Opcode)
        ensures
            value == Opcode(1),
    {
        Opcode(1)
    }

    /// Ends an activity.
    pub fn activity_stop() -> (value: Opcode)
        ensures
            value == Opcode(2),
    {
        Opcode(2)
    }

    /// Data collection starts.
    pub fn collection_start() -> (value: Opcode)
        ensures
            value == Opcode(3),
    {
        Opcode(3)
    }

    /// Data collection stops.
    pub fn collection_stop() -> (value: Opcode)
        ensures
            value == Opcode(4),
    {
        Opcode(4)
    }

    /// Extension event.
    pub fn extension() -> (value: Opcode)
        ensures
            value == Opcode(5),
    {
        Opcode(5)
    }

    /// Reply event.
    pub fn reply() -> (value: Opcode)
        ensures
            value == Opcode(6),
    {
        Opcode(6)
    }

    /// Resume event.
    pub fn resume() -> (value: Opcode)
        ensures
            value == Opcode(7),
    {
        Opcode(7)
    }

    /// Suspend event.
    pub fn suspend() -> (value: Opcode)
        ensures
            value == Opcode(8),
    {
        Opcode(8)
    }

    /// Message sent.
    pub fn send() -> (value: Opcode)
        ensures
            value == Opcode(9),
    {
        Opcode(9)
    }

    /// Message received.
    pub fn receive() -> (value: Opcode)
        ensures
            value == Opcode(240),
    {
        Opcode(240)
    }

}

impl Default for HeaderFlags {
    fn default() -> (value: Self)
        ensures
            value == HeaderFlags(0),
    {
        HeaderFlags(0)
    }
}

impl Default for ExtensionKind {
    fn default() -> (value: Self)
        ensures
            value == ExtensionKind(0),
    {
        ExtensionKind(0)
    }
}

impl Default for FieldEncoding {
    fn default() -> (value: Self)
        ensures
            value == FieldEncoding(0),
    {
        FieldEncoding(0)
    }
}

impl Default for FieldFormat {
    fn default() -> (value: Self)
        ensures
            value == FieldFormat(0),
    {
        FieldFormat(0)
    }
}

impl Default for Level {
    fn default() -> (value: Self)
        ensures
            value == Level(0),
    {
        Level(0)
    }
}

impl Default for Opcode {
    fn default() -> (value: Self)
        ensures
            value == Opcode(0),
    {
        Opcode(0)
    }
}

impl From<u8> for HeaderFlags {
    fn from(val: u8) -> (value: Self) {
        HeaderFlags(val)
    }
}

impl vstd::std_specs::convert::FromSpecImpl<u8> for HeaderFlags {
    open spec fn obeys_from_spec() -> bool {
        true
    }

    open spec fn from_spec(val: u8) -> Self {
        HeaderFlags(val)
    }
}

impl From<HeaderFlags> for u8 {
    fn from(val: HeaderFlags) -> (value: Self) {
        val.0
    }
}

impl vstd::std_specs::convert::FromSpecImpl<HeaderFlags> for u8 {
    open spec fn obeys_from_spec() -> bool {
        true
    }

    open spec fn from_spec(val: HeaderFlags) -> Self {
        val.0
    }
}

impl From<u16> for ExtensionKind {
    fn from(val: u16) -> (value: Self) {
        ExtensionKind(val)
    }
}

impl vstd::std_specs::convert::FromSpecImpl<u16> for ExtensionKind {
    open spec fn obeys_from_spec() -> bool {
        true
    }

    open spec fn from_spec(val: u16) -> Self {
        ExtensionKind(val)
    }
}

impl From<ExtensionKind> for u16 {
    fn from(val: ExtensionKind) -> (value: Self) {
        val.0
    }
}

impl vstd::std_specs::convert::FromSpecImpl<ExtensionKind> for u16 {
    open spec fn obeys_from_spec() -> bool {
        true
    }

    open spec fn from_spec(val: ExtensionKind) -> Self {
        val.0
    }
}

impl From<u8> for FieldEncoding {
    fn from(val: u8) -> (value: Self) {
        FieldEncoding(val)
    }
}

impl vstd::std_specs::convert::FromSpecImpl<u8> for FieldEncoding {
    open spec fn obeys_from_spec() -> bool {
        true
    }

    open spec fn from_spec(val: u8) -> Self {
        FieldEncoding(val)
    }
}

impl From<FieldEncoding> for u8 {
    fn from(val: FieldEncoding) -> (value: Self) {
        val.0
    }
}

impl vstd::std_specs::convert::FromSpecImpl<FieldEncoding> for u8 {
    open spec fn obeys_from_spec() -> bool {
        true
    }

    open spec fn from_spec(val: FieldEncoding) -> Self {
        val.0
    }
}

impl From<u8> for FieldFormat {
    fn from(val: u8) -> (value: Self) {
        FieldFormat(val)
    }
}

impl vstd::std_specs::convert::FromSpecImpl<u8> for FieldFormat {
    open spec fn obeys_from_spec() -> bool {
        true
    }

    open spec fn from_spec(val: u8) -> Self {
        FieldFormat(val)
    }
}

impl From<FieldFormat> for u8 {
    fn from(val: FieldFormat) -> (value: Self) {
        val.0
    }
}

impl vstd::std_specs::convert::FromSpecImpl<FieldFormat> for u8 {
    open spec fn obeys_from_spec() -> bool {
        true
    }

    open spec fn from_spec(val: FieldFormat) -> Self {
        val.0
    }
}

impl From<u8> for Level {
    fn from(val: u8) -> (value: Self) {
        Level(val)
    }
}

impl vstd::std_specs::convert::FromSpecImpl<u8> for Level {
    open spec fn obeys_from_spec() -> bool {
        true
    }

    open spec fn from_spec(val: u8) -> Self {
        Level(val)
    }
}

impl From<Level> for u8 {
    fn from(val: Level) -> (value: Self) {
        val.0
    }
}

impl vstd::std_specs::convert::FromSpecImpl<Level> for u8 {
    open spec fn obeys_from_spec() -> bool {
        true
    }

    open spec fn from_spec(val: Level) -> Self {
        val.0
    }
}

impl From<u8> for Opcode {
    fn from(val: u8) -> (value: Self) {
        Opcode(val)
    }
}

impl vstd::std_specs::convert::FromSpecImpl<u8> for Opcode {
    open spec fn obeys_from_spec() -> bool {
        true
    }

    open spec fn from_spec(val: u8) -> Self {
        Opcode(val)
    }
}

impl From<Opcode> for u8 {
    fn from(val: Opcode) -> (value: Self) {
        val.0
    }
}

impl vstd::std_specs::convert::FromSpecImpl<Opcode> for u8 {
    open spec fn obeys_from_spec() -> bool {
        true
    }

    open spec fn from_spec(val: Opcode) -> Self {
        val.0
    }
}

} // verus!
