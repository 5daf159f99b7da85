//! The fixed-layout pieces of an event: its header, the header of an
//! extension block, and the descriptor of a block of payload bytes.

use vstd::prelude::*;
use crate::bytes::{push_u16, u16_bytes, ByteOrder};
use crate::enums::{ExtensionKind, HeaderFlags, Level, Opcode};

verus! {

/// The eight bytes that start every event.
#[derive(Clone, Copy, Debug, PartialEq, Eq, Structural, Hash)]
pub struct EventHeader {
    /// Pointer width and byte order of the producer, and whether extension
    /// blocks follow.
    pub flags: HeaderFlags,
    /// 0 unless the event has a manually assigned stable id.
    pub version: u8,
    /// 0 unless the event has a manually assigned stable id.
    pub id: u16,
    /// Provider-defined 16-bit value.
    pub tag: u16,
    /// Special semantics of the event.
    pub opcode: Opcode,
    /// Severity of the event.
    pub level: Level,
}

/// The four bytes that start an extension block; `size` bytes of data follow.
#[derive(Clone, Copy, Debug, PartialEq, Eq, Structural, Hash)]
pub struct EventHeaderExtension {
    /// Size in bytes of the data that follows this header.
    pub size: u16,
    /// Kind of the data, with the chain flag in the top bit.
    pub kind: ExtensionKind,
}

/// The wire form of a header: flags, version, id, tag, opcode, level, with
/// no padding, the 16-bit fields in the given byte order.
pub open spec fn header_bytes(header: EventHeader, order: ByteOrder) -> Seq<u8> {
    seq![header.flags.0, header.version] + u16_bytes(order, header.id) + u16_bytes(
        order,
        header.tag,
    ) + seq![header.opcode.0, header.level.0]
}

/// The wire form of an extension header: size, then kind.
pub open spec fn extension_bytes(extension: EventHeaderExtension, order: ByteOrder) -> Seq<u8> {
    u16_bytes(order, extension.size) + u16_bytes(order, extension.kind.0)
}

impl EventHeader {
    /// A header for an informational event of the given level, with the
    /// flags of this machine.
    pub fn new(level: Level, has_extension: bool) -> (header: EventHeader)
        ensures
            header.flags == HeaderFlags::spec_for_target(
                usize::BITS == 64,
                header.flags.spec_is_little_endian(),
                has_extension,
            ),
            header.version == 0,
            header.id == 0,
            header.tag == 0,
            header.opcode == Opcode(0),
            header.level == level,
    {
        EventHeader {
            flags: HeaderFlags::native(has_extension),
            version: 0,
            id: 0,
            tag: 0,
            opcode: Opcode::info(),
            level,
        }
    }

    /// A header made of the given values.
    pub fn from_parts(
        flags: HeaderFlags,
        version: u8,
        id: u16,
        tag: u16,
        opcode: Opcode,
        level: Level,
    ) -> (header: EventHeader)
        ensures
            header == (EventHeader { flags, version, id, tag, opcode, level }),
    {
        EventHeader { flags, version, id, tag, opcode, level }
    }

    /// Appends the wire form of the header to `buf`.
    pub fn append_to(&self, buf: &mut Vec<u8>, order: ByteOrder)
        ensures
            final(buf)@ == old(buf)@ + header_bytes(*self, order),
    {
        buf.push(self.flags.as_int());
        buf.push(self.version);
        push_u16(buf, order, self.id);
        push_u16(buf, order, self.tag);
        buf.push(self.opcode.as_int());
        buf.push(self.level.as_int());
        assert(buf@ =~= old(buf)@ + header_bytes(*self, order));
    }
}

impl EventHeaderExtension {
    /// A header for an extension block of the given kind, with size 0.
    pub fn new(kind: ExtensionKind) -> (extension: Self)
        ensures
            extension == (EventHeaderExtension { size: 0, kind }),
    {
        Self { size: 0, kind }
    }

    /// A header made of the given values; `chain` sets the chain flag.
    pub fn from_parts(size: u16, kind: ExtensionKind, chain: bool) -> (extension: Self)
        ensures
            extension.size == size,
            extension.kind == (if chain {
                ExtensionKind(kind.0 | 0x8000)
            } else {
                kind
            }),
    {
        Self {
            size,
            kind: if chain {
                ExtensionKind::from_int(kind.as_int() | ExtensionKind::ChainFlag)
            } else {
                kind
            },
        }
    }

    /// Appends the wire form of the extension header to `buf`.
    pub fn append_to(&self, buf: &mut Vec<u8>, order: ByteOrder)
        ensures
            final(buf)@ == old(buf)@ + extension_bytes(*self, order),
    {
        push_u16(buf, order, self.size);
        push_u16(buf, order, self.kind.as_int());
        assert(buf@ =~= old(buf)@ + extension_bytes(*self, order));
    }
}

/// The index of the first zero in `s`, or the length of `s` if it has none.
pub open spec fn first_zero(s: Seq<u8>) -> nat
    decreases s.len(),
{
    if s.len() == 0 || s[0] == 0 {
        0
    } else {
        1 + first_zero(s.drop_first())
    }
}

/// Nothing before `first_zero` is zero, and what stands there is, unless
/// the sequence has run out.
pub proof fn lemma_first_zero(s: Seq<u8>)
    ensures
        first_zero(s) <= s.len(),
        forall|i: int| 0 <= i < first_zero(s) ==> s[i] != 0,
        first_zero(s) < s.len() ==> s[first_zero(s) as int] == 0,
    decreases s.len(),
{
    if s.len() != 0 && s[0] != 0 {
        lemma_first_zero(s.drop_first());
        assert forall|i: int| 0 <= i < first_zero(s) implies s[i] != 0 by {
            if i > 0 {
                assert(s.drop_first()[i - 1] == s[i]);
            }
        }
    }
}

/// A position with nothing but non-zero bytes before it, and a zero or the
/// end at it, is `first_zero`.
pub proof fn lemma_first_zero_is(s: Seq<u8>, n: int)
    requires
        0 <= n <= s.len(),
        forall|i: int| 0 <= i < n ==> s[i] != 0,
        n < s.len() ==> s[n] == 0,
    ensures
        first_zero(s) == n,
    decreases s.len(),
{
    if n > 0 {
        assert(s[0] != 0);
        assert forall|i: int| 0 <= i < n - 1 implies s.drop_first()[i] != 0 by {
            assert(s.drop_first()[i] == s[i + 1]);
        }
        lemma_first_zero_is(s.drop_first(), n - 1);
    }
}

/// The smaller of two lengths.
pub open spec fn min_len(a: nat, b: nat) -> nat {
    if a <= b {
        a
    } else {
        b
    }
}

/// A block of bytes that is to be sent as part of an event.
#[derive(Clone, Copy, Debug)]
pub struct EventDataDescriptor<'a> {
    bytes: &'a [u8],
}

impl<'a> View for EventDataDescriptor<'a> {
    type V = Seq<u8>;

    closed spec fn view(&self) -> Seq<u8> {
        self.bytes@
    }
}

impl<'a> EventDataDescriptor<'a> {
    /// A descriptor of no bytes.
    pub fn zero() -> (descriptor: Self)
        ensures
            descriptor@ == Seq::<u8>::empty(),
    {
        let empty: &'static [u8] = &[];
        assert(empty@ =~= Seq::<u8>::empty());
        Self { bytes: empty }
    }

    /// True if the descriptor holds no bytes.
    pub fn is_empty(&self) -> (empty: bool)
        ensures
            empty == (self@.len() == 0),
    {
        self.bytes.len() == 0
    }

    /// A descriptor of the given bytes.
    pub fn from_bytes(value: &'a [u8]) -> (descriptor: Self)
        ensures
            descriptor@ == value@,
    {
        Self { bytes: value }
    }

    /// A descriptor of a zero-terminated string of bytes, without its
    /// terminator: the bytes before the first zero, and no more than 65535.
    pub fn from_cstr(value: &'a [u8]) -> (descriptor: Self)
        ensures
            descriptor@ == value@.subrange(
                0,
                min_len(first_zero(value@), 65535) as int,
            ),
    {
        let mut value_len = value.len();
        if value_len > 65535 {
            value_len = 65535;
        }
        let mut len: usize = 0;
        while len < value_len && value[len] != 0
            invariant
                len <= value_len <= value@.len(),
                forall|i: int| 0 <= i < len ==> value@[i] != 0,
            decreases value_len - len,
        {
            len += 1;
        }
        proof {
            lemma_first_zero(value@);
            if len < value_len {
                lemma_first_zero_is(value@, len as int);
            } else {
                assert(first_zero(value@) >= len) by {
                    if first_zero(value@) < len {
                        assert(value@[first_zero(value@) as int] == 0);
                    }
                }
            }
        }
        Self { bytes: vstd::slice::slice_subrange(value, 0, len) }
    }

    /// A descriptor of the elements of a variable-length array of bytes:
    /// the first 65535 of them at most.
    pub fn from_slice(value: &'a [u8]) -> (descriptor: Self)
        ensures
            descriptor@ == value@.subrange(0, min_len(value@.len(), 65535) as int),
    {
        if 65535 < value.len() {
            Self { bytes: vstd::slice::slice_subrange(value, 0, 65535) }
        } else {
            assert(value@.subrange(0, value@.len() as int) =~= value@);
            Self { bytes: value }
        }
    }

    /// The bytes that the descriptor describes.
    pub fn as_bytes(&self) -> (bytes: &'a [u8])
        ensures
            bytes@ == self@,
    {
        self.bytes
    }
}

impl<'a> Default for EventDataDescriptor<'a> {
    fn default() -> (descriptor: Self)
        ensures
            descriptor@ == Seq::<u8>::empty(),
    {
        Self::zero()
    }
}

/// The element count of a variable-length array field: the length of
/// `value`, or 65535 if it is longer.
pub fn slice_count<T>(value: &[T]) -> (count: u16)
    ensures
        count as nat == min_len(value@.len(), 65535),
{
    let len = value.len();
    if 65535 < len {
        65535
    } else {
        len as u16
    }
}

} // verus!
