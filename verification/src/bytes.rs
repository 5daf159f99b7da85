//! Byte order, and the byte sequences that integers turn into on the wire.

use vstd::prelude::*;

verus! {

/// The order in which the bytes of a multi-byte integer are laid out.
#[derive(Clone, Copy, Debug, PartialEq, Eq, Structural)]
pub enum ByteOrder {
    /// Least significant byte first.
    Little,
    /// Most significant byte first.
    Big,
}

/// The two bytes of `x`, least significant first.
pub open spec fn u16_le(x: u16) -> Seq<u8> {
    seq![(x & 0xff) as u8, (x >> 8) as u8]
}

/// The four bytes of `x`, least significant first.
pub open spec fn u32_le(x: u32) -> Seq<u8> {
    seq![
        (x & 0xff) as u8,
        ((x >> 8) & 0xff) as u8,
        ((x >> 16) & 0xff) as u8,
        (x >> 24) as u8,
    ]
}

/// The eight bytes of `x`, least significant first.
pub open spec fn u64_le(x: u64) -> Seq<u8> {
    seq![
        (x & 0xff) as u8,
        ((x >> 8) & 0xff) as u8,
        ((x >> 16) & 0xff) as u8,
        ((x >> 24) & 0xff) as u8,
        ((x >> 32) & 0xff) as u8,
        ((x >> 40) & 0xff) as u8,
        ((x >> 48) & 0xff) as u8,
        (x >> 56) as u8,
    ]
}

/// The bytes of `x` in the given order.
pub open spec fn u16_bytes(order: ByteOrder, x: u16) -> Seq<u8> {
    match order {
        ByteOrder::Little => u16_le(x),
        ByteOrder::Big => u16_le(x).reverse(),
    }
}

/// The bytes of `x` in the given order.
pub open spec fn u32_bytes(order: ByteOrder, x: u32) -> Seq<u8> {
    match order {
        ByteOrder::Little => u32_le(x),
        ByteOrder::Big => u32_le(x).reverse(),
    }
}

/// The bytes of `x` in the given order.
pub open spec fn u64_bytes(order: ByteOrder, x: u64) -> Seq<u8> {
    match order {
        ByteOrder::Little => u64_le(x),
        ByteOrder::Big => u64_le(x).reverse(),
    }
}

/// The lower-case hex digit for a value below 16.
pub open spec fn hex_digit(n: u8) -> u8 {
    if n < 10 {
        (48 + n) as u8
    } else {
        (87 + n) as u8
    }
}

/// Reading `u16_le` backwards gives the high byte first.
pub proof fn lemma_u16_big(x: u16)
    ensures
        u16_bytes(ByteOrder::Big, x) =~= seq![(x >> 8) as u8, (x & 0xff) as u8],
{
    let s = u16_le(x);
    assert(s.len() == 2);
    assert(s.reverse()[0] == s[1]);
    assert(s.reverse()[1] == s[0]);
}

/// Reading `u32_le` backwards gives the high byte first.
pub proof fn lemma_u32_big(x: u32)
    ensures
        u32_bytes(ByteOrder::Big, x) =~= seq![
            (x >> 24) as u8,
            ((x >> 16) & 0xff) as u8,
            ((x >> 8) & 0xff) as u8,
            (x & 0xff) as u8,
        ],
{
    let s = u32_le(x);
    assert(s.len() == 4);
    assert(s.reverse()[0] == s[3]);
    assert(s.reverse()[1] == s[2]);
    assert(s.reverse()[2] == s[1]);
    assert(s.reverse()[3] == s[0]);
}

/// Reading `u64_le` backwards gives the high byte first.
pub proof fn lemma_u64_big(x: u64)
    ensures
        u64_bytes(ByteOrder::Big, x) =~= seq![
            (x >> 56) as u8,
            ((x >> 48) & 0xff) as u8,
            ((x >> 40) & 0xff) as u8,
            ((x >> 32) & 0xff) as u8,
            ((x >> 24) & 0xff) as u8,
            ((x >> 16) & 0xff) as u8,
            ((x >> 8) & 0xff) as u8,
            (x & 0xff) as u8,
        ],
{
    let s = u64_le(x);
    assert(s.len() == 8);
    assert(s.reverse()[0] == s[7]);
    assert(s.reverse()[1] == s[6]);
    assert(s.reverse()[2] == s[5]);
    assert(s.reverse()[3] == s[4]);
    assert(s.reverse()[4] == s[3]);
    assert(s.reverse()[5] == s[2]);
    assert(s.reverse()[6] == s[1]);
    assert(s.reverse()[7] == s[0]);
}

/// Calls `u16::to_ne_bytes`, which returns the two bytes of `x` as the
/// machine lays them out in memory: one of the two orders, and nothing here
/// says which.
#[verifier::external_body]
fn u16_to_ne_bytes(x: u16) -> (bytes: [u8; 2])
    ensures
        bytes@ == u16_bytes(ByteOrder::Little, x) || bytes@ == u16_bytes(ByteOrder::Big, x),
{
    x.to_ne_bytes()
}

impl ByteOrder {
    /// The byte order of the machine this runs on.
    pub fn native() -> (order: ByteOrder) {
        Self::of_layout(u16_to_ne_bytes(1))
    }

    /// The byte order that a layout of the 16-bit number 1 shows: little
    /// where the byte that holds the 1 comes first, big where it comes last.
    pub open spec fn spec_of_layout(bytes: Seq<u8>) -> ByteOrder {
        if bytes[0] == 1 {
            ByteOrder::Little
        } else {
            ByteOrder::Big
        }
    }

    /// Reads the byte order off the two bytes that the 16-bit number 1 is
    /// laid out as. Where the bytes are such a layout, the order that comes
    /// back is the one that lays the number out in just that way.
    pub fn of_layout(bytes: [u8; 2]) -> (order: ByteOrder)
        ensures
            order == Self::spec_of_layout(bytes@),
            bytes@ == u16_bytes(ByteOrder::Little, 1) || bytes@ == u16_bytes(ByteOrder::Big, 1)
                ==> u16_bytes(order, 1) == bytes@,
    {
        proof {
            lemma_u16_big(1);
            assert((1u16 & 0xff) as u8 == 1 && (1u16 >> 8) as u8 == 0) by (bit_vector);
        }
        if bytes[0] == 1 {
            ByteOrder::Little
        } else {
            ByteOrder::Big
        }
    }

    /// True for `Little`.
    pub fn is_little(self) -> (little: bool)
        ensures
            little == (self == ByteOrder::Little),
    {
        match self {
            ByteOrder::Little => true,
            ByteOrder::Big => false,
        }
    }
}

/// Appends the two bytes of `x` to `buf` in the given order.
pub fn push_u16(buf: &mut Vec<u8>, order: ByteOrder, x: u16)
    ensures
        final(buf)@ == old(buf)@ + u16_bytes(order, x),
{
    let lo = (x & 0xff) as u8;
    let hi = (x >> 8) as u8;
    proof {
        lemma_u16_big(x);
    }
    match order {
        ByteOrder::Little => {
            buf.push(lo);
            buf.push(hi);
        },
        ByteOrder::Big => {
            buf.push(hi);
            buf.push(lo);
        },
    }
    assert(buf@ =~= old(buf)@ + u16_bytes(order, x));
}

/// Appends the four bytes of `x` to `buf` in the given order.
pub fn push_u32(buf: &mut Vec<u8>, order: ByteOrder, x: u32)
    ensures
        final(buf)@ == old(buf)@ + u32_bytes(order, x),
{
    let b0 = (x & 0xff) as u8;
    let b1 = ((x >> 8) & 0xff) as u8;
    let b2 = ((x >> 16) & 0xff) as u8;
    let b3 = (x >> 24) as u8;
    proof {
        lemma_u32_big(x);
    }
    match order {
        ByteOrder::Little => {
            buf.push(b0);
            buf.push(b1);
            buf.push(b2);
            buf.push(b3);
        },
        ByteOrder::Big => {
            buf.push(b3);
            buf.push(b2);
            buf.push(b1);
            buf.push(b0);
        },
    }
    assert(buf@ =~= old(buf)@ + u32_bytes(order, x));
}

/// Appends the eight bytes of `x` to `buf` in the given order.
pub fn push_u64(buf: &mut Vec<u8>, order: ByteOrder, x: u64)
    ensures
        final(buf)@ == old(buf)@ + u64_bytes(order, x),
{
    let b0 = (x & 0xff) as u8;
    let b1 = ((x >> 8) & 0xff) as u8;
    let b2 = ((x >> 16) & 0xff) as u8;
    let b3 = ((x >> 24) & 0xff) as u8;
    let b4 = ((x >> 32) & 0xff) as u8;
    let b5 = ((x >> 40) & 0xff) as u8;
    let b6 = ((x >> 48) & 0xff) as u8;
    let b7 = (x >> 56) as u8;
    proof {
        lemma_u64_big(x);
    }
    match order {
        ByteOrder::Little => {
            buf.push(b0);
            buf.push(b1);
            buf.push(b2);
            buf.push(b3);
            buf.push(b4);
            buf.push(b5);
            buf.push(b6);
            buf.push(b7);
        },
        ByteOrder::Big => {
            buf.push(b7);
            buf.push(b6);
            buf.push(b5);
            buf.push(b4);
            buf.push(b3);
            buf.push(b2);
            buf.push(b1);
            buf.push(b0);
        },
    }
    assert(buf@ =~= old(buf)@ + u64_bytes(order, x));
}

} // verus!
