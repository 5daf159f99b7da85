//! SHA-1 over public data, as a streaming hasher.
//!
//! The hasher is meant for deriving identifiers from names. It takes no
//! steps to keep its input secret and must not be used on private data.

use vstd::prelude::*;
use crate::bytes::{push_u32, u32_bytes, u64_bytes, ByteOrder};

verus! {

/// The five working words of SHA-1.
pub struct Sha1Words {
    pub a: u32,
    pub b: u32,
    pub c: u32,
    pub d: u32,
    pub e: u32,
}

/// `x` rotated left by `n` bits, for `0 < n < 32`.
pub open spec fn spec_rotl(x: u32, n: u32) -> u32 {
    (x << n) | (x >> ((32 - n) as u32))
}

/// The big-endian word made of four bytes.
pub open spec fn spec_be_word(b0: u8, b1: u8, b2: u8, b3: u8) -> u32 {
    ((b0 as u32) << 24) | ((b1 as u32) << 16) | ((b2 as u32) << 8) | (b3 as u32)
}

/// Word `t` of the message schedule of a 64-byte block, `0 <= t < 80`.
pub open spec fn schedule(block: Seq<u8>, t: int) -> u32
    decreases t,
{
    if t < 0 {
        0
    } else if t < 16 {
        spec_be_word(block[4 * t], block[4 * t + 1], block[4 * t + 2], block[4 * t + 3])
    } else {
        spec_rotl(
            schedule(block, t - 3) ^ schedule(block, t - 8) ^ schedule(block, t - 14) ^ schedule(
                block,
                t - 16,
            ),
            1,
        )
    }
}

/// The round function of round `t`.
pub open spec fn round_f(t: int, b: u32, c: u32, d: u32) -> u32 {
    if t < 20 {
        (b & c) | (!b & d)
    } else if t < 40 {
        b ^ c ^ d
    } else if t < 60 {
        (b & c) | (b & d) | (c & d)
    } else {
        b ^ c ^ d
    }
}

/// The round constant of round `t`.
pub open spec fn round_k(t: int) -> u32 {
    if t < 20 {
        0x5A827999
    } else if t < 40 {
        0x6ED9EBA1
    } else if t < 60 {
        0x8F1BBCDC
    } else {
        0xCA62C1D6
    }
}

/// One round: the working words after round `t` with schedule word `w`.
pub open spec fn round_step(v: Sha1Words, t: int, w: u32) -> Sha1Words {
    Sha1Words {
        a: spec_rotl(v.a, 5).wrapping_add(round_f(t, v.b, v.c, v.d)).wrapping_add(v.e).wrapping_add(
            round_k(t),
        ).wrapping_add(w),
        b: v.a,
        c: spec_rotl(v.b, 30),
        d: v.c,
        e: v.d,
    }
}

/// The working words after the first `t` rounds on `block`, starting from `h`.
pub open spec fn rounds(h: Sha1Words, block: Seq<u8>, t: int) -> Sha1Words
    decreases t,
{
    if t <= 0 {
        h
    } else {
        round_step(rounds(h, block, t - 1), t - 1, schedule(block, t - 1))
    }
}

/// The chaining value after absorbing one 64-byte block.
pub open spec fn compress(h: Sha1Words, block: Seq<u8>) -> Sha1Words {
    let v = rounds(h, block, 80);
    Sha1Words {
        a: h.a.wrapping_add(v.a),
        b: h.b.wrapping_add(v.b),
        c: h.c.wrapping_add(v.c),
        d: h.d.wrapping_add(v.d),
        e: h.e.wrapping_add(v.e),
    }
}

/// The initial chaining value.
pub open spec fn initial_words() -> Sha1Words {
    Sha1Words { a: 0x67452301, b: 0xEFCDAB89, c: 0x98BADCFE, d: 0x10325476, e: 0xC3D2E1F0 }
}

/// The chaining value after absorbing the first `n` whole blocks of `data`.
pub open spec fn absorb(data: Seq<u8>, n: int) -> Sha1Words
    decreases n,
{
    if n <= 0 {
        initial_words()
    } else {
        compress(absorb(data, n - 1), data.subrange(64 * (n - 1), 64 * n))
    }
}

/// The number of zero bytes in the padding of a message of `len` bytes.
pub open spec fn pad_zeros(len: nat) -> nat {
    ((119 - len % 64) % 64) as nat
}

/// The length field of the padding: the message length in bits, modulo 2^64.
pub open spec fn bit_length(len: nat) -> u64 {
    ((len * 8) % 0x1_0000_0000_0000_0000) as u64
}

/// The padding that follows a message of `len` bytes: the end bit, zeros up
/// to eight bytes before a block boundary, and the big-endian bit length.
pub open spec fn padding(len: nat) -> Seq<u8> {
    seq![0x80u8] + Seq::new(pad_zeros(len), |i: int| 0u8) + u64_bytes(
        ByteOrder::Big,
        bit_length(len),
    )
}

/// The twenty bytes of a chaining value, each word big-endian.
pub open spec fn words_bytes(h: Sha1Words) -> Seq<u8> {
    u32_bytes(ByteOrder::Big, h.a) + u32_bytes(ByteOrder::Big, h.b) + u32_bytes(
        ByteOrder::Big,
        h.c,
    ) + u32_bytes(ByteOrder::Big, h.d) + u32_bytes(ByteOrder::Big, h.e)
}

/// The SHA-1 digest of `msg`.
pub open spec fn sha1(msg: Seq<u8>) -> Seq<u8> {
    let padded = msg + padding(msg.len());
    words_bytes(absorb(padded, padded.len() as int / 64))
}

/// `absorb` reads only the first `n` blocks: two inputs that agree on them
/// give the same chaining value.
pub proof fn lemma_absorb_prefix(d1: Seq<u8>, d2: Seq<u8>, n: int)
    requires
        0 <= n,
        64 * n <= d1.len(),
        64 * n <= d2.len(),
        d1.subrange(0, 64 * n) == d2.subrange(0, 64 * n),
    ensures
        absorb(d1, n) == absorb(d2, n),
    decreases n,
{
    if n > 0 {
        assert(d1.subrange(0, 64 * (n - 1)) =~= d1.subrange(0, 64 * n).subrange(0, 64 * (n - 1)));
        assert(d2.subrange(0, 64 * (n - 1)) =~= d2.subrange(0, 64 * n).subrange(0, 64 * (n - 1)));
        lemma_absorb_prefix(d1, d2, n - 1);
        assert(d1.subrange(64 * (n - 1), 64 * n) =~= d1.subrange(0, 64 * n).subrange(
            64 * (n - 1),
            64 * n,
        ));
        assert(d2.subrange(64 * (n - 1), 64 * n) =~= d2.subrange(0, 64 * n).subrange(
            64 * (n - 1),
            64 * n,
        ));
    }
}

fn rotl(x: u32, n: u32) -> (r: u32)
    requires
        0 < n < 32,
    ensures
        r == spec_rotl(x, n),
{
    (x << n) | (x >> (32 - n))
}

fn be_word(b0: u8, b1: u8, b2: u8, b3: u8) -> (r: u32)
    ensures
        r == spec_be_word(b0, b1, b2, b3),
{
    ((b0 as u32) << 24) | ((b1 as u32) << 16) | ((b2 as u32) << 8) | (b3 as u32)
}

fn step(v: Sha1Words, f: u32, k: u32, w: u32, Ghost(t): Ghost<int>) -> (r: Sha1Words)
    requires
        f == round_f(t, v.b, v.c, v.d),
        k == round_k(t),
    ensures
        r == round_step(v, t, w),
{
    let temp = rotl(v.a, 5).wrapping_add(f).wrapping_add(v.e).wrapping_add(k).wrapping_add(w);
    Sha1Words { a: temp, b: v.a, c: rotl(v.b, 30), d: v.c, e: v.d }
}

/// A streaming SHA-1 hasher. Its view is the message written so far.
pub struct Sha1NonSecret {
    chunk: [u8; 64],
    length: u64,
    chunk_pos: u8,
    results: Sha1Words,
    message: Ghost<Seq<u8>>,
}

impl View for Sha1NonSecret {
    type V = Seq<u8>;

    closed spec fn view(&self) -> Seq<u8> {
        self.message@
    }
}

impl Sha1NonSecret {
    /// The invariant that ties the buffered block, the byte count and the
    /// chaining value to the message written so far.
    pub closed spec fn wf(&self) -> bool {
        let msg = self.message@;
        let whole = msg.len() as int / 64;
        &&& self.chunk_pos as int == msg.len() as int % 64
        &&& self.length as int == msg.len() as int % 0x1_0000_0000_0000_0000
        &&& self.results == absorb(msg, whole)
        &&& forall|i: int|
            0 <= i < self.chunk_pos as int ==> #[trigger] self.chunk@[i] == msg[64 * whole + i]
    }

    /// A hasher that has been given no data.
    pub fn new() -> (hasher: Sha1NonSecret)
        ensures
            hasher.wf(),
            hasher@ == Seq::<u8>::empty(),
    {
        Sha1NonSecret {
            chunk: [0u8; 64],
            length: 0,
            chunk_pos: 0,
            results: Sha1Words {
                a: 0x67452301,
                b: 0xEFCDAB89,
                c: 0x98BADCFE,
                d: 0x10325476,
                e: 0xC3D2E1F0,
            },
            message: Ghost(Seq::empty()),
        }
    }

    /// Appends one byte to the message.
    pub fn write_u8(&mut self, val: u8)
        requires
            old(self).wf(),
        ensures
            final(self).wf(),
            final(self)@ == old(self)@.push(val),
    {
        let ghost old_msg = self.message@;
        let ghost whole = old_msg.len() as int / 64;
        let pos = self.chunk_pos as usize;
        self.chunk[pos] = val;
        self.length = self.length.wrapping_add(1);
        self.message = Ghost(old_msg.push(val));
        let ghost new_msg = self.message@;
        assert(forall|i: int|
            0 <= i <= pos as int ==> #[trigger] self.chunk@[i] == new_msg[64 * whole + i]);
        if pos == 63 {
            self.chunk_pos = 0;
            self.drain();
            proof {
                assert(new_msg.len() as int / 64 == whole + 1);
                assert(new_msg.subrange(0, 64 * whole) =~= old_msg.subrange(0, 64 * whole));
                lemma_absorb_prefix(new_msg, old_msg, whole);
                assert(self.chunk@ =~= new_msg.subrange(64 * whole, 64 * (whole + 1)));
            }
        } else {
            self.chunk_pos = (pos + 1) as u8;
            proof {
                assert(new_msg.len() as int / 64 == whole);
                assert(new_msg.subrange(0, 64 * whole) =~= old_msg.subrange(0, 64 * whole));
                lemma_absorb_prefix(new_msg, old_msg, whole);
            }
        }
    }

    /// Appends `bytes` to the message.
    pub fn write(&mut self, bytes: &[u8])
        requires
            old(self).wf(),
        ensures
            final(self).wf(),
            final(self)@ == old(self)@ + bytes@,
    {
        let mut i: usize = 0;
        while i < bytes.len()
            invariant
                i <= bytes.len(),
                self.wf(),
                self@ == old(self)@ + bytes@.subrange(0, i as int),
            decreases bytes.len() - i,
        {
            self.write_u8(bytes[i]);
            assert(bytes@.subrange(0, i as int).push(bytes@[i as int]) =~= bytes@.subrange(
                0,
                i as int + 1,
            ));
            i += 1;
        }
        assert(bytes@.subrange(0, i as int) =~= bytes@);
    }

    /// Pads the message and returns its SHA-1 digest. The hasher is spent:
    /// what it holds afterwards is the padded message.
    pub fn finish(&mut self) -> (digest: [u8; 20])
        requires
            old(self).wf(),
        ensures
            digest@ == sha1(old(self)@),
            final(self).wf(),
            final(self)@ == old(self)@ + padding(old(self)@.len()),
    {
        self.pad();
        self.digest()
    }

    /// Appends the padding of the message written so far.
    fn pad(&mut self)
        requires
            old(self).wf(),
        ensures
            final(self).wf(),
            final(self)@ == old(self)@ + padding(old(self)@.len()),
    {
        let ghost msg = self.message@;
        let ghost len = msg.len();
        let total_bit_count: u64 = self.length.wrapping_mul(8);
        proof {
            vstd::arithmetic::div_mod::lemma_mul_mod_noop_left(
                len as int,
                8,
                0x1_0000_0000_0000_0000,
            );
            assert(total_bit_count == bit_length(len));
        }

        self.write_u8(0x80);

        let ghost mut zeros: nat = 0;
        while self.chunk_pos != 56
            invariant
                self.wf(),
                zeros <= pad_zeros(len),
                self@ == msg + seq![0x80u8] + Seq::new(zeros, |i: int| 0u8),
                len == msg.len(),
            decreases pad_zeros(len) - zeros,
        {
            self.write_u8(0);
            proof {
                assert((msg + seq![0x80u8] + Seq::new(zeros, |i: int| 0u8)).push(0u8) =~= msg
                    + seq![0x80u8] + Seq::new(zeros + 1, |i: int| 0u8));
                zeros = zeros + 1;
            }
        }
        assert(zeros == pad_zeros(len));

        let mut length_bytes: Vec<u8> = Vec::new();
        crate::bytes::push_u64(&mut length_bytes, ByteOrder::Big, total_bit_count);
        self.write(length_bytes.as_slice());
        assert(length_bytes@ =~= u64_bytes(ByteOrder::Big, bit_length(len)));
        assert(self@ =~= msg + padding(len));
    }

    /// The chaining value as twenty bytes, once the padded message ends on
    /// a block boundary.
    fn digest(&self) -> (digest: [u8; 20])
        requires
            self.wf(),
            self@.len() % 64 == 0,
        ensures
            digest@ == words_bytes(absorb(self@, self@.len() as int / 64)),
    {
        let mut out: Vec<u8> = Vec::new();
        push_u32(&mut out, ByteOrder::Big, self.results.a);
        push_u32(&mut out, ByteOrder::Big, self.results.b);
        push_u32(&mut out, ByteOrder::Big, self.results.c);
        push_u32(&mut out, ByteOrder::Big, self.results.d);
        push_u32(&mut out, ByteOrder::Big, self.results.e);
        assert(out@ =~= words_bytes(self.results));
        assert(out@.len() == 20);
        let mut digest = [0u8; 20];
        let mut i: usize = 0;
        while i < 20
            invariant
                i <= 20,
                out@.len() == 20,
                forall|j: int| 0 <= j < i ==> digest@[j] == out@[j],
            decreases 20 - i,
        {
            digest[i] = out[i];
            i += 1;
        }
        assert(digest@ =~= out@);
        digest
    }

    /// Absorbs the buffered block into the chaining value.
    fn drain(&mut self)
        ensures
            final(self).results == compress(old(self).results, old(self).chunk@),
            final(self).chunk == old(self).chunk,
            final(self).length == old(self).length,
            final(self).chunk_pos == old(self).chunk_pos,
            final(self).message == old(self).message,
    {
        let ghost block = self.chunk@;
        let h = Sha1Words {
            a: self.results.a,
            b: self.results.b,
            c: self.results.c,
            d: self.results.d,
            e: self.results.e,
        };
        let mut w = [0u32; 80];

        let mut wpos: usize = 0;
        while wpos != 16
            invariant
                wpos <= 16,
                block == self.chunk@,
                forall|j: int| 0 <= j < wpos ==> #[trigger] w@[j] == schedule(block, j),
            decreases 16 - wpos,
        {
            w[wpos] = be_word(
                self.chunk[wpos * 4],
                self.chunk[wpos * 4 + 1],
                self.chunk[wpos * 4 + 2],
                self.chunk[wpos * 4 + 3],
            );
            wpos += 1;
        }

        while wpos != 80
            invariant
                16 <= wpos <= 80,
                forall|j: int| 0 <= j < wpos ==> #[trigger] w@[j] == schedule(block, j),
            decreases 80 - wpos,
        {
            let next = rotl(w[wpos - 3] ^ w[wpos - 8] ^ w[wpos - 14] ^ w[wpos - 16], 1);
            assert(next == schedule(block, wpos as int));
            w[wpos] = next;
            wpos += 1;
        }

        let mut v = Sha1Words { a: h.a, b: h.b, c: h.c, d: h.d, e: h.e };

        wpos = 0;
        while wpos != 20
            invariant
                wpos <= 20,
                forall|j: int| 0 <= j < 80 ==> #[trigger] w@[j] == schedule(block, j),
                v == rounds(h, block, wpos as int),
            decreases 20 - wpos,
        {
            let f = (v.b & v.c) | (!v.b & v.d);
            v = step(v, f, 0x5A827999, w[wpos], Ghost(wpos as int));
            wpos += 1;
        }

        while wpos != 40
            invariant
                20 <= wpos <= 40,
                forall|j: int| 0 <= j < 80 ==> #[trigger] w@[j] == schedule(block, j),
                v == rounds(h, block, wpos as int),
            decreases 40 - wpos,
        {
            let f = v.b ^ v.c ^ v.d;
            v = step(v, f, 0x6ED9EBA1, w[wpos], Ghost(wpos as int));
            wpos += 1;
        }

        while wpos != 60
            invariant
                40 <= wpos <= 60,
                forall|j: int| 0 <= j < 80 ==> #[trigger] w@[j] == schedule(block, j),
                v == rounds(h, block, wpos as int),
            decreases 60 - wpos,
        {
            let f = (v.b & v.c) | (v.b & v.d) | (v.c & v.d);
            v = step(v, f, 0x8F1BBCDC, w[wpos], Ghost(wpos as int));
            wpos += 1;
        }

        while wpos != 80
            invariant
                60 <= wpos <= 80,
                forall|j: int| 0 <= j < 80 ==> #[trigger] w@[j] == schedule(block, j),
                v == rounds(h, block, wpos as int),
            decreases 80 - wpos,
        {
            let f = v.b ^ v.c ^ v.d;
            v = step(v, f, 0xCA62C1D6, w[wpos], Ghost(wpos as int));
            wpos += 1;
        }

        self.results = Sha1Words {
            a: h.a.wrapping_add(v.a),
            b: h.b.wrapping_add(v.b),
            c: h.c.wrapping_add(v.c),
            d: h.d.wrapping_add(v.d),
            e: h.e.wrapping_add(v.e),
        };
    }
}

} // verus!
