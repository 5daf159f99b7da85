//! The command string that registers a tracepoint with the kernel.

use vstd::prelude::*;
use crate::enums::Level;
use crate::bytes::hex_digit;
use crate::internal::EVENTHEADER_COMMAND_TYPES;
use vstd::string::StringSliceAdditionalSpecFns;

verus! {

/// The lower-case hex digits of `x`, without leading zeros; `0` for zero.
pub open spec fn hex_digits(x: u64) -> Seq<u8>
    decreases x,
{
    if x < 16 {
        seq![hex_digit(x as u8)]
    } else {
        hex_digits(x / 16).push(hex_digit((x % 16) as u8))
    }
}

/// A blank and the field list that every tracepoint is registered with.
pub open spec fn command_types() -> Seq<u8> {
    seq![32u8] + EVENTHEADER_COMMAND_TYPES.spec_bytes()
}

/// The name under which the kernel knows a tracepoint:
/// `ProviderName_L<level>K<keyword><options>`, level and keyword in hex.
pub open spec fn tracepoint_name(
    provider_name: Seq<u8>,
    provider_options: Seq<u8>,
    level: Level,
    keyword: u64,
) -> Seq<u8> {
    provider_name + seq![95u8, 76u8] + hex_digits(level.0 as u64) + seq![75u8] + hex_digits(
        keyword,
    ) + provider_options
}

/// The command that registers a tracepoint: its name, a blank, the field
/// list, and a terminating zero.
pub open spec fn command_string(
    provider_name: Seq<u8>,
    provider_options: Seq<u8>,
    level: Level,
    keyword: u64,
) -> Seq<u8> {
    tracepoint_name(provider_name, provider_options, level, keyword) + command_types() + seq![
        0u8,
    ]
}

/// Appends the hex digits of `x` to `buf`.
fn push_hex(buf: &mut Vec<u8>, x: u64)
    ensures
        final(buf)@ == old(buf)@ + hex_digits(x),
    decreases x,
{
    if x >= 16 {
        push_hex(buf, x / 16);
    }
    let n = (x % 16) as u8;
    let digit: u8 = if n < 10 {
        48 + n
    } else {
        87 + n
    };
    buf.push(digit);
    assert(buf@ =~= old(buf)@ + hex_digits(x));
}

/// Appends `bytes` to `buf`.
fn push_all(buf: &mut Vec<u8>, bytes: &[u8])
    ensures
        final(buf)@ == old(buf)@ + bytes@,
{
    let mut i: usize = 0;
    while i < bytes.len()
        invariant
            i <= bytes@.len(),
            buf@ == old(buf)@ + bytes@.subrange(0, i as int),
        decreases bytes@.len() - i,
    {
        buf.push(bytes[i]);
        assert(bytes@.subrange(0, i as int).push(bytes@[i as int]) =~= bytes@.subrange(0, i + 1));
        i += 1;
    }
    assert(bytes@.subrange(0, i as int) =~= bytes@);
}

/// A reusable buffer in which command strings are put together.
#[derive(Debug)]
pub struct CommandString {
    buf: Vec<u8>,
}

impl View for CommandString {
    type V = Seq<u8>;

    closed spec fn view(&self) -> Seq<u8> {
        self.buf@
    }
}

impl CommandString {
    /// An empty buffer.
    pub fn new() -> (command: Self)
        ensures
            command@ == Seq::<u8>::empty(),
    {
        Self { buf: Vec::new() }
    }

    /// Puts together the command for the given provider, level and
    /// keyword, and returns it: its last byte is the terminating zero.
    pub fn format(
        &mut self,
        provider_name: &[u8],
        provider_options: &[u8],
        level: Level,
        keyword: u64,
    ) -> (command: &[u8])
        ensures
            command@ == command_string(provider_name@, provider_options@, level, keyword),
            final(self)@ == command@,
    {
        self.buf.clear();
        push_all(&mut self.buf, provider_name);
        self.buf.push(95);
        self.buf.push(76);
        push_hex(&mut self.buf, level.as_int() as u64);
        self.buf.push(75);
        push_hex(&mut self.buf, keyword);
        push_all(&mut self.buf, provider_options);
        self.buf.push(32);
        push_all(&mut self.buf, EVENTHEADER_COMMAND_TYPES.as_bytes());
        self.buf.push(0);
        assert(self.buf@ =~= command_string(provider_name@, provider_options@, level, keyword));
        self.buf.as_slice()
    }
}

} // verus!
