//! Helpers shared by the header writer, the registry and the builder.

use vstd::prelude::*;
use crate::bytes::{lemma_u16_big, u16_bytes, ByteOrder};

verus! {

/// The field list that every tracepoint is registered with.
pub const EVENTHEADER_COMMAND_TYPES: &'static str =
    "u8 eventheader_flags;u8 version;u16 id;u16 tag;u8 opcode;u8 level";

/// Length in bytes of [`EVENTHEADER_COMMAND_TYPES`].
pub const EVENTHEADER_COMMAND_TYPES_LEN: usize = 65;

/// Most bytes that a tracepoint name `ProviderName_Attributes` may take,
/// with its terminating zero.
pub const EVENTHEADER_NAME_MAX: usize = 256;

/// Most bytes that a registration command
/// `ProviderName_Attributes CommandTypes` may take, with its terminating zero.
pub const EVENTHEADER_COMMAND_MAX: usize = EVENTHEADER_NAME_MAX + 1
    + EVENTHEADER_COMMAND_TYPES_LEN;

/// First byte of a tag in the given byte order.
pub fn tag_byte0(tag: u16, order: ByteOrder) -> (byte: u8)
    ensures
        byte == u16_bytes(order, tag)[0],
{
    proof {
        lemma_u16_big(tag);
    }
    match order {
        ByteOrder::Little => (tag & 0xff) as u8,
        ByteOrder::Big => (tag >> 8) as u8,
    }
}

/// Second byte of a tag in the given byte order.
pub fn tag_byte1(tag: u16, order: ByteOrder) -> (byte: u8)
    ensures
        byte == u16_bytes(order, tag)[1],
{
    proof {
        lemma_u16_big(tag);
    }
    match order {
        ByteOrder::Little => (tag >> 8) as u8,
        ByteOrder::Big => (tag & 0xff) as u8,
    }
}

/// Seconds since 1970 for a time that lies `duration_secs` whole seconds
/// after the epoch, saturating at the largest `i64`.
pub open spec fn spec_time_after_1970(duration_secs: u64) -> i64 {
    if duration_secs > i64::MAX as u64 {
        i64::MAX
    } else {
        duration_secs as i64
    }
}

/// Seconds since 1970 for a time that lies `duration_secs` seconds and
/// `subsec_nanos` nanoseconds before the epoch: rounded towards negative
/// infinity, saturating at the smallest `i64`.
pub open spec fn spec_time_before_1970(duration_secs: u64, subsec_nanos: u32) -> i64 {
    if duration_secs > i64::MAX as u64 {
        i64::MIN
    } else {
        (-(duration_secs as int) - (if subsec_nanos != 0 { 1int } else { 0int })) as i64
    }
}

/// Returns the `time_t` of a time that lies the given number of whole
/// seconds after the epoch.
pub fn time_from_duration_after_1970(duration_secs: u64) -> (time: i64)
    ensures
        time == spec_time_after_1970(duration_secs),
{
    if duration_secs > 0x7fff_ffff_ffff_ffff {
        i64::MAX
    } else {
        duration_secs as i64
    }
}

/// Returns the `time_t` of a time that lies the given duration before the
/// epoch.
pub fn time_from_duration_before_1970(duration_secs: u64, subsec_nanos: u32) -> (time: i64)
    ensures
        time == spec_time_before_1970(duration_secs, subsec_nanos),
{
    if duration_secs > 0x7fff_ffff_ffff_ffff {
        i64::MIN
    } else {
        let whole = -(duration_secs as i64);
        if subsec_nanos != 0 {
            whole - 1
        } else {
            whole
        }
    }
}

} // verus!
