//! The tracepoint state machine and the bytes that go to the kernel.
//!
//! Nothing here performs I/O. Registration and unregistration are each
//! split in two steps, with the kernel request between them left to the
//! caller; a write yields the bytes that are to be handed to the control
//! file, or nothing when the tracepoint is disabled or not registered.

use vstd::prelude::*;
use crate::bytes::{push_u16, push_u32, push_u64, u16_bytes, u32_bytes, u64_bytes, ByteOrder};
use crate::descriptors::{
    extension_bytes,
    header_bytes,
    EventDataDescriptor,
    EventHeader,
    EventHeaderExtension,
};
use crate::enums::ExtensionKind;

verus! {

/// The write index of a tracepoint that is not registered.
pub const UNREGISTERED_WRITE_INDEX: u32 = 0xFFFF_FFFF;

/// The write index of a tracepoint that is being registered or unregistered.
pub const BUSY_WRITE_INDEX: u32 = 0xFFFF_FFFE;

/// The largest write index that the kernel can assign.
pub const HIGHEST_VALID_WRITE_INDEX: u32 = 0xFFFF_FFFD;

/// Status of an unregister that found the tracepoint busy (`EBUSY`).
pub const ERROR_BUSY: i32 = 16;

/// Status of an unregister that found nothing registered (`EALREADY`).
pub const ERROR_ALREADY: i32 = 116;

/// The build configurations of this library.
#[derive(Clone, Copy, Debug, PartialEq, Eq, Structural)]
pub enum NativeImplementation {
    /// No kernel facility: events are assembled and then dropped.
    Other,
    /// Events go to the Linux `user_events_data` file.
    LinuxUserEvents,
}

/// True for a write index that the kernel assigned.
pub open spec fn is_valid_index(index: u32) -> bool {
    index <= HIGHEST_VALID_WRITE_INDEX
}

/// The steps that a write index may take: any but the two that would skip
/// the busy state, from unregistered straight to a kernel-assigned index or
/// from such an index straight to unregistered.
pub open spec fn index_step_allowed(before: u32, after: u32) -> bool {
    &&& !(before == UNREGISTERED_WRITE_INDEX && is_valid_index(after))
    &&& !(is_valid_index(before) && after == UNREGISTERED_WRITE_INDEX)
}

/// What the kernel side answered to a request to register.
#[derive(Clone, Copy, Debug, PartialEq, Eq, Structural)]
pub enum RegisterOutcome {
    /// The control file is not open: holds the negative error code that
    /// stands in place of its handle.
    NoControlFile(i32),
    /// The kernel refused the request: holds the error code.
    Refused(i32),
    /// The kernel assigned this write index.
    Assigned(u32),
}

/// What is left to do after the first step of an unregister.
#[derive(Clone, Copy, Debug, PartialEq, Eq, Structural)]
pub enum UnregisterStep {
    /// Nothing: the unregister is over, with this status.
    Done(i32),
    /// The kernel is to be asked to stop updating the enable status, and
    /// its answer handed to `complete_unregister`.
    AskKernel,
}

/// What can happen to a tracepoint.
pub enum TracepointEvent {
    /// A register begins.
    Register,
    /// The kernel answers a register.
    RegisterDone(RegisterOutcome),
    /// An unregister begins.
    Unregister,
    /// The kernel answers an unregister with this status.
    UnregisterDone(i32),
    /// The kernel reports this enable status.
    StatusReport(u32),
}

/// The two words of a tracepoint: the enable status that the kernel
/// reports, and the write index.
pub struct TracepointModel {
    pub enable_status: u32,
    pub write_index: u32,
}

impl TracepointModel {
    /// True when the tracepoint can take the event: a register begins on an
    /// unregistered tracepoint only, and an answer of the kernel is taken
    /// by a busy one only.
    pub open spec fn accepts(self, event: TracepointEvent) -> bool {
        match event {
            TracepointEvent::Register => self.write_index == UNREGISTERED_WRITE_INDEX,
            TracepointEvent::RegisterDone(_) => self.write_index == BUSY_WRITE_INDEX,
            TracepointEvent::UnregisterDone(_) => self.write_index == BUSY_WRITE_INDEX,
            TracepointEvent::Unregister => true,
            TracepointEvent::StatusReport(_) => true,
        }
    }

    /// The tracepoint after the event.
    pub open spec fn step(self, event: TracepointEvent) -> TracepointModel {
        match event {
            TracepointEvent::Register => TracepointModel { write_index: BUSY_WRITE_INDEX, ..self },
            TracepointEvent::RegisterDone(outcome) => TracepointModel {
                write_index: TracepointState::register_index(outcome),
                ..self
            },
            TracepointEvent::Unregister => if self.write_index == UNREGISTERED_WRITE_INDEX {
                self
            } else {
                TracepointModel { write_index: BUSY_WRITE_INDEX, ..self }
            },
            TracepointEvent::UnregisterDone(_) => TracepointModel {
                enable_status: 0,
                write_index: UNREGISTERED_WRITE_INDEX,
            },
            TracepointEvent::StatusReport(status) => if is_valid_index(self.write_index) {
                TracepointModel { enable_status: status, ..self }
            } else {
                self
            },
        }
    }

    /// The tracepoint after the events, one after the other.
    pub open spec fn run(self, events: Seq<TracepointEvent>) -> TracepointModel
        decreases events.len(),
    {
        if events.len() == 0 {
            self
        } else {
            self.run(events.drop_last()).step(events.last())
        }
    }

    /// True for a tracepoint that is unregistered and reports disabled.
    pub open spec fn at_rest(self) -> bool {
        self.write_index == UNREGISTERED_WRITE_INDEX && self.enable_status == 0
    }
}

/// No event takes a tracepoint from unregistered straight to a write index
/// that the kernel assigned, nor from such an index straight to
/// unregistered: between the two lies the busy state.
pub proof fn lemma_steps_pass_through_busy(model: TracepointModel, event: TracepointEvent)
    requires
        model.accepts(event),
    ensures
        index_step_allowed(model.write_index, model.step(event).write_index),
{
}

/// When the kernel has answered an unregister, the tracepoint is at rest.
pub proof fn lemma_unregistered_is_at_rest(model: TracepointModel, kernel_status: i32)
    ensures
        model.step(TracepointEvent::UnregisterDone(kernel_status)).at_rest(),
{
}

/// A tracepoint that is at rest stays so, and so reports disabled,
/// whatever status the kernel reports and however often it is
/// unregistered again: only a register ends the rest.
pub proof fn lemma_rest_lasts(model: TracepointModel, events: Seq<TracepointEvent>)
    requires
        model.at_rest(),
        forall|i: int|
            0 <= i < events.len() ==> (#[trigger] events[i]) is StatusReport || events[i]
                is Unregister,
    ensures
        model.run(events) == model,
    decreases events.len(),
{
    if events.len() > 0 {
        assert forall|i: int| 0 <= i < events.drop_last().len() implies (
        #[trigger] events.drop_last()[i]) is StatusReport || events.drop_last()[i]
            is Unregister by {
            assert(events.drop_last()[i] == events[i]);
        }
        lemma_rest_lasts(model, events.drop_last());
        assert(events[events.len() - 1] is StatusReport || events[events.len() - 1]
            is Unregister);
    }
}

/// The payload segments `data[from..]`, one after the other.
pub open spec fn segments_bytes(data: Seq<EventDataDescriptor<'_>>, from: int) -> Seq<u8>
    decreases data.len() - from,
{
    if from < 0 || from >= data.len() {
        Seq::empty()
    } else {
        data[from]@ + segments_bytes(data, from + 1)
    }
}

/// Two lists of segments that agree from some place on, segment for
/// segment, give the same bytes from there.
pub proof fn lemma_segments_suffix(
    a: Seq<EventDataDescriptor<'_>>,
    i: int,
    b: Seq<EventDataDescriptor<'_>>,
    j: int,
)
    requires
        0 <= i <= a.len(),
        0 <= j <= b.len(),
        a.len() - i == b.len() - j,
        forall|k: int| 0 <= k < a.len() - i ==> (#[trigger] a[i + k])@ == b[j + k]@,
    ensures
        segments_bytes(a, i) == segments_bytes(b, j),
    decreases a.len() - i,
{
    if i < a.len() {
        assert(a[i + 0]@ == b[j + 0]@);
        assert forall|k: int| 0 <= k < a.len() - (i + 1) implies (#[trigger] a[i + 1 + k])@ == b[j
            + 1 + k]@ by {
            assert(a[i + (k + 1)]@ == b[j + (k + 1)]@);
        }
        lemma_segments_suffix(a, i + 1, b, j + 1);
    }
}

/// The extension block that carries the activity id, and the related id if
/// there is one. It is chained when a metadata block follows.
pub open spec fn activity_block(
    order: ByteOrder,
    activity_id: Option<Seq<u8>>,
    related_id: Option<Seq<u8>>,
    meta_len: u16,
) -> Seq<u8> {
    let kind = if meta_len != 0 {
        ExtensionKind(0x8002)
    } else {
        ExtensionKind(2)
    };
    match activity_id {
        None => Seq::empty(),
        Some(aid) => match related_id {
            None => extension_bytes(EventHeaderExtension { size: 16, kind }, order) + aid,
            Some(rid) => extension_bytes(EventHeaderExtension { size: 32, kind }, order) + aid
                + rid,
        },
    }
}

/// The header of the metadata extension block, present when the event has
/// metadata. It is always the last block, so it is never chained.
pub open spec fn metadata_block_header(order: ByteOrder, meta_len: u16) -> Seq<u8> {
    if meta_len != 0 {
        extension_bytes(EventHeaderExtension { size: meta_len, kind: ExtensionKind(1) }, order)
    } else {
        Seq::empty()
    }
}

/// What precedes the payload of an event: the write index, the event
/// header, the activity block and the header of the metadata block.
pub open spec fn event_headers(
    order: ByteOrder,
    write_index: u32,
    header: EventHeader,
    activity_id: Option<Seq<u8>>,
    related_id: Option<Seq<u8>>,
    meta_len: u16,
) -> Seq<u8> {
    u32_bytes(order, write_index) + header_bytes(header, order) + activity_block(
        order,
        activity_id,
        related_id,
        meta_len,
    ) + metadata_block_header(order, meta_len)
}

/// The sixteen bytes behind an optional id.
pub open spec fn id_bytes(id: Option<&[u8; 16]>) -> Option<Seq<u8>> {
    match id {
        None => None,
        Some(bytes) => Some(bytes@),
    }
}

/// A request code of the control file: direction, type and number, and in
/// the size field the width of a pointer in bytes.
pub open spec fn spec_ioc(dir: u64, typ: u64, nr: u64, pointer_bytes: u64) -> u64 {
    (dir << 30) | (typ << 8) | nr | (pointer_bytes << 16)
}

/// Computes a request code of the control file for this machine.
pub fn ioc(dir: u64, typ: u64, nr: u64) -> (code: u64)
    ensures
        code == spec_ioc(dir, typ, nr, if usize::BITS == 64 { 8u64 } else { 4u64 }),
{
    let pointer_bytes: u64 = if usize::BITS == 64 { 8 } else { 4 };
    (dir << 30) | (typ << 8) | nr | (pointer_bytes << 16)
}

/// The request code that registers a tracepoint.
pub fn diag_iocsreg() -> (code: u64)
    ensures
        code == (if usize::BITS == 64 { 0xC008_2A00u64 } else { 0xC004_2A00u64 }),
{
    assert(spec_ioc(3, 42, 0, 8) == 0xC008_2A00u64) by (bit_vector);
    assert(spec_ioc(3, 42, 0, 4) == 0xC004_2A00u64) by (bit_vector);
    assert(1u64 | 2 == 3) by (bit_vector);
    ioc(1 | 2, 42, 0)
}

/// The request code that unregisters a tracepoint.
pub fn diag_iocsunreg() -> (code: u64)
    ensures
        code == (if usize::BITS == 64 { 0x4008_2A02u64 } else { 0x4004_2A02u64 }),
{
    assert(spec_ioc(1, 42, 2, 8) == 0x4008_2A02u64) by (bit_vector);
    assert(spec_ioc(1, 42, 2, 4) == 0x4004_2A02u64) by (bit_vector);
    ioc(1, 42, 2)
}

/// The packed body of a request to register: its own size, enable bit 0,
/// enable size 4, flags 0, the address of the enable status, the address of
/// the command string, and room for the write index that comes back.
pub open spec fn register_request(
    order: ByteOrder,
    enable_addr: u64,
    name_args_addr: u64,
) -> Seq<u8> {
    u32_bytes(order, 28) + seq![0u8, 4u8] + u16_bytes(order, 0) + u64_bytes(order, enable_addr)
        + u64_bytes(order, name_args_addr) + u32_bytes(order, 0)
}

/// The packed body of a request to unregister: its own size, disable bit
/// 0, two reserved fields, and the address of the enable status.
pub open spec fn unregister_request(order: ByteOrder, disable_addr: u64) -> Seq<u8> {
    u32_bytes(order, 16) + seq![0u8, 0u8] + u16_bytes(order, 0) + u64_bytes(order, disable_addr)
}

/// Builds the body of a request to register.
pub fn build_register_request(order: ByteOrder, enable_addr: u64, name_args_addr: u64) -> (body:
    Vec<u8>)
    ensures
        body@ == register_request(order, enable_addr, name_args_addr),
        body@.len() == 28,
{
    let mut body: Vec<u8> = Vec::new();
    push_u32(&mut body, order, 28);
    body.push(0);
    body.push(4);
    push_u16(&mut body, order, 0);
    push_u64(&mut body, order, enable_addr);
    push_u64(&mut body, order, name_args_addr);
    push_u32(&mut body, order, 0);
    assert(body@ =~= register_request(order, enable_addr, name_args_addr));
    body
}

/// Builds the body of a request to unregister.
pub fn build_unregister_request(order: ByteOrder, disable_addr: u64) -> (body: Vec<u8>)
    ensures
        body@ == unregister_request(order, disable_addr),
        body@.len() == 16,
{
    let mut body: Vec<u8> = Vec::new();
    push_u32(&mut body, order, 16);
    body.push(0);
    body.push(0);
    push_u16(&mut body, order, 0);
    push_u64(&mut body, order, disable_addr);
    assert(body@ =~= unregister_request(order, disable_addr));
    body
}

/// Reads the write index that the kernel put into the body of a request
/// to register: its last four bytes.
pub fn assigned_index(order: ByteOrder, body: &[u8]) -> (index: u32)
    requires
        body@.len() == 28,
    ensures
        u32_bytes(order, index) == body@.subrange(24, 28),
{
    let (b0, b1, b2, b3) = match order {
        ByteOrder::Little => (body[24], body[25], body[26], body[27]),
        ByteOrder::Big => (body[27], body[26], body[25], body[24]),
    };
    let index = (b0 as u32) | ((b1 as u32) << 8) | ((b2 as u32) << 16) | ((b3 as u32) << 24);
    assert((index & 0xff) as u8 == b0 && ((index >> 8) & 0xff) as u8 == b1 && ((index >> 16)
        & 0xff) as u8 == b2 && (index >> 24) as u8 == b3) by (bit_vector)
        requires
            index == (b0 as u32) | ((b1 as u32) << 8) | ((b2 as u32) << 16) | ((b3 as u32) << 24),
    ;
    proof {
        crate::bytes::lemma_u32_big(index);
        assert(u32_bytes(order, index) =~= body@.subrange(24, 28));
    }
    index
}

/// Appends the payload segments `data[1..]` to `image`. The first segment
/// is the place of the headers and is not read.
fn append_segments(image: &mut Vec<u8>, data: &[EventDataDescriptor<'_>])
    requires
        data@.len() >= 1,
    ensures
        final(image)@ == old(image)@ + segments_bytes(data@, 1),
{
    let ghost start = image@;
    let mut i: usize = 1;
    while i < data.len()
        invariant
            1 <= i <= data@.len(),
            image@ + segments_bytes(data@, i as int) == start + segments_bytes(data@, 1),
        decreases data@.len() - i,
    {
        let bytes = data[i].as_bytes();
        let ghost before = image@;
        let mut j: usize = 0;
        while j < bytes.len()
            invariant
                j <= bytes@.len(),
                image@ == before + bytes@.subrange(0, j as int),
            decreases bytes@.len() - j,
        {
            image.push(bytes[j]);
            assert(bytes@.subrange(0, j as int).push(bytes@[j as int]) =~= bytes@.subrange(
                0,
                j + 1,
            ));
            j += 1;
        }
        assert(bytes@.subrange(0, j as int) =~= bytes@);
        assert(image@ + segments_bytes(data@, i + 1) =~= before + segments_bytes(data@, i as int));
        i += 1;
    }
    assert(segments_bytes(data@, i as int) =~= Seq::<u8>::empty());
    assert(image@ =~= start + segments_bytes(data@, 1));
}

/// Appends sixteen bytes to `buf`.
fn append_id(buf: &mut Vec<u8>, id: &[u8; 16])
    ensures
        final(buf)@ == old(buf)@ + id@,
{
    let mut i: usize = 0;
    while i < 16
        invariant
            i <= 16,
            buf@ == old(buf)@ + id@.subrange(0, i as int),
        decreases 16 - i,
    {
        buf.push(id[i]);
        assert(id@.subrange(0, i as int).push(id@[i as int]) =~= id@.subrange(0, i + 1));
        i += 1;
    }
    assert(id@.subrange(0, 16) =~= id@);
}

/// The registration of one tracepoint: the enable status that the kernel
/// reports, the write index that the kernel assigned, and the byte order
/// of the machine.
#[derive(Debug)]
pub struct TracepointState {
    enable_status: u32,
    write_index: u32,
    order: ByteOrder,
}

impl TracepointState {
    /// The enable status: 0 when no session listens.
    pub closed spec fn spec_enable_status(&self) -> u32 {
        self.enable_status
    }

    /// The write index: unregistered, busy, or assigned by the kernel.
    pub closed spec fn spec_write_index(&self) -> u32 {
        self.write_index
    }

    /// The byte order in which this tracepoint lays out what it sends.
    pub closed spec fn spec_byte_order(&self) -> ByteOrder {
        self.order
    }

    /// The two words of the tracepoint.
    pub open spec fn model(&self) -> TracepointModel {
        TracepointModel {
            enable_status: self.spec_enable_status(),
            write_index: self.spec_write_index(),
        }
    }

    /// True when the kernel has assigned a write index.
    pub open spec fn spec_registered(&self) -> bool {
        is_valid_index(self.spec_write_index())
    }

    /// True when a write would send something: enabled and registered.
    pub open spec fn spec_active(&self) -> bool {
        self.spec_enable_status() != 0 && self.spec_registered()
    }

    /// A new, unregistered tracepoint. Its byte order is the machine's.
    pub fn new(initial_enable_status: u32) -> (state: Self)
        ensures
            state.spec_enable_status() == initial_enable_status,
            state.spec_write_index() == UNREGISTERED_WRITE_INDEX,
    {
        Self {
            enable_status: initial_enable_status,
            write_index: UNREGISTERED_WRITE_INDEX,
            order: ByteOrder::native(),
        }
    }

    /// True if a session listens to this tracepoint.
    pub fn enabled(&self) -> (enabled: bool)
        ensures
            enabled == (self.spec_enable_status() != 0),
    {
        0 != self.enable_status
    }

    /// The current write index.
    pub fn write_index(&self) -> (index: u32)
        ensures
            index == self.spec_write_index(),
    {
        self.write_index
    }

    /// The byte order in which this tracepoint lays out what it sends.
    pub fn byte_order(&self) -> (order: ByteOrder)
        ensures
            order == self.spec_byte_order(),
    {
        self.order
    }

    /// True if the tracepoint is neither registered nor busy, so that
    /// `register` may be called.
    pub fn is_unregistered(&self) -> (unregistered: bool)
        ensures
            unregistered == (self.spec_write_index() == UNREGISTERED_WRITE_INDEX),
    {
        self.write_index == UNREGISTERED_WRITE_INDEX
    }

    /// Records the enable status that the kernel reports. The kernel reports
    /// only on registered tracepoints: on any other the call changes nothing.
    pub fn set_enable_status(&mut self, enable_status: u32)
        ensures
            final(self).model() == old(self).model().step(
                TracepointEvent::StatusReport(enable_status),
            ),
            final(self).spec_enable_status() == (if old(self).spec_registered() {
                enable_status
            } else {
                old(self).spec_enable_status()
            }),
            final(self).spec_write_index() == old(self).spec_write_index(),
            final(self).spec_byte_order() == old(self).spec_byte_order(),
    {
        if self.write_index <= HIGHEST_VALID_WRITE_INDEX {
            self.enable_status = enable_status;
        }
    }

    /// First step of registering: marks the tracepoint busy. The caller then
    /// asks the kernel and hands its answer to `complete_register`.
    pub fn register(&mut self)
        requires
            old(self).spec_write_index() == UNREGISTERED_WRITE_INDEX,
        ensures
            final(self).model() == old(self).model().step(TracepointEvent::Register),
            final(self).spec_write_index() == BUSY_WRITE_INDEX,
            final(self).spec_enable_status() == old(self).spec_enable_status(),
            final(self).spec_byte_order() == old(self).spec_byte_order(),
            index_step_allowed(old(self).spec_write_index(), final(self).spec_write_index()),
    {
        self.write_index = BUSY_WRITE_INDEX;
    }

    /// The status that `complete_register` returns for an outcome: 0 when
    /// an index was assigned, else the error code, positive.
    pub open spec fn register_status(outcome: RegisterOutcome) -> i32 {
        match outcome {
            RegisterOutcome::NoControlFile(file_or_error) => if file_or_error == i32::MIN {
                i32::MAX
            } else {
                (-file_or_error) as i32
            },
            RegisterOutcome::Refused(errno) => errno,
            RegisterOutcome::Assigned(_) => 0,
        }
    }

    /// The write index that `complete_register` leaves for an outcome.
    pub open spec fn register_index(outcome: RegisterOutcome) -> u32 {
        match outcome {
            RegisterOutcome::Assigned(index) => index,
            _ => UNREGISTERED_WRITE_INDEX,
        }
    }

    /// Second step of registering: takes the kernel's answer, leaves the
    /// busy state for the assigned index or for unregistered, and returns
    /// the status.
    pub fn complete_register(&mut self, outcome: RegisterOutcome) -> (status: i32)
        requires
            old(self).spec_write_index() == BUSY_WRITE_INDEX,
        ensures
            final(self).model() == old(self).model().step(TracepointEvent::RegisterDone(outcome)),
            status == Self::register_status(outcome),
            final(self).spec_write_index() == Self::register_index(outcome),
            final(self).spec_enable_status() == old(self).spec_enable_status(),
            final(self).spec_byte_order() == old(self).spec_byte_order(),
            index_step_allowed(old(self).spec_write_index(), final(self).spec_write_index()),
    {
        match outcome {
            RegisterOutcome::NoControlFile(file_or_error) => {
                self.write_index = UNREGISTERED_WRITE_INDEX;
                if file_or_error == i32::MIN {
                    i32::MAX
                } else {
                    -file_or_error
                }
            },
            RegisterOutcome::Refused(errno) => {
                self.write_index = UNREGISTERED_WRITE_INDEX;
                errno
            },
            RegisterOutcome::Assigned(index) => {
                self.write_index = index;
                0
            },
        }
    }

    /// What the first step of an unregister answers for a write index.
    pub open spec fn unregister_step(index: u32) -> UnregisterStep {
        if index == BUSY_WRITE_INDEX {
            UnregisterStep::Done(ERROR_BUSY)
        } else if index == UNREGISTERED_WRITE_INDEX {
            UnregisterStep::Done(ERROR_ALREADY)
        } else {
            UnregisterStep::AskKernel
        }
    }

    /// First step of unregistering. A busy tracepoint stays busy and the
    /// answer is `EBUSY`; an unregistered one stays so and the answer is
    /// `EALREADY`; a registered one becomes busy, and the caller asks the
    /// kernel and hands its answer to `complete_unregister`.
    pub fn unregister(&mut self) -> (step: UnregisterStep)
        ensures
            final(self).model() == old(self).model().step(TracepointEvent::Unregister),
            step == Self::unregister_step(old(self).spec_write_index()),
            final(self).spec_write_index() == (if old(self).spec_write_index()
                == UNREGISTERED_WRITE_INDEX {
                UNREGISTERED_WRITE_INDEX
            } else {
                BUSY_WRITE_INDEX
            }),
            final(self).spec_enable_status() == old(self).spec_enable_status(),
            final(self).spec_byte_order() == old(self).spec_byte_order(),
            index_step_allowed(old(self).spec_write_index(), final(self).spec_write_index()),
    {
        let old_write_index = self.write_index;
        self.write_index = BUSY_WRITE_INDEX;
        if old_write_index == BUSY_WRITE_INDEX {
            UnregisterStep::Done(ERROR_BUSY)
        } else if old_write_index == UNREGISTERED_WRITE_INDEX {
            self.write_index = UNREGISTERED_WRITE_INDEX;
            UnregisterStep::Done(ERROR_ALREADY)
        } else {
            UnregisterStep::AskKernel
        }
    }

    /// Second step of unregistering: takes the kernel's status, 0 or an
    /// error code, leaves the busy state for unregistered, and returns the
    /// status. The kernel no longer reports an enable status, so the
    /// tracepoint counts as disabled from here on.
    pub fn complete_unregister(&mut self, kernel_status: i32) -> (status: i32)
        requires
            old(self).spec_write_index() == BUSY_WRITE_INDEX,
        ensures
            final(self).model() == old(self).model().step(
                TracepointEvent::UnregisterDone(kernel_status),
            ),
            status == kernel_status,
            final(self).spec_write_index() == UNREGISTERED_WRITE_INDEX,
            final(self).spec_enable_status() == 0,
            final(self).spec_byte_order() == old(self).spec_byte_order(),
            index_step_allowed(old(self).spec_write_index(), final(self).spec_write_index()),
    {
        self.write_index = UNREGISTERED_WRITE_INDEX;
        self.enable_status = 0;
        kernel_status
    }

    /// The bytes that `write` sends: the write index, then the payload
    /// segments after the first.
    pub open spec fn write_image(&self, data: Seq<EventDataDescriptor<'_>>) -> Seq<u8> {
        u32_bytes(self.spec_byte_order(), self.spec_write_index()) + segments_bytes(data, 1)
    }

    /// Prepares an event without an event header. Returns `None`, and the
    /// write is over with status 0, unless the tracepoint is enabled and
    /// registered. Otherwise returns the bytes that go to the control file
    /// in one write: the write index, then `data[1..]`. The first segment
    /// stands for the headers and is not read.
    pub fn write(&self, data: &[EventDataDescriptor<'_>]) -> (image: Option<Vec<u8>>)
        requires
            data@.len() >= 1,
        ensures
            image is Some <==> self.spec_active(),
            image is Some ==> image.unwrap()@ == self.write_image(data@),
    {
        if self.enable_status == 0 || self.write_index > HIGHEST_VALID_WRITE_INDEX {
            return None;
        }
        let mut image: Vec<u8> = Vec::new();
        push_u32(&mut image, self.order, self.write_index);
        append_segments(&mut image, data);
        Some(image)
    }

    /// The bytes that `write_eventheader` sends: the headers, then the
    /// payload segments after the first.
    pub open spec fn event_image(
        &self,
        event_header: EventHeader,
        activity_id: Option<Seq<u8>>,
        related_id: Option<Seq<u8>>,
        meta_len: u16,
        data: Seq<EventDataDescriptor<'_>>,
    ) -> Seq<u8> {
        event_headers(
            self.spec_byte_order(),
            self.spec_write_index(),
            event_header,
            activity_id,
            related_id,
            meta_len,
        ) + segments_bytes(data, 1)
    }

    /// Prepares an event with its header. Returns `None`, and the write is
    /// over with status 0, unless the tracepoint is enabled and registered.
    /// Otherwise returns the bytes that go to the control file in one
    /// write: the write index, the event header, the activity block if an
    /// activity id is given, the header of the metadata block if `meta_len`
    /// is not 0, then `data[1..]`, of which the metadata comes first.
    pub fn write_eventheader(
        &self,
        event_header: &EventHeader,
        activity_id: Option<&[u8; 16]>,
        related_id: Option<&[u8; 16]>,
        meta_len: u16,
        data: &[EventDataDescriptor<'_>],
    ) -> (image: Option<Vec<u8>>)
        requires
            data@.len() >= 1,
            related_id is None || activity_id is Some,
        ensures
            image is Some <==> self.spec_active(),
            image is Some ==> image.unwrap()@ == self.event_image(
                *event_header,
                id_bytes(activity_id),
                id_bytes(related_id),
                meta_len,
                data@,
            ),
    {
        if self.enable_status == 0 || self.write_index > HIGHEST_VALID_WRITE_INDEX {
            return None;
        }
        let order = self.order;
        let mut extension_count: u8 = (if activity_id.is_some() { 1u8 } else { 0u8 }) + (if meta_len
            != 0 { 1u8 } else { 0u8 });

        let mut image: Vec<u8> = Vec::new();
        push_u32(&mut image, order, self.write_index);
        event_header.append_to(&mut image, order);
        let ghost fixed = image@;

        match activity_id {
            None => {},
            Some(aid) => {
                extension_count -= 1;
                match related_id {
                    None => {
                        EventHeaderExtension::from_parts(
                            16,
                            ExtensionKind::activity_id(),
                            extension_count > 0,
                        ).append_to(&mut image, order);
                        append_id(&mut image, aid);
                    },
                    Some(rid) => {
                        EventHeaderExtension::from_parts(
                            32,
                            ExtensionKind::activity_id(),
                            extension_count > 0,
                        ).append_to(&mut image, order);
                        append_id(&mut image, aid);
                        append_id(&mut image, rid);
                    },
                }
            },
        }
        assert(2u16 | 0x8000 == 0x8002) by (bit_vector);
        assert(image@ =~= fixed + activity_block(
            order,
            id_bytes(activity_id),
            id_bytes(related_id),
            meta_len,
        ));

        if meta_len != 0 {
            extension_count -= 1;
            EventHeaderExtension::from_parts(
                meta_len,
                ExtensionKind::metadata(),
                extension_count > 0,
            ).append_to(&mut image, order);
        }
        assert(image@ =~= event_headers(
            order,
            self.write_index,
            *event_header,
            id_bytes(activity_id),
            id_bytes(related_id),
            meta_len,
        ));

        append_segments(&mut image, data);
        Some(image)
    }
}

} // verus!
