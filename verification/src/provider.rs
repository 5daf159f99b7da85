//! Providers whose tracepoints are known when the program is built.
//!
//! Such a provider holds the list of its tracepoints. They are added once,
//! at startup, and then registered and unregistered together. Nothing here
//! performs I/O: where the kernel has to be asked, a function hands back
//! what to ask, and a second function takes the answers.

use vstd::prelude::*;
use vstd::string::StringSliceAdditionalSpecFns;
use crate::command::{command_string, CommandString};
use crate::descriptors::{EventDataDescriptor, EventHeader};
use crate::native::{
    event_headers,
    id_bytes,
    lemma_segments_suffix,
    segments_bytes,
    RegisterOutcome,
    TracepointState,
    UnregisterStep,
    BUSY_WRITE_INDEX,
    UNREGISTERED_WRITE_INDEX,
};
use crate::values::i32_bits;

verus! {

/// The first status of `statuses` that is not 0, or 0 if there is none.
pub open spec fn first_error(statuses: Seq<i32>) -> i32
    decreases statuses.len(),
{
    if statuses.len() == 0 {
        0
    } else if first_error(statuses.drop_last()) != 0 {
        first_error(statuses.drop_last())
    } else {
        statuses.last()
    }
}

/// A tracepoint with the header and the metadata of its one event.
#[derive(Debug)]
pub struct EventHeaderTracepoint<'a> {
    state: TracepointState,
    header: EventHeader,
    keyword: u64,
    metadata: &'a [u8],
}

impl<'a> EventHeaderTracepoint<'a> {
    /// The registration of the tracepoint.
    pub closed spec fn spec_state(&self) -> TracepointState {
        self.state
    }

    /// The header that its event is written with.
    pub closed spec fn spec_header(&self) -> EventHeader {
        self.header
    }

    /// The keyword of its event.
    pub closed spec fn spec_keyword(&self) -> u64 {
        self.keyword
    }

    /// The metadata of its event.
    pub closed spec fn spec_metadata(&self) -> Seq<u8> {
        self.metadata@
    }

    /// A tracepoint that is not registered.
    pub fn new(header: EventHeader, keyword: u64, metadata: &'a [u8]) -> (tracepoint: Self)
        requires
            metadata@.len() <= 65535,
        ensures
            tracepoint.spec_header() == header,
            tracepoint.spec_keyword() == keyword,
            tracepoint.spec_metadata() == metadata@,
            tracepoint.spec_state().spec_enable_status() == 0,
            tracepoint.spec_state().spec_write_index() == UNREGISTERED_WRITE_INDEX,
    {
        Self { state: TracepointState::new(0), header, keyword, metadata }
    }

    /// True if a session listens to this tracepoint.
    pub fn enabled(&self) -> (enabled: bool)
        ensures
            enabled == (self.spec_state().spec_enable_status() != 0),
    {
        self.state.enabled()
    }

    /// The registration of the tracepoint.
    pub fn state(&self) -> (state: &TracepointState)
        ensures
            *state == self.spec_state(),
    {
        &self.state
    }

    /// Records the enable status that the kernel reports.
    pub fn set_enable_status(&mut self, enable_status: u32)
        ensures
            final(self).spec_state().spec_enable_status() == (if old(
                self,
            ).spec_state().spec_registered() {
                enable_status
            } else {
                old(self).spec_state().spec_enable_status()
            }),
            final(self).spec_state().spec_write_index() == old(
                self,
            ).spec_state().spec_write_index(),
            final(self).spec_state().spec_byte_order() == old(
                self,
            ).spec_state().spec_byte_order(),
            final(self).spec_header() == old(self).spec_header(),
            final(self).spec_keyword() == old(self).spec_keyword(),
            final(self).spec_metadata() == old(self).spec_metadata(),
    {
        self.state.set_enable_status(enable_status);
    }

    /// The bytes that go to the control file for the event: the write
    /// index, the event header, the activity block, the header of the
    /// metadata block, the metadata, and the payload segments after the
    /// second.
    pub open spec fn event_image(
        &self,
        activity_id: Option<Seq<u8>>,
        related_id: Option<Seq<u8>>,
        data: Seq<EventDataDescriptor<'_>>,
    ) -> Seq<u8> {
        event_headers(
            self.spec_state().spec_byte_order(),
            self.spec_state().spec_write_index(),
            self.spec_header(),
            activity_id,
            related_id,
            self.spec_metadata().len() as u16,
        ) + self.spec_metadata() + segments_bytes(data, 2)
    }

    /// Prepares the event for a write. Returns `None`, and the write is
    /// over with status 0, unless the tracepoint is enabled and registered.
    /// Otherwise returns the bytes that go to the control file in one
    /// write. The first two segments of `data` stand for the headers and
    /// for the metadata and are not read.
    pub fn write_eventheader(
        &self,
        activity_id: Option<&[u8; 16]>,
        related_id: Option<&[u8; 16]>,
        data: &[EventDataDescriptor<'_>],
    ) -> (image: Option<Vec<u8>>)
        requires
            data@.len() >= 2,
            related_id is None || activity_id is Some,
            self.spec_metadata().len() <= 65535,
        ensures
            image is Some <==> self.spec_state().spec_active(),
            image is Some ==> image.unwrap()@ == self.event_image(
                id_bytes(activity_id),
                id_bytes(related_id),
                data@,
            ),
    {
        let mut segments: Vec<EventDataDescriptor<'_>> = Vec::new();
        segments.push(EventDataDescriptor::zero());
        segments.push(EventDataDescriptor::from_bytes(self.metadata));
        let mut i: usize = 2;
        while i < data.len()
            invariant
                2 <= i <= data@.len(),
                segments@.len() == i,
                segments@[1]@ == self.metadata@,
                forall|k: int| 2 <= k < i ==> (#[trigger] segments@[k])@ == data@[k]@,
            decreases data@.len() - i,
        {
            segments.push(data[i]);
            i += 1;
        }
        proof {
            assert forall|k: int| 0 <= k < segments@.len() - 2 implies (#[trigger] segments@[2
                + k])@ == data@[2 + k]@ by {}
            lemma_segments_suffix(segments@, 2, data@, 2);
            assert(segments_bytes(segments@, 1) =~= self.metadata@ + segments_bytes(data@, 2));
        }
        let image = self.state.write_eventheader(
            &self.header,
            activity_id,
            related_id,
            self.metadata.len() as u16,
            segments.as_slice(),
        );
        proof {
            if image is Some {
                assert(image.unwrap()@ =~= self.event_image(
                    id_bytes(activity_id),
                    id_bytes(related_id),
                    data@,
                ));
            }
        }
        image
    }
}

/// A connection for writing events whose shape is known when the program
/// is built.
#[derive(Debug)]
pub struct Provider<'a> {
    name: &'a str,
    options: &'a str,
    events: Vec<EventHeaderTracepoint<'a>>,
    busy: bool,
}

/// A provider with the given name and options, and no tracepoints.
pub fn provider_new<'a>(name: &'a str, options: &'a str) -> (provider: Provider<'a>)
    ensures
        provider.spec_name() == name@,
        provider.spec_options() == options@,
        provider.spec_events() == Seq::<EventHeaderTracepoint<'a>>::empty(),
        !provider.spec_busy(),
{
    Provider { name, options, events: Vec::new(), busy: false }
}

impl<'a> Provider<'a> {
    /// The name of the provider.
    pub closed spec fn spec_name(&self) -> Seq<char> {
        self.name@
    }

    /// The options of the provider.
    pub closed spec fn spec_options(&self) -> Seq<char> {
        self.options@
    }

    /// The bytes of the name of the provider: its UTF-8 encoding.
    pub open spec fn spec_name_bytes(&self) -> Seq<u8> {
        vstd::utf8::encode_utf8(self.spec_name())
    }

    /// The bytes of the options of the provider: their UTF-8 encoding.
    pub open spec fn spec_options_bytes(&self) -> Seq<u8> {
        vstd::utf8::encode_utf8(self.spec_options())
    }

    /// The tracepoints of the provider, in the order they were added.
    pub closed spec fn spec_events(&self) -> Seq<EventHeaderTracepoint<'a>> {
        self.events@
    }

    /// True between the two steps of a register or an unregister.
    pub closed spec fn spec_busy(&self) -> bool {
        self.busy
    }

    /// True when every tracepoint has the given write index.
    pub open spec fn all_at(&self, index: u32) -> bool {
        forall|i: int|
            0 <= i < self.spec_events().len() ==> (
            #[trigger] self.spec_events()[i]).spec_state().spec_write_index() == index
    }

    /// True when nothing of the provider but the states of its tracepoints
    /// and its busy mark differs from `other`.
    pub open spec fn same_events(&self, other: &Self) -> bool {
        &&& self.spec_name() == other.spec_name()
        &&& self.spec_options() == other.spec_options()
        &&& self.spec_events().len() == other.spec_events().len()
        &&& forall|i: int|
            0 <= i < self.spec_events().len() ==> {
                let a = #[trigger] self.spec_events()[i];
                let b = other.spec_events()[i];
                &&& a.spec_header() == b.spec_header()
                &&& a.spec_keyword() == b.spec_keyword()
                &&& a.spec_metadata() == b.spec_metadata()
                &&& a.spec_state().spec_byte_order() == b.spec_state().spec_byte_order()
            }
    }

    /// True when `after` is `before` one step into its unregister, and
    /// `step` is that step.
    pub open spec fn stepped(
        before: TracepointState,
        after: TracepointState,
        step: UnregisterStep,
    ) -> bool {
        &&& step == TracepointState::unregister_step(before.spec_write_index())
        &&& after.spec_enable_status() == before.spec_enable_status()
        &&& after.spec_write_index() == (if before.spec_write_index()
            == UNREGISTERED_WRITE_INDEX {
            UNREGISTERED_WRITE_INDEX
        } else {
            BUSY_WRITE_INDEX
        })
    }

    /// True when `after` is `before` with each tracepoint one step into
    /// its unregister, and `steps` are those steps.
    pub open spec fn unregister_begun(before: &Self, after: &Self, steps: Seq<UnregisterStep>) -> bool {
        &&& steps.len() == before.spec_events().len()
        &&& after.spec_events().len() == before.spec_events().len()
        &&& forall|i: int|
            0 <= i < before.spec_events().len() ==> #[trigger] Self::stepped(
                before.spec_events()[i].spec_state(),
                after.spec_events()[i].spec_state(),
                steps[i],
            )
    }

    /// The name of the provider.
    pub fn name(&self) -> (name: &str)
        ensures
            name@ == self.spec_name(),
    {
        self.name
    }

    /// The options of the provider, e.g. `""` or `"Gmygroup"`.
    pub fn options(&self) -> (options: &str)
        ensures
            options@ == self.spec_options(),
    {
        self.options
    }

    /// True between the two steps of a register or an unregister.
    pub fn is_busy(&self) -> (busy: bool)
        ensures
            busy == self.spec_busy(),
    {
        self.busy
    }

    /// The number of tracepoints of the provider.
    pub fn event_count(&self) -> (count: usize)
        ensures
            count == self.spec_events().len(),
    {
        self.events.len()
    }

    /// The tracepoint at the given place, if there is one.
    pub fn event(&self, index: usize) -> (found: Option<&EventHeaderTracepoint<'a>>)
        ensures
            found is Some <==> index < self.spec_events().len(),
            found is Some ==> *found.unwrap() == self.spec_events()[index as int],
    {
        if index < self.events.len() {
            Some(&self.events[index])
        } else {
            None
        }
    }

    /// True if every tracepoint is unregistered and the provider is not
    /// busy, so that `register` may be called.
    pub fn can_register(&self) -> (ready: bool)
        ensures
            ready == (!self.spec_busy() && self.all_at(UNREGISTERED_WRITE_INDEX)),
    {
        if self.busy {
            return false;
        }
        let mut i: usize = 0;
        while i < self.events.len()
            invariant
                i <= self.events@.len(),
                forall|j: int|
                    0 <= j < i ==> (#[trigger] self.events@[j]).spec_state().spec_write_index()
                        == UNREGISTERED_WRITE_INDEX,
            decreases self.events@.len() - i,
        {
            if !self.events[i].state.is_unregistered() {
                assert(self.spec_events()[i as int].spec_state().spec_write_index()
                    != UNREGISTERED_WRITE_INDEX);
                return false;
            }
            i += 1;
        }
        true
    }

    /// Adds a tracepoint to the provider and returns its place.
    pub fn add_event(&mut self, event: EventHeaderTracepoint<'a>) -> (index: usize)
        ensures
            index == old(self).spec_events().len(),
            final(self).spec_events() == old(self).spec_events().push(event),
            final(self).spec_name() == old(self).spec_name(),
            final(self).spec_options() == old(self).spec_options(),
            final(self).spec_busy() == old(self).spec_busy(),
    {
        let index = self.events.len();
        self.events.push(event);
        index
    }

    /// Records the enable status that the kernel reports for the tracepoint
    /// at `index`. The kernel reports only on registered tracepoints: on any
    /// other the call changes nothing.
    pub fn set_enable_status(&mut self, index: usize, enable_status: u32)
        requires
            index < old(self).spec_events().len(),
        ensures
            final(self).same_events(old(self)),
            final(self).spec_busy() == old(self).spec_busy(),
            forall|i: int|
                0 <= i < old(self).spec_events().len() && i != index
                    ==> final(self).spec_events()[i] == old(self).spec_events()[i],
            final(self).spec_events()[index as int].spec_state().spec_write_index() == old(
                self,
            ).spec_events()[index as int].spec_state().spec_write_index(),
            final(self).spec_events()[index as int].spec_state().spec_enable_status() == (if old(
                self,
            ).spec_events()[index as int].spec_state().spec_registered() {
                enable_status
            } else {
                old(self).spec_events()[index as int].spec_state().spec_enable_status()
            }),
    {
        self.events[index].set_enable_status(enable_status);
    }

    /// First step of registering: marks every tracepoint busy, and returns
    /// the command that registers each, in the order of the tracepoints.
    /// The caller asks the kernel with each command and hands the answers
    /// to `complete_register`.
    pub fn register(&mut self) -> (commands: Vec<Vec<u8>>)
        requires
            !old(self).spec_busy(),
            old(self).all_at(UNREGISTERED_WRITE_INDEX),
        ensures
            final(self).spec_busy(),
            final(self).all_at(BUSY_WRITE_INDEX),
            final(self).same_events(old(self)),
            forall|i: int|
                0 <= i < final(self).spec_events().len() ==> (
                #[trigger] final(self).spec_events()[i]).spec_state().spec_enable_status() == old(
                    self,
                ).spec_events()[i].spec_state().spec_enable_status(),
            commands@.len() == old(self).spec_events().len(),
            forall|i: int|
                0 <= i < commands@.len() ==> (#[trigger] commands@[i])@ == command_string(
                    old(self).spec_name_bytes(),
                    old(self).spec_options_bytes(),
                    old(self).spec_events()[i].spec_header().level,
                    old(self).spec_events()[i].spec_keyword(),
                ),
    {
        self.busy = true;
        assert forall|j: int| 0 <= j < self.events@.len() implies (
        #[trigger] self.events@[j]).spec_state().spec_write_index() == UNREGISTERED_WRITE_INDEX by {
            assert(old(self).spec_events()[j].spec_state().spec_write_index()
                == UNREGISTERED_WRITE_INDEX);
        }
        let mut commands: Vec<Vec<u8>> = Vec::new();
        let mut buffer = CommandString::new();
        let mut i: usize = 0;
        while i < self.events.len()
            invariant
                i <= self.events@.len(),
                commands@.len() == i,
                self.busy,
                self.name == old(self).name,
                self.options == old(self).options,
                self.events@.len() == old(self).events@.len(),
                forall|j: int|
                    0 <= j < self.events@.len() ==> {
                        let a = #[trigger] self.events@[j];
                        let b = old(self).events@[j];
                        &&& a.spec_header() == b.spec_header()
                        &&& a.spec_keyword() == b.spec_keyword()
                        &&& a.spec_metadata() == b.spec_metadata()
                        &&& a.spec_state().spec_byte_order() == b.spec_state().spec_byte_order()
                        &&& a.spec_state().spec_enable_status()
                            == b.spec_state().spec_enable_status()
                        &&& a.spec_state().spec_write_index() == (if j < i {
                            BUSY_WRITE_INDEX
                        } else {
                            UNREGISTERED_WRITE_INDEX
                        })
                    },
                forall|j: int|
                    0 <= j < i ==> (#[trigger] commands@[j])@ == command_string(
                        old(self).spec_name_bytes(),
                        old(self).spec_options_bytes(),
                        old(self).spec_events()[j].spec_header().level,
                        old(self).spec_events()[j].spec_keyword(),
                    ),
            decreases self.events@.len() - i,
        {
            let name_args = buffer.format(
                self.name.as_bytes(),
                self.options.as_bytes(),
                self.events[i].header.level,
                self.events[i].keyword,
            );
            let command = copy_bytes(name_args);
            self.events[i].state.register();
            commands.push(command);
            i += 1;
        }
        commands
    }

    /// The statuses that the outcomes of a register stand for.
    pub open spec fn register_statuses(outcomes: Seq<RegisterOutcome>) -> Seq<i32> {
        Seq::new(outcomes.len(), |i: int| TracepointState::register_status(outcomes[i]))
    }

    /// Second step of registering: takes the kernel's answer for each
    /// tracepoint, in the order of the tracepoints. Returns 0, or the
    /// status of the first tracepoint that did not register. Tracepoints
    /// that registered stay so even when others did not.
    pub fn complete_register(&mut self, outcomes: &[RegisterOutcome]) -> (result: u32)
        requires
            old(self).spec_busy(),
            old(self).all_at(BUSY_WRITE_INDEX),
            outcomes@.len() == old(self).spec_events().len(),
        ensures
            !final(self).spec_busy(),
            final(self).same_events(old(self)),
            forall|i: int|
                0 <= i < final(self).spec_events().len() ==> (
                #[trigger] final(self).spec_events()[i]).spec_state().spec_write_index()
                    == TracepointState::register_index(outcomes@[i]),
            result == i32_bits(first_error(Self::register_statuses(outcomes@))),
    {
        let mut result: i32 = 0;
        let mut i: usize = 0;
        assert(Self::register_statuses(outcomes@).take(0) =~= Seq::<i32>::empty());
        while i < self.events.len()
            invariant
                i <= self.events@.len(),
                outcomes@.len() == self.events@.len(),
                self.busy,
                self.name == old(self).name,
                self.options == old(self).options,
                self.events@.len() == old(self).events@.len(),
                result == first_error(Self::register_statuses(outcomes@).take(i as int)),
                forall|j: int|
                    0 <= j < self.events@.len() ==> {
                        let a = #[trigger] self.events@[j];
                        let b = old(self).events@[j];
                        &&& a.spec_header() == b.spec_header()
                        &&& a.spec_keyword() == b.spec_keyword()
                        &&& a.spec_metadata() == b.spec_metadata()
                        &&& a.spec_state().spec_byte_order() == b.spec_state().spec_byte_order()
                        &&& a.spec_state().spec_write_index() == (if j < i {
                            TracepointState::register_index(outcomes@[j])
                        } else {
                            BUSY_WRITE_INDEX
                        })
                    },
            decreases self.events@.len() - i,
        {
            let err = self.events[i].state.complete_register(outcomes[i]);
            proof {
                let statuses = Self::register_statuses(outcomes@);
                assert(statuses.take(i + 1).drop_last() =~= statuses.take(i as int));
                assert(statuses.take(i + 1).last() == err);
            }
            if result == 0 {
                result = err;
            }
            i += 1;
        }
        assert(Self::register_statuses(outcomes@).take(i as int) =~= Self::register_statuses(
            outcomes@,
        ));
        self.busy = false;
        let bits = result as u32;
        assert(bits == i32_bits(result)) by (bit_vector)
            requires
                bits == result as u32,
        ;
        bits
    }

    /// First step of unregistering. On a busy provider nothing happens and
    /// the answer is `None`. Otherwise each tracepoint takes the first step
    /// of its unregister, and the steps come back in the order of the
    /// tracepoints: for each that says so, the caller asks the kernel, and
    /// then hands steps and answers to `complete_unregister`.
    pub fn unregister(&mut self) -> (steps: Option<Vec<UnregisterStep>>)
        ensures
            final(self).same_events(old(self)),
            old(self).spec_busy() ==> steps is None && final(self).spec_events() == old(
                self,
            ).spec_events() && final(self).spec_busy(),
            !old(self).spec_busy() ==> steps is Some && final(self).spec_busy()
                && Self::unregister_begun(old(self), final(self), steps.unwrap()@),
    {
        if self.busy {
            return None;
        }
        self.busy = true;
        let mut steps: Vec<UnregisterStep> = Vec::new();
        let mut i: usize = 0;
        while i < self.events.len()
            invariant
                i <= self.events@.len(),
                steps@.len() == i,
                self.busy,
                self.name == old(self).name,
                self.options == old(self).options,
                self.events@.len() == old(self).events@.len(),
                forall|j: int|
                    i <= j < self.events@.len() ==> #[trigger] self.events@[j] == old(
                        self,
                    ).events@[j],
                forall|j: int|
                    0 <= j < i ==> {
                        let a = #[trigger] self.events@[j];
                        let b = old(self).events@[j];
                        &&& a.spec_header() == b.spec_header()
                        &&& a.spec_keyword() == b.spec_keyword()
                        &&& a.spec_metadata() == b.spec_metadata()
                        &&& a.spec_state().spec_byte_order() == b.spec_state().spec_byte_order()
                        &&& a.spec_state().spec_enable_status()
                            == b.spec_state().spec_enable_status()
                        &&& steps@[j] == TracepointState::unregister_step(
                            b.spec_state().spec_write_index(),
                        )
                        &&& a.spec_state().spec_write_index() == (
                        if b.spec_state().spec_write_index() == UNREGISTERED_WRITE_INDEX {
                            UNREGISTERED_WRITE_INDEX
                        } else {
                            BUSY_WRITE_INDEX
                        })
                    },
            decreases self.events@.len() - i,
        {
            let step = self.events[i].state.unregister();
            steps.push(step);
            i += 1;
        }
        assert forall|i: int| 0 <= i < old(self).spec_events().len() implies #[trigger] Self::stepped(
            old(self).spec_events()[i].spec_state(),
            self.spec_events()[i].spec_state(),
            steps@[i],
        ) by {
            let a = self.events@[i];
            let b = old(self).events@[i];
            assert(a.spec_state().spec_enable_status() == b.spec_state().spec_enable_status());
        }
        Some(steps)
    }

    /// The status of each tracepoint after an unregister: that of its
    /// first step where the step was the end, else the kernel's.
    pub open spec fn unregister_statuses(
        steps: Seq<UnregisterStep>,
        kernel_statuses: Seq<i32>,
    ) -> Seq<i32> {
        Seq::new(
            steps.len(),
            |i: int|
                match steps[i] {
                    UnregisterStep::Done(status) => status,
                    UnregisterStep::AskKernel => kernel_statuses[i],
                },
        )
    }

    /// Second step of unregistering: takes the steps that `unregister`
    /// gave and, for each tracepoint whose step asked for the kernel, the
    /// kernel's status at the same place. Returns 0, or the first status
    /// that is not.
    pub fn complete_unregister(&mut self, steps: &[UnregisterStep], kernel_statuses: &[i32]) -> (result:
        u32)
        requires
            old(self).spec_busy(),
            steps@.len() == old(self).spec_events().len(),
            kernel_statuses@.len() == old(self).spec_events().len(),
            forall|i: int|
                0 <= i < steps@.len() && steps@[i] == UnregisterStep::AskKernel ==> (#[trigger] old(
                    self,
                ).spec_events()[i]).spec_state().spec_write_index() == BUSY_WRITE_INDEX,
        ensures
            !final(self).spec_busy(),
            final(self).same_events(old(self)),
            forall|i: int|
                0 <= i < final(self).spec_events().len() ==> {
                    let before = old(self).spec_events()[i].spec_state();
                    let after = (#[trigger] final(self).spec_events()[i]).spec_state();
                    if steps@[i] == UnregisterStep::AskKernel {
                        after.spec_write_index() == UNREGISTERED_WRITE_INDEX
                            && after.spec_enable_status() == 0
                    } else {
                        after.spec_write_index() == before.spec_write_index()
                            && after.spec_enable_status() == before.spec_enable_status()
                    }
                },
            result == i32_bits(first_error(Self::unregister_statuses(steps@, kernel_statuses@))),
    {
        let mut result: i32 = 0;
        let mut i: usize = 0;
        let ghost statuses = Self::unregister_statuses(steps@, kernel_statuses@);
        assert(statuses.take(0) =~= Seq::<i32>::empty());
        while i < self.events.len()
            invariant
                i <= self.events@.len(),
                steps@.len() == self.events@.len(),
                kernel_statuses@.len() == self.events@.len(),
                statuses == Self::unregister_statuses(steps@, kernel_statuses@),
                self.busy,
                self.name == old(self).name,
                self.options == old(self).options,
                self.events@.len() == old(self).events@.len(),
                result == first_error(statuses.take(i as int)),
                forall|j: int|
                    i <= j < self.events@.len() ==> #[trigger] self.events@[j] == old(
                        self,
                    ).events@[j],
                forall|j: int|
                    0 <= j < steps@.len() && steps@[j] == UnregisterStep::AskKernel ==> (
                    #[trigger] old(self).spec_events()[j]).spec_state().spec_write_index()
                        == BUSY_WRITE_INDEX,
                forall|j: int|
                    0 <= j < i ==> {
                        let a = #[trigger] self.events@[j];
                        let b = old(self).events@[j];
                        &&& a.spec_header() == b.spec_header()
                        &&& a.spec_keyword() == b.spec_keyword()
                        &&& a.spec_metadata() == b.spec_metadata()
                        &&& a.spec_state().spec_byte_order() == b.spec_state().spec_byte_order()
                        &&& if steps@[j] == UnregisterStep::AskKernel {
                            a.spec_state().spec_write_index() == UNREGISTERED_WRITE_INDEX
                                && a.spec_state().spec_enable_status() == 0
                        } else {
                            a.spec_state().spec_write_index() == b.spec_state().spec_write_index()
                                && a.spec_state().spec_enable_status()
                                == b.spec_state().spec_enable_status()
                        }
                    },
            decreases self.events@.len() - i,
        {
            let err = match steps[i] {
                UnregisterStep::Done(status) => status,
                UnregisterStep::AskKernel => {
                    assert(old(self).spec_events()[i as int].spec_state().spec_write_index()
                        == BUSY_WRITE_INDEX);
                    self.events[i].state.complete_unregister(kernel_statuses[i])
                },
            };
            proof {
                assert(statuses.take(i + 1).drop_last() =~= statuses.take(i as int));
                assert(statuses.take(i + 1).last() == err);
            }
            if result == 0 {
                result = err;
            }
            i += 1;
        }
        assert(statuses.take(i as int) =~= statuses);
        self.busy = false;
        let bits = result as u32;
        assert(bits == i32_bits(result)) by (bit_vector)
            requires
                bits == result as u32,
        ;
        bits
    }
}

/// A copy of the bytes of `bytes`.
fn copy_bytes(bytes: &[u8]) -> (copy: Vec<u8>)
    ensures
        copy@ == bytes@,
{
    let mut copy: Vec<u8> = Vec::new();
    let mut i: usize = 0;
    while i < bytes.len()
        invariant
            i <= bytes@.len(),
            copy@ == bytes@.subrange(0, i as int),
        decreases bytes@.len() - i,
    {
        copy.push(bytes[i]);
        assert(bytes@.subrange(0, i as int).push(bytes@[i as int]) =~= bytes@.subrange(0, i + 1));
        i += 1;
    }
    assert(bytes@.subrange(0, i as int) =~= bytes@);
    copy
}

} // verus!
