//! Providers whose event sets are made at run time.
//!
//! A provider owns one event set for each (level, keyword) pair it was
//! asked for. Nothing here performs I/O: where the kernel has to be asked,
//! a function hands back what to ask, and a second function takes the
//! answer.

use vstd::prelude::*;
use vstd::string::StringSliceAdditionalSpecFns;
use vstd::string::StringExecFns;
use crate::command::{command_string, CommandString};
use crate::enums::Level;
use crate::native::{
    RegisterOutcome,
    TracepointState,
    UnregisterStep,
    BUSY_WRITE_INDEX,
    UNREGISTERED_WRITE_INDEX,
};

verus! {

/// Status of an event set that was made without a provider (`EINVAL`).
pub const ERROR_INVALID: i32 = 22;

/// The provider name and the group name together must be shorter than this.
pub const NAMES_MAX: usize = 234;

/// True for the characters that an option value is made of: `0` to `9`
/// and `a` to `z`.
pub open spec fn spec_is_option_val_char(ch: u8) -> bool {
    (48 <= ch <= 57) || (97 <= ch <= 122)
}

/// True for a value made of digits and lower-case ASCII letters only.
pub open spec fn spec_is_valid_option_value(value: Seq<u8>) -> bool {
    forall|i: int| 0 <= i < value.len() ==> spec_is_option_val_char(#[trigger] value[i])
}

/// True for the bytes of a provider name that its rules allow: no zero, no
/// blank, no colon.
pub open spec fn spec_is_valid_name(name: Seq<u8>) -> bool {
    forall|i: int| 0 <= i < name.len() ==> {
        let ch = #[trigger] name[i];
        ch != 0 && ch != 32 && ch != 58
    }
}

/// True for the characters that an option value is made of.
pub fn is_option_val_char(ch: u8) -> (valid: bool)
    ensures
        valid == spec_is_option_val_char(ch),
{
    (48 <= ch && ch <= 57) || (97 <= ch && ch <= 122)
}

/// Options of a provider. The one option is the name of the provider group
/// that the provider joins, empty for none.
#[derive(Clone, Copy, Debug)]
pub struct ProviderOptions<'a> {
    group_name: &'a str,
}

impl<'a> ProviderOptions<'a> {
    /// The name of the provider group, empty for none.
    pub closed spec fn spec_group_name(&self) -> Seq<char> {
        self.group_name@
    }

    /// The bytes of the name of the provider group.
    pub closed spec fn spec_group_bytes(&self) -> Seq<u8> {
        self.group_name.spec_bytes()
    }

    /// True if the value is made of digits and lower-case ASCII letters only.
    pub fn is_valid_option_value(value: &str) -> (valid: bool)
        ensures
            valid == spec_is_valid_option_value(value.spec_bytes()),
    {
        let value_bytes = value.as_bytes();
        let mut i: usize = 0;
        while i < value_bytes.len()
            invariant
                i <= value_bytes@.len(),
                value_bytes@ == value.spec_bytes(),
                forall|j: int| 0 <= j < i ==> spec_is_option_val_char(#[trigger] value_bytes@[j]),
            decreases value_bytes@.len() - i,
        {
            if !is_option_val_char(value_bytes[i]) {
                return false;
            }
            i += 1;
        }
        true
    }

    /// Options with no provider group.
    pub fn new() -> (options: Self)
        ensures
            options.spec_group_name() == Seq::<char>::empty(),
            options.spec_group_bytes() == Seq::<u8>::empty(),
    {
        let group_name = "";
        proof {
            reveal_strlit("");
            assert(group_name@.len() == 0);
            assert(group_name.spec_bytes() =~= Seq::<u8>::empty());
        }
        Self { group_name }
    }

    /// Sets the name of the provider group.
    pub fn group_name(&mut self, name: &'a str) -> (options: &mut Self)
        requires
            spec_is_valid_option_value(name.spec_bytes()),
        ensures
            options.spec_group_name() == name@,
            options.spec_group_bytes() == name.spec_bytes(),
            *final(self) == *final(options),
    {
        self.group_name = name;
        self
    }
}

/// The events of one provider that share a level and a keyword, and the
/// tracepoint that they are written to.
#[derive(Debug)]
pub struct EventSet {
    state: TracepointState,
    level: Level,
    keyword: u64,
    errno: i32,
}

impl EventSet {
    /// The tracepoint of the set.
    pub closed spec fn spec_state(&self) -> TracepointState {
        self.state
    }

    /// The level of the set.
    pub closed spec fn spec_level(&self) -> Level {
        self.level
    }

    /// The keyword of the set.
    pub closed spec fn spec_keyword(&self) -> u64 {
        self.keyword
    }

    /// The status of the registration of the set.
    pub closed spec fn spec_errno(&self) -> i32 {
        self.errno
    }

    /// True when the set has the given key.
    pub open spec fn has_key(&self, level: Level, keyword: u64) -> bool {
        self.spec_level() == level && self.spec_keyword() == keyword
    }

    /// A set with the given key and enable status, not registered.
    pub fn new(enable_status: u32, level: Level, keyword: u64) -> (set: EventSet)
        ensures
            set.has_key(level, keyword),
            set.spec_errno() == 0,
            set.spec_state().spec_enable_status() == enable_status,
            set.spec_state().spec_write_index() == UNREGISTERED_WRITE_INDEX,
    {
        EventSet { state: TracepointState::new(enable_status), level, keyword, errno: 0 }
    }

    /// A set that belongs to no provider: never enabled, and a write to it
    /// does nothing.
    pub fn new_unregistered() -> (set: EventSet)
        ensures
            set.has_key(Level(0), 0),
            set.spec_errno() == ERROR_INVALID,
            set.spec_state().spec_enable_status() == 0,
            set.spec_state().spec_write_index() == UNREGISTERED_WRITE_INDEX,
    {
        EventSet {
            state: TracepointState::new(0),
            level: Level::from_int(0),
            keyword: 0,
            errno: ERROR_INVALID,
        }
    }

    /// The tracepoint of the set.
    pub fn state(&self) -> (state: &TracepointState)
        ensures
            *state == self.spec_state(),
    {
        &self.state
    }

    /// The level of the set.
    pub fn level(&self) -> (level: Level)
        ensures
            level == self.spec_level(),
    {
        self.level
    }

    /// The keyword of the set.
    pub fn keyword(&self) -> (keyword: u64)
        ensures
            keyword == self.spec_keyword(),
    {
        self.keyword
    }

    /// True if a session listens to the events of this set.
    pub fn enabled(&self) -> (enabled: bool)
        ensures
            enabled == (self.spec_state().spec_enable_status() != 0),
    {
        self.state.enabled()
    }

    /// 0 if the set was registered, else the error code of the attempt.
    pub fn errno(&self) -> (errno: i32)
        ensures
            errno == self.spec_errno(),
    {
        self.errno
    }

    /// True if the kernel is still to be asked about this set: a register
    /// or an unregister has begun and awaits its answer.
    pub fn awaits_kernel(&self) -> (awaits: bool)
        ensures
            awaits == (self.spec_state().spec_write_index() == BUSY_WRITE_INDEX),
    {
        self.state.write_index() == BUSY_WRITE_INDEX
    }

    /// Records the enable status that the kernel reports for this set.
    pub fn set_enable_status(&mut self, enable_status: u32)
        ensures
            final(self).spec_state().spec_enable_status() == (if old(
                self,
            ).spec_state().spec_registered() {
                enable_status
            } else {
                old(self).spec_state().spec_enable_status()
            }),
            final(self).spec_state().spec_write_index() == old(
                self,
            ).spec_state().spec_write_index(),
            final(self).spec_state().spec_byte_order() == old(
                self,
            ).spec_state().spec_byte_order(),
            final(self).spec_level() == old(self).spec_level(),
            final(self).spec_keyword() == old(self).spec_keyword(),
            final(self).spec_errno() == old(self).spec_errno(),
    {
        self.state.set_enable_status(enable_status);
    }

    /// Takes the kernel's answer to the request to register this set, and
    /// records its status.
    pub fn complete_register(&mut self, outcome: RegisterOutcome)
        requires
            old(self).spec_state().spec_write_index() == BUSY_WRITE_INDEX,
        ensures
            final(self).spec_errno() == TracepointState::register_status(outcome),
            final(self).spec_state().spec_write_index() == TracepointState::register_index(
                outcome,
            ),
            final(self).spec_state().spec_enable_status() == old(
                self,
            ).spec_state().spec_enable_status(),
            final(self).spec_state().spec_byte_order() == old(
                self,
            ).spec_state().spec_byte_order(),
            final(self).spec_level() == old(self).spec_level(),
            final(self).spec_keyword() == old(self).spec_keyword(),
    {
        self.errno = self.state.complete_register(outcome);
    }

    /// Takes the kernel's answer to the request to unregister this set.
    /// From here on the set is not registered and never enabled.
    pub fn complete_unregister(&mut self, kernel_status: i32) -> (status: i32)
        requires
            old(self).spec_state().spec_write_index() == BUSY_WRITE_INDEX,
        ensures
            status == kernel_status,
            final(self).spec_state().spec_write_index() == UNREGISTERED_WRITE_INDEX,
            final(self).spec_state().spec_enable_status() == 0,
            final(self).spec_state().spec_byte_order() == old(
                self,
            ).spec_state().spec_byte_order(),
            final(self).spec_level() == old(self).spec_level(),
            final(self).spec_keyword() == old(self).spec_keyword(),
            final(self).spec_errno() == old(self).spec_errno(),
    {
        self.state.complete_unregister(kernel_status)
    }
}

/// True when some set of `sets` has the given key.
pub open spec fn contains_key(sets: Seq<EventSet>, level: Level, keyword: u64) -> bool {
    exists|i: int| 0 <= i < sets.len() && (#[trigger] sets[i]).has_key(level, keyword)
}

/// True when no two sets of `sets` have the same key.
pub open spec fn keys_unique(sets: Seq<EventSet>) -> bool {
    forall|i: int, j: int|
        0 <= i < j < sets.len() ==> !((#[trigger] sets[i]).has_key(
            (#[trigger] sets[j]).spec_level(),
            sets[j].spec_keyword(),
        ))
}

/// What `register_set` does to the sets of a provider. Where a set with
/// the key is there already, the sets stay as they are and the kernel is
/// not asked; else a set with the key is added at the end and the kernel
/// is asked. Either way `index` is where the set with the key stands.
pub open spec fn set_registered(
    before: Seq<EventSet>,
    after: Seq<EventSet>,
    level: Level,
    keyword: u64,
    index: int,
    asks_kernel: bool,
) -> bool {
    &&& 0 <= index < after.len()
    &&& after[index].has_key(level, keyword)
    &&& if contains_key(before, level, keyword) {
        !asks_kernel && after == before
    } else {
        asks_kernel && index == before.len() && after == before.push(after[index])
    }
}

/// Adding a set whose key is new keeps the keys unique.
pub proof fn lemma_push_keeps_keys_unique(sets: Seq<EventSet>, set: EventSet)
    requires
        keys_unique(sets),
        !contains_key(sets, set.spec_level(), set.spec_keyword()),
    ensures
        keys_unique(sets.push(set)),
{
    let after = sets.push(set);
    assert forall|i: int, j: int| 0 <= i < j < after.len() implies !((#[trigger] after[i]).has_key(
        (#[trigger] after[j]).spec_level(),
        after[j].spec_keyword(),
    )) by {
        if j == sets.len() {
            assert(after[i] == sets[i]);
            if sets[i].has_key(set.spec_level(), set.spec_keyword()) {
                assert(contains_key(sets, set.spec_level(), set.spec_keyword()));
            }
        } else {
            assert(after[i] == sets[i]);
            assert(after[j] == sets[j]);
        }
    }
}

/// Asking twice for the set of one key gives the same set both times: the
/// second call finds the set of the first, changes nothing, and does not
/// ask the kernel again.
pub proof fn lemma_register_set_idempotent(
    start: Seq<EventSet>,
    middle: Seq<EventSet>,
    end: Seq<EventSet>,
    level: Level,
    keyword: u64,
    first: int,
    first_asks: bool,
    second: int,
    second_asks: bool,
)
    requires
        keys_unique(start),
        set_registered(start, middle, level, keyword, first, first_asks),
        set_registered(middle, end, level, keyword, second, second_asks),
    ensures
        end == middle,
        second == first,
        !second_asks,
        end[second] == middle[first],
{
    assert(middle[first].has_key(level, keyword));
    assert(contains_key(middle, level, keyword));
    if !contains_key(start, level, keyword) {
        lemma_push_keeps_keys_unique(start, middle[first]);
    }
    assert(keys_unique(middle));
    if second < first {
        assert(!middle[second].has_key(middle[first].spec_level(), middle[first].spec_keyword()));
    } else if first < second {
        assert(!middle[first].has_key(middle[second].spec_level(), middle[second].spec_keyword()));
    }
}

/// A provider without sets has no set of any key, so none that is enabled.
pub proof fn lemma_no_sets_no_key(level: Level, keyword: u64)
    ensures
        !contains_key(Seq::<EventSet>::empty(), level, keyword),
{
}

/// What `register_set` found or made.
#[derive(Debug)]
pub struct SetRegistration {
    /// Where the set stands among the sets of the provider.
    pub index: usize,
    /// For a set that was made by this call: the command with which the
    /// kernel is to be asked to register it. `None` for a set that the
    /// provider had already.
    pub command: Option<Vec<u8>>,
}

/// A connection for writing events whose shape is known at run time only.
#[derive(Debug)]
pub struct Provider {
    name: String,
    options: String,
    sets: Vec<EventSet>,
}

impl Provider {
    /// The name of the provider.
    pub closed spec fn spec_name(&self) -> Seq<char> {
        self.name@
    }

    /// The options of the provider: empty, or `G` and the group name.
    pub closed spec fn spec_options(&self) -> Seq<char> {
        self.options@
    }

    /// The bytes of the name of the provider: its UTF-8 encoding.
    pub open spec fn spec_name_bytes(&self) -> Seq<u8> {
        vstd::utf8::encode_utf8(self.spec_name())
    }

    /// The bytes of the options of the provider: their UTF-8 encoding.
    pub open spec fn spec_options_bytes(&self) -> Seq<u8> {
        vstd::utf8::encode_utf8(self.spec_options())
    }

    /// The event sets of the provider, in the order they were made.
    pub closed spec fn spec_sets(&self) -> Seq<EventSet> {
        self.sets@
    }

    /// The invariant of the registry: one set for each key.
    pub open spec fn wf(&self) -> bool {
        keys_unique(self.spec_sets())
    }

    /// Default options: no provider group.
    pub fn new_options<'a>() -> (options: ProviderOptions<'a>)
        ensures
            options.spec_group_name() == Seq::<char>::empty(),
            options.spec_group_bytes() == Seq::<u8>::empty(),
    {
        ProviderOptions::new()
    }

    /// True if a provider may be made of this name and these options: the
    /// name and the group name together are shorter than 234 bytes, and the
    /// name holds no zero, blank or colon.
    pub fn is_valid_name(name: &str, options: &ProviderOptions<'_>) -> (valid: bool)
        ensures
            valid == (name.spec_bytes().len() + options.spec_group_bytes().len() < NAMES_MAX
                && spec_is_valid_name(name.spec_bytes())),
    {
        let name_bytes = name.as_bytes();
        let group_len = options.group_name.as_bytes().len();
        if name_bytes.len() >= NAMES_MAX || group_len >= NAMES_MAX - name_bytes.len() {
            return false;
        }
        let mut i: usize = 0;
        while i < name_bytes.len()
            invariant
                i <= name_bytes@.len(),
                name_bytes@ == name.spec_bytes(),
                forall|j: int|
                    0 <= j < i ==> {
                        let ch = #[trigger] name_bytes@[j];
                        ch != 0 && ch != 32 && ch != 58
                    },
            decreases name_bytes@.len() - i,
        {
            let ch = name_bytes[i];
            if ch == 0 || ch == 32 || ch == 58 {
                return false;
            }
            i += 1;
        }
        true
    }

    /// A provider with the given name and options, and no event sets.
    pub fn new(name: &str, options: &ProviderOptions<'_>) -> (provider: Self)
        requires
            name.spec_bytes().len() + options.spec_group_bytes().len() < NAMES_MAX,
            spec_is_valid_name(name.spec_bytes()),
        ensures
            provider.wf(),
            provider.spec_name() == name@,
            provider.spec_options() == (if options.spec_group_name().len() == 0 {
                Seq::<char>::empty()
            } else {
                seq!['G'] + options.spec_group_name()
            }),
            provider.spec_sets() == Seq::<EventSet>::empty(),
    {
        let options_string = if options.group_name.unicode_len() == 0 {
            String::new()
        } else {
            let mut text = String::from_str("G");
            proof {
                reveal_strlit("G");
            }
            text.append(options.group_name);
            assert(text@ =~= seq!['G'] + options.spec_group_name());
            text
        };
        Self { name: String::from_str(name), options: options_string, sets: Vec::new() }
    }

    /// The name of the provider.
    pub fn name(&self) -> (name: &str)
        ensures
            name@ == self.spec_name(),
    {
        self.name.as_str()
    }

    /// The options of the provider, e.g. `""` or `"Gmygroup"`.
    pub fn options(&self) -> (options: &str)
        ensures
            options@ == self.spec_options(),
    {
        self.options.as_str()
    }

    /// The number of event sets of the provider.
    pub fn set_count(&self) -> (count: usize)
        ensures
            count == self.spec_sets().len(),
    {
        self.sets.len()
    }

    /// Where the set with the given key stands, if there is one.
    fn position(&self, level: Level, keyword: u64) -> (found: Option<usize>)
        ensures
            match found {
                Some(i) => i < self.spec_sets().len() && self.spec_sets()[i as int].has_key(
                    level,
                    keyword,
                ),
                None => !contains_key(self.spec_sets(), level, keyword),
            },
    {
        let mut i: usize = 0;
        while i < self.sets.len()
            invariant
                i <= self.sets@.len(),
                forall|j: int| 0 <= j < i ==> !(#[trigger] self.sets@[j]).has_key(level, keyword),
            decreases self.sets@.len() - i,
        {
            if self.sets[i].level.as_int() == level.as_int() && self.sets[i].keyword == keyword {
                return Some(i);
            }
            i += 1;
        }
        None
    }

    /// The set with the given key, if the provider has one.
    pub fn find_set(&self, level: Level, keyword: u64) -> (found: Option<&EventSet>)
        ensures
            found is Some <==> contains_key(self.spec_sets(), level, keyword),
            found is Some ==> found.unwrap().has_key(level, keyword) && self.spec_sets().contains(
                *found.unwrap(),
            ),
    {
        match self.position(level, keyword) {
            Some(i) => {
                assert(self.sets@[i as int] == self.sets@[i as int]);
                Some(&self.sets[i])
            },
            None => None,
        }
    }

    /// The set at the given place, if there is one.
    pub fn set_at(&self, index: usize) -> (found: Option<&EventSet>)
        ensures
            found is Some <==> index < self.spec_sets().len(),
            found is Some ==> *found.unwrap() == self.spec_sets()[index as int],
    {
        if index < self.sets.len() {
            Some(&self.sets[index])
        } else {
            None
        }
    }

    /// Finds the set with the given key, or makes it and begins to register
    /// it. For a set that the provider has already, nothing changes, and no
    /// command comes back. A new set is added at the end, busy, and the
    /// caller asks the kernel with the command that comes back and hands
    /// the answer to `complete_register_set`.
    pub fn register_set(&mut self, level: Level, keyword: u64) -> (registration: SetRegistration)
        requires
            old(self).wf(),
        ensures
            final(self).wf(),
            final(self).spec_name() == old(self).spec_name(),
            final(self).spec_options() == old(self).spec_options(),
            set_registered(
                old(self).spec_sets(),
                final(self).spec_sets(),
                level,
                keyword,
                registration.index as int,
                registration.command is Some,
            ),
            registration.index < final(self).spec_sets().len(),
            final(self).spec_sets()[registration.index as int].has_key(level, keyword),
            contains_key(old(self).spec_sets(), level, keyword) ==> registration.command is None
                && final(self).spec_sets() == old(self).spec_sets(),
            !contains_key(old(self).spec_sets(), level, keyword) ==> {
                let set = final(self).spec_sets()[registration.index as int];
                &&& registration.index == old(self).spec_sets().len()
                &&& final(self).spec_sets() == old(self).spec_sets().push(set)
                &&& set.spec_errno() == 0
                &&& set.spec_state().spec_enable_status() == 0
                &&& set.spec_state().spec_write_index() == BUSY_WRITE_INDEX
                &&& registration.command is Some
                &&& registration.command.unwrap()@ == command_string(
                    old(self).spec_name_bytes(),
                    old(self).spec_options_bytes(),
                    level,
                    keyword,
                )
            },
    {
        match self.position(level, keyword) {
            Some(index) => SetRegistration { index, command: None },
            None => {
                let mut set = EventSet::new(0, level, keyword);
                set.state.register();
                let mut command_string = CommandString::new();
                let name_args = command_string.format(
                    self.name.as_str().as_bytes(),
                    self.options.as_str().as_bytes(),
                    level,
                    keyword,
                );
                let command = slice_to_vec(name_args);
                let index = self.sets.len();
                let ghost fresh = set;
                self.sets.push(set);
                proof {
                    let sets = self.sets@;
                    assert(sets[index as int] == fresh);
                    assert forall|i: int, j: int| 0 <= i < j < sets.len() implies !((
                    #[trigger] sets[i]).has_key(
                        (#[trigger] sets[j]).spec_level(),
                        sets[j].spec_keyword(),
                    )) by {
                        if j == index {
                            assert(sets[i] == old(self).spec_sets()[i]);
                        } else {
                            assert(sets[i] == old(self).spec_sets()[i]);
                            assert(sets[j] == old(self).spec_sets()[j]);
                        }
                    }
                }
                SetRegistration { index, command: Some(command) }
            },
        }
    }

    /// Takes the kernel's answer to the request to register the set at
    /// `index`, and records its status in the set. A set that did not
    /// register stays in the provider, disabled for good.
    pub fn complete_register_set(&mut self, index: usize, outcome: RegisterOutcome)
        requires
            old(self).wf(),
            index < old(self).spec_sets().len(),
            old(self).spec_sets()[index as int].spec_state().spec_write_index()
                == BUSY_WRITE_INDEX,
        ensures
            final(self).wf(),
            final(self).spec_name() == old(self).spec_name(),
            final(self).spec_options() == old(self).spec_options(),
            final(self).spec_sets().len() == old(self).spec_sets().len(),
            forall|i: int|
                0 <= i < old(self).spec_sets().len() && i != index ==> final(self).spec_sets()[i]
                    == old(self).spec_sets()[i],
            ({
                let before = old(self).spec_sets()[index as int];
                let after = final(self).spec_sets()[index as int];
                &&& after.has_key(before.spec_level(), before.spec_keyword())
                &&& after.spec_errno() == TracepointState::register_status(outcome)
                &&& after.spec_state().spec_write_index() == TracepointState::register_index(
                    outcome,
                )
                &&& after.spec_state().spec_enable_status()
                    == before.spec_state().spec_enable_status()
            }),
    {
        let ghost before = self.sets@;
        self.sets[index].complete_register(outcome);
        proof {
            let sets = self.sets@;
            assert forall|i: int, j: int| 0 <= i < j < sets.len() implies !((
            #[trigger] sets[i]).has_key((#[trigger] sets[j]).spec_level(), sets[j].spec_keyword()))
            by {
                assert(sets[i].has_key(before[i].spec_level(), before[i].spec_keyword()));
                assert(sets[j].has_key(before[j].spec_level(), before[j].spec_keyword()));
                assert(!before[i].has_key(before[j].spec_level(), before[j].spec_keyword()));
            }
        }
    }

    /// Records the enable status that the kernel reports for the set at
    /// `index`. The kernel reports only on registered sets: on any other the
    /// call changes nothing.
    pub fn set_enable_status(&mut self, index: usize, enable_status: u32)
        requires
            old(self).wf(),
            index < old(self).spec_sets().len(),
        ensures
            final(self).wf(),
            final(self).spec_name() == old(self).spec_name(),
            final(self).spec_options() == old(self).spec_options(),
            final(self).spec_sets().len() == old(self).spec_sets().len(),
            forall|i: int|
                0 <= i < old(self).spec_sets().len() && i != index ==> final(self).spec_sets()[i]
                    == old(self).spec_sets()[i],
            ({
                let before = old(self).spec_sets()[index as int];
                let after = final(self).spec_sets()[index as int];
                &&& after.has_key(before.spec_level(), before.spec_keyword())
                &&& after.spec_errno() == before.spec_errno()
                &&& after.spec_state().spec_write_index()
                    == before.spec_state().spec_write_index()
                &&& after.spec_state().spec_enable_status() == (
                if before.spec_state().spec_registered() {
                    enable_status
                } else {
                    before.spec_state().spec_enable_status()
                })
            }),
    {
        let ghost before = self.sets@;
        self.sets[index].set_enable_status(enable_status);
        proof {
            let sets = self.sets@;
            assert forall|i: int, j: int| 0 <= i < j < sets.len() implies !((
            #[trigger] sets[i]).has_key((#[trigger] sets[j]).spec_level(), sets[j].spec_keyword()))
            by {
                assert(sets[i].has_key(before[i].spec_level(), before[i].spec_keyword()));
                assert(sets[j].has_key(before[j].spec_level(), before[j].spec_keyword()));
                assert(!before[i].has_key(before[j].spec_level(), before[j].spec_keyword()));
            }
        }
    }

    /// Finds the set with the given key, or makes one that is not
    /// registered and reports the given enable status. Meant for tests.
    pub fn create_unregistered(&mut self, enabled: bool, level: Level, keyword: u64) -> (index:
        usize)
        requires
            old(self).wf(),
        ensures
            final(self).wf(),
            final(self).spec_name() == old(self).spec_name(),
            final(self).spec_options() == old(self).spec_options(),
            index < final(self).spec_sets().len(),
            final(self).spec_sets()[index as int].has_key(level, keyword),
            contains_key(old(self).spec_sets(), level, keyword) ==> final(self).spec_sets() == old(
                self,
            ).spec_sets(),
            !contains_key(old(self).spec_sets(), level, keyword) ==> {
                let set = final(self).spec_sets()[index as int];
                &&& index == old(self).spec_sets().len()
                &&& final(self).spec_sets() == old(self).spec_sets().push(set)
                &&& set.spec_errno() == 0
                &&& set.spec_state().spec_enable_status() == (if enabled { 1u32 } else { 0u32 })
                &&& set.spec_state().spec_write_index() == UNREGISTERED_WRITE_INDEX
            },
    {
        match self.position(level, keyword) {
            Some(index) => index,
            None => {
                let set = EventSet::new(if enabled { 1 } else { 0 }, level, keyword);
                let index = self.sets.len();
                let ghost fresh = set;
                self.sets.push(set);
                proof {
                    let sets = self.sets@;
                    assert(sets[index as int] == fresh);
                    assert forall|i: int, j: int| 0 <= i < j < sets.len() implies !((
                    #[trigger] sets[i]).has_key(
                        (#[trigger] sets[j]).spec_level(),
                        sets[j].spec_keyword(),
                    )) by {
                        if j == index {
                            assert(sets[i] == old(self).spec_sets()[i]);
                        } else {
                            assert(sets[i] == old(self).spec_sets()[i]);
                            assert(sets[j] == old(self).spec_sets()[j]);
                        }
                    }
                }
                index
            },
        }
    }

    /// True if the provider has a set with the given key and a session
    /// listens to it.
    pub fn enabled_lookup(&self, level: Level, keyword: u64) -> (enabled: bool)
        requires
            self.wf(),
        ensures
            enabled ==> contains_key(self.spec_sets(), level, keyword),
            enabled <==> exists|i: int|
                0 <= i < self.spec_sets().len() && (#[trigger] self.spec_sets()[i]).has_key(
                    level,
                    keyword,
                ) && self.spec_sets()[i].spec_state().spec_enable_status() != 0,
    {
        match self.position(level, keyword) {
            Some(i) => {
                let enabled = self.sets[i].enabled();
                proof {
                    if !enabled {
                        assert forall|j: int|
                            0 <= j < self.spec_sets().len() && (#[trigger] self.spec_sets()[j]).has_key(
                            level, keyword) implies self.spec_sets()[j].spec_state().spec_enable_status() == 0 by {
                            if j < i {
                                assert(!self.spec_sets()[j].has_key(
                                    self.spec_sets()[i as int].spec_level(),
                                    self.spec_sets()[i as int].spec_keyword(),
                                ));
                            } else if j > i {
                                assert(!self.spec_sets()[i as int].has_key(
                                    self.spec_sets()[j].spec_level(),
                                    self.spec_sets()[j].spec_keyword(),
                                ));
                            }
                        }
                    }
                }
                enabled
            },
            None => false,
        }
    }

    /// Gives up every event set. The sets come back, each after the first
    /// step of its unregister: those that were registered are busy, and the
    /// caller asks the kernel to unregister each and hands the answer to
    /// its `complete_unregister`. The provider is left with no sets; it is
    /// safe to call this on a provider that has none.
    pub fn unregister(&mut self) -> (released: Vec<EventSet>)
        ensures
            final(self).wf(),
            final(self).spec_sets() == Seq::<EventSet>::empty(),
            final(self).spec_name() == old(self).spec_name(),
            final(self).spec_options() == old(self).spec_options(),
            released@.len() == old(self).spec_sets().len(),
            forall|i: int|
                0 <= i < released@.len() ==> {
                    let before = old(self).spec_sets()[i];
                    let after = #[trigger] released@[i];
                    &&& after.has_key(before.spec_level(), before.spec_keyword())
                    &&& after.spec_errno() == before.spec_errno()
                    &&& after.spec_state().spec_byte_order()
                        == before.spec_state().spec_byte_order()
                    &&& after.spec_state().spec_enable_status()
                        == before.spec_state().spec_enable_status()
                    &&& after.spec_state().spec_write_index() == (
                    if before.spec_state().spec_write_index() == UNREGISTERED_WRITE_INDEX {
                        UNREGISTERED_WRITE_INDEX
                    } else {
                        BUSY_WRITE_INDEX
                    })
                },
    {
        let mut released: Vec<EventSet> = Vec::new();
        std::mem::swap(&mut released, &mut self.sets);
        let mut i: usize = 0;
        while i < released.len()
            invariant
                i <= released@.len(),
                released@.len() == old(self).spec_sets().len(),
                self.sets@ == Seq::<EventSet>::empty(),
                self.name == old(self).name,
                self.options == old(self).options,
                forall|j: int|
                    i <= j < released@.len() ==> #[trigger] released@[j] == old(
                        self,
                    ).spec_sets()[j],
                forall|j: int|
                    0 <= j < i ==> {
                        let before = old(self).spec_sets()[j];
                        let after = #[trigger] released@[j];
                        &&& after.has_key(before.spec_level(), before.spec_keyword())
                        &&& after.spec_errno() == before.spec_errno()
                        &&& after.spec_state().spec_byte_order()
                            == before.spec_state().spec_byte_order()
                        &&& after.spec_state().spec_enable_status()
                            == before.spec_state().spec_enable_status()
                        &&& after.spec_state().spec_write_index() == (
                        if before.spec_state().spec_write_index() == UNREGISTERED_WRITE_INDEX {
                            UNREGISTERED_WRITE_INDEX
                        } else {
                            BUSY_WRITE_INDEX
                        })
                    },
            decreases released@.len() - i,
        {
            let _step: UnregisterStep = released[i].state.unregister();
            i += 1;
        }
        released
    }
}

/// A copy of the bytes of `bytes`.
fn slice_to_vec(bytes: &[u8]) -> (copy: Vec<u8>)
    ensures
        copy@ == bytes@,
{
    let mut copy: Vec<u8> = Vec::new();
    let mut i: usize = 0;
    while i < bytes.len()
        invariant
            i <= bytes@.len(),
            copy@ == bytes@.subrange(0, i as int),
        decreases bytes@.len() - i,
    {
        copy.push(bytes[i]);
        assert(bytes@.subrange(0, i as int).push(bytes@[i as int]) =~= bytes@.subrange(0, i + 1));
        i += 1;
    }
    assert(bytes@.subrange(0, i as int) =~= bytes@);
    copy
}

} // verus!
