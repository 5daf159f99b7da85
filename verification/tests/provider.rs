use eventheader::builder::EventBuilder;
use eventheader::command::CommandString;
use eventheader::descriptors::{EventDataDescriptor, EventHeader};
use eventheader::dynamic::{is_option_val_char, EventSet, Provider, ProviderOptions};
use eventheader::enums::{HeaderFlags, Level, Opcode};
use eventheader::native::{
    RegisterOutcome, UnregisterStep, BUSY_WRITE_INDEX, UNREGISTERED_WRITE_INDEX,
};
use eventheader::provider::{provider_new, EventHeaderTracepoint};
use uuid::Uuid;

const TYPES: &str = " u8 eventheader_flags;u8 version;u16 id;u16 tag;u8 opcode;u8 level\0";

fn command(name: &str) -> Vec<u8> {
    format!("{}{}", name, TYPES).into_bytes()
}

#[test]
fn provider() {
    let mut options = Provider::new_options();
    println!("{:?}", options.group_name("mygroup"));

    let provider = Provider::new(
        "MyCompany_MyComponent",
        Provider::new_options().group_name("mygroup"),
    );
    assert_eq!(provider.name(), "MyCompany_MyComponent");
    assert_eq!(provider.options(), "Gmygroup");

    let mut provider = Provider::new("Hello", &Provider::new_options());
    assert_eq!(provider.name(), "Hello");
    assert_eq!(provider.options(), "");

    provider.unregister();

    // No kernel facility here: the set is made, and its registration fails.
    let mut provider = Provider::new("MyCompany_MyComponent", &Provider::new_options());
    let l5k123 = provider.register_set(Level::verbose(), 0x123);
    provider.complete_register_set(l5k123.index, RegisterOutcome::NoControlFile(-2));
    _ = provider.set_at(l5k123.index).unwrap().enabled();

    let released = provider.unregister();
    assert_eq!(released.len(), 1);
    let es_l5k123 = &released[0];
    assert!(!es_l5k123.enabled());

    let mut b = EventBuilder::new();

    let mut provider = Provider::new(
        "EventHeaderDynamicTest",
        Provider::new_options().group_name("testgroup"),
    );

    let aid = Uuid::parse_str("7ae27afb-11cf-4edd-8b15-9997ec20e0fc").unwrap();
    let rid = &Uuid::parse_str("848292a8-7cae-45b8-b3e6-ad51a6433d11").unwrap();

    let l5k1 = provider.register_set(Level::verbose(), 0x1);
    provider.complete_register_set(l5k1.index, RegisterOutcome::NoControlFile(-2));
    let es_l5k1 = provider.set_at(l5k1.index).unwrap();
    assert_eq!(
        b.reset("GroupEvent-Start", 0)
            .opcode(Opcode::activity_start())
            .write(es_l5k1, Some(aid.as_bytes()), Some(rid.as_bytes())),
        Ok(None)
    );
    assert_eq!(
        b.reset("GroupEvent-Stop", 0)
            .opcode(Opcode::activity_stop())
            .write(es_l5k1, Some(aid.as_bytes()), None),
        Ok(None)
    );
}

#[test]
fn option_values() {
    assert!(ProviderOptions::is_valid_option_value(""));
    assert!(ProviderOptions::is_valid_option_value("mygroup"));
    assert!(ProviderOptions::is_valid_option_value("az09"));
    assert!(!ProviderOptions::is_valid_option_value("MyGroup"));
    assert!(!ProviderOptions::is_valid_option_value("my_group"));
    assert!(!ProviderOptions::is_valid_option_value("my group"));
    assert!(!ProviderOptions::is_valid_option_value("gr\u{fc}n"));
    assert!(is_option_val_char(b'0'));
    assert!(is_option_val_char(b'9'));
    assert!(is_option_val_char(b'a'));
    assert!(is_option_val_char(b'z'));
    assert!(!is_option_val_char(b'/'));
    assert!(!is_option_val_char(b':'));
    assert!(!is_option_val_char(b'`'));
    assert!(!is_option_val_char(b'{'));
    assert!(!is_option_val_char(b'A'));
}

#[test]
fn provider_names_follow_the_naming_rules() {
    let none = ProviderOptions::new();
    assert!(Provider::is_valid_name("MyCompany_MyComponent", &none));
    assert!(Provider::is_valid_name("", &none));
    assert!(!Provider::is_valid_name("My Company", &none));
    assert!(!Provider::is_valid_name("My:Company", &none));
    assert!(!Provider::is_valid_name("My\0Company", &none));
    assert!(Provider::is_valid_name(&"n".repeat(233), &none));
    assert!(!Provider::is_valid_name(&"n".repeat(234), &none));
    let mut group = ProviderOptions::new();
    group.group_name("abcd");
    assert!(Provider::is_valid_name(&"n".repeat(229), &group));
    assert!(!Provider::is_valid_name(&"n".repeat(230), &group));
}

#[test]
fn command_strings() {
    let mut buffer = CommandString::new();
    assert_eq!(
        buffer.format(b"Test_Provider", b"", Level::verbose(), 0x1),
        command("Test_Provider_L5K1").as_slice()
    );
    assert_eq!(
        buffer.format(b"P", b"Gmygroup", Level::from_int(0xff), u64::MAX),
        command("P_LffKffffffffffffffffGmygroup").as_slice()
    );
    assert_eq!(
        buffer.format(b"P", b"", Level::from_int(0), 0),
        command("P_L0K0").as_slice()
    );
    assert_eq!(
        buffer.format(b"", b"", Level::from_int(0x10), 0xABCDEF0123),
        command("_L10Kabcdef0123").as_slice()
    );
}

#[test]
fn register_set_is_idempotent() {
    let mut provider = Provider::new("Test_Provider", &Provider::new_options());
    assert_eq!(provider.set_count(), 0);
    assert!(provider.find_set(Level::verbose(), 0x1).is_none());

    let first = provider.register_set(Level::verbose(), 0x1);
    assert_eq!(first.index, 0);
    assert_eq!(first.command, Some(command("Test_Provider_L5K1")));
    assert!(provider.set_at(0).unwrap().awaits_kernel());
    provider.complete_register_set(first.index, RegisterOutcome::Assigned(4));
    provider.set_enable_status(first.index, 1);

    let second = provider.register_set(Level::verbose(), 0x1);
    assert_eq!(second.index, first.index);
    assert_eq!(second.command, None);
    assert_eq!(provider.set_count(), 1);
    let set = provider.set_at(second.index).unwrap();
    assert!(set.enabled());
    assert_eq!(set.errno(), 0);
    assert_eq!(set.level(), Level::verbose());
    assert_eq!(set.keyword(), 0x1);
    assert_eq!(set.state().write_index(), 4);
    let found = provider.find_set(Level::verbose(), 0x1).unwrap();
    assert_eq!(found.state().write_index(), 4);
    assert!(provider.enabled_lookup(Level::verbose(), 0x1));

    // Another level or another keyword is another set.
    let other = provider.register_set(Level::verbose(), 0x2);
    assert_eq!(other.index, 1);
    assert_eq!(other.command, Some(command("Test_Provider_L5K2")));
    provider.complete_register_set(other.index, RegisterOutcome::Refused(13));
    let third = provider.register_set(Level::warning(), 0x1);
    assert_eq!(third.index, 2);
    assert_eq!(third.command, Some(command("Test_Provider_L3K1")));
    provider.complete_register_set(third.index, RegisterOutcome::Assigned(5));
    assert_eq!(provider.set_count(), 3);
    assert!(provider.find_set(Level::warning(), 0x2).is_none());
    assert!(!provider.enabled_lookup(Level::verbose(), 0x2));
    assert!(!provider.enabled_lookup(Level::warning(), 0x2));
}

#[test]
fn a_set_that_did_not_register_stays_disabled() {
    let mut provider = Provider::new("P", &Provider::new_options());
    let r = provider.register_set(Level::verbose(), 0x1);
    provider.complete_register_set(r.index, RegisterOutcome::NoControlFile(-13));
    assert_eq!(provider.set_at(r.index).unwrap().errno(), 13);
    provider.set_enable_status(r.index, 1);
    let set = provider.set_at(r.index).unwrap();
    assert!(!set.enabled());
    assert_eq!(set.state().write_index(), UNREGISTERED_WRITE_INDEX);
    // Asking again gives the same set; nothing is tried again.
    let again = provider.register_set(Level::verbose(), 0x1);
    assert_eq!(again.index, r.index);
    assert_eq!(again.command, None);
    assert_eq!(provider.set_at(again.index).unwrap().errno(), 13);
}

#[test]
fn provider_group_is_part_of_the_tracepoint_name() {
    let mut options = ProviderOptions::new();
    options.group_name("mygroup");
    let mut provider = Provider::new("MyCompany_MyComponent", &options);
    let r = provider.register_set(Level::informational(), 0x1f);
    assert_eq!(r.command, Some(command("MyCompany_MyComponent_L4K1fGmygroup")));
}

#[test]
fn unregister_forgets_every_set() {
    let mut provider = Provider::new("P", &Provider::new_options());
    // Safe on a provider that has no sets, and more than once.
    assert!(provider.unregister().is_empty());
    assert!(provider.unregister().is_empty());

    let a = provider.register_set(Level::verbose(), 0x1);
    provider.complete_register_set(a.index, RegisterOutcome::Assigned(1));
    provider.set_enable_status(a.index, 1);
    let b = provider.register_set(Level::verbose(), 0x2);
    provider.complete_register_set(b.index, RegisterOutcome::Refused(22));
    assert!(provider.enabled_lookup(Level::verbose(), 0x1));

    let mut released = provider.unregister();
    assert_eq!(provider.set_count(), 0);
    assert!(provider.find_set(Level::verbose(), 0x1).is_none());
    assert!(!provider.enabled_lookup(Level::verbose(), 0x1));
    assert!(!provider.enabled_lookup(Level::verbose(), 0x2));

    assert_eq!(released.len(), 2);
    // The registered one awaits the kernel; the other is done.
    assert!(released[0].awaits_kernel());
    assert_eq!(released[0].state().write_index(), BUSY_WRITE_INDEX);
    assert!(!released[1].awaits_kernel());
    assert_eq!(released[1].errno(), 22);
    assert_eq!(released[0].complete_unregister(0), 0);
    assert!(!released[0].enabled());
    assert!(released[0].state().is_unregistered());
    // No status from the kernel can enable it any more.
    released[0].set_enable_status(1);
    assert!(!released[0].enabled());
    released[1].set_enable_status(1);
    assert!(!released[1].enabled());

    // The provider can be used again.
    let again = provider.register_set(Level::verbose(), 0x1);
    assert_eq!(again.index, 0);
    assert!(again.command.is_some());
    assert!(provider.unregister().len() == 1);
}

#[test]
fn sets_made_for_tests() {
    let mut provider = Provider::new("P", &Provider::new_options());
    let on = provider.create_unregistered(true, Level::verbose(), 0x1);
    let off = provider.create_unregistered(false, Level::verbose(), 0x2);
    assert_eq!((on, off), (0, 1));
    assert!(provider.set_at(on).unwrap().enabled());
    assert!(!provider.set_at(off).unwrap().enabled());
    assert_eq!(provider.set_at(on).unwrap().errno(), 0);
    // The key decides, not the status asked for.
    assert_eq!(provider.create_unregistered(false, Level::verbose(), 0x1), on);
    assert!(provider.set_at(on).unwrap().enabled());
    // A registered set of the same key is found as well.
    assert_eq!(provider.register_set(Level::verbose(), 0x2).command, None);
    // Enabled, and still nothing is written: it is not registered.
    let mut b = EventBuilder::new();
    b.reset("E", 0);
    assert_eq!(b.write(provider.set_at(on).unwrap(), None, None), Ok(None));
    assert!(provider.set_at(5).is_none());
}

#[test]
fn placeholder_set() {
    let set = EventSet::new_unregistered();
    assert!(!set.enabled());
    assert_eq!(set.errno(), 22);
    assert_eq!(set.level(), Level::invalid());
    assert_eq!(set.keyword(), 0);
    assert!(set.state().is_unregistered());
    let fresh = EventSet::new(1, Level::error(), 7);
    assert!(fresh.enabled());
    assert_eq!(fresh.errno(), 0);
    assert_eq!(fresh.level().as_int(), 2);
}

fn tracepoint(level: Level, keyword: u64, metadata: &'static [u8]) -> EventHeaderTracepoint<'static> {
    EventHeaderTracepoint::new(
        EventHeader::from_parts(
            HeaderFlags::native(true),
            0,
            0,
            0,
            Opcode::info(),
            level,
        ),
        keyword,
        metadata,
    )
}

#[test]
fn static_provider_registers_all_its_tracepoints() {
    let mut provider = provider_new("TestProvider2", "Gmygroup");
    assert_eq!("TestProvider2", provider.name());
    assert_eq!("Gmygroup", provider.options());
    assert_eq!(provider.add_event(tracepoint(Level::verbose(), 1, b"A\0")), 0);
    assert_eq!(provider.add_event(tracepoint(Level::error(), 0x20, b"B\0")), 1);
    assert_eq!(provider.event_count(), 2);
    assert!(provider.can_register());
    assert!(!provider.is_busy());

    let commands = provider.register();
    assert_eq!(
        commands,
        vec![
            command("TestProvider2_L5K1Gmygroup"),
            command("TestProvider2_L2K20Gmygroup")
        ]
    );
    assert!(provider.is_busy());
    assert!(!provider.can_register());
    assert_eq!(
        provider.event(0).unwrap().state().write_index(),
        BUSY_WRITE_INDEX
    );
    // While a register is under way, an unregister does nothing.
    assert_eq!(provider.unregister(), None);

    let result = provider.complete_register(&[
        RegisterOutcome::Assigned(3),
        RegisterOutcome::Refused(17),
    ]);
    assert_eq!(result, 17);
    assert!(!provider.is_busy());
    assert_eq!(provider.event(0).unwrap().state().write_index(), 3);
    assert!(provider.event(1).unwrap().state().is_unregistered());
    assert!(!provider.can_register());
    assert!(provider.event(2).is_none());
}

#[test]
fn static_provider_reports_the_first_error() {
    let mut provider = provider_new("P", "");
    provider.add_event(tracepoint(Level::verbose(), 1, b"A\0"));
    provider.add_event(tracepoint(Level::verbose(), 2, b"B\0"));
    provider.add_event(tracepoint(Level::verbose(), 3, b"C\0"));
    provider.register();
    assert_eq!(
        provider.complete_register(&[
            RegisterOutcome::Assigned(0),
            RegisterOutcome::NoControlFile(-2),
            RegisterOutcome::Refused(13),
        ]),
        2
    );
    let mut all_good = provider_new("P", "");
    all_good.add_event(tracepoint(Level::verbose(), 1, b"A\0"));
    all_good.register();
    assert_eq!(all_good.complete_register(&[RegisterOutcome::Assigned(0)]), 0);
    let mut empty = provider_new("P", "");
    assert!(empty.register().is_empty());
    assert_eq!(empty.complete_register(&[]), 0);
}

#[test]
fn static_provider_unregisters_all_its_tracepoints() {
    let mut provider = provider_new("P", "");
    provider.add_event(tracepoint(Level::verbose(), 1, b"A\0"));
    provider.add_event(tracepoint(Level::verbose(), 2, b"B\0"));

    // Never registered: every tracepoint answers that it is done already.
    let steps = provider.unregister().unwrap();
    assert_eq!(steps, vec![UnregisterStep::Done(116), UnregisterStep::Done(116)]);
    assert_eq!(provider.complete_unregister(&steps, &[0, 0]), 116);
    assert!(provider.can_register());

    provider.register();
    provider.complete_register(&[RegisterOutcome::Assigned(1), RegisterOutcome::Refused(5)]);
    let steps = provider.unregister().unwrap();
    assert_eq!(steps, vec![UnregisterStep::AskKernel, UnregisterStep::Done(116)]);
    assert!(provider.is_busy());
    assert_eq!(provider.complete_unregister(&steps, &[0, 0]), 116);
    assert!(provider.event(0).unwrap().state().is_unregistered());
    assert!(!provider.event(0).unwrap().enabled());
    assert!(provider.can_register());

    provider.register();
    provider.complete_register(&[RegisterOutcome::Assigned(1), RegisterOutcome::Assigned(2)]);
    let steps = provider.unregister().unwrap();
    assert_eq!(provider.complete_unregister(&steps, &[0, 9]), 9);
    let mut empty = provider_new("P", "");
    let steps = empty.unregister().unwrap();
    assert_eq!(empty.complete_unregister(&steps, &[]), 0);
}

#[test]
fn static_tracepoint_writes_its_metadata_first() {
    let mut provider = provider_new("P", "");
    provider.add_event(tracepoint(Level::verbose(), 1, b"Ev\0"));
    let payload = [0x2Au8, 0, 0, 0];
    let unread = [0xEEu8];
    let data = [
        EventDataDescriptor::from_bytes(&unread),
        EventDataDescriptor::from_bytes(&unread),
        EventDataDescriptor::from_bytes(&payload),
    ];
    // Not registered: nothing is sent.
    assert_eq!(provider.event(0).unwrap().write_eventheader(None, None, &data), None);
    assert!(!provider.event(0).unwrap().enabled());

    provider.register();
    provider.complete_register(&[RegisterOutcome::Assigned(6)]);
    // Registered, and nobody listens: nothing is sent.
    assert_eq!(provider.event(0).unwrap().write_eventheader(None, None, &data), None);

    provider.set_enable_status(0, 1);
    let event = provider.event(0).unwrap();
    assert!(event.enabled());
    let order = event.state().byte_order();
    let b16 = |x: u16| match order {
        eventheader::bytes::ByteOrder::Little => x.to_le_bytes().to_vec(),
        eventheader::bytes::ByteOrder::Big => x.to_be_bytes().to_vec(),
    };
    let mut expected = match order {
        eventheader::bytes::ByteOrder::Little => 6u32.to_le_bytes().to_vec(),
        eventheader::bytes::ByteOrder::Big => 6u32.to_be_bytes().to_vec(),
    };
    expected.extend_from_slice(&[HeaderFlags::native(true).as_int(), 0, 0, 0, 0, 0, 0, 5]);
    expected.extend_from_slice(&b16(3));
    expected.extend_from_slice(&b16(1));
    expected.extend_from_slice(b"Ev\0");
    expected.extend_from_slice(&payload);
    assert_eq!(event.write_eventheader(None, None, &data), Some(expected));

    // A status for a tracepoint that is not registered changes nothing.
    let mut idle = tracepoint(Level::verbose(), 1, b"Ev\0");
    idle.set_enable_status(1);
    assert!(!idle.enabled());
}
