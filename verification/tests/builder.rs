use eventheader::builder::{EventBuilder, ERROR_TOO_LARGE};
use eventheader::bytes::ByteOrder;
use eventheader::dynamic::{EventSet, Provider};
use eventheader::enums::{FieldEncoding, FieldFormat, HeaderFlags, Level, Opcode};
use eventheader::native::RegisterOutcome;
use uuid::Uuid;

fn b16(order: ByteOrder, x: u16) -> Vec<u8> {
    match order {
        ByteOrder::Little => x.to_le_bytes().to_vec(),
        ByteOrder::Big => x.to_be_bytes().to_vec(),
    }
}

fn b32(order: ByteOrder, x: u32) -> Vec<u8> {
    match order {
        ByteOrder::Little => x.to_le_bytes().to_vec(),
        ByteOrder::Big => x.to_be_bytes().to_vec(),
    }
}

fn b64(order: ByteOrder, x: u64) -> Vec<u8> {
    match order {
        ByteOrder::Little => x.to_le_bytes().to_vec(),
        ByteOrder::Big => x.to_be_bytes().to_vec(),
    }
}

fn to_utf16(s: &str) -> Vec<u16> {
    Vec::from_iter(s.encode_utf16())
}

/// An event set that is registered with the given index and enabled.
fn active_set(provider: &mut Provider, level: Level, keyword: u64, index: u32) -> usize {
    let registration = provider.register_set(level, keyword);
    assert!(registration.command.is_some());
    provider.complete_register_set(registration.index, RegisterOutcome::Assigned(index));
    provider.set_enable_status(registration.index, 1);
    registration.index
}

/// The metadata and the data that the builder holds.
fn sections(b: &EventBuilder) -> (Vec<u8>, Vec<u8>) {
    (b.metadata().to_vec(), b.data().to_vec())
}

fn validate_value<V: eventheader::values::ValueField>(
    p: &Provider,
    b: &mut EventBuilder,
    name: &str,
    value: V,
) {
    let values = [value, value];
    let es = p.find_set(Level::verbose(), 0x1).unwrap();
    b.reset(name, 0);
    b.add_value("A", b'A', FieldFormat::string8(), 0);
    b.add_value("scalar", value, FieldFormat::default_format(), 0);
    b.add_value_sequence("a0", &values[0..0], FieldFormat::default_format(), 0);
    b.add_value_sequence("a1", &values[0..1], FieldFormat::default_format(), 0);
    b.add_value_sequence("a2", &values, FieldFormat::default_format(), 0);
    b.add_value("A", b'A', FieldFormat::string8(), 0);
    assert_eq!(b.write(es, None, None), Ok(None));
}

fn validate_str<V: eventheader::values::StringField>(
    p: &Provider,
    b: &mut EventBuilder,
    name: &str,
    value: &[V],
    zero_terminated: bool,
) {
    let values = [value, value];
    let es = p.find_set(Level::verbose(), 0x1).unwrap();
    b.reset(name, 0);
    b.add_value("A", b'A', FieldFormat::string8(), 0);
    if zero_terminated {
        b.add_cstr("scalar", value, FieldFormat::default_format(), 0);
        b.add_cstr_sequence("a0", &values[0..0], FieldFormat::default_format(), 0);
        b.add_cstr_sequence("a1", &values[0..1], FieldFormat::default_format(), 0);
        b.add_cstr_sequence("a2", &values, FieldFormat::default_format(), 0);
    } else {
        b.add_str("scalar", value, FieldFormat::default_format(), 0);
        b.add_str_sequence("a0", &values[0..0], FieldFormat::default_format(), 0);
        b.add_str_sequence("a1", &values[0..1], FieldFormat::default_format(), 0);
        b.add_str_sequence("a2", &values, FieldFormat::default_format(), 0);
    }
    b.add_value("A", b'A', FieldFormat::string8(), 0);
    assert_eq!(b.write(es, None, None), Ok(None));
}

#[test]
fn builder() {
    let mut p = Provider::new("EventHeaderDynamicTest", &Provider::new_options());
    let mut b = EventBuilder::new();
    println!("{:?}", b);

    // No kernel facility here: the sets are made, and their registration fails.
    let l5k1 = p.register_set(Level::verbose(), 0x1);
    p.complete_register_set(l5k1.index, RegisterOutcome::NoControlFile(-2));
    let l3k11 = p.register_set(Level::warning(), 0x11);
    p.complete_register_set(l3k11.index, RegisterOutcome::NoControlFile(-2));
    let es_l5k1 = p.set_at(l5k1.index).unwrap();
    let es_l3k11 = p.set_at(l3k11.index).unwrap();

    assert_eq!(b.reset("Default", 0).write(es_l5k1, None, None), Ok(None));

    assert_eq!(
        b.reset("4v2o6l3k11", 0)
            .id_version(4, 2)
            .opcode(Opcode::reply())
            .write(es_l3k11, None, None),
        Ok(None)
    );

    assert_eq!(b.reset("tag0xFE", 0xFE).write(es_l5k1, None, None), Ok(None));
    assert_eq!(b.reset("tag0xFEDC", 0xFEDC).write(es_l5k1, None, None), Ok(None));

    assert_eq!(
        b.reset("fieldtag", 0)
            .add_value("0xFE", 0u8, FieldFormat::default_format(), 0xFE)
            .add_value("0xFEDC", 0u8, FieldFormat::default_format(), 0xFEDC)
            .write(es_l5k1, None, None),
        Ok(None)
    );

    assert_eq!(
        b.reset("outtypes", 0)
            .add_value("default100", 100u8, FieldFormat::default_format(), 0)
            .add_value("string65", 65u8, FieldFormat::string8(), 0)
            .add_value("bool1", 1u8, FieldFormat::boolean(), 0)
            .add_value("hex100", 100u8, FieldFormat::hex_int(), 0)
            .write(es_l5k1, None, None),
        Ok(None)
    );

    assert_eq!(
        b.reset("structs", 0)
            .add_value("start", 0u8, FieldFormat::default_format(), 0)
            .add_struct("struct1", 2, 0xFE)
            .add_value("nested1", 1u8, FieldFormat::default_format(), 0)
            .add_struct("struct2", 1, 0)
            .add_value("nested2", 2u8, FieldFormat::default_format(), 0)
            .write(es_l5k1, None, None),
        Ok(None)
    );

    assert_eq!(
        b.reset("cstrs", 0)
            .add_value("A", 65u8, FieldFormat::string8(), 0)
            .add_cstr("cstr16-", to_utf16("").as_slice(), FieldFormat::default_format(), 0)
            .add_cstr("cstr16-a", to_utf16("a").as_slice(), FieldFormat::default_format(), 0)
            .add_cstr("cstr16-0", to_utf16("\0").as_slice(), FieldFormat::default_format(), 0)
            .add_cstr("cstr16-a0", to_utf16("a\0").as_slice(), FieldFormat::default_format(), 0)
            .add_cstr("cstr16-0a", to_utf16("\0a").as_slice(), FieldFormat::default_format(), 0)
            .add_cstr("cstr16-a0a", to_utf16("a\0a").as_slice(), FieldFormat::default_format(), 0)
            .add_cstr("cstr8-", "".as_bytes(), FieldFormat::default_format(), 0)
            .add_cstr("cstr8-a", "a".as_bytes(), FieldFormat::default_format(), 0)
            .add_cstr("cstr8-0", "\0".as_bytes(), FieldFormat::default_format(), 0)
            .add_cstr("cstr8-a0", "a\0".as_bytes(), FieldFormat::default_format(), 0)
            .add_cstr("cstr8-0a", "\0a".as_bytes(), FieldFormat::default_format(), 0)
            .add_cstr("cstr8-a0a", "a\0a".as_bytes(), FieldFormat::default_format(), 0)
            .add_value("A", 65u8, FieldFormat::string8(), 0)
            .write(es_l5k1, None, None),
        Ok(None)
    );

    validate_str(&p, &mut b, "UnicodeString", to_utf16("zutf16").as_slice(), true);
    validate_str(&p, &mut b, "AnsiString", "zutf8".as_bytes(), true);
    validate_value(&p, &mut b, "Int8", -8i8);
    validate_value(&p, &mut b, "UInt8", 8u8);
    validate_value(&p, &mut b, "Int16", -16i16);
    validate_value(&p, &mut b, "UInt16", 16u16);
    validate_value(&p, &mut b, "Int32", -32i32);
    validate_value(&p, &mut b, "UInt32", 32u32);
    validate_value(&p, &mut b, "Int64", -64i64);
    validate_value(&p, &mut b, "UInt64", 64u64);
    validate_value(&p, &mut b, "IntPtr", -3264isize);
    validate_value(&p, &mut b, "UIntPtr", 3264usize);
    validate_value(&p, &mut b, "Float32", 3.2f32.to_bits());
    validate_value(&p, &mut b, "Float64", 6.4f64.to_bits());
    validate_value(&p, &mut b, "Bool8", false);
    validate_value(&p, &mut b, "Bool8", true);
    validate_value(
        &p,
        &mut b,
        "Guid",
        *Uuid::parse_str("848292a8-7cae-45b8-b3e6-ad51a6433d11").unwrap().as_bytes(),
    );
    validate_str(&p, &mut b, "CountedString", to_utf16("utf16").as_slice(), false);
    validate_str(&p, &mut b, "CountedAnsiString", "utf8".as_bytes(), false);
}

#[test]
fn builder_starts_with_an_empty_name() {
    let b = EventBuilder::new();
    assert_eq!(sections(&b), (vec![0u8], vec![]));
    let c = EventBuilder::new_with_capacity(0, 0);
    assert_eq!(sections(&c), (vec![0u8], vec![]));
    let d = EventBuilder::default();
    assert_eq!(sections(&d), (vec![0u8], vec![]));
}

#[test]
fn builder_reset_drops_the_previous_event() {
    let mut b = EventBuilder::new();
    b.reset("First", 1).add_value("f", 1u8, FieldFormat::default_format(), 0);
    b.reset("Second", 2);
    assert_eq!(sections(&b), (b"Second\0".to_vec(), vec![]));
}

#[test]
fn field_metadata_has_no_padding() {
    let order = ByteOrder::native();
    let mut b = EventBuilder::new();
    // neither tag nor format: one byte after the name
    b.reset("E", 0).add_value("f", 7u8, FieldFormat::default_format(), 0);
    assert_eq!(sections(&b), (vec![b'E', 0, b'f', 0, 2], vec![7]));
    // a format only: two bytes
    b.reset("E", 0).add_value("f", 7u8, FieldFormat::hex_int(), 0);
    assert_eq!(sections(&b), (vec![b'E', 0, b'f', 0, 0x82, 3], vec![7]));
    // a tag, no format: four bytes
    b.reset("E", 0).add_value("f", 7u8, FieldFormat::default_format(), 0xFEDC);
    let mut meta = vec![b'E', 0, b'f', 0, 0x82, 0x80];
    meta.extend_from_slice(&b16(order, 0xFEDC));
    assert_eq!(sections(&b), (meta, vec![7]));
    if order == ByteOrder::Little {
        assert_eq!(sections(&b).0, vec![b'E', 0, b'f', 0, 0x82, 0x80, 0xDC, 0xFE]);
    }
    // a tag and a format: four bytes
    b.reset("E", 0).add_value("f", 7u8, FieldFormat::boolean(), 1);
    let mut meta = vec![b'E', 0, b'f', 0, 0x82, 0x87];
    meta.extend_from_slice(&b16(order, 1));
    assert_eq!(sections(&b), (meta, vec![7]));
}

#[test]
fn values_are_encoded_by_their_size() {
    let order = ByteOrder::native();
    let mut b = EventBuilder::new();
    b.reset("E", 0)
        .add_value("a", 0x12u8, FieldFormat::default_format(), 0)
        .add_value("b", 0x1234u16, FieldFormat::default_format(), 0)
        .add_value("c", 0x12345678u32, FieldFormat::default_format(), 0)
        .add_value("d", 0x123456789ABCDEF0u64, FieldFormat::default_format(), 0)
        .add_value("e", [9u8; 16], FieldFormat::default_format(), 0)
        .add_value("f", -2i8, FieldFormat::default_format(), 0)
        .add_value("g", -2i16, FieldFormat::default_format(), 0)
        .add_value("h", -2i32, FieldFormat::default_format(), 0)
        .add_value("i", -2i64, FieldFormat::default_format(), 0)
        .add_value("j", true, FieldFormat::default_format(), 0)
        .add_value("k", 'A', FieldFormat::default_format(), 0)
        .add_value("l", [1u8, 2], FieldFormat::default_format(), 0);
    let (meta, data) = sections(&b);
    assert_eq!(
        meta,
        vec![
            b'E', 0, b'a', 0, 2, b'b', 0, 3, b'c', 0, 4, b'd', 0, 5, b'e', 0, 6, b'f', 0, 2, b'g',
            0, 3, b'h', 0, 4, b'i', 0, 5, b'j', 0, 2, b'k', 0, 4, b'l', 0, 3
        ]
    );
    let mut expected = vec![0x12u8];
    expected.extend_from_slice(&b16(order, 0x1234));
    expected.extend_from_slice(&b32(order, 0x12345678));
    expected.extend_from_slice(&b64(order, 0x123456789ABCDEF0));
    expected.extend_from_slice(&[9u8; 16]);
    expected.push(0xFE);
    expected.extend_from_slice(&b16(order, 0xFFFE));
    expected.extend_from_slice(&b32(order, 0xFFFFFFFE));
    expected.extend_from_slice(&b64(order, 0xFFFFFFFFFFFFFFFE));
    expected.push(1);
    expected.extend_from_slice(&b32(order, 0x41));
    expected.extend_from_slice(&[1, 2]);
    assert_eq!(data, expected);
}

#[test]
fn pointer_sized_values_take_the_width_of_the_machine() {
    let order = ByteOrder::native();
    let mut b = EventBuilder::new();
    b.reset("E", 0)
        .add_value("u", 3264usize, FieldFormat::default_format(), 0)
        .add_value("i", -3264isize, FieldFormat::default_format(), 0);
    let (meta, data) = sections(&b);
    if usize::BITS == 64 {
        assert_eq!(meta, vec![b'E', 0, b'u', 0, 5, b'i', 0, 5]);
        let mut expected = b64(order, 3264);
        expected.extend_from_slice(&b64(order, (-3264i64) as u64));
        assert_eq!(data, expected);
        assert_eq!(FieldEncoding::value_size(), FieldEncoding::value64());
    } else {
        assert_eq!(meta, vec![b'E', 0, b'u', 0, 4, b'i', 0, 4]);
        assert_eq!(data.len(), 8);
        assert_eq!(FieldEncoding::value_size(), FieldEncoding::value32());
    }
}

#[test]
fn value_sequences_carry_a_count() {
    let order = ByteOrder::native();
    let mut b = EventBuilder::new();
    b.reset("E", 0)
        .add_value_sequence("s", &[1u16, 2, 3], FieldFormat::default_format(), 0)
        .add_value_sequence::<u8>("e", &[], FieldFormat::hex_int(), 0);
    let (meta, data) = sections(&b);
    assert_eq!(meta, vec![b'E', 0, b's', 0, 0x43, b'e', 0, 0xC2, 3]);
    let mut expected = b16(order, 3);
    expected.extend_from_slice(&b16(order, 1));
    expected.extend_from_slice(&b16(order, 2));
    expected.extend_from_slice(&b16(order, 3));
    expected.extend_from_slice(&b16(order, 0));
    assert_eq!(data, expected);
}

#[test]
fn long_sequences_are_cut_at_65535() {
    let order = ByteOrder::native();
    let values = vec![7u8; 65540];
    let mut b = EventBuilder::new();
    b.reset("E", 0).add_value_sequence("s", &values, FieldFormat::default_format(), 0);
    assert_eq!(b.data().len(), 2 + 65535);
    assert_eq!(b.data()[0..2], b16(order, 65535)[..]);
    assert!(b.data()[2..].iter().all(|byte| *byte == 7));

    // A counted string is cut in the same way, and its count has two bytes.
    let units = vec![0x4142u16; 70000];
    let mut c = EventBuilder::new();
    c.reset("E", 0).add_str("s", &units, FieldFormat::default_format(), 0);
    assert_eq!(c.data().len(), 2 + 2 * 65535);
    assert_eq!(c.data()[0..2], b16(order, 65535)[..]);
    assert_eq!(c.data()[2..4], b16(order, 0x4142)[..]);

    // Exactly 65535 values are all taken.
    let mut d = EventBuilder::new();
    d.reset("E", 0).add_value_sequence("s", &values[0..65535], FieldFormat::default_format(), 0);
    assert_eq!(d.data().len(), 2 + 65535);

    // A zero-terminated string is not cut.
    let mut z = EventBuilder::new();
    z.reset("E", 0).add_cstr("s", &values, FieldFormat::default_format(), 0);
    assert_eq!(z.data().len(), 65540 + 1);
    assert_eq!(z.data()[65540], 0);

    // More strings than 65535 in a sequence: the rest is dropped.
    let empty: &[u8] = &[];
    let many = vec![empty; 65540];
    let mut m = EventBuilder::new();
    m.reset("E", 0).add_cstr_sequence("s", &many, FieldFormat::default_format(), 0);
    assert_eq!(m.data().len(), 2 + 65535);
    assert_eq!(m.data()[0..2], b16(order, 65535)[..]);
}

#[test]
fn counted_strings() {
    let order = ByteOrder::native();
    let mut b = EventBuilder::new();
    b.reset("E", 0)
        .add_str("a", "hi\0!".as_bytes(), FieldFormat::default_format(), 0)
        .add_str("b", to_utf16("hi").as_slice(), FieldFormat::default_format(), 0)
        .add_str("c", &['h', 'i'][..], FieldFormat::default_format(), 0);
    let (meta, data) = sections(&b);
    assert_eq!(meta, vec![b'E', 0, b'a', 0, 10, b'b', 0, 11, b'c', 0, 12]);
    let mut expected = b16(order, 4);
    expected.extend_from_slice(b"hi\0!");
    expected.extend_from_slice(&b16(order, 2));
    expected.extend_from_slice(&b16(order, 'h' as u16));
    expected.extend_from_slice(&b16(order, 'i' as u16));
    expected.extend_from_slice(&b16(order, 2));
    expected.extend_from_slice(&b32(order, 'h' as u32));
    expected.extend_from_slice(&b32(order, 'i' as u32));
    assert_eq!(data, expected);
}

#[test]
fn zero_terminated_strings_end_at_the_first_zero() {
    let order = ByteOrder::native();
    let cases: [(&str, &[u8]); 6] = [
        ("", b"\0"),
        ("a", b"a\0"),
        ("\0", b"\0"),
        ("a\0", b"a\0"),
        ("\0a", b"\0"),
        ("a\0a", b"a\0"),
    ];
    for (input, expected) in cases {
        let mut b = EventBuilder::new();
        b.reset("E", 0).add_cstr("s", input.as_bytes(), FieldFormat::default_format(), 0);
        let (meta, data) = sections(&b);
        assert_eq!(meta, vec![b'E', 0, b's', 0, 7]);
        assert_eq!(data, expected.to_vec());

        let mut w = EventBuilder::new();
        w.reset("E", 0).add_cstr("s", to_utf16(input).as_slice(), FieldFormat::default_format(), 0);
        let (meta, data) = sections(&w);
        assert_eq!(meta, vec![b'E', 0, b's', 0, 8]);
        let mut wide = Vec::new();
        for unit in expected.iter() {
            wide.extend_from_slice(&b16(order, *unit as u16));
        }
        assert_eq!(data, wide);
    }
    let mut c = EventBuilder::new();
    c.reset("E", 0).add_cstr("s", &['x', '\0', 'y'][..], FieldFormat::string_utf(), 0);
    let (meta, data) = sections(&c);
    assert_eq!(meta, vec![b'E', 0, b's', 0, 0x89, 11]);
    let mut expected = b32(order, 'x' as u32);
    expected.extend_from_slice(&[0, 0, 0, 0]);
    assert_eq!(data, expected);
}

#[test]
fn string_sequences() {
    let order = ByteOrder::native();
    let strings: [&[u8]; 3] = [b"ab", b"", b"c\0d"];
    let mut b = EventBuilder::new();
    b.reset("E", 0).add_str_sequence("s", &strings, FieldFormat::default_format(), 0);
    let (meta, data) = sections(&b);
    assert_eq!(meta, vec![b'E', 0, b's', 0, 0x4A]);
    let mut expected = b16(order, 3);
    expected.extend_from_slice(&b16(order, 2));
    expected.extend_from_slice(b"ab");
    expected.extend_from_slice(&b16(order, 0));
    expected.extend_from_slice(&b16(order, 3));
    expected.extend_from_slice(b"c\0d");
    assert_eq!(data, expected);

    let mut z = EventBuilder::new();
    z.reset("E", 0).add_cstr_sequence("s", &strings, FieldFormat::default_format(), 0);
    let (meta, data) = sections(&z);
    assert_eq!(meta, vec![b'E', 0, b's', 0, 0x47]);
    let mut expected = b16(order, 3);
    expected.extend_from_slice(b"ab\0\0c\0");
    assert_eq!(data, expected);
}

#[test]
fn structs_hold_their_field_count_in_the_format() {
    let order = ByteOrder::native();
    let mut b = EventBuilder::new();
    b.reset("E", 0)
        .add_struct("s", 2, 0)
        .add_value("a", 1u8, FieldFormat::default_format(), 0)
        .add_struct("t", 127, 0xFE)
        .add_value("b", 2u8, FieldFormat::default_format(), 0);
    let (meta, data) = sections(&b);
    let mut expected = vec![b'E', 0, b's', 0, 0x81, 2, b'a', 0, 2, b't', 0, 0x81, 0xFF];
    expected.extend_from_slice(&b16(order, 0xFE));
    expected.extend_from_slice(&[b'b', 0, 2]);
    assert_eq!(meta, expected);
    assert_eq!(data, vec![1, 2]);
}

#[test]
fn raw_metadata_and_data() {
    let order = ByteOrder::native();
    let mut b = EventBuilder::new();
    b.reset("E", 0)
        .raw_add_meta_scalar("a", FieldEncoding::value16(), FieldFormat::default_format(), 0)
        .raw_add_data_value(&0x0102u16)
        .raw_add_meta_vcount("b", FieldEncoding::value8(), FieldFormat::hex_bytes(), 0)
        .raw_add_data_value(&2u16)
        .raw_add_data_slice(&[5u8, 6]);
    let (meta, data) = sections(&b);
    assert_eq!(meta, vec![b'E', 0, b'a', 0, 3, b'b', 0, 0xC2, 9]);
    let mut expected = b16(order, 0x0102);
    expected.extend_from_slice(&b16(order, 2));
    expected.extend_from_slice(&[5, 6]);
    assert_eq!(data, expected);
}

#[test]
fn event_names_must_hold_no_zero() {
    assert!(EventBuilder::is_valid_name("Ping"));
    assert!(EventBuilder::is_valid_name(""));
    assert!(!EventBuilder::is_valid_name("Pi\0ng"));
    assert!(!EventBuilder::is_valid_name("\0"));
}

#[test]
fn size_guard_refuses_events_that_are_too_large() {
    // One byte of metadata for the empty name, two for the field, so the
    // data may take 65467 - 5 bytes less the two of its count.
    let limit = 65535 - 68;
    let fits = vec![0u8; limit - 5 - 2];
    let over = vec![0u8; limit - 5 - 2 + 1];
    let mut provider = Provider::new("P", &Provider::new_options());
    let at = active_set(&mut provider, Level::verbose(), 1, 3);
    let active = provider.set_at(at).unwrap();
    let idle = EventSet::new_unregistered();

    let mut b = EventBuilder::new();
    b.reset("E", 0).add_value_sequence("f", &fits, FieldFormat::default_format(), 0);
    let image = b.write(active, None, None).unwrap().unwrap();
    assert_eq!(image.len(), 4 + 8 + 4 + limit);
    assert_eq!(b.write(&idle, None, None), Ok(None));

    b.reset("E", 0).add_value_sequence("f", &over, FieldFormat::default_format(), 0);
    assert_eq!(b.write(active, None, None), Err(ERROR_TOO_LARGE));
    assert_eq!(b.write(active, None, None), Err(34));
    // The size is looked at first: a set that takes no events refuses as well.
    assert_eq!(b.write(&idle, None, None), Err(34));
}

#[test]
fn written_event_has_the_whole_wire_format() {
    let mut provider = Provider::new("P", &Provider::new_options());
    let at = active_set(&mut provider, Level::warning(), 0x10, 0x0A0B0C0D);
    let set = provider.set_at(at).unwrap();
    let order = set.state().byte_order();
    let aid = [0x11u8; 16];
    let rid = [0x22u8; 16];
    let mut b = EventBuilder::new();
    b.reset("Ev", 0x0102)
        .id_version(0x0304, 5)
        .opcode(Opcode::activity_start())
        .add_value("v", 0x2Au32, FieldFormat::default_format(), 0);

    let mut expected = b32(order, 0x0A0B0C0D);
    expected.push(HeaderFlags::native(true).as_int());
    expected.push(5);
    expected.extend_from_slice(&b16(order, 0x0304));
    expected.extend_from_slice(&b16(order, 0x0102));
    expected.push(1);
    expected.push(3);
    expected.extend_from_slice(&b16(order, 32));
    expected.extend_from_slice(&b16(order, 0x8002));
    expected.extend_from_slice(&aid);
    expected.extend_from_slice(&rid);
    expected.extend_from_slice(&b16(order, 6));
    expected.extend_from_slice(&b16(order, 1));
    expected.extend_from_slice(&[b'E', b'v', 0, b'v', 0, 4]);
    expected.extend_from_slice(&b32(order, 0x2A));
    assert_eq!(b.write(set, Some(&aid), Some(&rid)), Ok(Some(expected)));
}

#[test]
fn ping_end_to_end_with_no_listener() {
    let mut provider = Provider::new("Test_Provider", &Provider::new_options());
    let registration = provider.register_set(Level::verbose(), 0x1);
    let command = registration.command.unwrap();
    assert!(command.starts_with(b"Test_Provider_L5K1 "));
    assert_eq!(
        command,
        b"Test_Provider_L5K1 u8 eventheader_flags;u8 version;u16 id;u16 tag;u8 opcode;u8 level\0"
            .to_vec()
    );
    // The kernel facility is there, and nobody listens.
    provider.complete_register_set(registration.index, RegisterOutcome::Assigned(0));
    let set = provider.set_at(registration.index).unwrap();
    assert_eq!(set.errno(), 0);
    assert!(!set.enabled());

    let mut b = EventBuilder::new();
    b.reset("Ping", 0).add_value("value", 42u32, FieldFormat::default_format(), 0);
    // Nothing comes back to be written: the write is over with status 0.
    assert_eq!(b.write(set, None, None), Ok(None));
}
