use eventheader::enums::{ExtensionKind, FieldEncoding, FieldFormat, HeaderFlags, Level, Opcode};
use eventheader::field_option::FieldStrategy::{
    CStr, RawData, RawField, RawFieldSlice, RawMeta, RawMetaSlice, RawStruct, RawStructSlice,
    Scalar, Slice, Str, Struct, SystemTime,
};
use eventheader::field_option::{EnumToken, FieldOption, FieldStrategy};
use eventheader::field_option::{FieldEncoding as E, FieldFormat as F};

#[test]
fn numbers_pass_through_unchanged() {
    for value in [0u8, 1, 5, 127, 128, 255] {
        assert_eq!(HeaderFlags::from_int(value).as_int(), value);
        assert_eq!(FieldEncoding::from_int(value).as_int(), value);
        assert_eq!(FieldFormat::from_int(value).as_int(), value);
        assert_eq!(Level::from_int(value).as_int(), value);
        assert_eq!(Opcode::from_int(value).as_int(), value);
    }
    for value in [0u16, 1, 2, 0x7FFF, 0x8000, 0xFFFF] {
        assert_eq!(ExtensionKind::from_int(value).as_int(), value);
    }
}

#[test]
fn named_values() {
    assert_eq!(Level::invalid().as_int(), 0);
    assert_eq!(Level::critical_error().as_int(), 1);
    assert_eq!(Level::error().as_int(), 2);
    assert_eq!(Level::warning().as_int(), 3);
    assert_eq!(Level::informational().as_int(), 4);
    assert_eq!(Level::verbose().as_int(), 5);
    assert_eq!(Opcode::info().as_int(), 0);
    assert_eq!(Opcode::activity_start().as_int(), 1);
    assert_eq!(Opcode::activity_stop().as_int(), 2);
    assert_eq!(Opcode::collection_start().as_int(), 3);
    assert_eq!(Opcode::collection_stop().as_int(), 4);
    assert_eq!(Opcode::extension().as_int(), 5);
    assert_eq!(Opcode::reply().as_int(), 6);
    assert_eq!(Opcode::resume().as_int(), 7);
    assert_eq!(Opcode::suspend().as_int(), 8);
    assert_eq!(Opcode::send().as_int(), 9);
    assert_eq!(Opcode::receive().as_int(), 240);
    assert_eq!(ExtensionKind::invalid().as_int(), 0);
    assert_eq!(ExtensionKind::metadata().as_int(), 1);
    assert_eq!(ExtensionKind::activity_id().as_int(), 2);
    assert_eq!(ExtensionKind::ChainFlag, 0x8000);
    assert_eq!(ExtensionKind::ValueMask, 0x7FFF);
    assert_eq!(HeaderFlags::none().as_int(), 0);
    assert_eq!(HeaderFlags::pointer64().as_int(), 1);
    assert_eq!(HeaderFlags::little_endian().as_int(), 2);
    assert_eq!(HeaderFlags::extension().as_int(), 4);
}

#[test]
fn named_encodings_and_formats() {
    let encodings = [
        FieldEncoding::invalid(),
        FieldEncoding::structure(),
        FieldEncoding::value8(),
        FieldEncoding::value16(),
        FieldEncoding::value32(),
        FieldEncoding::value64(),
        FieldEncoding::value128(),
        FieldEncoding::zstring_char8(),
        FieldEncoding::zstring_char16(),
        FieldEncoding::zstring_char32(),
        FieldEncoding::string_length16_char8(),
        FieldEncoding::string_length16_char16(),
        FieldEncoding::string_length16_char32(),
    ];
    for (number, encoding) in encodings.iter().enumerate() {
        assert_eq!(encoding.as_int() as usize, number);
    }
    assert_eq!(FieldEncoding::ValueMask, 0x1F);
    assert_eq!(FieldEncoding::FlagMask, 0xE0);
    assert_eq!(FieldEncoding::CArrayFlag, 0x20);
    assert_eq!(FieldEncoding::VArrayFlag, 0x40);
    assert_eq!(FieldEncoding::ChainFlag, 0x80);
    let formats = [
        FieldFormat::default_format(),
        FieldFormat::unsigned_int(),
        FieldFormat::signed_int(),
        FieldFormat::hex_int(),
        FieldFormat::errno(),
        FieldFormat::pid(),
        FieldFormat::time(),
        FieldFormat::boolean(),
        FieldFormat::float(),
        FieldFormat::hex_bytes(),
        FieldFormat::string8(),
        FieldFormat::string_utf(),
        FieldFormat::string_utf_bom(),
        FieldFormat::string_xml(),
        FieldFormat::string_json(),
        FieldFormat::uuid(),
        FieldFormat::port(),
        FieldFormat::ipv4(),
        FieldFormat::ipv6(),
    ];
    for (number, format) in formats.iter().enumerate() {
        assert_eq!(format.as_int() as usize, number);
    }
    assert_eq!(FieldFormat::ValueMask, 0x7F);
    assert_eq!(FieldFormat::ChainFlag, 0x80);
}

#[test]
fn defaults_are_zero() {
    assert_eq!(HeaderFlags::default().as_int(), 0);
    assert_eq!(ExtensionKind::default().as_int(), 0);
    assert_eq!(FieldEncoding::default().as_int(), 0);
    assert_eq!(FieldFormat::default().as_int(), 0);
    assert_eq!(Level::default().as_int(), 0);
    assert_eq!(Opcode::default().as_int(), 0);
}

#[test]
fn field_strategies() {
    let table: [(FieldStrategy, bool, bool, u8); 13] = [
        (Scalar, false, true, 1),
        (SystemTime, false, true, 1),
        (CStr, false, true, 2),
        (Str, false, true, 2),
        (Slice, true, true, 2),
        (Struct, false, true, 0),
        (RawStruct, false, true, 0),
        (RawStructSlice, true, true, 0),
        (RawData, false, false, 1),
        (RawField, false, true, 1),
        (RawFieldSlice, true, true, 1),
        (RawMeta, false, true, 0),
        (RawMetaSlice, true, true, 0),
    ];
    for (strategy, slice, metadata, count) in table {
        assert_eq!(strategy.is_slice(), slice);
        assert_eq!(strategy.has_metadata(), metadata);
        assert_eq!(strategy.data_count(), count);
    }
}

#[test]
fn encodings_as_tokens() {
    assert!(matches!(E::ValueSize.to_token(), EnumToken::Str("ValueSize")));
    assert!(matches!(E::Invalid.to_token(), EnumToken::U8(0)));
    assert!(matches!(E::Struct.to_token(), EnumToken::U8(1)));
    assert!(matches!(E::Value8.to_token(), EnumToken::U8(2)));
    assert!(matches!(E::Value128.to_token(), EnumToken::U8(6)));
    assert!(matches!(E::ZStringChar8.to_token(), EnumToken::U8(7)));
    assert!(matches!(E::StringLength16Char32.to_token(), EnumToken::U8(12)));
    assert_eq!(E::VArrayFlag, 0x40);
    assert_eq!(F::ValueMask, 0x7F);
}

#[test]
fn field_option_holds_what_it_is_given() {
    static PATH: [&str; 2] = ["core", "u32"];
    let option = FieldOption::new("ipv4", &PATH, E::Value32, F::IPv4, FieldStrategy::Scalar, 4);
    assert_eq!(option.option_name, "ipv4");
    assert_eq!(option.value_type, &PATH);
    assert_eq!(option.encoding, E::Value32);
    assert_eq!(option.format, F::IPv4);
    assert_eq!(option.strategy, FieldStrategy::Scalar);
    assert_eq!(option.value_array_count, 4);
}

#[test]
fn conversions_to_and_from_numbers() {
    assert_eq!(Level::from(5u8), Level::verbose());
    assert_eq!(u8::from(Level::warning()), 3);
    assert_eq!(Opcode::from(2u8), Opcode::activity_stop());
    assert_eq!(u8::from(Opcode::receive()), 240);
    assert_eq!(HeaderFlags::from(7u8).as_int(), 7);
    assert_eq!(u8::from(HeaderFlags::extension()), 4);
    assert_eq!(ExtensionKind::from(0x8002u16).as_int(), 0x8002);
    assert_eq!(u16::from(ExtensionKind::metadata()), 1);
    assert_eq!(FieldEncoding::from(0x42u8).as_int(), 0x42);
    assert_eq!(u8::from(FieldEncoding::value128()), 6);
    assert_eq!(FieldFormat::from(0x8Bu8).as_int(), 0x8B);
    assert_eq!(u8::from(FieldFormat::ipv6()), 18);
}

#[test]
fn levels_are_ordered_by_severity_number() {
    assert!(Level::critical_error() < Level::verbose());
    assert!(Level::warning() > Level::error());
    assert_eq!(Level::from_int(4), Level::informational());
}
