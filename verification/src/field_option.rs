//! How a field option of a statically declared event turns into metadata
//! and data: the vocabulary that a generator of event code works from.

use vstd::prelude::*;

verus! {

/// How an encoding or a format is written in generated code.
#[derive(Clone, Copy, Debug)]
pub enum EnumToken {
    /// As a number.
    U8(u8),
    /// By name.
    Str(&'static str),
}

/// The encodings that a field option can name.
#[derive(Clone, Copy, Debug, PartialEq, Eq, Structural)]
pub enum FieldEncoding {
    Invalid,
    Struct,
    Value8,
    Value16,
    Value32,
    Value64,
    Value128,
    ZStringChar8,
    ZStringChar16,
    ZStringChar32,
    StringLength16Char8,
    StringLength16Char16,
    StringLength16Char32,
    /// Pointer-sized: 4 or 8 bytes, known only where the code is compiled,
    /// so it is written by name.
    ValueSize,
}

impl FieldEncoding {
    /// Flag of a variable-length array.
    pub const VArrayFlag: u8 = 0x40;

    /// The number of the encoding on the wire. `ValueSize` has none of its
    /// own and counts as 13 here.
    pub open spec fn spec_number(self) -> u8 {
        match self {
            FieldEncoding::Invalid => 0,
            FieldEncoding::Struct => 1,
            FieldEncoding::Value8 => 2,
            FieldEncoding::Value16 => 3,
            FieldEncoding::Value32 => 4,
            FieldEncoding::Value64 => 5,
            FieldEncoding::Value128 => 6,
            FieldEncoding::ZStringChar8 => 7,
            FieldEncoding::ZStringChar16 => 8,
            FieldEncoding::ZStringChar32 => 9,
            FieldEncoding::StringLength16Char8 => 10,
            FieldEncoding::StringLength16Char16 => 11,
            FieldEncoding::StringLength16Char32 => 12,
            FieldEncoding::ValueSize => 13,
        }
    }

    /// How the encoding is written in generated code: `ValueSize` by name,
    /// every other as its number.
    pub fn to_token(self) -> (token: EnumToken)
        ensures
            match token {
                EnumToken::Str(name) => self == FieldEncoding::ValueSize && name@ == "ValueSize"@,
                EnumToken::U8(number) => self != FieldEncoding::ValueSize && number
                    == self.spec_number(),
            },
    {
        match self {
            FieldEncoding::ValueSize => EnumToken::Str("ValueSize"),
            FieldEncoding::Invalid => EnumToken::U8(0),
            FieldEncoding::Struct => EnumToken::U8(1),
            FieldEncoding::Value8 => EnumToken::U8(2),
            FieldEncoding::Value16 => EnumToken::U8(3),
            FieldEncoding::Value32 => EnumToken::U8(4),
            FieldEncoding::Value64 => EnumToken::U8(5),
            FieldEncoding::Value128 => EnumToken::U8(6),
            FieldEncoding::ZStringChar8 => EnumToken::U8(7),
            FieldEncoding::ZStringChar16 => EnumToken::U8(8),
            FieldEncoding::ZStringChar32 => EnumToken::U8(9),
            FieldEncoding::StringLength16Char8 => EnumToken::U8(10),
            FieldEncoding::StringLength16Char16 => EnumToken::U8(11),
            FieldEncoding::StringLength16Char32 => EnumToken::U8(12),
        }
    }
}

/// The formats that a field option can name.
#[derive(Clone, Copy, Debug, PartialEq, Eq, Structural)]
pub enum FieldFormat {
    Default,
    UnsignedInt,
    SignedInt,
    HexInt,
    Errno,
    Pid,
    Time,
    Boolean,
    Float,
    HexBytes,
    String8,
    StringUtf,
    StringUtfBom,
    StringXml,
    StringJson,
    Uuid,
    Port,
    IPv4,
    IPv6,
}

impl FieldFormat {
    /// Mask for the format proper.
    pub const ValueMask: u8 = 0x7F;
}

/// How the metadata and the data of a field are made from its arguments.
#[derive(Clone, Copy, Debug, PartialEq, Eq, Structural)]
pub enum FieldStrategy {
    /// Scalar metadata; the value as data.
    Scalar,
    /// Scalar metadata; the time, as seconds since 1970, as data.
    SystemTime,
    /// Scalar metadata; the string and a terminating zero as data.
    CStr,
    /// Scalar metadata; a count and the string as data.
    Str,
    /// Array metadata; a count and the elements as data.
    Slice,
    /// Scalar metadata; no data.
    Struct,
    /// Scalar metadata; no data.
    RawStruct,
    /// Array metadata; no data.
    RawStructSlice,
    /// No metadata; the bytes as data.
    RawData,
    /// Scalar metadata; the bytes as data.
    RawField,
    /// Array metadata; the bytes as data.
    RawFieldSlice,
    /// Scalar metadata; no data.
    RawMeta,
    /// Array metadata; no data.
    RawMetaSlice,
}

impl FieldStrategy {
    /// True for the strategies whose metadata declares an array.
    pub open spec fn spec_is_slice(self) -> bool {
        self == FieldStrategy::Slice || self == FieldStrategy::RawStructSlice || self
            == FieldStrategy::RawFieldSlice || self == FieldStrategy::RawMetaSlice
    }

    /// The number of data segments that a field of the strategy takes.
    pub open spec fn spec_data_count(self) -> u8 {
        match self {
            FieldStrategy::Struct
            | FieldStrategy::RawStruct
            | FieldStrategy::RawStructSlice
            | FieldStrategy::RawMeta
            | FieldStrategy::RawMetaSlice => 0,
            FieldStrategy::Scalar
            | FieldStrategy::SystemTime
            | FieldStrategy::RawData
            | FieldStrategy::RawField
            | FieldStrategy::RawFieldSlice => 1,
            FieldStrategy::CStr | FieldStrategy::Str | FieldStrategy::Slice => 2,
        }
    }

    /// True for the strategies whose metadata declares an array.
    pub fn is_slice(self) -> (slice: bool)
        ensures
            slice == self.spec_is_slice(),
    {
        match self {
            FieldStrategy::Scalar
            | FieldStrategy::SystemTime
            | FieldStrategy::CStr
            | FieldStrategy::Str
            | FieldStrategy::Struct
            | FieldStrategy::RawStruct
            | FieldStrategy::RawData
            | FieldStrategy::RawField
            | FieldStrategy::RawMeta => false,
            FieldStrategy::Slice
            | FieldStrategy::RawStructSlice
            | FieldStrategy::RawFieldSlice
            | FieldStrategy::RawMetaSlice => true,
        }
    }

    /// True for every strategy but `RawData`, which adds no metadata.
    pub fn has_metadata(self) -> (metadata: bool)
        ensures
            metadata == (self != FieldStrategy::RawData),
    {
        match self {
            FieldStrategy::RawData => false,
            _ => true,
        }
    }

    /// The number of data segments that a field of the strategy takes:
    /// none, one for the value, or two where a count or a terminator goes
    /// with it.
    pub fn data_count(self) -> (count: u8)
        ensures
            count == self.spec_data_count(),
    {
        match self {
            FieldStrategy::Struct
            | FieldStrategy::RawStruct
            | FieldStrategy::RawStructSlice
            | FieldStrategy::RawMeta
            | FieldStrategy::RawMetaSlice => 0,
            FieldStrategy::Scalar
            | FieldStrategy::SystemTime
            | FieldStrategy::RawData
            | FieldStrategy::RawField
            | FieldStrategy::RawFieldSlice => 1,
            FieldStrategy::CStr | FieldStrategy::Str | FieldStrategy::Slice => 2,
        }
    }
}

/// One kind of field that an event declaration can name.
#[derive(Clone, Copy, Debug)]
pub struct FieldOption {
    /// The name of the option.
    pub option_name: &'static str,
    /// The path of the type of its value.
    pub value_type: &'static [&'static str],
    /// The encoding of the field.
    pub encoding: FieldEncoding,
    /// The format of the field.
    pub format: FieldFormat,
    /// How metadata and data are made.
    pub strategy: FieldStrategy,
    /// The number of elements of a value that is a fixed array, else 0:
    /// 4 for IPv4, 16 for IPv6.
    pub value_array_count: u8,
}

impl FieldOption {
    /// A field option made of the given values.
    pub fn new(
        option_name: &'static str,
        value_type: &'static [&'static str],
        encoding: FieldEncoding,
        format: FieldFormat,
        strategy: FieldStrategy,
        value_array_count: u8,
    ) -> (option: Self)
        ensures
            option.option_name == option_name,
            option.value_type == value_type,
            option.encoding == encoding,
            option.format == format,
            option.strategy == strategy,
            option.value_array_count == value_array_count,
    {
        Self { option_name, strategy, value_type, encoding, format, value_array_count }
    }
}

} // verus!
