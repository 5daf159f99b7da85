//! Building events whose fields are known at run time only.
//!
//! An event has two sections. The metadata holds the name of the event and,
//! for each field, its name and type; the data holds the values. Both are
//! tightly packed: nothing is aligned and nothing is padded.

use vstd::prelude::*;
use vstd::string::StringSliceAdditionalSpecFns;
use crate::bytes::{push_u16, u16_bytes, ByteOrder};
use crate::descriptors::{min_len, EventDataDescriptor, EventHeader};
use crate::dynamic::EventSet;
use crate::enums::{FieldEncoding, FieldFormat, HeaderFlags, Opcode};
use crate::native::{event_headers, id_bytes, segments_bytes};
use crate::values::{zero_bytes, StringField, ValueField};

verus! {

/// The status of a write of an event that is too large (`ERANGE`).
pub const ERROR_TOO_LARGE: i32 = 34;

/// The most bytes that the metadata and the data of an event may take
/// together: the kernel's limit of 65535, less 68 for what precedes them.
pub const EVENT_BYTES_MAX: usize = 65535 - 68;

/// True for bytes that hold no zero.
pub open spec fn no_nul(name: Seq<u8>) -> bool {
    forall|i: int| 0 <= i < name.len() ==> #[trigger] name[i] != 0
}

/// The type of a field, as it stands in the metadata after the name: the
/// encoding byte alone when the field has neither tag nor format; the
/// encoding with its chain flag and the format when it has a format only;
/// the encoding and the format, each with its chain flag, and the two bytes
/// of the tag when it has a tag.
pub open spec fn field_type(encoding: u8, format: u8, field_tag: u16, order: ByteOrder) -> Seq<
    u8,
> {
    if field_tag != 0 {
        seq![0x80 | encoding, 0x80 | format] + u16_bytes(order, field_tag)
    } else if format != 0 {
        seq![0x80 | encoding, format]
    } else {
        seq![encoding]
    }
}

/// The definition of a field in the metadata: its name, a zero, its type.
pub open spec fn field_meta(
    field_name: Seq<u8>,
    encoding: u8,
    format: u8,
    field_tag: u16,
    order: ByteOrder,
) -> Seq<u8> {
    field_name + seq![0u8] + field_type(encoding, format, field_tag, order)
}

/// The bytes of a sequence of values, one value after the other.
pub open spec fn values_bytes<V: ValueField>(values: Seq<V>, order: ByteOrder) -> Seq<u8>
    decreases values.len(),
{
    if values.len() == 0 {
        Seq::empty()
    } else {
        values_bytes(values.drop_last(), order) + values.last().value_bytes(order)
    }
}

/// The data of a variable-length array of values: a 16-bit count, then the
/// values. No more than 65535 values are taken.
pub open spec fn counted_bytes<V: ValueField>(values: Seq<V>, order: ByteOrder) -> Seq<u8> {
    let count = min_len(values.len(), 65535);
    u16_bytes(order, count as u16) + values_bytes(values.take(count as int), order)
}

/// The number of units of a string before its first zero unit.
pub open spec fn units_before_zero<V: StringField>(value: Seq<V>) -> nat
    decreases value.len(),
{
    if value.len() == 0 || value[0].spec_is_zero() {
        0
    } else {
        1 + units_before_zero(value.drop_first())
    }
}

/// The data of a zero-terminated string: the units before the first zero
/// unit, then one zero unit.
pub open spec fn cstr_bytes<V: StringField>(value: Seq<V>, order: ByteOrder) -> Seq<u8> {
    values_bytes(value.take(units_before_zero(value) as int), order) + zero_bytes(V::spec_size())
}

/// The data of the first `n` strings of `values`, each as a counted string.
pub open spec fn counted_strings_bytes<V: StringField>(
    values: Seq<&[V]>,
    n: int,
    order: ByteOrder,
) -> Seq<u8>
    decreases n,
{
    if n <= 0 {
        Seq::empty()
    } else {
        counted_strings_bytes(values, n - 1, order) + counted_bytes(values[n - 1]@, order)
    }
}

/// The data of the first `n` strings of `values`, each zero-terminated.
pub open spec fn cstrs_bytes<V: StringField>(values: Seq<&[V]>, n: int, order: ByteOrder) -> Seq<
    u8,
>
    decreases n,
{
    if n <= 0 {
        Seq::empty()
    } else {
        cstrs_bytes(values, n - 1, order) + cstr_bytes(values[n - 1]@, order)
    }
}

/// The layout of a field's type has no padding. After the name and its
/// zero come one byte for a field with neither tag nor format; two for a
/// field with a format only; and four for a field with a tag, which are the
/// encoding and the format, each with its top bit set, and the two bytes of
/// the tag, low byte first on a little-endian machine.
pub proof fn lemma_field_meta_layout(
    field_name: Seq<u8>,
    encoding: u8,
    format: u8,
    field_tag: u16,
    order: ByteOrder,
)
    ensures
        field_tag == 0 && format == 0 ==> field_meta(field_name, encoding, format, field_tag, order)
            == field_name + seq![0u8, encoding],
        field_tag == 0 && format != 0 ==> field_meta(field_name, encoding, format, field_tag, order)
            == field_name + seq![0u8, 0x80 | encoding, format],
        field_tag != 0 ==> field_meta(field_name, encoding, format, field_tag, order) == field_name
            + seq![0u8, 0x80 | encoding, 0x80 | format] + u16_bytes(order, field_tag),
        field_meta(field_name, encoding, format, field_tag, order).len() == field_name.len() + 1
            + (if field_tag != 0 {
            4int
        } else if format != 0 {
            2int
        } else {
            1int
        }),
        u16_bytes(ByteOrder::Little, field_tag) == seq![
            (field_tag & 0xff) as u8,
            (field_tag >> 8) as u8,
        ],
        u16_bytes(ByteOrder::Big, field_tag) == seq![
            (field_tag >> 8) as u8,
            (field_tag & 0xff) as u8,
        ],
{
    let meta = field_meta(field_name, encoding, format, field_tag, order);
    crate::bytes::lemma_u16_big(field_tag);
    if field_tag != 0 {
        assert(meta =~= field_name + seq![0u8, 0x80 | encoding, 0x80 | format] + u16_bytes(
            order,
            field_tag,
        ));
    } else if format != 0 {
        assert(meta =~= field_name + seq![0u8, 0x80 | encoding, format]);
    } else {
        assert(meta =~= field_name + seq![0u8, encoding]);
    }
}

/// The units before `n` are not zero and the unit at `n` is, or the string
/// ends there: then `n` is where the string ends.
proof fn lemma_units_before_zero_is<V: StringField>(value: Seq<V>, n: int)
    requires
        0 <= n <= value.len(),
        forall|i: int| 0 <= i < n ==> !(#[trigger] value[i]).spec_is_zero(),
        n < value.len() ==> value[n].spec_is_zero(),
    ensures
        units_before_zero(value) == n,
    decreases value.len(),
{
    if n > 0 {
        assert(!value[0].spec_is_zero());
        assert forall|i: int| 0 <= i < n - 1 implies !(#[trigger] value.drop_first()[i]).spec_is_zero() by {
            assert(value.drop_first()[i] == value[i + 1]);
        }
        lemma_units_before_zero_is(value.drop_first(), n - 1);
    }
}

/// What an event builder holds.
pub struct EventView {
    /// The metadata section: the name of the event, a zero, and the
    /// definitions of the fields.
    pub meta: Seq<u8>,
    /// The data section: the values of the fields.
    pub data: Seq<u8>,
    /// The flags of the event header.
    pub flags: HeaderFlags,
    /// The version of the event.
    pub version: u8,
    /// The id of the event.
    pub id: u16,
    /// The tag of the event.
    pub tag: u16,
    /// The opcode of the event.
    pub opcode: Opcode,
}

impl EventView {
    /// The byte order of the event: that which its flags name.
    pub open spec fn order(self) -> ByteOrder {
        self.flags.spec_byte_order()
    }

    /// The view with `meta` added to the metadata and `data` to the data.
    pub open spec fn with(self, meta: Seq<u8>, data: Seq<u8>) -> EventView {
        EventView { meta: self.meta + meta, data: self.data + data, ..self }
    }
}

/// A reusable builder of events.
#[derive(Debug)]
pub struct EventBuilder {
    meta: Vec<u8>,
    data: Vec<u8>,
    flags: HeaderFlags,
    version: u8,
    id: u16,
    tag: u16,
    opcode: Opcode,
}

impl View for EventBuilder {
    type V = EventView;

    closed spec fn view(&self) -> EventView {
        EventView {
            meta: self.meta@,
            data: self.data@,
            flags: self.flags,
            version: self.version,
            id: self.id,
            tag: self.tag,
            opcode: self.opcode,
        }
    }
}

/// Appends `bytes` to `buf`.
fn push_all(buf: &mut Vec<u8>, bytes: &[u8])
    ensures
        final(buf)@ == old(buf)@ + bytes@,
{
    let mut i: usize = 0;
    while i < bytes.len()
        invariant
            i <= bytes@.len(),
            buf@ == old(buf)@ + bytes@.subrange(0, i as int),
        decreases bytes@.len() - i,
    {
        buf.push(bytes[i]);
        assert(bytes@.subrange(0, i as int).push(bytes@[i as int]) =~= bytes@.subrange(0, i + 1));
        i += 1;
    }
    assert(bytes@.subrange(0, i as int) =~= bytes@);
}

/// Appends the bytes of the first `count` values of `values` to `buf`.
fn push_values<V: ValueField>(buf: &mut Vec<u8>, values: &[V], count: usize, order: ByteOrder)
    requires
        count <= values@.len(),
    ensures
        final(buf)@ == old(buf)@ + values_bytes(values@.take(count as int), order),
{
    let mut i: usize = 0;
    assert(values@.take(0) =~= Seq::<V>::empty());
    while i < count
        invariant
            i <= count <= values@.len(),
            buf@ == old(buf)@ + values_bytes(values@.take(i as int), order),
        decreases count - i,
    {
        values[i].append_value(buf, order);
        assert(values@.take(i + 1).drop_last() =~= values@.take(i as int));
        assert(values@.take(i + 1).last() == values@[i as int]);
        i += 1;
    }
}

impl EventBuilder {
    /// A builder with room for 256 bytes of metadata and 256 bytes of data.
    /// The buffers grow as needed.
    pub fn new() -> (builder: EventBuilder)
        ensures
            builder@.meta == seq![0u8],
            builder@.data == Seq::<u8>::empty(),
            builder@.flags == HeaderFlags::spec_for_target(
                usize::BITS == 64,
                builder@.flags.spec_is_little_endian(),
                true,
            ),
            builder@.version == 0,
            builder@.id == 0,
            builder@.tag == 0,
            builder@.opcode == Opcode(0),
    {
        Self::new_with_capacity(256, 256)
    }

    /// A builder with room for the given numbers of bytes. The buffers grow
    /// as needed.
    pub fn new_with_capacity(meta_capacity: u16, data_capacity: u16) -> (builder: EventBuilder)
        ensures
            builder@.meta == seq![0u8],
            builder@.data == Seq::<u8>::empty(),
            builder@.flags == HeaderFlags::spec_for_target(
                usize::BITS == 64,
                builder@.flags.spec_is_little_endian(),
                true,
            ),
            builder@.version == 0,
            builder@.id == 0,
            builder@.tag == 0,
            builder@.opcode == Opcode(0),
    {
        let mut b = EventBuilder {
            meta: Vec::with_capacity(
                if meta_capacity < 4 {
                    4
                } else {
                    meta_capacity as usize
                },
            ),
            data: Vec::with_capacity(data_capacity as usize),
            flags: HeaderFlags::native(true),
            version: 0,
            id: 0,
            tag: 0,
            opcode: Opcode::info(),
        };
        b.meta.push(0);
        assert(b.meta@ =~= seq![0u8]);
        b
    }

    /// The metadata section of the event as it stands.
    pub fn metadata(&self) -> (meta: &[u8])
        ensures
            meta@ == self@.meta,
    {
        self.meta.as_slice()
    }

    /// The data section of the event as it stands.
    pub fn data(&self) -> (data: &[u8])
        ensures
            data@ == self@.data,
    {
        self.data.as_slice()
    }

    /// True if the bytes of `name` hold no zero, so that it can name an
    /// event or a field.
    pub fn is_valid_name(name: &str) -> (valid: bool)
        ensures
            valid == no_nul(name.spec_bytes()),
    {
        let bytes = name.as_bytes();
        let mut i: usize = 0;
        while i < bytes.len()
            invariant
                i <= bytes@.len(),
                bytes@ == name.spec_bytes(),
                forall|j: int| 0 <= j < i ==> #[trigger] bytes@[j] != 0,
            decreases bytes@.len() - i,
        {
            if bytes[i] == 0 {
                return false;
            }
            i += 1;
        }
        true
    }

    /// Drops the event that the builder holds and begins a new one with the
    /// given name and tag, and with the other header fields at their
    /// defaults.
    pub fn reset(&mut self, name: &str, event_tag: u16) -> (builder: &mut Self)
        requires
            no_nul(name.spec_bytes()),
        ensures
            builder@.meta == name.spec_bytes() + seq![0u8],
            builder@.data == Seq::<u8>::empty(),
            builder@.flags == HeaderFlags::spec_for_target(
                usize::BITS == 64,
                builder@.flags.spec_is_little_endian(),
                true,
            ),
            builder@.version == 0,
            builder@.id == 0,
            builder@.tag == event_tag,
            builder@.opcode == Opcode(0),
            *final(self) == *final(builder),
    {
        self.meta.clear();
        self.data.clear();
        self.flags = HeaderFlags::native(true);
        self.version = 0;
        self.id = 0;
        self.tag = event_tag;
        self.opcode = Opcode::info();

        push_all(&mut self.meta, name.as_bytes());
        self.meta.push(0);
        assert(self.meta@ =~= name.spec_bytes() + seq![0u8]);
        self
    }

    /// The header that the event is written with on a set of the given level.
    pub open spec fn header_for(view: EventView, event_set: EventSet) -> EventHeader {
        EventHeader {
            flags: view.flags,
            version: view.version,
            id: view.id,
            tag: view.tag,
            opcode: view.opcode,
            level: event_set.spec_level(),
        }
    }

    /// True when the metadata and the data are too large for one event.
    pub open spec fn too_large(view: EventView) -> bool {
        view.meta.len() + view.data.len() > EVENT_BYTES_MAX
    }

    /// The bytes that go to the control file for an event: the write index
    /// of the set, the event header with the level of the set, the activity
    /// block, the header of the metadata block, the metadata and the data.
    pub open spec fn event_image(
        view: EventView,
        event_set: EventSet,
        activity_id: Option<Seq<u8>>,
        related_id: Option<Seq<u8>>,
    ) -> Seq<u8> {
        event_headers(
            event_set.spec_state().spec_byte_order(),
            event_set.spec_state().spec_write_index(),
            Self::header_for(view, event_set),
            activity_id,
            related_id,
            view.meta.len() as u16,
        ) + view.meta + view.data
    }

    /// Prepares the finished event for a write to the given set. An event
    /// whose metadata and data take more than 65467 bytes is refused with
    /// `ERANGE`, whatever the state of the set. Otherwise the answer is
    /// `None`, and the write is over with status 0, unless the set is
    /// enabled and registered; for a set that is, it is the bytes that go
    /// to the control file in one write.
    pub fn write(
        &self,
        event_set: &EventSet,
        activity_id: Option<&[u8; 16]>,
        related_id: Option<&[u8; 16]>,
    ) -> (result: Result<Option<Vec<u8>>, i32>)
        requires
            related_id is None || activity_id is Some,
        ensures
            Self::too_large(self@) <==> result == Err::<Option<Vec<u8>>, i32>(ERROR_TOO_LARGE),
            !Self::too_large(self@) ==> result is Ok && (result.unwrap() is Some
                <==> event_set.spec_state().spec_active()),
            result is Ok && result.unwrap() is Some ==> result.unwrap().unwrap()@
                == Self::event_image(
                self@,
                *event_set,
                id_bytes(activity_id),
                id_bytes(related_id),
            ),
    {
        if self.meta.len() > EVENT_BYTES_MAX || self.data.len() > EVENT_BYTES_MAX
            - self.meta.len() {
            Err(ERROR_TOO_LARGE)
        } else {
            let header = EventHeader {
                flags: self.flags,
                version: self.version,
                id: self.id,
                tag: self.tag,
                opcode: self.opcode,
                level: event_set.level(),
            };
            let segments = [
                EventDataDescriptor::zero(),
                EventDataDescriptor::from_bytes(self.meta.as_slice()),
                EventDataDescriptor::from_bytes(self.data.as_slice()),
            ];
            proof {
                let s = segments@;
                assert(segments_bytes(s, 3) =~= Seq::<u8>::empty());
                assert(segments_bytes(s, 2) =~= self.data@);
                assert(segments_bytes(s, 1) =~= self.meta@ + self.data@);
            }
            let image = event_set.state().write_eventheader(
                &header,
                activity_id,
                related_id,
                self.meta.len() as u16,
                segments.as_slice(),
            );
            proof {
                if image is Some {
                    assert(image.unwrap()@ =~= Self::event_image(
                        self@,
                        *event_set,
                        id_bytes(activity_id),
                        id_bytes(related_id),
                    ));
                }
            }
            Ok(image)
        }
    }

    /// Sets the id and the version of the event. Both are 0 unless the
    /// event has a manually assigned stable id.
    pub fn id_version(&mut self, id: u16, version: u8) -> (builder: &mut Self)
        ensures
            builder@ == (EventView { id, version, ..old(self)@ }),
            *final(self) == *final(builder),
    {
        self.id = id;
        self.version = version;
        self
    }

    /// Sets the opcode of the event.
    pub fn opcode(&mut self, opcode: Opcode) -> (builder: &mut Self)
        ensures
            builder@ == (EventView { opcode, ..old(self)@ }),
            *final(self) == *final(builder),
    {
        self.opcode = opcode;
        self
    }

    /// Adds a field that groups the next `struct_field_count` fields. The
    /// caller then adds that many fields; a nested struct with its fields
    /// counts as one.
    pub fn add_struct(&mut self, field_name: &str, struct_field_count: u8, field_tag: u16) -> (builder:
        &mut Self)
        requires
            no_nul(field_name.spec_bytes()),
            1 <= struct_field_count <= 127,
        ensures
            builder@ == old(self)@.with(
                field_meta(field_name.spec_bytes(), 1, struct_field_count, field_tag, old(self)@.order()),
                Seq::empty(),
            ),
            *final(self) == *final(builder),
    {
        let masked_field_count = struct_field_count & FieldFormat::ValueMask;
        assert(masked_field_count == struct_field_count) by (bit_vector)
            requires
                masked_field_count == struct_field_count & 0x7F,
                struct_field_count <= 127,
        ;
        self.raw_add_meta(field_name, FieldEncoding::structure().as_int(), masked_field_count, field_tag);
        assert(self.data@ =~= old(self).data@ + Seq::<u8>::empty());
        self
    }

    /// Adds a field that holds one value.
    pub fn add_value<V: ValueField>(
        &mut self,
        field_name: &str,
        field_value: V,
        format: FieldFormat,
        field_tag: u16,
    ) -> (builder: &mut Self)
        requires
            no_nul(field_name.spec_bytes()),
        ensures
            builder@ == old(self)@.with(
                field_meta(
                    field_name.spec_bytes(),
                    FieldEncoding::spec_for_value_size(V::spec_size()).unwrap().0,
                    format.0,
                    field_tag,
                    old(self)@.order(),
                ),
                field_value.value_bytes(old(self)@.order()),
            ),
            *final(self) == *final(builder),
    {
        proof {
            field_value.lemma_value_size(self.flags.spec_byte_order());
        }
        self.raw_add_meta(field_name, V::value_encoding().as_int(), format.as_int(), field_tag);
        self.raw_add_data_value(&field_value);
        self
    }

    /// Adds a field that holds a variable-length array of values. No more
    /// than 65535 values are taken; the rest is dropped.
    pub fn add_value_sequence<V: ValueField>(
        &mut self,
        field_name: &str,
        field_values: &[V],
        format: FieldFormat,
        field_tag: u16,
    ) -> (builder: &mut Self)
        requires
            no_nul(field_name.spec_bytes()),
        ensures
            builder@ == old(self)@.with(
                field_meta(
                    field_name.spec_bytes(),
                    FieldEncoding::spec_for_value_size(V::spec_size()).unwrap().0 | 0x40,
                    format.0,
                    field_tag,
                    old(self)@.order(),
                ),
                counted_bytes(field_values@, old(self)@.order()),
            ),
            *final(self) == *final(builder),
    {
        self.raw_add_meta(
            field_name,
            V::value_encoding().as_int() | FieldEncoding::VArrayFlag,
            format.as_int(),
            field_tag,
        );
        self.raw_add_data_counted(field_values);
        self
    }

    /// Adds a field that holds a string or a blob, as a counted string. No
    /// more than 65535 units are taken; the rest is dropped.
    pub fn add_str<V: StringField>(
        &mut self,
        field_name: &str,
        field_value: &[V],
        format: FieldFormat,
        field_tag: u16,
    ) -> (builder: &mut Self)
        requires
            no_nul(field_name.spec_bytes()),
        ensures
            builder@ == old(self)@.with(
                field_meta(
                    field_name.spec_bytes(),
                    FieldEncoding::spec_for_counted_unit(V::spec_size()).unwrap().0,
                    format.0,
                    field_tag,
                    old(self)@.order(),
                ),
                counted_bytes(field_value@, old(self)@.order()),
            ),
            *final(self) == *final(builder),
    {
        self.raw_add_meta(field_name, V::string_encoding().as_int(), format.as_int(), field_tag);
        self.raw_add_data_counted(field_value);
        self
    }

    /// Adds a field that holds a variable-length array of strings or blobs,
    /// each as a counted string. No more than 65535 strings are taken.
    pub fn add_str_sequence<V: StringField>(
        &mut self,
        field_name: &str,
        field_values: &[&[V]],
        format: FieldFormat,
        field_tag: u16,
    ) -> (builder: &mut Self)
        requires
            no_nul(field_name.spec_bytes()),
        ensures
            builder@ == old(self)@.with(
                field_meta(
                    field_name.spec_bytes(),
                    FieldEncoding::spec_for_counted_unit(V::spec_size()).unwrap().0 | 0x40,
                    format.0,
                    field_tag,
                    old(self)@.order(),
                ),
                u16_bytes(old(self)@.order(), min_len(field_values@.len(), 65535) as u16)
                    + counted_strings_bytes(
                    field_values@,
                    min_len(field_values@.len(), 65535) as int,
                    old(self)@.order(),
                ),
            ),
            *final(self) == *final(builder),
    {
        let order = self.flags.byte_order();
        self.raw_add_meta(
            field_name,
            V::string_encoding().as_int() | FieldEncoding::VArrayFlag,
            format.as_int(),
            field_tag,
        );
        let count: usize = if field_values.len() > 65535 {
            65535
        } else {
            field_values.len()
        };
        let ghost start = self.data@;
        push_u16(&mut self.data, order, count as u16);
        let mut i: usize = 0;
        while i < count
            invariant
                i <= count <= field_values@.len(),
                order == self.flags.spec_byte_order(),
                self@.data == start + u16_bytes(order, count as u16) + counted_strings_bytes(
                    field_values@,
                    i as int,
                    order,
                ),
                self@.meta == old(self)@.meta + field_meta(
                    field_name.spec_bytes(),
                    FieldEncoding::spec_for_counted_unit(V::spec_size()).unwrap().0 | 0x40,
                    format.0,
                    field_tag,
                    old(self)@.order(),
                ),
                self@.flags == old(self)@.flags,
                self@.version == old(self)@.version,
                self@.id == old(self)@.id,
                self@.tag == old(self)@.tag,
                self@.opcode == old(self)@.opcode,
            decreases count - i,
        {
            self.raw_add_data_counted(field_values[i]);
            i += 1;
        }
        assert(self@.data =~= old(self)@.data + (u16_bytes(order, count as u16)
            + counted_strings_bytes(field_values@, count as int, order)));
        self
    }

    /// Adds a field that holds a zero-terminated string: the units before
    /// the first zero unit of `field_value`, or all of them if there is
    /// none, and one zero unit.
    pub fn add_cstr<V: StringField>(
        &mut self,
        field_name: &str,
        field_value: &[V],
        format: FieldFormat,
        field_tag: u16,
    ) -> (builder: &mut Self)
        requires
            no_nul(field_name.spec_bytes()),
        ensures
            builder@ == old(self)@.with(
                field_meta(
                    field_name.spec_bytes(),
                    FieldEncoding::spec_for_zstring_unit(V::spec_size()).unwrap().0,
                    format.0,
                    field_tag,
                    old(self)@.order(),
                ),
                cstr_bytes(field_value@, old(self)@.order()),
            ),
            *final(self) == *final(builder),
    {
        self.raw_add_meta(field_name, V::zstring_encoding().as_int(), format.as_int(), field_tag);
        self.raw_add_data_cstr(field_value);
        self
    }

    /// Adds a field that holds a variable-length array of zero-terminated
    /// strings. No more than 65535 strings are taken.
    pub fn add_cstr_sequence<V: StringField>(
        &mut self,
        field_name: &str,
        field_values: &[&[V]],
        format: FieldFormat,
        field_tag: u16,
    ) -> (builder: &mut Self)
        requires
            no_nul(field_name.spec_bytes()),
        ensures
            builder@ == old(self)@.with(
                field_meta(
                    field_name.spec_bytes(),
                    FieldEncoding::spec_for_zstring_unit(V::spec_size()).unwrap().0 | 0x40,
                    format.0,
                    field_tag,
                    old(self)@.order(),
                ),
                u16_bytes(old(self)@.order(), min_len(field_values@.len(), 65535) as u16)
                    + cstrs_bytes(
                    field_values@,
                    min_len(field_values@.len(), 65535) as int,
                    old(self)@.order(),
                ),
            ),
            *final(self) == *final(builder),
    {
        let order = self.flags.byte_order();
        self.raw_add_meta(
            field_name,
            V::zstring_encoding().as_int() | FieldEncoding::VArrayFlag,
            format.as_int(),
            field_tag,
        );
        let count: usize = if field_values.len() > 65535 {
            65535
        } else {
            field_values.len()
        };
        let ghost start = self.data@;
        push_u16(&mut self.data, order, count as u16);
        let mut i: usize = 0;
        while i < count
            invariant
                i <= count <= field_values@.len(),
                order == self.flags.spec_byte_order(),
                self@.data == start + u16_bytes(order, count as u16) + cstrs_bytes(
                    field_values@,
                    i as int,
                    order,
                ),
                self@.meta == old(self)@.meta + field_meta(
                    field_name.spec_bytes(),
                    FieldEncoding::spec_for_zstring_unit(V::spec_size()).unwrap().0 | 0x40,
                    format.0,
                    field_tag,
                    old(self)@.order(),
                ),
                self@.flags == old(self)@.flags,
                self@.version == old(self)@.version,
                self@.id == old(self)@.id,
                self@.tag == old(self)@.tag,
                self@.opcode == old(self)@.opcode,
            decreases count - i,
        {
            self.raw_add_data_cstr(field_values[i]);
            i += 1;
        }
        assert(self@.data =~= old(self)@.data + (u16_bytes(order, count as u16) + cstrs_bytes(
            field_values@,
            count as int,
            order,
        )));
        self
    }

    /// Adds the definition of a field of one value to the metadata, and
    /// nothing to the data. Nothing is looked at: an encoding that carries
    /// flags goes into the metadata as it is.
    pub fn raw_add_meta_scalar(
        &mut self,
        field_name: &str,
        encoding: FieldEncoding,
        format: FieldFormat,
        field_tag: u16,
    ) -> (builder: &mut Self)
        requires
            no_nul(field_name.spec_bytes()),
        ensures
            builder@ == old(self)@.with(
                field_meta(
                    field_name.spec_bytes(),
                    encoding.0,
                    format.0,
                    field_tag,
                    old(self)@.order(),
                ),
                Seq::empty(),
            ),
            *final(self) == *final(builder),
    {
        self.raw_add_meta(field_name, encoding.as_int(), format.as_int(), field_tag);
        assert(self.data@ =~= old(self).data@ + Seq::<u8>::empty());
        self
    }

    /// Adds the definition of a field that is a variable-length array to
    /// the metadata, and nothing to the data: the encoding goes into the
    /// metadata with the flag of a variable-length array set.
    pub fn raw_add_meta_vcount(
        &mut self,
        field_name: &str,
        encoding: FieldEncoding,
        format: FieldFormat,
        field_tag: u16,
    ) -> (builder: &mut Self)
        requires
            no_nul(field_name.spec_bytes()),
        ensures
            builder@ == old(self)@.with(
                field_meta(
                    field_name.spec_bytes(),
                    encoding.0 | 0x40,
                    format.0,
                    field_tag,
                    old(self)@.order(),
                ),
                Seq::empty(),
            ),
            *final(self) == *final(builder),
    {
        self.raw_add_meta(
            field_name,
            encoding.as_int() | FieldEncoding::VArrayFlag,
            format.as_int(),
            field_tag,
        );
        assert(self.data@ =~= old(self).data@ + Seq::<u8>::empty());
        self
    }

    /// Adds the bytes of one value to the data, and nothing to the metadata.
    pub fn raw_add_data_value<V: ValueField>(&mut self, value: &V) -> (builder: &mut Self)
        ensures
            builder@ == old(self)@.with(Seq::empty(), value.value_bytes(old(self)@.order())),
            *final(self) == *final(builder),
    {
        let order = self.flags.byte_order();
        value.append_value(&mut self.data, order);
        assert(self.meta@ =~= old(self).meta@ + Seq::<u8>::empty());
        self
    }

    /// Adds the bytes of the values of a slice to the data, and nothing to
    /// the metadata.
    pub fn raw_add_data_slice<V: ValueField>(&mut self, value: &[V]) -> (builder: &mut Self)
        ensures
            builder@ == old(self)@.with(Seq::empty(), values_bytes(value@, old(self)@.order())),
            *final(self) == *final(builder),
    {
        let order = self.flags.byte_order();
        push_values(&mut self.data, value, value.len(), order);
        assert(value@.take(value@.len() as int) =~= value@);
        assert(self.meta@ =~= old(self).meta@ + Seq::<u8>::empty());
        self
    }

    /// Adds the definition of a field to the metadata.
    fn raw_add_meta(&mut self, field_name: &str, encoding: u8, format: u8, field_tag: u16)
        ensures
            final(self)@ == (EventView {
                meta: old(self)@.meta + field_meta(
                    field_name.spec_bytes(),
                    encoding,
                    format,
                    field_tag,
                    old(self)@.order(),
                ),
                ..old(self)@
            }),
    {
        let order = self.flags.byte_order();
        push_all(&mut self.meta, field_name.as_bytes());
        self.meta.push(0);
        if field_tag != 0 {
            self.meta.push(0x80 | encoding);
            self.meta.push(0x80 | format);
            push_u16(&mut self.meta, order, field_tag);
        } else if format != 0 {
            self.meta.push(0x80 | encoding);
            self.meta.push(format);
        } else {
            self.meta.push(encoding);
        }
        assert(self.meta@ =~= old(self).meta@ + field_meta(
            field_name.spec_bytes(),
            encoding,
            format,
            field_tag,
            order,
        ));
    }

    /// Adds a zero-terminated string to the data.
    fn raw_add_data_cstr<V: StringField>(&mut self, value: &[V])
        ensures
            final(self)@ == (EventView {
                data: old(self)@.data + cstr_bytes(value@, old(self)@.order()),
                ..old(self)@
            }),
    {
        let order = self.flags.byte_order();
        let mut nul_pos: usize = 0;
        while nul_pos != value.len() && !value[nul_pos].is_zero()
            invariant
                nul_pos <= value@.len(),
                forall|i: int| 0 <= i < nul_pos ==> !(#[trigger] value@[i]).spec_is_zero(),
            decreases value@.len() - nul_pos,
        {
            nul_pos += 1;
        }
        proof {
            lemma_units_before_zero_is(value@, nul_pos as int);
        }
        push_values(&mut self.data, value, nul_pos, order);
        let ghost middle = self.data@;
        let size: usize = V::value_size();
        let mut i: usize = 0;
        while i < size
            invariant
                i <= size == V::spec_size(),
                self.data@ == middle + zero_bytes(i as nat),
                self.meta == old(self).meta,
                self.flags == old(self).flags,
                self.version == old(self).version,
                self.id == old(self).id,
                self.tag == old(self).tag,
                self.opcode == old(self).opcode,
            decreases size - i,
        {
            self.data.push(0);
            assert(zero_bytes(i as nat).push(0u8) =~= zero_bytes((i + 1) as nat));
            i += 1;
        }
        assert(self.data@ =~= old(self).data@ + cstr_bytes(value@, order));
    }

    /// Adds a count and that many values to the data.
    fn raw_add_data_counted<V: ValueField>(&mut self, value: &[V])
        ensures
            final(self)@ == (EventView {
                data: old(self)@.data + counted_bytes(value@, old(self)@.order()),
                ..old(self)@
            }),
    {
        let order = self.flags.byte_order();
        let count: usize = if value.len() > 65535 {
            65535
        } else {
            value.len()
        };
        push_u16(&mut self.data, order, count as u16);
        push_values(&mut self.data, value, count, order);
        assert(self.data@ =~= old(self).data@ + counted_bytes(value@, order));
    }
}

impl Default for EventBuilder {
    fn default() -> (builder: Self)
        ensures
            builder@.meta == seq![0u8],
            builder@.data == Seq::<u8>::empty(),
            builder@.flags == HeaderFlags::spec_for_target(
                usize::BITS == 64,
                builder@.flags.spec_is_little_endian(),
                true,
            ),
            builder@.version == 0,
            builder@.id == 0,
            builder@.tag == 0,
            builder@.opcode == Opcode(0),
    {
        Self::new()
    }
}

} // verus!
