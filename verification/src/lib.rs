//! Structured, severity-levelled trace events for the Linux `user_events`
//! facility: wire encoding, tracepoint state machine, provider registry and
//! a run-time event builder, with machine-checked contracts.

pub mod builder;
pub mod bytes;
pub mod command;
pub mod data_file;
pub mod descriptors;
pub mod dynamic;
pub mod enums;
pub mod field_option;
pub mod guid;
pub mod internal;
pub mod native;
pub mod provider;
pub mod sha1;
pub mod values;

pub use crate::builder::EventBuilder;
pub use crate::bytes::ByteOrder;
pub use crate::descriptors::{EventDataDescriptor, EventHeader, EventHeaderExtension};
pub use crate::dynamic::{EventSet, ProviderOptions};
pub use crate::enums::{ExtensionKind, FieldEncoding, FieldFormat, HeaderFlags, Level, Opcode};
pub use crate::guid::Guid;
pub use crate::native::{NativeImplementation, TracepointState};
