//! Encodes completed trace spans into wire records for publishing on a
//! message-broker topic.
pub mod api;
pub mod common;
pub mod export;
pub mod proto;
pub mod span;
pub mod time;

pub use common::{
    array_into_proto, attributes_from_kv, convert_instrumentation_scope, convert_value,
    resource_attributes, ConvertError,
};
pub use time::{to_nanos, Timestamp};
pub use span::{encode_span, SpanData, SpanDataProto, SpanKind, Status};
pub use export::{ExportBatch, ExportStatus};
pub use proto::{AnyValue, ArrayValue, Attributes, ResourceAttributesWithSchema};
