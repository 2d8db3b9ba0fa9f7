//! The span encoder: one completed span into one wire span record.
use vstd::prelude::*;

use crate::api::{InstrumentationScope as ApiScope, KeyValue as ApiKeyValue, Resource};
use crate::common::{
    all_supported, attributes_from_kv, attributes_model, convert_instrumentation_scope,
    first_error, resource_model, scope_model, ConvertError,
};
use crate::proto::{
    key_values_model, InstrumentationScope, KeyValue, KeyValueModel, ResourceAttributesWithSchema,
    ResourceModel, ScopeModel,
};
use crate::time::{nanos_model, to_nanos, Timestamp};

verus! {

/// The role of a span in a trace.
#[derive(PartialEq, Eq, Structural, Debug, Clone, Copy)]
pub enum SpanKind {
    Client,
    Server,
    Producer,
    Consumer,
    Internal,
}

/// The outcome that a span records.
#[derive(Debug, Clone, PartialEq)]
pub enum Status {
    Unset,
    Error { description: String },
    /// The operation completed successfully.
    Success,
}

/// A completed span as the instrumentation side hands it over.
#[derive(Debug, Clone, PartialEq)]
pub struct SpanData {
    pub trace_id: u128,
    pub span_id: u64,
    pub parent_span_id: u64,
    pub name: String,
    pub kind: SpanKind,
    pub start_time: Timestamp,
    pub end_time: Timestamp,
    pub attributes: Vec<ApiKeyValue>,
    pub status: Status,
    pub instrumentation_scope: ApiScope,
    pub resource: Resource,
}

/// The scalar fields of a wire span.
#[derive(Debug, PartialEq)]
pub struct Span {
    pub trace_id: u128,
    pub span_id: u64,
    pub parent_span_id: u64,
    pub name: String,
    /// The wire code of the span kind.
    pub kind: i32,
    pub start_time_unix_nano: u64,
    pub end_time_unix_nano: u64,
    pub attributes: Vec<KeyValue>,
    /// The wire code of the status.
    pub status_code: i32,
    pub status_message: String,
}

/// One wire span record: the span with its scope and its resource.
#[derive(Debug, PartialEq)]
pub struct SpanDataProto {
    pub span: Span,
    pub scope: InstrumentationScope,
    pub resource: ResourceAttributesWithSchema,
}

/// What a wire span record means.
pub struct SpanRecordModel {
    pub trace_id: u128,
    pub span_id: u64,
    pub parent_span_id: u64,
    pub name: Seq<char>,
    pub kind: i32,
    pub start_time_unix_nano: u64,
    pub end_time_unix_nano: u64,
    pub attributes: Seq<KeyValueModel>,
    pub status_code: i32,
    pub status_message: Seq<char>,
    pub scope: ScopeModel,
    pub resource: ResourceModel,
}

impl View for SpanDataProto {
    type V = SpanRecordModel;

    open spec fn view(&self) -> SpanRecordModel {
        SpanRecordModel {
            trace_id: self.span.trace_id,
            span_id: self.span.span_id,
            parent_span_id: self.span.parent_span_id,
            name: self.span.name@,
            kind: self.span.kind,
            start_time_unix_nano: self.span.start_time_unix_nano,
            end_time_unix_nano: self.span.end_time_unix_nano,
            attributes: key_values_model(self.span.attributes@),
            status_code: self.span.status_code,
            status_message: self.span.status_message@,
            scope: self.scope@,
            resource: self.resource@,
        }
    }
}

/// The wire code of a span kind.
pub open spec fn kind_code(k: SpanKind) -> i32 {
    match k {
        SpanKind::Internal => 1,
        SpanKind::Server => 2,
        SpanKind::Client => 3,
        SpanKind::Producer => 4,
        SpanKind::Consumer => 5,
    }
}

/// The wire code of a status.
pub open spec fn status_code(s: Status) -> i32 {
    match s {
        Status::Unset => 0,
        Status::Success => 1,
        Status::Error { .. } => 2,
    }
}

/// The wire message of a status: the description of an error, else empty.
pub open spec fn status_message(s: Status) -> Seq<char> {
    match s {
        Status::Error { description } => description@,
        _ => Seq::empty(),
    }
}

/// Whether every attribute of a span, of its scope and of its resource has a
/// value of a known kind.
pub open spec fn span_supported(s: SpanData) -> bool {
    all_supported(s.attributes@) && all_supported(s.instrumentation_scope.attributes@)
        && all_supported(s.resource.attributes@)
}

/// The wire record of a span whose attributes are all of known kinds.
pub open spec fn span_model(s: SpanData) -> SpanRecordModel {
    SpanRecordModel {
        trace_id: s.trace_id,
        span_id: s.span_id,
        parent_span_id: s.parent_span_id,
        name: s.name@,
        kind: kind_code(s.kind),
        start_time_unix_nano: nanos_model(s.start_time),
        end_time_unix_nano: nanos_model(s.end_time),
        attributes: attributes_model(s.attributes@),
        status_code: status_code(s.status),
        status_message: status_message(s.status),
        scope: scope_model(s.instrumentation_scope),
        resource: resource_model(s.resource),
    }
}

/// The error that encoding a span gives: that of the first unknown value in
/// the span's attributes, else in its scope's, else in its resource's.
pub open spec fn span_error(s: SpanData, e: ConvertError) -> bool {
    if !all_supported(s.attributes@) {
        first_error(s.attributes@, e)
    } else if !all_supported(s.instrumentation_scope.attributes@) {
        first_error(s.instrumentation_scope.attributes@, e)
    } else {
        first_error(s.resource.attributes@, e)
    }
}

/// What encoding a span returns.
pub open spec fn span_result(s: SpanData, r: Result<SpanDataProto, ConvertError>) -> bool {
    match r {
        Ok(p) => span_supported(s) && p@ == span_model(s),
        Err(e) => !span_supported(s) && span_error(s, e),
    }
}

fn kind_to_code(k: SpanKind) -> (r: i32)
    ensures
        r == kind_code(k),
{
    match k {
        SpanKind::Internal => 1,
        SpanKind::Server => 2,
        SpanKind::Client => 3,
        SpanKind::Producer => 4,
        SpanKind::Consumer => 5,
    }
}

/// Assembles the wire record of a span: its scalar fields, its timestamps in
/// nanoseconds since the epoch (clamped to 0 before it), its attributes, its
/// scope and its resource.
pub fn encode_span(span: &SpanData) -> (r: Result<SpanDataProto, ConvertError>)
    ensures
        span_result(*span, r),
{
    let attributes = match attributes_from_kv(&span.attributes) {
        Ok(a) => a,
        Err(e) => return Err(e),
    };
    let scope = match convert_instrumentation_scope((&span.instrumentation_scope, None)) {
        Ok(s) => s,
        Err(e) => return Err(e),
    };
    let resource = match ResourceAttributesWithSchema::from_resource(&span.resource) {
        Ok(r) => r,
        Err(e) => return Err(e),
    };
    let (code, message) = match &span.status {
        Status::Unset => (0i32, String::new()),
        Status::Success => (1i32, String::new()),
        Status::Error { description } => (2i32, description.clone()),
    };
    let record = SpanDataProto {
        span: Span {
            trace_id: span.trace_id,
            span_id: span.span_id,
            parent_span_id: span.parent_span_id,
            name: span.name.clone(),
            kind: kind_to_code(span.kind),
            start_time_unix_nano: to_nanos(span.start_time),
            end_time_unix_nano: to_nanos(span.end_time),
            attributes: attributes.0,
            status_code: code,
            status_message: message,
        },
        scope,
        resource,
    };
    proof {
        assert(record@.status_message =~= status_message(span.status));
    }
    Ok(record)
}

/// Encoding is a function of the span alone: two encodings of one span that
/// both succeed give the same record.
pub proof fn encoding_is_deterministic(
    s: SpanData,
    r1: Result<SpanDataProto, ConvertError>,
    r2: Result<SpanDataProto, ConvertError>,
)
    requires
        span_result(s, r1),
        span_result(s, r2),
    ensures
        r1 is Ok <==> r2 is Ok,
        r1 is Ok ==> r1->Ok_0@ == r2->Ok_0@,
{
}

/// A span that starts before the epoch is encoded with a start time of 0.
pub proof fn start_before_epoch_encodes_as_zero(s: SpanData, p: SpanDataProto)
    requires
        span_result(s, Ok(p)),
        s.start_time == Timestamp::BeforeEpoch,
    ensures
        p@.start_time_unix_nano == 0,
{
}

} // verus!
