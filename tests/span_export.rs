use fluvio_opentelemetry::api::{Array, InstrumentationScope, KeyValue, Resource, Value};
use fluvio_opentelemetry::{
    encode_span, to_nanos, AnyValue, ArrayValue, ConvertError, ExportBatch, ExportStatus,
    SpanData, SpanKind, Status, Timestamp,
};

fn kv(key: &str, value: Value) -> KeyValue {
    KeyValue { key: key.to_string(), value }
}

fn sample_span(attributes: Vec<KeyValue>) -> SpanData {
    SpanData {
        trace_id: 0x0102_0304_0506_0708_090a_0b0c_0d0e_0f10,
        span_id: 0x1122_3344_5566_7788,
        parent_span_id: 0,
        name: "request".to_string(),
        kind: SpanKind::Server,
        start_time: Timestamp::SinceEpoch { secs: 1_700_000_000, subsec_nanos: 5 },
        end_time: Timestamp::SinceEpoch { secs: 1_700_000_001, subsec_nanos: 0 },
        attributes,
        status: Status::Error { description: "boom".to_string() },
        instrumentation_scope: InstrumentationScope {
            name: "libA".to_string(),
            version: Some("1.0".to_string()),
            attributes: vec![],
        },
        resource: Resource {
            attributes: vec![kv("service.name", Value::String("svc".to_string()))],
            schema_url: None,
        },
    }
}

#[test]
fn nanos_since_epoch() {
    assert_eq!(to_nanos(Timestamp::SinceEpoch { secs: 0, subsec_nanos: 0 }), 0);
    assert_eq!(to_nanos(Timestamp::SinceEpoch { secs: 2, subsec_nanos: 7 }), 2_000_000_007);
    assert_eq!(
        to_nanos(Timestamp::SinceEpoch { secs: 1_700_000_000, subsec_nanos: 123 }),
        1_700_000_000_000_000_123
    );
}

#[test]
fn nanos_past_the_u64_range_wrap() {
    let secs = u64::MAX;
    let expected = ((secs as u128) * 1_000_000_000 + 9) as u64;
    assert_eq!(to_nanos(Timestamp::SinceEpoch { secs, subsec_nanos: 9 }), expected);
}

#[test]
fn time_before_epoch_is_zero() {
    assert_eq!(to_nanos(Timestamp::BeforeEpoch), 0);
    let mut span = sample_span(vec![]);
    span.start_time = Timestamp::BeforeEpoch;
    let record = encode_span(&span).unwrap();
    assert_eq!(record.span.start_time_unix_nano, 0);
    assert_eq!(record.span.end_time_unix_nano, 1_700_000_001_000_000_000);
}

#[test]
fn span_fields_are_projected() {
    let span = sample_span(vec![kv("k", Value::I64(4))]);
    let record = encode_span(&span).unwrap();
    assert_eq!(record.span.trace_id, span.trace_id);
    assert_eq!(record.span.span_id, span.span_id);
    assert_eq!(record.span.name, "request");
    assert_eq!(record.span.kind, 2);
    assert_eq!(record.span.start_time_unix_nano, 1_700_000_000_000_000_005);
    assert_eq!(record.span.status_code, 2);
    assert_eq!(record.span.status_message, "boom");
    assert_eq!(record.scope.name, "libA");
    assert_eq!(record.scope.version, "1.0");
    assert_eq!(record.resource.attributes.0.len(), 1);
    assert_eq!(record.span.attributes[0].value, Some(AnyValue::IntValue(4)));
}

#[test]
fn span_kind_and_status_codes() {
    let kinds = [
        (SpanKind::Internal, 1),
        (SpanKind::Server, 2),
        (SpanKind::Client, 3),
        (SpanKind::Producer, 4),
        (SpanKind::Consumer, 5),
    ];
    for (kind, code) in kinds {
        let mut span = sample_span(vec![]);
        span.kind = kind;
        assert_eq!(encode_span(&span).unwrap().span.kind, code);
    }
    let mut span = sample_span(vec![]);
    span.status = Status::Unset;
    let r = encode_span(&span).unwrap();
    assert_eq!((r.span.status_code, r.span.status_message.as_str()), (0, ""));
    span.status = Status::Success;
    let r = encode_span(&span).unwrap();
    assert_eq!((r.span.status_code, r.span.status_message.as_str()), (1, ""));
}

#[test]
fn encoding_twice_gives_the_same_record() {
    let span = sample_span(vec![
        kv("k1", Value::Bool(true)),
        kv("k2", Value::Array(Array::I64(vec![1, 2, 3]))),
    ]);
    assert_eq!(encode_span(&span), encode_span(&span));
}

#[test]
fn span_with_bool_and_int_array_attributes() {
    let span = sample_span(vec![
        kv("k1", Value::Bool(true)),
        kv("k2", Value::Array(Array::I64(vec![1, 2, 3]))),
    ]);
    let record = encode_span(&span).unwrap();
    let attrs = &record.span.attributes;
    assert_eq!(attrs.len(), 2);
    assert_eq!(attrs[0].key, "k1");
    assert_eq!(attrs[0].value, Some(AnyValue::BoolValue(true)));
    assert_eq!(attrs[1].key, "k2");
    assert_eq!(
        attrs[1].value,
        Some(AnyValue::ArrayValue(ArrayValue {
            values: vec![AnyValue::IntValue(1), AnyValue::IntValue(2), AnyValue::IntValue(3)]
        }))
    );
}

#[test]
fn span_errors_come_in_order() {
    let mut span = sample_span(vec![kv("a", Value::Array(Array::Unsupported))]);
    span.resource.attributes.push(kv("b", Value::Unsupported));
    assert_eq!(encode_span(&span), Err(ConvertError::UnsupportedArray));
    let mut span = sample_span(vec![]);
    span.resource.attributes.push(kv("b", Value::Unsupported));
    assert_eq!(encode_span(&span), Err(ConvertError::UnsupportedValue));
    let mut span = sample_span(vec![]);
    span.instrumentation_scope.attributes.push(kv("c", Value::Array(Array::Unsupported)));
    assert_eq!(encode_span(&span), Err(ConvertError::UnsupportedArray));
}

#[test]
fn failed_publish_stops_the_batch() {
    let mut batch = ExportBatch::new(3);
    let mut published = Vec::new();
    let mut attempts = 0;
    while let Some(i) = batch.next_to_publish() {
        attempts += 1;
        let accepted = i != 1;
        if accepted {
            published.push(i);
        }
        batch.record(accepted);
    }
    assert_eq!(published, vec![0]);
    assert_eq!(attempts, 2);
    assert_eq!(batch.status, ExportStatus::Failed);
    assert_eq!(batch.published, 1);
    assert!(batch.is_finished());
}

#[test]
fn batch_succeeds_when_every_span_is_accepted() {
    let mut batch = ExportBatch::new(3);
    let mut order = Vec::new();
    while let Some(i) = batch.next_to_publish() {
        order.push(i);
        batch.record(true);
    }
    assert_eq!(order, vec![0, 1, 2]);
    assert_eq!(batch.status, ExportStatus::Succeeded);
}

#[test]
fn empty_batch_succeeds_at_once() {
    let batch = ExportBatch::new(0);
    assert_eq!(batch.status, ExportStatus::Succeeded);
    assert_eq!(batch.next_to_publish(), None);
    assert!(batch.is_finished());
}
