//! Wire records: the fixed schema that spans are published in.
use vstd::prelude::*;

verus! {

/// What a wire value means: a tagged value, where an array holds the meanings
/// of its elements in order. A double is carried as its IEEE-754 bit pattern.
pub enum ValueModel {
    Bool(bool),
    Int(i64),
    Double(u64),
    Str(Seq<char>),
    Array(Seq<ValueModel>),
}

/// A wire "any value": a scalar or an array of wire values.
#[derive(Debug, PartialEq)]
pub enum AnyValue {
    BoolValue(bool),
    IntValue(i64),
    /// The IEEE-754 bit pattern of a 64-bit float.
    DoubleValue(u64),
    StringValue(String),
    ArrayValue(ArrayValue),
}

/// The element list of an array value.
#[derive(Debug, PartialEq)]
pub struct ArrayValue {
    pub values: Vec<AnyValue>,
}

pub open spec fn any_value_model(v: AnyValue) -> ValueModel
    decreases v,
{
    match v {
        AnyValue::BoolValue(b) => ValueModel::Bool(b),
        AnyValue::IntValue(i) => ValueModel::Int(i),
        AnyValue::DoubleValue(d) => ValueModel::Double(d),
        AnyValue::StringValue(s) => ValueModel::Str(s@),
        AnyValue::ArrayValue(a) => ValueModel::Array(
            Seq::new(
                a.values.len() as nat,
                |i: int|
                    if 0 <= i < a.values.len() {
                        any_value_model(a.values@[i])
                    } else {
                        ValueModel::Array(Seq::empty())
                    },
            ),
        ),
    }
}

impl View for AnyValue {
    type V = ValueModel;

    open spec fn view(&self) -> ValueModel {
        any_value_model(*self)
    }
}

/// What a wire key-value record means.
pub struct KeyValueModel {
    pub key: Seq<char>,
    pub value: Option<ValueModel>,
}

/// A wire key-value record. The value is optional in the schema; this library
/// always fills it.
#[derive(Debug, PartialEq)]
pub struct KeyValue {
    pub key: String,
    pub value: Option<AnyValue>,
}

impl View for KeyValue {
    type V = KeyValueModel;

    open spec fn view(&self) -> KeyValueModel {
        KeyValueModel {
            key: self.key@,
            value: match self.value {
                Some(v) => Some(v@),
                None => None,
            },
        }
    }
}

/// The meanings of a sequence of wire key-value records, in order.
pub open spec fn key_values_model(kvs: Seq<KeyValue>) -> Seq<KeyValueModel> {
    kvs.map_values(|kv: KeyValue| kv@)
}

/// An ordered list of wire key-value records.
#[derive(Debug, PartialEq)]
pub struct Attributes(pub Vec<KeyValue>);

impl View for Attributes {
    type V = Seq<KeyValueModel>;

    open spec fn view(&self) -> Seq<KeyValueModel> {
        key_values_model(self.0@)
    }
}

/// The view of an optional string.
pub open spec fn opt_str_model(s: Option<String>) -> Option<Seq<char>> {
    match s {
        Some(t) => Some(t@),
        None => None,
    }
}

/// What a wire instrumentation scope means.
pub struct ScopeModel {
    pub name: Seq<char>,
    pub version: Seq<char>,
    pub attributes: Seq<KeyValueModel>,
}

/// The wire identity of the library or component that created a span.
#[derive(Debug, PartialEq)]
pub struct InstrumentationScope {
    pub name: String,
    pub version: String,
    pub attributes: Vec<KeyValue>,
}

impl View for InstrumentationScope {
    type V = ScopeModel;

    open spec fn view(&self) -> ScopeModel {
        ScopeModel {
            name: self.name@,
            version: self.version@,
            attributes: key_values_model(self.attributes@),
        }
    }
}

/// What a wire resource means.
pub struct ResourceModel {
    pub attributes: Seq<KeyValueModel>,
    pub schema_url: Option<Seq<char>>,
}

/// The wire identity of the process that emitted the spans.
#[derive(Debug, PartialEq)]
pub struct ResourceAttributesWithSchema {
    pub attributes: Attributes,
    pub schema_url: Option<String>,
}

impl View for ResourceAttributesWithSchema {
    type V = ResourceModel;

    open spec fn view(&self) -> ResourceModel {
        ResourceModel { attributes: self.attributes@, schema_url: opt_str_model(self.schema_url) }
    }
}

} // verus!
