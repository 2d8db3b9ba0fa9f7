//! The attribute and value transform: instrumentation values into wire records.
use vstd::prelude::*;

use crate::api::{Array, InstrumentationScope as ApiScope, KeyValue as ApiKeyValue, Resource, Value};
use crate::proto::{
    AnyValue, ArrayValue, Attributes, InstrumentationScope, KeyValue, KeyValueModel,
    ResourceAttributesWithSchema, ScopeModel, ValueModel, ResourceModel, opt_str_model,
};

verus! {

/// Why a value could not be put on the wire.
#[derive(PartialEq, Eq, Structural, Debug, Clone, Copy)]
pub enum ConvertError {
    /// The value is of a kind that this library does not know.
    UnsupportedValue,
    /// The value is an array of a kind that this library does not know.
    UnsupportedArray,
}

/// Whether the elements of an array are of a known kind.
pub open spec fn array_supported(a: Array) -> bool {
    !(a is Unsupported)
}

/// Whether a value is of a known kind.
pub open spec fn supported(v: Value) -> bool {
    match v {
        Value::Unsupported => false,
        Value::Array(a) => array_supported(a),
        _ => true,
    }
}

/// The error that an unknown value kind gives.
pub open spec fn value_error(v: Value) -> ConvertError {
    match v {
        Value::Array(_) => ConvertError::UnsupportedArray,
        _ => ConvertError::UnsupportedValue,
    }
}

/// The wire meanings of an array's elements, in order.
pub open spec fn array_model(a: Array) -> Seq<ValueModel> {
    match a {
        Array::Bool(xs) => xs@.map_values(|b: bool| ValueModel::Bool(b)),
        Array::I64(xs) => xs@.map_values(|i: i64| ValueModel::Int(i)),
        Array::F64(xs) => xs@.map_values(|d: u64| ValueModel::Double(d)),
        Array::String(xs) => xs@.map_values(|s: String| ValueModel::Str(s@)),
        Array::Unsupported => Seq::empty(),
    }
}

/// The wire meaning of a value of a known kind: the same tag and the same
/// payload; an array becomes the array of its elements' meanings.
pub open spec fn value_model(v: Value) -> ValueModel {
    match v {
        Value::Bool(b) => ValueModel::Bool(b),
        Value::I64(i) => ValueModel::Int(i),
        Value::F64(d) => ValueModel::Double(d),
        Value::String(s) => ValueModel::Str(s@),
        Value::Array(a) => ValueModel::Array(array_model(a)),
        Value::Unsupported => ValueModel::Array(Seq::empty()),
    }
}

/// The wire record of an attribute whose value is of a known kind.
pub open spec fn key_value_model(kv: ApiKeyValue) -> KeyValueModel {
    KeyValueModel { key: kv.key@, value: Some(value_model(kv.value)) }
}

/// Whether every attribute of a list has a value of a known kind.
pub open spec fn all_supported(kvs: Seq<ApiKeyValue>) -> bool {
    forall|i: int| 0 <= i < kvs.len() ==> supported(#[trigger] kvs[i].value)
}

/// The wire records of an attribute list, one per attribute, in order.
pub open spec fn attributes_model(kvs: Seq<ApiKeyValue>) -> Seq<KeyValueModel> {
    kvs.map_values(|kv: ApiKeyValue| key_value_model(kv))
}

/// `e` is the error of the first attribute of `kvs` whose value is of an unknown kind.
pub open spec fn first_error(kvs: Seq<ApiKeyValue>, e: ConvertError) -> bool {
    exists|j: int|
        0 <= j < kvs.len() && !supported(#[trigger] kvs[j].value) && e == value_error(kvs[j].value)
            && forall|i: int| 0 <= i < j ==> supported(#[trigger] kvs[i].value)
}

/// What an attribute list transform returns: the records on success, else
/// the error of the first unknown value.
pub open spec fn attributes_result(kvs: Seq<ApiKeyValue>, r: Result<Attributes, ConvertError>) -> bool {
    match r {
        Ok(a) => all_supported(kvs) && a@ == attributes_model(kvs),
        Err(e) => !all_supported(kvs) && first_error(kvs, e),
    }
}

/// The wire scope that a scope gives without an override.
pub open spec fn scope_model(s: ApiScope) -> ScopeModel {
    ScopeModel {
        name: s.name@,
        version: match s.version {
            Some(v) => v@,
            None => Seq::empty(),
        },
        attributes: attributes_model(s.attributes@),
    }
}

/// The wire scope that an override name gives.
pub open spec fn override_scope_model(target: Seq<char>) -> ScopeModel {
    ScopeModel { name: target, version: Seq::empty(), attributes: Seq::empty() }
}

/// What encoding a scope, with an optional override name, returns.
pub open spec fn scope_result(
    s: ApiScope,
    target: Option<String>,
    r: Result<InstrumentationScope, ConvertError>,
) -> bool {
    match target {
        Some(t) => r matches Ok(o) && o@ == override_scope_model(t@),
        None => match r {
            Ok(o) => all_supported(s.attributes@) && o@ == scope_model(s),
            Err(e) => !all_supported(s.attributes@) && first_error(s.attributes@, e),
        },
    }
}

/// The wire resource that a resource gives.
pub open spec fn resource_model(res: Resource) -> ResourceModel {
    ResourceModel {
        attributes: attributes_model(res.attributes@),
        schema_url: opt_str_model(res.schema_url),
    }
}

/// How deep a value nests: an array holds scalars one level down.
pub open spec fn value_rank(v: Value) -> int {
    if v is Array { 2 } else { 0 }
}

/// Encodes one attribute value: a scalar keeps its tag and payload, an array
/// is encoded element by element in order; an unknown kind is an error.
pub fn convert_value(value: &Value) -> (r: Result<AnyValue, ConvertError>)
    ensures
        match r {
            Ok(a) => supported(*value) && a@ == value_model(*value),
            Err(e) => !supported(*value) && e == value_error(*value),
        },
    decreases value_rank(*value),
{
    match value {
        Value::Bool(b) => Ok(AnyValue::BoolValue(*b)),
        Value::I64(i) => Ok(AnyValue::IntValue(*i)),
        Value::F64(d) => Ok(AnyValue::DoubleValue(*d)),
        Value::String(s) => Ok(AnyValue::StringValue(s.clone())),
        Value::Array(array) => {
            match array_into_proto(array) {
                Ok(a) => {
                    let r = AnyValue::ArrayValue(a);
                    proof {
                        assert(r@->Array_0 =~= array_model(*array));
                    }
                    Ok(r)
                },
                Err(e) => Err(e),
            }
        },
        Value::Unsupported => Err(ConvertError::UnsupportedValue),
    }
}

/// Encodes the elements of a homogeneous array, each by `convert_value`, in order.
pub fn array_into_proto(vals: &Array) -> (r: Result<ArrayValue, ConvertError>)
    ensures
        match r {
            Ok(a) => array_supported(*vals) && a.values@.len() == array_model(*vals).len()
                && forall|i: int| 0 <= i < a.values@.len() ==> (#[trigger] a.values@[i])@ == array_model(*vals)[i],
            Err(e) => !array_supported(*vals) && e == ConvertError::UnsupportedArray,
        },
    decreases 1int,
{
    let mut values: Vec<AnyValue> = Vec::new();
    match vals {
        Array::Bool(xs) => {
            let mut i: usize = 0;
            while i < xs.len()
                invariant
                    i <= xs.len(),
                    values@.len() == i,
                    forall|j: int| 0 <= j < i ==> (#[trigger] values@[j])@ == ValueModel::Bool(xs@[j]),
                decreases xs.len() - i,
            {
                match convert_value(&Value::Bool(xs[i])) {
                    Ok(v) => values.push(v),
                    Err(e) => return Err(e),
                }
                i += 1;
            }
        },
        Array::I64(xs) => {
            let mut i: usize = 0;
            while i < xs.len()
                invariant
                    i <= xs.len(),
                    values@.len() == i,
                    forall|j: int| 0 <= j < i ==> (#[trigger] values@[j])@ == ValueModel::Int(xs@[j]),
                decreases xs.len() - i,
            {
                match convert_value(&Value::I64(xs[i])) {
                    Ok(v) => values.push(v),
                    Err(e) => return Err(e),
                }
                i += 1;
            }
        },
        Array::F64(xs) => {
            let mut i: usize = 0;
            while i < xs.len()
                invariant
                    i <= xs.len(),
                    values@.len() == i,
                    forall|j: int| 0 <= j < i ==> (#[trigger] values@[j])@ == ValueModel::Double(xs@[j]),
                decreases xs.len() - i,
            {
                match convert_value(&Value::F64(xs[i])) {
                    Ok(v) => values.push(v),
                    Err(e) => return Err(e),
                }
                i += 1;
            }
        },
        Array::String(xs) => {
            let mut i: usize = 0;
            while i < xs.len()
                invariant
                    i <= xs.len(),
                    values@.len() == i,
                    forall|j: int| 0 <= j < i ==> (#[trigger] values@[j])@ == ValueModel::Str(xs@[j]@),
                decreases xs.len() - i,
            {
                match convert_value(&Value::String(xs[i].clone())) {
                    Ok(v) => values.push(v),
                    Err(e) => return Err(e),
                }
                i += 1;
            }
        },
        Array::Unsupported => {
            return Err(ConvertError::UnsupportedArray);
        },
    }
    Ok(ArrayValue { values })
}

/// Encodes an attribute list into wire records, one per attribute, keys copied
/// verbatim and order kept; duplicate keys stay. The first attribute whose value
/// is of an unknown kind gives the error.
pub fn attributes_from_kv(kvs: &Vec<ApiKeyValue>) -> (r: Result<Attributes, ConvertError>)
    ensures
        attributes_result(kvs@, r),
{
    let mut out: Vec<KeyValue> = Vec::new();
    let mut i: usize = 0;
    while i < kvs.len()
        invariant
            i <= kvs.len(),
            out@.len() == i,
            forall|j: int| 0 <= j < i ==> supported(#[trigger] kvs@[j].value),
            forall|j: int| 0 <= j < i ==> (#[trigger] out@[j])@ == key_value_model(kvs@[j]),
        decreases kvs.len() - i,
    {
        let kv = &kvs[i];
        match convert_value(&kv.value) {
            Ok(v) => {
                out.push(KeyValue { key: kv.key.clone(), value: Some(v) });
            },
            Err(e) => {
                assert(first_error(kvs@, e) && !supported(kvs@[i as int].value));
                return Err(e);
            },
        }
        i += 1;
    }
    let r = Attributes(out);
    assert(r@ =~= attributes_model(kvs@));
    Ok(r)
}

impl Attributes {
    /// Builds an attribute list from keys and values that are already wire
    /// values, one record per pair, in order.
    pub fn from_pairs(pairs: Vec<(String, AnyValue)>) -> (r: Attributes)
        ensures
            r@ == pairs@.map_values(|p: (String, AnyValue)| KeyValueModel { key: p.0@, value: Some(p.1@) }),
    {
        let ghost orig = pairs@;
        let mut rest = pairs;
        let mut out: Vec<KeyValue> = Vec::new();
        while rest.len() > 0
            invariant
                out@.len() + rest@.len() == orig.len(),
                rest@ == orig.subrange(out@.len() as int, orig.len() as int),
                forall|j: int| 0 <= j < out@.len() ==> (#[trigger] out@[j])@ == (KeyValueModel {
                    key: orig[j].0@,
                    value: Some(orig[j].1@),
                }),
            decreases rest.len(),
        {
            let (k, v) = rest.remove(0);
            out.push(KeyValue { key: k, value: Some(v) });
        }
        let r = Attributes(out);
        assert(r@ =~= orig.map_values(|p: (String, AnyValue)| KeyValueModel { key: p.0@, value: Some(p.1@) }));
        r
    }
}

/// Encodes an instrumentation scope. With an override name, the scope is that
/// name with an empty version and no attributes; otherwise name, version
/// (empty when absent) and the scope's encoded attributes.
pub fn convert_instrumentation_scope(data: (&ApiScope, Option<String>)) -> (r: Result<
    InstrumentationScope,
    ConvertError,
>)
    ensures
        scope_result(*data.0, data.1, r),
{
    let (library, target) = data;
    match target {
        Some(t) => {
            let r = InstrumentationScope { name: t, version: String::new(), attributes: Vec::new() };
            assert(r@.attributes =~= Seq::<KeyValueModel>::empty());
            Ok(r)
        },
        None => {
            let version = match &library.version {
                Some(v) => v.clone(),
                None => String::new(),
            };
            match attributes_from_kv(&library.attributes) {
                Ok(a) => Ok(
                    InstrumentationScope { name: library.name.clone(), version, attributes: a.0 },
                ),
                Err(e) => Err(e),
            }
        },
    }
}

/// Encodes the attributes of a resource.
pub fn resource_attributes(resource: &Resource) -> (r: Result<Attributes, ConvertError>)
    ensures
        attributes_result(resource.attributes@, r),
{
    attributes_from_kv(&resource.attributes)
}

impl ResourceAttributesWithSchema {
    /// Encodes a resource: its attributes, and its schema URL when it has one.
    pub fn from_resource(resource: &Resource) -> (r: Result<ResourceAttributesWithSchema, ConvertError>)
        ensures
            match r {
                Ok(o) => all_supported(resource.attributes@) && o@ == resource_model(*resource),
                Err(e) => !all_supported(resource.attributes@) && first_error(resource.attributes@, e),
            },
    {
        match resource_attributes(resource) {
            Ok(attributes) => {
                let schema_url = match &resource.schema_url {
                    Some(u) => Some(u.clone()),
                    None => None,
                };
                Ok(ResourceAttributesWithSchema { attributes, schema_url })
            },
            Err(e) => Err(e),
        }
    }
}

/// The number of elements of an array.
pub open spec fn array_len(a: Array) -> int {
    match a {
        Array::Bool(xs) => xs@.len() as int,
        Array::I64(xs) => xs@.len() as int,
        Array::F64(xs) => xs@.len() as int,
        Array::String(xs) => xs@.len() as int,
        Array::Unsupported => 0,
    }
}

/// The element at `i` of an array, as a scalar value of its own.
pub open spec fn array_element(a: Array, i: int) -> Value {
    match a {
        Array::Bool(xs) => Value::Bool(xs@[i]),
        Array::I64(xs) => Value::I64(xs@[i]),
        Array::F64(xs) => Value::F64(xs@[i]),
        Array::String(xs) => Value::String(xs@[i]),
        Array::Unsupported => Value::Unsupported,
    }
}

/// An encoded array of a known kind is an array value with as many elements
/// as the input, where the element at each index is the encoding of the input
/// element at that index.
pub proof fn array_encoding_keeps_elements(arr: Array, r: AnyValue)
    requires
        array_supported(arr),
        r@ == value_model(Value::Array(arr)),
    ensures
        r@ is Array,
        r@->Array_0.len() == array_len(arr),
        forall|i: int|
            0 <= i < array_len(arr) ==> supported(array_element(arr, i)) && #[trigger] r@->Array_0[i]
                == value_model(array_element(arr, i)),
{
}

/// An encoded attribute list has one record per attribute, and the record at
/// each index has the key of the attribute at that index; so two attributes
/// with one key both stay.
pub proof fn attributes_keep_keys(kvs: Seq<ApiKeyValue>, a: Attributes)
    requires
        attributes_result(kvs, Ok(a)),
    ensures
        a@.len() == kvs.len(),
        forall|i: int| 0 <= i < kvs.len() ==> (#[trigger] a@[i]).key == kvs[i].key@,
        forall|i: int, j: int|
            0 <= i < kvs.len() && 0 <= j < kvs.len() && i != j && kvs[i].key@ == kvs[j].key@
                ==> (#[trigger] a@[i]).key == (#[trigger] a@[j]).key,
{
}

} // verus!
