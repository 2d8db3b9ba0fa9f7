//! Attribute values and identities as the instrumentation side hands them over.
use vstd::prelude::*;

verus! {

/// A homogeneous array of attribute values.
#[derive(Debug, Clone, PartialEq)]
pub enum Array {
    Bool(Vec<bool>),
    I64(Vec<i64>),
    /// IEEE-754 bit patterns of 64-bit floats.
    F64(Vec<u64>),
    String(Vec<String>),
    /// An array kind that this library does not know.
    Unsupported,
}

/// A dynamically typed attribute value.
#[derive(Debug, Clone, PartialEq)]
pub enum Value {
    Bool(bool),
    I64(i64),
    /// The IEEE-754 bit pattern of a 64-bit float.
    F64(u64),
    String(String),
    Array(Array),
    /// A value kind that this library does not know.
    Unsupported,
}

/// An attribute: a key and its value.
#[derive(Debug, Clone, PartialEq)]
pub struct KeyValue {
    pub key: String,
    pub value: Value,
}

/// The identity of the library or component that created a span.
#[derive(Debug, Clone, PartialEq)]
pub struct InstrumentationScope {
    pub name: String,
    pub version: Option<String>,
    pub attributes: Vec<KeyValue>,
}

/// The identity of the process that emits spans.
#[derive(Debug, Clone, PartialEq)]
pub struct Resource {
    pub attributes: Vec<KeyValue>,
    pub schema_url: Option<String>,
}

} // verus!
