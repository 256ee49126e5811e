//! A plain JSON tree the verified codecs read and produce. The surrounding
//! program converts between this type and whatever JSON library it uses.
use vstd::prelude::*;

verus! {

/// One JSON value. A number that is not an unsigned 64-bit integer is kept
/// only as `OtherNum`: no codec here accepts such a number, so its value
/// does not matter.
#[derive(Debug)]
pub enum JsonValue {
    Null,
    Bool(bool),
    UInt(u64),
    OtherNum,
    Str(String),
    Arr(Vec<JsonValue>),
    Obj(Vec<(String, JsonValue)>),
}

impl JsonValue {
    /// The elements, when this is an array.
    pub fn as_array(&self) -> (r: Option<&Vec<JsonValue>>)
        ensures
            match r {
                Some(v) => *self == JsonValue::Arr(*v),
                None => !(self is Arr),
            },
    {
        match self {
            JsonValue::Arr(v) => Some(v),
            _ => None,
        }
    }

    /// The text, when this is a string.
    pub fn as_str(&self) -> (r: Option<&str>)
        ensures
            match r {
                Some(s) => self matches JsonValue::Str(t) && t@ == s@,
                None => !(self is Str),
            },
    {
        match self {
            JsonValue::Str(s) => Some(s.as_str()),
            _ => None,
        }
    }

    /// The number, when this is an unsigned 64-bit integer.
    pub fn as_u64(&self) -> (r: Option<u64>)
        ensures
            match r {
                Some(v) => *self == JsonValue::UInt(v),
                None => !(self is UInt),
            },
    {
        match self {
            JsonValue::UInt(v) => Some(*v),
            _ => None,
        }
    }

    /// The members in order, when this is an object.
    pub fn as_object(&self) -> (r: Option<&Vec<(String, JsonValue)>>)
        ensures
            match r {
                Some(v) => *self == JsonValue::Obj(*v),
                None => !(self is Obj),
            },
    {
        match self {
            JsonValue::Obj(v) => Some(v),
            _ => None,
        }
    }

    /// Whether this is the null value.
    pub fn is_null(&self) -> (r: bool)
        ensures
            r == (self is Null),
    {
        matches!(self, JsonValue::Null)
    }
}

} // verus!
