//! The values that a validator looks at.

use vstd::prelude::*;
use vstd::utf8::encode_utf8;
use crate::schema::basic_types::BasicValidationType;
use crate::text::str_eq;

verus! {

/// The value of a field.
///
/// Numbers other than integers are carried by the integer that ranks them:
/// a date or time by its timestamp, a decimal or floating-point number by
/// its value in the unit that the schema's bounds are written in. Two such
/// values are equal, or one is below the other, as their ranks are.
pub enum Value {
    Text(String),
    Integer(i128),
    Float(i128),
    Boolean(bool),
    Decimal(i128),
    DateTime(i128),
    /// A variant of an enumeration, by name.
    Enum(String),
    /// The absent state of an optional value.
    Absent,
    /// The present state of an optional value.
    Present(Box<Value>),
    /// A sequence or a set, in the order in which its elements are visited.
    List(Vec<Value>),
    /// A mapping, as its entries.
    Mapping(Vec<(Value, Value)>),
    /// A record, as the values of its fields in the order of declaration.
    Record(Vec<Value>),
}

impl Value {
    /// What is left when the layers of presence are taken off: the value
    /// itself, or nothing if one of the layers is absent.
    pub open spec fn payload(self) -> Option<Value>
        decreases self,
    {
        match self {
            Value::Absent => None,
            Value::Present(inner) => inner.payload(),
            _ => Some(self),
        }
    }

    /// The integer that ranks a number.
    pub open spec fn rank(self) -> Option<int> {
        match self {
            Value::Integer(k) => Some(k as int),
            Value::Float(k) => Some(k as int),
            Value::Decimal(k) => Some(k as int),
            Value::DateTime(k) => Some(k as int),
            _ => None,
        }
    }

    /// The size of a value that has one: of text its length in bytes, of a
    /// collection the number of its elements or entries.
    pub open spec fn size(self) -> Option<nat> {
        match self {
            Value::Text(s) => Some(encode_utf8(s@).len()),
            Value::List(items) => Some(items@.len()),
            Value::Mapping(entries) => Some(entries@.len()),
            _ => None,
        }
    }

    /// The text of a value that is text.
    pub open spec fn text(self) -> Option<Seq<char>> {
        match self {
            Value::Text(s) => Some(s@),
            _ => None,
        }
    }

    /// Whether `self` and `other` are the same scalar: text, a number of the
    /// same kind, a boolean or an enumeration's variant, with the same
    /// content. A collection, a record or an optional value is the same as
    /// nothing.
    pub open spec fn same_scalar(self, other: Value) -> bool {
        match (self, other) {
            (Value::Text(a), Value::Text(b)) => a@ == b@,
            (Value::Integer(a), Value::Integer(b)) => a == b,
            (Value::Float(a), Value::Float(b)) => a == b,
            (Value::Boolean(a), Value::Boolean(b)) => a == b,
            (Value::Decimal(a), Value::Decimal(b)) => a == b,
            (Value::DateTime(a), Value::DateTime(b)) => a == b,
            (Value::Enum(a), Value::Enum(b)) => a@ == b@,
            _ => false,
        }
    }

    /// Whether the value is a scalar: text, a number, a boolean or the
    /// variant of an enumeration.
    pub open spec fn is_scalar(self) -> bool {
        !(self is Absent) && !(self is Present) && !(self is List) && !(self is Mapping) && !(self
            is Record)
    }

    /// Whether the value is a scalar of the given category.
    pub open spec fn fits(self, category: BasicValidationType) -> bool {
        match (self, category) {
            (Value::Text(_), BasicValidationType::String) => true,
            (Value::Integer(_), BasicValidationType::Integer) => true,
            (Value::Float(_), BasicValidationType::Float) => true,
            (Value::Boolean(_), BasicValidationType::Boolean) => true,
            (Value::Decimal(_), BasicValidationType::Decimal) => true,
            (Value::DateTime(_), BasicValidationType::DateTime) => true,
            (Value::Enum(_), BasicValidationType::Enum) => true,
            _ => false,
        }
    }

    /// Whether some value of `list` is the same scalar as `self`.
    pub open spec fn among(self, list: Seq<Value>) -> bool {
        exists|i: int| 0 <= i < list.len() && self.same_scalar(#[trigger] list[i])
    }

    /// The value below the layers of presence, if every layer is present.
    pub fn unwrapped(&self) -> (r: Option<&Value>)
        ensures
            match r {
                Some(v) => self.payload() == Some(*v),
                None => self.payload() is None,
            },
        decreases self,
    {
        match self {
            Value::Absent => None,
            Value::Present(inner) => inner.unwrapped(),
            _ => Some(self),
        }
    }

    /// A copy of a scalar; of any other value, nothing.
    pub fn scalar_copy(&self) -> (r: Option<Value>)
        ensures
            match r {
                Some(v) => self.is_scalar() && v == *self,
                None => !self.is_scalar(),
            },
    {
        match self {
            Value::Text(s) => Some(Value::Text(s.clone())),
            Value::Integer(k) => Some(Value::Integer(*k)),
            Value::Float(k) => Some(Value::Float(*k)),
            Value::Boolean(b) => Some(Value::Boolean(*b)),
            Value::Decimal(k) => Some(Value::Decimal(*k)),
            Value::DateTime(k) => Some(Value::DateTime(*k)),
            Value::Enum(s) => Some(Value::Enum(s.clone())),
            _ => None,
        }
    }

    /// Whether `self` and `other` are the same scalar.
    pub fn is_same_scalar(&self, other: &Value) -> (r: bool)
        ensures
            r == self.same_scalar(*other),
    {
        match (self, other) {
            (Value::Text(a), Value::Text(b)) => str_eq(a.as_str(), b.as_str()),
            (Value::Integer(a), Value::Integer(b)) => *a == *b,
            (Value::Float(a), Value::Float(b)) => *a == *b,
            (Value::Boolean(a), Value::Boolean(b)) => *a == *b,
            (Value::Decimal(a), Value::Decimal(b)) => *a == *b,
            (Value::DateTime(a), Value::DateTime(b)) => *a == *b,
            (Value::Enum(a), Value::Enum(b)) => str_eq(a.as_str(), b.as_str()),
            _ => false,
        }
    }

    /// Whether the value is a scalar of the given category.
    pub fn is_of(&self, category: &BasicValidationType) -> (r: bool)
        ensures
            r == self.fits(*category),
    {
        match (self, category) {
            (Value::Text(_), BasicValidationType::String) => true,
            (Value::Integer(_), BasicValidationType::Integer) => true,
            (Value::Float(_), BasicValidationType::Float) => true,
            (Value::Boolean(_), BasicValidationType::Boolean) => true,
            (Value::Decimal(_), BasicValidationType::Decimal) => true,
            (Value::DateTime(_), BasicValidationType::DateTime) => true,
            (Value::Enum(_), BasicValidationType::Enum) => true,
            _ => false,
        }
    }

    /// Whether some value of `list` is the same scalar as `self`.
    pub fn is_among(&self, list: &Vec<Value>) -> (r: bool)
        ensures
            r == self.among(list@),
    {
        let mut i: usize = 0;
        while i < list.len()
            invariant
                i <= list.len(),
                forall|j: int| 0 <= j < i ==> !self.same_scalar(#[trigger] list@[j]),
            decreases list.len() - i,
        {
            if self.is_same_scalar(&list[i]) {
                return true;
            }
            i += 1;
        }
        false
    }
}

} // verus!
