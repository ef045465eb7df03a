//! The value of a parameter: an integer or a binary32 number.

use crate::binary32::Binary32;
use vstd::prelude::*;

verus! {

/// What a parameter holds. Which of the two it is follows from the
/// parameter's definition.
#[derive(Clone, Copy, Debug)]
pub enum Value {
    Int(i32),
    Float(Binary32),
}

impl Value {
    /// Whether the value is an integer.
    pub open spec fn is_int(self) -> bool {
        self is Int
    }

    /// Equality of values: integers by their number, binary32 numbers as
    /// IEEE 754 compares them, an integer never equal to a binary32 number.
    pub open spec fn same_value(self, other: Value) -> bool {
        match (self, other) {
            (Value::Int(a), Value::Int(b)) => a == b,
            (Value::Float(a), Value::Float(b)) => a.same_value(b),
            _ => false,
        }
    }

    /// Whether the value is an integer.
    pub fn holds_int(&self) -> (r: bool)
        ensures
            r == self.is_int(),
    {
        match self {
            Value::Int(_) => true,
            Value::Float(_) => false,
        }
    }

    /// Whether the two are the same value.
    pub fn value_eq(&self, other: &Value) -> (r: bool)
        ensures
            r == self.same_value(*other),
    {
        match (self, other) {
            (Value::Int(a), Value::Int(b)) => *a == *b,
            (Value::Float(a), Value::Float(b)) => a.value_eq(b),
            _ => false,
        }
    }
}

impl PartialEq for Value {
    fn eq(&self, other: &Value) -> (r: bool) {
        self.value_eq(other)
    }
}

impl vstd::std_specs::cmp::PartialEqSpecImpl for Value {
    open spec fn obeys_eq_spec() -> bool {
        true
    }

    open spec fn eq_spec(&self, other: &Value) -> bool {
        self.same_value(*other)
    }
}

} // verus!
