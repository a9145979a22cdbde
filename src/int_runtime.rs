use vstd::prelude::*;

use crate::runtime::{Runtime, VmError};

verus! {

/// A runtime over 64-bit signed integers and a null value.
pub struct IntRuntime;

#[derive(Debug, PartialEq, Eq, Structural)]
pub enum IntValue {
    Null,
    Int(i64),
}

impl Default for IntValue {
    fn default() -> (r: Self)
        ensures
            r == IntValue::Null,
    {
        IntValue::Null
    }
}

#[derive(Debug, PartialEq, Eq, Structural)]
pub enum IntConstant {
    Int(i64),
}

#[derive(Debug, PartialEq, Eq, Structural)]
pub enum IntError {
    StackUnderflow,
    TypeMismatch,
    DecodeError,
    IndexOutOfRange,
    Overflow,
}

impl IntError {
    /// A short human-readable description of the error.
    pub fn message(&self) -> &'static str {
        match self {
            IntError::StackUnderflow => "stack underflow",
            IntError::TypeMismatch => "type error",
            IntError::DecodeError => "invalid bytecode",
            IntError::IndexOutOfRange => "constant index out of range",
            IntError::Overflow => "integer overflow",
        }
    }
}

impl VmError for IntError {
    open spec fn spec_stack_underflow() -> Self {
        IntError::StackUnderflow
    }

    open spec fn spec_type_mismatch() -> Self {
        IntError::TypeMismatch
    }

    open spec fn spec_decode_error() -> Self {
        IntError::DecodeError
    }

    open spec fn spec_index_out_of_range() -> Self {
        IntError::IndexOutOfRange
    }

    fn stack_underflow() -> (e: Self) {
        IntError::StackUnderflow
    }

    fn type_mismatch() -> (e: Self) {
        IntError::TypeMismatch
    }

    fn decode_error() -> (e: Self) {
        IntError::DecodeError
    }

    fn index_out_of_range() -> (e: Self) {
        IntError::IndexOutOfRange
    }
}

/// `a + b` when both are integers and the sum fits in an `i64`.
pub open spec fn add_values(a: IntValue, b: IntValue) -> Result<IntValue, IntError> {
    match (a, b) {
        (IntValue::Int(x), IntValue::Int(y)) => if i64::MIN <= x + y <= i64::MAX {
            Ok(IntValue::Int((x + y) as i64))
        } else {
            Err(IntError::Overflow)
        },
        _ => Err(IntError::TypeMismatch),
    }
}

/// `a - b` when both are integers and the difference fits in an `i64`.
pub open spec fn sub_values(a: IntValue, b: IntValue) -> Result<IntValue, IntError> {
    match (a, b) {
        (IntValue::Int(x), IntValue::Int(y)) => if i64::MIN <= x - y <= i64::MAX {
            Ok(IntValue::Int((x - y) as i64))
        } else {
            Err(IntError::Overflow)
        },
        _ => Err(IntError::TypeMismatch),
    }
}

impl Runtime for IntRuntime {
    type Value = IntValue;

    type Constant = IntConstant;

    type Error = IntError;

    open spec fn spec_add(self, a: IntValue, b: IntValue) -> (Self, Result<IntValue, IntError>) {
        (self, add_values(a, b))
    }

    open spec fn spec_sub(self, a: IntValue, b: IntValue) -> (Self, Result<IntValue, IntError>) {
        (self, sub_values(a, b))
    }

    open spec fn spec_constant(self, constant: IntConstant) -> (Self, Result<IntValue, IntError>) {
        match constant {
            IntConstant::Int(i) => (self, Ok(IntValue::Int(i))),
        }
    }

    fn add(&mut self, a: IntValue, b: IntValue) -> (r: Result<IntValue, IntError>) {
        match (a, b) {
            (IntValue::Int(x), IntValue::Int(y)) => match x.checked_add(y) {
                Some(s) => Ok(IntValue::Int(s)),
                None => Err(IntError::Overflow),
            },
            _ => Err(IntError::type_mismatch()),
        }
    }

    fn sub(&mut self, a: IntValue, b: IntValue) -> (r: Result<IntValue, IntError>) {
        match (a, b) {
            (IntValue::Int(x), IntValue::Int(y)) => match x.checked_sub(y) {
                Some(d) => Ok(IntValue::Int(d)),
                None => Err(IntError::Overflow),
            },
            _ => Err(IntError::type_mismatch()),
        }
    }

    fn constant(&mut self, constant: &IntConstant) -> (r: Result<IntValue, IntError>) {
        match constant {
            IntConstant::Int(i) => Ok(IntValue::Int(*i)),
        }
    }
}

} // verus!
