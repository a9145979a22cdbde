use vstd::prelude::*;

verus! {

/// The error kinds that the interpreter itself must be able to produce.
///
/// Each factory is deterministic: it always returns the value named by its
/// spec counterpart, so contracts can say exactly which error comes back.
pub trait VmError: Sized {
    spec fn spec_stack_underflow() -> Self;

    spec fn spec_type_mismatch() -> Self;

    spec fn spec_decode_error() -> Self;

    spec fn spec_index_out_of_range() -> Self;

    /// A pop was attempted on an empty operand stack.
    fn stack_underflow() -> (e: Self)
        ensures
            e == Self::spec_stack_underflow(),
    ;

    /// The runtime rejected a combination of values.
    fn type_mismatch() -> (e: Self)
        ensures
            e == Self::spec_type_mismatch(),
    ;

    /// An opcode byte was not recognised, or the bytecode ended before `Halt`.
    fn decode_error() -> (e: Self)
        ensures
            e == Self::spec_decode_error(),
    ;

    /// A `Constant` operand did not index the constant table.
    fn index_out_of_range() -> (e: Self)
        ensures
            e == Self::spec_index_out_of_range(),
    ;
}

/// The value domain that the interpreter runs over.
///
/// A runtime is a state machine: each operation is described by a spec
/// function from the runtime's state and the operands to the next state and
/// the result. The interpreter never looks inside values, constants or errors.
pub trait Runtime: Sized {
    type Value: Default;

    type Constant;

    type Error: VmError;

    spec fn spec_add(self, a: Self::Value, b: Self::Value) -> (Self, Result<Self::Value, Self::Error>);

    spec fn spec_sub(self, a: Self::Value, b: Self::Value) -> (Self, Result<Self::Value, Self::Error>);

    spec fn spec_constant(self, constant: Self::Constant) -> (Self, Result<Self::Value, Self::Error>);

    fn add(&mut self, a: Self::Value, b: Self::Value) -> (r: Result<Self::Value, Self::Error>)
        ensures
            (*final(self), r) == old(self).spec_add(a, b),
    ;

    fn sub(&mut self, a: Self::Value, b: Self::Value) -> (r: Result<Self::Value, Self::Error>)
        ensures
            (*final(self), r) == old(self).spec_sub(a, b),
    ;

    fn constant(&mut self, constant: &Self::Constant) -> (r: Result<Self::Value, Self::Error>)
        ensures
            (*final(self), r) == old(self).spec_constant(*constant),
    ;
}

/// `v` is a value that `V::default()` may return.
pub open spec fn is_default<V: Default>(v: V) -> bool {
    call_ensures(V::default, (), v)
}

} // verus!
