//! Runtime values: 64-bit IEEE 754 doubles, carried by their bit pattern.

use vstd::prelude::*;

verus! {

/// The bit that holds the sign of a double.
pub const SIGN_BIT: u64 = 0x8000_0000_0000_0000u64;

/// A Lox number, identified by the 64 bits of its IEEE 754 encoding.
///
/// Two values are equal exactly when their bit patterns are equal: positive and
/// negative zero differ, and a NaN equals itself.
#[derive(Clone, Copy, Debug, PartialEq, Eq, Structural)]
pub struct Value {
    pub bits: u64,
}

impl Value {
    /// The arithmetic negation of a double: the same bits with the sign flipped.
    pub open spec fn spec_negated(self) -> Value {
        Value { bits: self.bits ^ SIGN_BIT }
    }

    /// Negates the value. IEEE 754 negation touches the sign bit alone, for
    /// zeros, infinities and NaNs as for every other number.
    #[verifier::when_used_as_spec(spec_negated)]
    pub fn negated(self) -> (r: Value)
        ensures
            r == self.spec_negated(),
    {
        Value { bits: self.bits ^ SIGN_BIT }
    }
}

/// A growable list of values.
pub struct ValueArray {
    values: Vec<Value>,
}

impl View for ValueArray {
    type V = Seq<Value>;

    closed spec fn view(&self) -> Seq<Value> {
        self.values@
    }
}

impl ValueArray {
    /// An array that holds nothing.
    pub fn new() -> (r: Self)
        ensures
            r@ == Seq::<Value>::empty(),
    {
        Self { values: Vec::new() }
    }

    /// Appends `value` behind the values already held.
    pub fn write(&mut self, value: Value)
        ensures
            final(self)@ == old(self)@.push(value),
    {
        self.values.push(value);
    }
}

/// Negating twice gives the value back.
pub proof fn negation_is_an_involution(v: Value)
    ensures
        v.spec_negated().spec_negated() == v,
{
    let b = v.bits;
    assert((b ^ 0x8000_0000_0000_0000u64) ^ 0x8000_0000_0000_0000u64 == b) by (bit_vector);
}

} // verus!
