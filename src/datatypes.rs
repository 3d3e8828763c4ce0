//! Logical types and the read rule each one binds to its buffer layout.
use vstd::prelude::*;

use crate::bit_util::{bit_at, bytes_for_bits, get_bit_raw};

verus! {

/// A logical type with a native in-memory representation and a rule that
/// reads the element at a given index out of a backing buffer.
pub trait ArrowPrimitiveType {
    /// The scalar type one decoded element is held in.
    type Native: Copy;

    /// The unit the backing buffer is made of.
    type Slot: Copy;

    /// How many buffer slots hold `n` elements.
    spec fn slots_for(n: nat) -> nat;

    /// The element at index `i` of a buffer.
    spec fn spec_index(buffer: Seq<Self::Slot>, i: int) -> Self::Native;

    /// A buffer that holds `n` elements also holds every shorter prefix.
    proof fn lemma_slots_for_monotone(m: nat, n: nat)
        requires
            m <= n,
        ensures
            Self::slots_for(m) <= Self::slots_for(n),
    ;

    /// Reads the element at index `i`.
    fn index(buffer: &[Self::Slot], i: usize) -> (r: Self::Native)
        requires
            Self::slots_for(i as nat + 1) <= buffer@.len(),
        ensures
            r == Self::spec_index(buffer@, i as int),
    ;
}

/// A fixed-width numeric logical type, stored densely: element `i` is slot `i`
/// of a buffer of native values.
pub trait ArrowNumericType {
    /// The scalar type one element is stored and decoded as.
    type Native: Copy;
}

/// Every numeric type reads densely: slot `i` is element `i`. A type that also
/// had its own `ArrowPrimitiveType` impl would conflict with this one, so no
/// logical type binds to both layouts.
impl<T: ArrowNumericType> ArrowPrimitiveType for T {
    type Native = <T as ArrowNumericType>::Native;

    type Slot = <T as ArrowNumericType>::Native;

    open spec fn slots_for(n: nat) -> nat {
        n
    }

    open spec fn spec_index(buffer: Seq<Self::Slot>, i: int) -> Self::Native {
        buffer[i]
    }

    proof fn lemma_slots_for_monotone(m: nat, n: nat) {
    }

    fn index(buffer: &[Self::Slot], i: usize) -> (r: Self::Native) {
        buffer[i]
    }
}

/// The boolean logical type, stored bit-packed: one element per bit.
pub struct BooleanType {}

impl ArrowPrimitiveType for BooleanType {
    type Native = bool;

    type Slot = u8;

    open spec fn slots_for(n: nat) -> nat {
        bytes_for_bits(n)
    }

    open spec fn spec_index(buffer: Seq<u8>, i: int) -> bool {
        bit_at(buffer, i)
    }

    proof fn lemma_slots_for_monotone(m: nat, n: nat) {
    }

    fn index(buffer: &[u8], i: usize) -> (r: bool) {
        get_bit_raw(buffer, i)
    }
}


/// 8-bit signed integers, stored densely.
pub struct Int8Type {}

impl ArrowNumericType for Int8Type {
    type Native = i8;
}

/// 16-bit signed integers, stored densely.
pub struct Int16Type {}

impl ArrowNumericType for Int16Type {
    type Native = i16;
}

/// 32-bit signed integers, stored densely.
pub struct Int32Type {}

impl ArrowNumericType for Int32Type {
    type Native = i32;
}

/// 64-bit signed integers, stored densely.
pub struct Int64Type {}

impl ArrowNumericType for Int64Type {
    type Native = i64;
}

/// 8-bit unsigned integers, stored densely.
pub struct UInt8Type {}

impl ArrowNumericType for UInt8Type {
    type Native = u8;
}

/// 16-bit unsigned integers, stored densely.
pub struct UInt16Type {}

impl ArrowNumericType for UInt16Type {
    type Native = u16;
}

/// 32-bit unsigned integers, stored densely.
pub struct UInt32Type {}

impl ArrowNumericType for UInt32Type {
    type Native = u32;
}

/// 64-bit unsigned integers, stored densely.
pub struct UInt64Type {}

impl ArrowNumericType for UInt64Type {
    type Native = u64;
}

} // verus!
