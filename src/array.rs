//! A non-owning, typed view over a columnar buffer.
use vstd::prelude::*;

use crate::bit_util::bit_at;
use crate::datatypes::{ArrowNumericType, ArrowPrimitiveType, BooleanType};

verus! {

/// The error of a checked read past the end of a view.
#[derive(Debug, Clone, Copy, PartialEq, Eq, Structural)]
pub struct IndexOutOfBounds {
    /// The index that was asked for.
    pub index: usize,
    /// The number of elements in the view.
    pub len: usize,
}

/// A read-only view of `len` elements of logical type `T` over a borrowed
/// buffer. The buffer belongs to the caller and outlives the view.
pub struct PrimitiveArray<'a, T: ArrowPrimitiveType> {
    raw_values: &'a [T::Slot],
    len: usize,
}

impl<'a, T: ArrowPrimitiveType> View for PrimitiveArray<'a, T> {
    /// The logical elements, in index order.
    type V = Seq<T::Native>;

    closed spec fn view(&self) -> Seq<T::Native> {
        Seq::new(self.len as nat, |i: int| T::spec_index(self.raw_values@, i))
    }
}

impl<'a, T: ArrowPrimitiveType> PrimitiveArray<'a, T> {
    /// The backing buffer, slot by slot.
    pub closed spec fn buffer(self) -> Seq<T::Slot> {
        self.raw_values@
    }

    /// The buffer is long enough for the declared number of elements.
    pub closed spec fn wf(self) -> bool {
        T::slots_for(self.len as nat) <= self.raw_values@.len()
    }

    /// A view of the first `len` elements of `raw_values`. The buffer must
    /// hold at least `T::slots_for(len)` slots.
    pub fn new(raw_values: &'a [T::Slot], len: usize) -> (r: Self)
        requires
            T::slots_for(len as nat) <= raw_values@.len(),
        ensures
            r.wf(),
            r.buffer() == raw_values@,
            r@ == Seq::new(len as nat, |j: int| T::spec_index(raw_values@, j)),
    {
        PrimitiveArray { raw_values, len }
    }

    /// The number of elements.
    pub fn len(&self) -> (r: usize)
        ensures
            r == self@.len(),
    {
        self.len
    }

    /// Whether the view holds no element.
    pub fn is_empty(&self) -> (r: bool)
        ensures
            r == (self@.len() == 0),
    {
        self.len == 0
    }

    /// The element at index `i`; `i` must be below `len()`.
    pub fn value(&self, i: usize) -> (r: T::Native)
        requires
            self.wf(),
            i < self@.len(),
        ensures
            r == self@[i as int],
            r == T::spec_index(self.buffer(), i as int),
    {
        proof {
            T::lemma_slots_for_monotone(i as nat + 1, self.len as nat);
        }
        T::index(self.raw_values, i)
    }

    /// The element at index `i`, or `IndexOutOfBounds` when `i` is not below
    /// `len()`.
    pub fn value_checked(&self, i: usize) -> (r: Result<T::Native, IndexOutOfBounds>)
        requires
            self.wf(),
        ensures
            i < self@.len() ==> r == Ok::<T::Native, IndexOutOfBounds>(self@[i as int]),
            i >= self@.len() ==> r == Err::<T::Native, IndexOutOfBounds>(
                IndexOutOfBounds { index: i, len: self@.len() as usize },
            ),
    {
        if i < self.len {
            Ok(self.value(i))
        } else {
            Err(IndexOutOfBounds { index: i, len: self.len })
        }
    }

    /// Every element, in index order.
    pub fn to_vec(&self) -> (r: Vec<T::Native>)
        requires
            self.wf(),
        ensures
            r@ == self@,
    {
        let mut out: Vec<T::Native> = Vec::new();
        let mut i: usize = 0;
        while i < self.len
            invariant
                self.wf(),
                i <= self@.len(),
                out@ == self@.subrange(0, i as int),
            decreases self@.len() - i,
        {
            out.push(self.value(i));
            i = i + 1;
        }
        assert(out@ == self@);
        out
    }
}

/// Dense correctness: element `i` of a numeric view is slot `i` of its
/// buffer, the native value stored at bytes `[i * size, (i + 1) * size)`.
pub proof fn lemma_dense_value<'a, T: ArrowNumericType>(a: PrimitiveArray<'a, T>, i: int)
    requires
        0 <= i < a@.len(),
    ensures
        a@[i] == a.buffer()[i],
{
}

/// Bit-packed correctness: element `i` of a boolean view is bit `i & 7` of
/// byte `i >> 3`, least significant bit first.
pub proof fn lemma_bit_packed_value<'a>(a: PrimitiveArray<'a, BooleanType>, i: usize)
    requires
        i < a@.len(),
    ensures
        a@[i as int] == (((a.buffer()[(i >> 3usize) as int] >> (i & 7usize) as u8) & 1u8) != 0u8),
{
    assert(i >> 3usize == i / 8) by (bit_vector);
    assert(i & 7usize == i % 8) by (bit_vector);
}

/// Read-only round trip: the elements of a well-formed numeric view are
/// exactly the first `len` values written into its buffer.
pub proof fn lemma_dense_round_trip<'a, T: ArrowNumericType>(a: PrimitiveArray<'a, T>)
    requires
        a.wf(),
    ensures
        a@ == a.buffer().subrange(0, a@.len() as int),
{
    assert(a@ =~= a.buffer().subrange(0, a@.len() as int));
}

/// Determinism: the elements of a view depend on its buffer and its length
/// alone, so reading the same index of an unchanged buffer twice gives the
/// same value.
pub proof fn lemma_value_deterministic<'a, 'b, T: ArrowPrimitiveType>(
    a: PrimitiveArray<'a, T>,
    b: PrimitiveArray<'b, T>,
)
    requires
        a.buffer() == b.buffer(),
        a@.len() == b@.len(),
    ensures
        a@ == b@,
{
    assert(a@ =~= b@);
}

/// Boundary: in a well-formed boolean view of `n` elements, every index
/// below `n` reads a byte inside the buffer, also when `n` is not a multiple
/// of 8.
pub proof fn lemma_bit_packed_in_bounds<'a>(a: PrimitiveArray<'a, BooleanType>, i: int)
    requires
        a.wf(),
        0 <= i < a@.len(),
    ensures
        i / 8 < a.buffer().len(),
        a@[i] == bit_at(a.buffer(), i),
{
}

/// Padding: two boolean views of the same length whose buffers agree on
/// the first `len` bits have the same elements, whatever the unused high
/// bits of the last byte hold.
pub proof fn lemma_bit_packed_padding_ignored<'a, 'b>(
    a: PrimitiveArray<'a, BooleanType>,
    b: PrimitiveArray<'b, BooleanType>,
)
    requires
        a@.len() == b@.len(),
        forall|j: int| 0 <= j < a@.len() ==> bit_at(a.buffer(), j) == bit_at(b.buffer(), j),
    ensures
        a@ == b@,
{
    assert forall|j: int| 0 <= j < a@.len() implies a@[j] == b@[j] by {
        assert(bit_at(a.buffer(), j) == bit_at(b.buffer(), j));
    }
    assert(a@ =~= b@);
}

} // verus!
