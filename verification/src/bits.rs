//! The cell data of saves and blueprints: a sequence of bits held in a `bitvec` bit-vector.
use vstd::prelude::*;
use bitvec::vec::BitVec;

verus! {

/// The largest number of bits that a `bitvec` bit-vector can hold (`usize::MAX >> 3`).
pub const MAX_BITS: usize = usize::MAX / 8;

/// A sequence of cell states, each stored as one bit (`true` for alive).
///
/// The bits are held in a `bitvec` [`BitVec`]; the sequence it holds is named by [`cell_bits`].
#[verifier::external_body]
#[derive(PartialEq, Eq, Debug)]
pub struct CellBits {
    bits: BitVec,
}

/// The bits that a [`CellBits`] holds, in order.
pub uninterp spec fn cell_bits(bits: CellBits) -> Seq<bool>;

/// Creates an empty bit-vector with `BitVec::new`.
#[verifier::external_body]
fn bit_vec_new() -> (r: CellBits)
    ensures
        cell_bits(r) == Seq::<bool>::empty(),
{
    CellBits { bits: BitVec::new() }
}

/// Appends one bit with `BitVec::push`, which panics only when the length would pass [`MAX_BITS`].
#[verifier::external_body]
fn bit_vec_push(bits: &mut CellBits, value: bool)
    requires
        cell_bits(*old(bits)).len() < MAX_BITS,
    ensures
        cell_bits(*final(bits)) == cell_bits(*old(bits)).push(value),
{
    bits.bits.push(value)
}

/// The number of bits held, from `BitVec::len`.
#[verifier::external_body]
fn bit_vec_len(bits: &CellBits) -> (r: usize)
    ensures
        r == cell_bits(*bits).len(),
{
    bits.bits.len()
}

/// The bit at the given index, read by indexing the bit-vector (which panics out of bounds).
#[verifier::external_body]
fn bit_vec_index(bits: &CellBits, index: usize) -> (r: bool)
    requires
        index < cell_bits(*bits).len(),
    ensures
        r == cell_bits(*bits)[index as int],
{
    bits.bits[index]
}

impl CellBits {
    /// An empty sequence of bits.
    pub fn new() -> (r: CellBits)
        ensures
            cell_bits(r) == Seq::<bool>::empty(),
    {
        bit_vec_new()
    }

    /// Appends one bit.
    pub fn push(&mut self, value: bool)
        requires
            cell_bits(*old(self)).len() < MAX_BITS,
        ensures
            cell_bits(*final(self)) == cell_bits(*old(self)).push(value),
    {
        bit_vec_push(self, value)
    }

    /// The number of bits held.
    pub fn len(&self) -> (r: usize)
        ensures
            r == cell_bits(*self).len(),
    {
        bit_vec_len(self)
    }

    /// The bit at the given index.
    pub fn get(&self, index: usize) -> (r: bool)
        requires
            index < cell_bits(*self).len(),
        ensures
            r == cell_bits(*self)[index as int],
    {
        bit_vec_index(self, index)
    }
}

} // verus!
