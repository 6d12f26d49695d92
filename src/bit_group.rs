//! One byte-sized group of bits, stored most-significant bit first.
use bitvec::array::BitArray;
use bitvec::order::Msb0;
use vstd::prelude::*;

verus! {

/// Eight bits held by a `bitvec` bit-array over one byte, in `Msb0` order.
#[verifier::external_body]
#[derive(Copy, Debug)]
pub struct BitGroup {
    bits: BitArray<u8, Msb0>,
}

impl Clone for BitGroup {
    fn clone(&self) -> (r: Self)
        ensures
            r == *self,
    {
        *self
    }
}

impl BitGroup {
    /// The byte whose bits, most significant first, the group holds.
    pub fn data(&self) -> (r: u8)
        ensures
            msb_bits(r) == bits_of(*self),
    {
        group_byte(self)
    }
}

/// The bits of a group, in bitvec's index order: index 0 is the most significant bit.
pub uninterp spec fn bits_of(g: BitGroup) -> Seq<bool>;

/// The bits of a byte, most significant first.
pub open spec fn msb_bits(b: u8) -> Seq<bool> {
    Seq::new(8, |i: int| (b >> ((7 - i) as u8)) & 1u8 == 1u8)
}

/// `n` cleared bits.
pub open spec fn zeros(n: nat) -> Seq<bool> {
    Seq::new(n, |i: int| false)
}

/// The number written by a sequence of bits, most significant first.
pub open spec fn bits_value(s: Seq<bool>) -> nat
    decreases s.len(),
{
    if s.len() == 0 {
        0
    } else {
        2 * bits_value(s.drop_last()) + if s.last() {
            1nat
        } else {
            0nat
        }
    }
}

/// The mask of the `n` low bits, for `n <= 32`.
pub open spec fn low_mask(n: nat) -> u64 {
    ((1u64 << (n as u64)) - 1) as u64
}

/// Relies on `BitArray::new`: the group holds the byte, read in `Msb0` order.
#[verifier::external_body]
pub(crate) fn group_new(b: u8) -> (g: BitGroup)
    ensures
        bits_of(g) == msb_bits(b),
{
    BitGroup { bits: BitArray::<u8, Msb0>::new(b) }
}

/// Relies on `BitSlice::shift_start` (reached through the array): the bits move `by` places
/// towards index 0 and the `by` last places are cleared. It panics only for `by` above the
/// length.
#[verifier::external_body]
pub(crate) fn group_shift_start(g: &mut BitGroup, by: usize)
    requires
        bits_of(*old(g)).len() == 8,
        by <= 8,
    ensures
        bits_of(*final(g)) == bits_of(*old(g)).subrange(by as int, 8) + zeros(by as nat),
{
    g.bits.shift_start(by)
}

/// Relies on `BitSlice::shift_end` (reached through the array): the bits move `by` places
/// away from index 0 and the `by` first places are cleared. It panics only for `by` above the
/// length.
#[verifier::external_body]
pub(crate) fn group_shift_end(g: &mut BitGroup, by: usize)
    requires
        bits_of(*old(g)).len() == 8,
        by <= 8,
    ensures
        bits_of(*final(g)) == zeros(by as nat) + bits_of(*old(g)).subrange(0, 8 - by),
{
    g.bits.shift_end(by)
}

/// Relies on the public `data` field of `BitArray`: the byte whose `Msb0` bits the group holds.
#[verifier::external_body]
pub(crate) fn group_byte(g: &BitGroup) -> (b: u8)
    ensures
        msb_bits(b) == bits_of(*g),
{
    g.bits.data
}

proof fn lemma_window_step(b: u8, j: u64, e: u64)
    by (bit_vector)
    requires
        j < e <= 8,
    ensures
        2 * (((b as u64) >> ((9 - e) as u64)) & (((1u64 << ((e - 1 - j) as u64)) - 1) as u64))
            + (if (b >> ((8 - e) as u8)) & 1u8 == 1u8 {
            1u64
        } else {
            0u64
        }) == ((b as u64) >> ((8 - e) as u64)) & (((1u64 << ((e - j) as u64)) - 1) as u64),
{
}

/// The bits `j..e` of a byte, most significant first, write the byte shifted right by
/// `8 - e` and cut to its `e - j` low bits.
pub proof fn lemma_window_value(b: u8, j: nat, e: nat)
    requires
        j <= e <= 8,
    ensures
        bits_value(msb_bits(b).subrange(j as int, e as int)) == ((b as u64) >> ((8 - e) as u64))
            & low_mask((e - j) as nat),
    decreases e - j,
{
    let s = msb_bits(b).subrange(j as int, e as int);
    if e == j {
        let x: u64 = (b as u64) >> ((8 - e) as u64);
        assert(((1u64 << 0u64) - 1) as u64 == 0u64) by (bit_vector);
        assert(x & 0u64 == 0u64) by (bit_vector);
    } else {
        lemma_window_value(b, j, (e - 1) as nat);
        assert(s.drop_last() =~= msb_bits(b).subrange(j as int, e - 1));
        lemma_window_step(b, j as u64, e as u64);
    }
}

/// The eight bits of a byte write the byte.
pub proof fn lemma_byte_value(b: u8)
    ensures
        bits_value(msb_bits(b)) == b,
{
    lemma_window_value(b, 0, 8);
    assert(msb_bits(b).subrange(0, 8) =~= msb_bits(b));
    assert(((b as u64) >> 0u64) & (((1u64 << 8u64) - 1) as u64) == b as u64) by (bit_vector);
}

/// Leading cleared bits do not change the number a sequence of bits writes.
pub proof fn lemma_leading_zeros(n: nat, s: Seq<bool>)
    ensures
        bits_value(zeros(n) + s) == bits_value(s),
    decreases s.len(),
{
    if s.len() == 0 {
        assert(zeros(n) + s =~= zeros(n));
        lemma_zeros_value(n);
    } else {
        assert((zeros(n) + s).drop_last() =~= zeros(n) + s.drop_last());
        lemma_leading_zeros(n, s.drop_last());
    }
}

proof fn lemma_zeros_value(n: nat)
    ensures
        bits_value(zeros(n)) == 0,
    decreases n,
{
    if n > 0 {
        assert(zeros(n).drop_last() =~= zeros((n - 1) as nat));
        lemma_zeros_value((n - 1) as nat);
    }
}

} // verus!
