//! A value packed into the fewest bytes that hold its bit width.
use crate::bit_group::{
    bits_of, bits_value, group_byte, group_new, group_shift_end, group_shift_start,
    lemma_byte_value, lemma_leading_zeros, lemma_window_value, low_mask, msb_bits, zeros,
    BitGroup,
};
use crate::bit_quantity::BitQuantity;
use vstd::arithmetic::div_mod::lemma_small_mod;
use vstd::arithmetic::power2::pow2;
use vstd::bits::{low_bits_mask, lemma_u64_low_bits_mask_is_mod, lemma_u64_pow2_no_overflow, lemma_u64_shl_is_mul};
use vstd::prelude::*;

verus! {

/// Byte `i` of `v` in little-endian order.
pub open spec fn le_byte(v: u32, i: int) -> u8 {
    (v >> ((8 * i) as u32)) as u8
}

/// The bit groups that packing `v` into `quantity` bits gives: the whole little-endian bytes
/// first, then, when `quantity` is not a multiple of eight, the `quantity % 8` low bits of the
/// next byte, moved to the most significant end of a last group.
pub open spec fn packed_groups(v: u32, quantity: nat) -> Seq<Seq<bool>> {
    Seq::new(
        (quantity + 7) / 8,
        |i: int|
            if i < quantity / 8 {
                msb_bits(le_byte(v, i))
            } else {
                msb_bits(le_byte(v, i)).subrange(8 - quantity % 8, 8) + zeros(
                    (8 - quantity % 8) as nat,
                )
            },
    )
}

/// The bytes that bit groups packed at `quantity` bits stand for: each whole group read as a
/// byte, and of a last partial group only its `quantity % 8` first bits, read as a number.
pub open spec fn unpacked_bytes(groups: Seq<Seq<bool>>, quantity: nat) -> Seq<u8> {
    Seq::new(
        (quantity + 7) / 8,
        |i: int|
            if i < quantity / 8 {
                bits_value(groups[i]) as u8
            } else {
                bits_value(groups[i].subrange(0, (quantity % 8) as int)) as u8
            },
    )
}

/// Byte `i` of `s`, or zero past its end.
pub open spec fn byte_or_zero(s: Seq<u8>, i: int) -> int {
    if 0 <= i < s.len() {
        s[i] as int
    } else {
        0
    }
}

/// The number that the first four bytes of `s` write in little-endian order, missing bytes
/// counting as zero.
pub open spec fn le_u32(s: Seq<u8>) -> int {
    byte_or_zero(s, 0) + 256 * byte_or_zero(s, 1) + 65536 * byte_or_zero(s, 2) + 16777216
        * byte_or_zero(s, 3)
}

/// A value packed at the width that `Q` reports, as a sequence of bit groups.
#[derive(Debug, Clone)]
pub struct BitSize<Q: BitQuantity>(pub Vec<BitGroup>, pub Q);

impl<Q: BitQuantity> BitSize<Q> {
    /// The bits of each group.
    pub open spec fn groups(&self) -> Seq<Seq<bool>> {
        self.0@.map_values(|g: BitGroup| bits_of(g))
    }

    /// One group of eight bits for each started byte of the width.
    pub open spec fn wf(&self) -> bool {
        &&& 1 <= self.1.quantity() <= 32
        &&& self.0@.len() == (self.1.quantity() + 7) / 8
        &&& forall|i: int| 0 <= i < self.0@.len() ==> (#[trigger] bits_of(self.0@[i])).len() == 8
    }

    /// The bytes that the packed value stands for.
    pub open spec fn bytes(&self) -> Seq<u8> {
        unpacked_bytes(self.groups(), self.1.quantity())
    }

    /// Packs `value` at the width of `bit_quantity`. Bits of `value` above that width are
    /// dropped.
    pub fn new(value: u32, bit_quantity: Q) -> (r: Self)
        ensures
            r.wf(),
            r.1 == bit_quantity,
            r.groups() == packed_groups(value, bit_quantity.quantity()),
    {
        let mut bytes: Vec<BitGroup> = Vec::new();
        let quantity: usize = bit_quantity.get_bit_quantity();
        let full_bytes_quantity: usize = quantity / 8;
        let ghost target = packed_groups(value, quantity as nat);
        let mut index: usize = 0;
        while index < full_bytes_quantity
            invariant
                index <= full_bytes_quantity,
                full_bytes_quantity == quantity / 8,
                quantity <= 32,
                target == packed_groups(value, quantity as nat),
                bytes@.len() == index,
                forall|i: int| 0 <= i < index ==> bits_of(#[trigger] bytes@[i]) == target[i],
            decreases full_bytes_quantity - index,
        {
            bytes.push(group_new((value >> (8 * index as u32)) as u8));
            index += 1;
        }
        if quantity % 8 != 0 {
            let mut last = group_new((value >> (8 * full_bytes_quantity as u32)) as u8);
            group_shift_start(&mut last, 8 - quantity % 8);
            bytes.push(last);
        }
        let r = BitSize(bytes, bit_quantity);
        assert(r.groups() =~= target);
        r
    }

    /// The bytes that the packed value stands for; the value is left as it was.
    pub fn to_bytes(&mut self) -> (r: Vec<u8>)
        requires
            old(self).wf(),
        ensures
            *final(self) == *old(self),
            r@ == old(self).bytes(),
            r@.len() == (old(self).1.quantity() + 7) / 8,
    {
        self.unpack()
    }

    fn unpack(&self) -> (r: Vec<u8>)
        requires
            self.wf(),
        ensures
            r@ == self.bytes(),
    {
        let groups = &self.0;
        let mut bytes: Vec<u8> = Vec::new();
        let quantity: usize = self.1.get_bit_quantity();
        let full_bytes_quantity: usize = quantity / 8;
        let ghost target = self.bytes();
        let mut index: usize = 0;
        while index < full_bytes_quantity
            invariant
                self.wf(),
                groups == &self.0,
                index <= full_bytes_quantity,
                full_bytes_quantity == quantity / 8,
                quantity == self.1.quantity(),
                target == self.bytes(),
                bytes@ == target.subrange(0, index as int),
            decreases full_bytes_quantity - index,
        {
            let b = group_byte(&groups[index]);
            proof {
                lemma_byte_value(b);
            }
            bytes.push(b);
            index += 1;
            assert(bytes@ =~= target.subrange(0, index as int));
        }
        if quantity % 8 != 0 {
            let mut value = groups[full_bytes_quantity];
            let ghost g = bits_of(value);
            let rem: usize = quantity % 8;
            group_shift_end(&mut value, 8 - rem);
            let b = group_byte(&value);
            proof {
                lemma_byte_value(b);
                lemma_leading_zeros((8 - rem) as nat, g.subrange(0, rem as int));
                assert(g.subrange(0, 8 - (8 - rem)) =~= g.subrange(0, rem as int));
            }
            bytes.push(b);
        }
        assert(bytes@ =~= target);
        bytes
    }

    /// The first byte that the packed value stands for, or zero when there is none.
    pub fn to_byte(&self) -> (r: u8)
        requires
            self.wf(),
        ensures
            r == (if self.bytes().len() == 0 {
                0
            } else {
                self.bytes()[0]
            }),
    {
        let bytes: Vec<u8> = self.unpack();
        if bytes.len() > 0 {
            bytes[0]
        } else {
            0
        }
    }

    /// The number that the bytes of the packed value write in little-endian order.
    pub fn to_u32(&self) -> (r: u32)
        requires
            self.wf(),
        ensures
            r == le_u32(self.bytes()),
    {
        let mut result: [u8; 4] = [0, 0, 0, 0];
        let bytes: Vec<u8> = self.unpack();
        let mut index: usize = 0;
        while index < 4
            invariant
                index <= 4,
                bytes@ == self.bytes(),
                forall|j: int|
                    0 <= j < 4 ==> #[trigger] result@[j] as int == (if j < index {
                        byte_or_zero(bytes@, j)
                    } else {
                        0
                    }),
            decreases 4 - index,
        {
            if index < bytes.len() {
                result[index] = bytes[index];
            }
            index += 1;
        }
        u32_from_le_bytes(result)
    }
}

/// The number that four bytes write in little-endian order.
fn u32_from_le_bytes(b: [u8; 4]) -> (r: u32)
    ensures
        r == b@[0] + 256 * b@[1] + 65536 * b@[2] + 16777216 * b@[3],
{
    b[0] as u32 + b[1] as u32 * 256 + b[2] as u32 * 65536 + b[3] as u32 * 16777216
}

impl<Q: BitQuantity> BitQuantity for BitSize<Q> {
    open spec fn quantity(&self) -> nat {
        self.1.quantity()
    }

    fn get_bit_quantity(&self) -> (r: usize) {
        self.1.get_bit_quantity()
    }
}

/// Byte `i` of a little-endian `u32`, taken from the widened value.
proof fn lemma_le_byte(v: u32, i: int)
    requires
        0 <= i < 4,
    ensures
        le_byte(v, i) as u64 == ((v as u64) >> ((8 * i) as u64)) & 0xff,
{
    let s: u32 = (8 * i) as u32;
    let t: u64 = (8 * i) as u64;
    assert(((v >> s) as u8) as u64 == ((v as u64) >> t) & 0xff) by (bit_vector)
        requires
            s < 32,
            t == s as u64,
    ;
}

/// Byte `i` of the bytes that packing `v` at `quantity` bits stands for: a whole byte of `v`
/// below `quantity / 8`, the low `quantity % 8` bits of the next byte at `quantity / 8`, and
/// nothing above.
proof fn lemma_unpacked_byte(v: u32, quantity: nat, i: int)
    requires
        1 <= quantity <= 32,
        0 <= i < 4,
    ensures
        byte_or_zero(unpacked_bytes(packed_groups(v, quantity), quantity), i) == if i < quantity
            / 8 {
            (((v as u64) >> (8 * i) as u64) & 0xff) as int
        } else if i == quantity / 8 {
            (((v as u64) >> (8 * i) as u64) & low_mask(quantity % 8)) as int
        } else {
            0
        },
{
    let f = quantity / 8;
    let rem = quantity % 8;
    let u = unpacked_bytes(packed_groups(v, quantity), quantity);
    let x = v as u64;
    assert(u.len() == (quantity + 7) / 8);
    if i < f {
        let b = le_byte(v, i);
        lemma_byte_value(b);
        lemma_le_byte(v, i);
        assert(packed_groups(v, quantity)[i] == msb_bits(b));
    } else if i == f {
        if rem == 0 {
            let sh: u64 = (8 * i) as u64;
            assert((x >> sh) & (((1u64 << 0u64) - 1) as u64) == 0) by (bit_vector);
            assert(byte_or_zero(u, i) == 0);
            assert(low_mask(quantity % 8) == ((1u64 << 0u64) - 1) as u64);
        } else {
            let b = le_byte(v, i);
            let g = packed_groups(v, quantity)[i];
            assert(g.subrange(0, rem as int) =~= msb_bits(b).subrange(8 - rem, 8));
            lemma_window_value(b, (8 - rem) as nat, 8);
            lemma_le_byte(v, i);
            let sh: u64 = (8 * i) as u64;
            let r: u64 = rem as u64;
            let m = low_mask(rem);
            assert(m == ((1u64 << r) - 1) as u64);
            let bx = b as u64;
            let y = x >> sh;
            assert(bx == y & 0xff);
            assert(bx >> 0u64 & m == y & m && y & m < 256) by (bit_vector)
                requires
                    bx == y & 0xff,
                    m == ((1u64 << r) - 1) as u64,
                    r < 8,
            ;
            assert(u[i] == bits_value(g.subrange(0, rem as int)) as u8);
            assert(byte_or_zero(u, i) == ((x >> sh) & low_mask(rem)) as int);
        }
    } else {
        assert(byte_or_zero(u, i) == 0);
    }
}

/// The mask of the `n` low bits keeps a number modulo `2^n`.
proof fn lemma_low_mask_is_mod(x: u64, n: nat)
    requires
        n <= 32,
    ensures
        x & low_mask(n) == x as nat % pow2(n),
{
    lemma_u64_pow2_no_overflow(n);
    lemma_u64_shl_is_mul(1, n as u64);
    lemma_u64_low_bits_mask_is_mod(x, n);
    assert(low_mask(n) == low_bits_mask(n) as u64);
}

/// Packing `v` at a width of `quantity` bits and reading the bytes back as a little-endian
/// number gives `v` cut to its `quantity` low bits.
pub proof fn lemma_pack_keeps_low_bits<Q: BitQuantity>(v: u32, w: Q)
    requires
        1 <= w.quantity() <= 32,
    ensures
        le_u32(unpacked_bytes(packed_groups(v, w.quantity()), w.quantity())) == ((v as u64)
            & low_mask(w.quantity())) as int,
{
    let q = w.quantity();
    let u = unpacked_bytes(packed_groups(v, q), q);
    lemma_unpacked_byte(v, q, 0);
    lemma_unpacked_byte(v, q, 1);
    lemma_unpacked_byte(v, q, 2);
    lemma_unpacked_byte(v, q, 3);
    let x = v as u64;
    let f = q / 8;
    let r: u64 = (q % 8) as u64;
    let qq: u64 = q as u64;
    let m = low_mask(q);
    let mr = low_mask(q % 8);
    assert(m == ((1u64 << qq) - 1) as u64);
    assert(mr == ((1u64 << r) - 1) as u64);
    let b0 = byte_or_zero(u, 0);
    let b1 = byte_or_zero(u, 1);
    let b2 = byte_or_zero(u, 2);
    let b3 = byte_or_zero(u, 3);
    if f == 0 {
        assert(b0 == ((x >> 0u64) & mr) as int);
        assert(b1 == 0 && b2 == 0 && b3 == 0);
        assert((x >> 0u64) & mr == x & m) by (bit_vector)
            requires
                qq == r,
                m == ((1u64 << qq) - 1) as u64,
                mr == ((1u64 << r) - 1) as u64,
        ;
    } else if f == 1 {
        assert(b0 == ((x >> 0u64) & 0xff) as int);
        assert(b1 == ((x >> 8u64) & mr) as int);
        assert(b2 == 0 && b3 == 0);
        assert(((x >> 0u64) & 0xff) + 256 * ((x >> 8u64) & mr) == x & m) by (bit_vector)
            requires
                qq == 8 + r,
                r < 8,
                m == ((1u64 << qq) - 1) as u64,
                mr == ((1u64 << r) - 1) as u64,
        ;
    } else if f == 2 {
        assert(b0 == ((x >> 0u64) & 0xff) as int);
        assert(b1 == ((x >> 8u64) & 0xff) as int);
        assert(b2 == ((x >> 16u64) & mr) as int);
        assert(b3 == 0);
        assert(((x >> 0u64) & 0xff) + 256 * ((x >> 8u64) & 0xff) + 65536 * ((x >> 16u64) & mr)
            == x & m) by (bit_vector)
            requires
                qq == 16 + r,
                r < 8,
                m == ((1u64 << qq) - 1) as u64,
                mr == ((1u64 << r) - 1) as u64,
        ;
    } else if f == 3 {
        assert(b0 == ((x >> 0u64) & 0xff) as int);
        assert(b1 == ((x >> 8u64) & 0xff) as int);
        assert(b2 == ((x >> 16u64) & 0xff) as int);
        assert(b3 == ((x >> 24u64) & mr) as int);
        assert(((x >> 0u64) & 0xff) + 256 * ((x >> 8u64) & 0xff) + 65536 * ((x >> 16u64) & 0xff)
            + 16777216 * ((x >> 24u64) & mr) == x & m) by (bit_vector)
            requires
                qq == 24 + r,
                r < 8,
                m == ((1u64 << qq) - 1) as u64,
                mr == ((1u64 << r) - 1) as u64,
        ;
    } else {
        assert(b0 == ((x >> 0u64) & 0xff) as int);
        assert(b1 == ((x >> 8u64) & 0xff) as int);
        assert(b2 == ((x >> 16u64) & 0xff) as int);
        assert(b3 == ((x >> 24u64) & 0xff) as int);
        assert(((x >> 0u64) & 0xff) + 256 * ((x >> 8u64) & 0xff) + 65536 * ((x >> 16u64) & 0xff)
            + 16777216 * ((x >> 24u64) & 0xff) == x & m) by (bit_vector)
            requires
                qq == 32,
                x < 0x1_0000_0000,
                m == ((1u64 << qq) - 1) as u64,
        ;
    }
}

/// Packing drops the bits of `v` above the width: reading the packed bytes back gives `v`
/// modulo `2^quantity`.
pub proof fn lemma_pack_truncates<Q: BitQuantity>(v: u32, w: Q)
    requires
        1 <= w.quantity() <= 32,
    ensures
        le_u32(unpacked_bytes(packed_groups(v, w.quantity()), w.quantity())) == v as nat % pow2(
            w.quantity(),
        ),
{
    lemma_pack_keeps_low_bits(v, w);
    lemma_low_mask_is_mod(v as u64, w.quantity());
}

/// A value that fits in the width comes back unchanged from packing.
pub proof fn lemma_round_trip<Q: BitQuantity>(v: u32, w: Q)
    requires
        1 <= w.quantity() <= 32,
        v < pow2(w.quantity()),
    ensures
        le_u32(unpacked_bytes(packed_groups(v, w.quantity()), w.quantity())) == v,
{
    lemma_pack_truncates(v, w);
    lemma_small_mod(v as nat, pow2(w.quantity()));
}

/// At the widths of one, two and four whole bytes, packing keeps the low byte, the low
/// half-word or the whole of `v`.
pub proof fn lemma_byte_aligned_widths<Q: BitQuantity>(v: u32, w: Q)
    requires
        w.quantity() == 8 || w.quantity() == 16 || w.quantity() == 32,
    ensures
        le_u32(unpacked_bytes(packed_groups(v, w.quantity()), w.quantity())) == if w.quantity()
            == 8 {
            v & 0xff
        } else if w.quantity() == 16 {
            v & 0xffff
        } else {
            v
        },
{
    lemma_pack_keeps_low_bits(v, w);
    let x = v as u64;
    let q: u64 = w.quantity() as u64;
    let m = low_mask(w.quantity());
    assert(m == ((1u64 << q) - 1) as u64);
    assert((q == 8 ==> x & m == (v & 0xff) as u64) && (q == 16 ==> x & m == (v & 0xffff) as u64)
        && (q == 32 ==> x & m == x)) by (bit_vector)
        requires
            x == v as u64,
            m == ((1u64 << q) - 1) as u64,
    ;
}

} // verus!
