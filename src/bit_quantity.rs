//! Bit widths: the capability of reporting how many bits a packed field occupies.
use vstd::prelude::*;

verus! {

broadcast use vstd::layout::layout_of_primitives;

/// A value or type that knows its own bit width.
pub trait BitQuantity: core::fmt::Debug + Clone {
    /// The width, in bits.
    spec fn quantity(&self) -> nat;

    /// Reports the width, which lies between 1 and 32 bits.
    fn get_bit_quantity(&self) -> (r: usize)
        ensures
            r as nat == self.quantity(),
            1 <= r <= 32,
    ;
}

/// The fixed width of 1 bit.
#[derive(Debug, Clone, Copy)]
pub struct BitQ1;

impl BitQuantity for BitQ1 {
    open spec fn quantity(&self) -> nat {
        1
    }

    fn get_bit_quantity(&self) -> (r: usize) {
        let value: usize = 1;
        value
    }
}

/// The fixed width of 2 bits.
#[derive(Debug, Clone, Copy)]
pub struct BitQ2;

impl BitQuantity for BitQ2 {
    open spec fn quantity(&self) -> nat {
        2
    }

    fn get_bit_quantity(&self) -> (r: usize) {
        let value: usize = 2;
        value
    }
}

/// The fixed width of 3 bits.
#[derive(Debug, Clone, Copy)]
pub struct BitQ3;

impl BitQuantity for BitQ3 {
    open spec fn quantity(&self) -> nat {
        3
    }

    fn get_bit_quantity(&self) -> (r: usize) {
        let value: usize = 3;
        value
    }
}

/// The fixed width of 4 bits.
#[derive(Debug, Clone, Copy)]
pub struct BitQ4;

impl BitQuantity for BitQ4 {
    open spec fn quantity(&self) -> nat {
        4
    }

    fn get_bit_quantity(&self) -> (r: usize) {
        let value: usize = 4;
        value
    }
}

/// The fixed width of 5 bits.
#[derive(Debug, Clone, Copy)]
pub struct BitQ5;

impl BitQuantity for BitQ5 {
    open spec fn quantity(&self) -> nat {
        5
    }

    fn get_bit_quantity(&self) -> (r: usize) {
        let value: usize = 5;
        value
    }
}

/// The fixed width of 6 bits.
#[derive(Debug, Clone, Copy)]
pub struct BitQ6;

impl BitQuantity for BitQ6 {
    open spec fn quantity(&self) -> nat {
        6
    }

    fn get_bit_quantity(&self) -> (r: usize) {
        let value: usize = 6;
        value
    }
}

/// The fixed width of 7 bits.
#[derive(Debug, Clone, Copy)]
pub struct BitQ7;

impl BitQuantity for BitQ7 {
    open spec fn quantity(&self) -> nat {
        7
    }

    fn get_bit_quantity(&self) -> (r: usize) {
        let value: usize = 7;
        value
    }
}

/// The fixed width of 8 bits.
#[derive(Debug, Clone, Copy)]
pub struct BitQ8;

impl BitQuantity for BitQ8 {
    open spec fn quantity(&self) -> nat {
        8
    }

    fn get_bit_quantity(&self) -> (r: usize) {
        let value: usize = 8;
        value
    }
}

/// The fixed width of 9 bits.
#[derive(Debug, Clone, Copy)]
pub struct BitQ9;

impl BitQuantity for BitQ9 {
    open spec fn quantity(&self) -> nat {
        9
    }

    fn get_bit_quantity(&self) -> (r: usize) {
        let value: usize = 9;
        value
    }
}

/// The fixed width of 10 bits.
#[derive(Debug, Clone, Copy)]
pub struct BitQ10;

impl BitQuantity for BitQ10 {
    open spec fn quantity(&self) -> nat {
        10
    }

    fn get_bit_quantity(&self) -> (r: usize) {
        let value: usize = 10;
        value
    }
}

/// The fixed width of 11 bits.
#[derive(Debug, Clone, Copy)]
pub struct BitQ11;

impl BitQuantity for BitQ11 {
    open spec fn quantity(&self) -> nat {
        11
    }

    fn get_bit_quantity(&self) -> (r: usize) {
        let value: usize = 11;
        value
    }
}

/// The fixed width of 12 bits.
#[derive(Debug, Clone, Copy)]
pub struct BitQ12;

impl BitQuantity for BitQ12 {
    open spec fn quantity(&self) -> nat {
        12
    }

    fn get_bit_quantity(&self) -> (r: usize) {
        let value: usize = 12;
        value
    }
}

/// The fixed width of 13 bits.
#[derive(Debug, Clone, Copy)]
pub struct BitQ13;

impl BitQuantity for BitQ13 {
    open spec fn quantity(&self) -> nat {
        13
    }

    fn get_bit_quantity(&self) -> (r: usize) {
        let value: usize = 13;
        value
    }
}

/// The fixed width of 14 bits.
#[derive(Debug, Clone, Copy)]
pub struct BitQ14;

impl BitQuantity for BitQ14 {
    open spec fn quantity(&self) -> nat {
        14
    }

    fn get_bit_quantity(&self) -> (r: usize) {
        let value: usize = 14;
        value
    }
}

/// The fixed width of 15 bits.
#[derive(Debug, Clone, Copy)]
pub struct BitQ15;

impl BitQuantity for BitQ15 {
    open spec fn quantity(&self) -> nat {
        15
    }

    fn get_bit_quantity(&self) -> (r: usize) {
        let value: usize = 15;
        value
    }
}

/// The fixed width of 16 bits.
#[derive(Debug, Clone, Copy)]
pub struct BitQ16;

impl BitQuantity for BitQ16 {
    open spec fn quantity(&self) -> nat {
        16
    }

    fn get_bit_quantity(&self) -> (r: usize) {
        let value: usize = 16;
        value
    }
}

/// The fixed width of 17 bits.
#[derive(Debug, Clone, Copy)]
pub struct BitQ17;

impl BitQuantity for BitQ17 {
    open spec fn quantity(&self) -> nat {
        17
    }

    fn get_bit_quantity(&self) -> (r: usize) {
        let value: usize = 17;
        value
    }
}

/// The fixed width of 18 bits.
#[derive(Debug, Clone, Copy)]
pub struct BitQ18;

impl BitQuantity for BitQ18 {
    open spec fn quantity(&self) -> nat {
        18
    }

    fn get_bit_quantity(&self) -> (r: usize) {
        let value: usize = 18;
        value
    }
}

/// The fixed width of 19 bits.
#[derive(Debug, Clone, Copy)]
pub struct BitQ19;

impl BitQuantity for BitQ19 {
    open spec fn quantity(&self) -> nat {
        19
    }

    fn get_bit_quantity(&self) -> (r: usize) {
        let value: usize = 19;
        value
    }
}

/// The fixed width of 20 bits.
#[derive(Debug, Clone, Copy)]
pub struct BitQ20;

impl BitQuantity for BitQ20 {
    open spec fn quantity(&self) -> nat {
        20
    }

    fn get_bit_quantity(&self) -> (r: usize) {
        let value: usize = 20;
        value
    }
}

/// The fixed width of 21 bits.
#[derive(Debug, Clone, Copy)]
pub struct BitQ21;

impl BitQuantity for BitQ21 {
    open spec fn quantity(&self) -> nat {
        21
    }

    fn get_bit_quantity(&self) -> (r: usize) {
        let value: usize = 21;
        value
    }
}

/// The fixed width of 22 bits.
#[derive(Debug, Clone, Copy)]
pub struct BitQ22;

impl BitQuantity for BitQ22 {
    open spec fn quantity(&self) -> nat {
        22
    }

    fn get_bit_quantity(&self) -> (r: usize) {
        let value: usize = 22;
        value
    }
}

/// The fixed width of 23 bits.
#[derive(Debug, Clone, Copy)]
pub struct BitQ23;

impl BitQuantity for BitQ23 {
    open spec fn quantity(&self) -> nat {
        23
    }

    fn get_bit_quantity(&self) -> (r: usize) {
        let value: usize = 23;
        value
    }
}

/// The fixed width of 24 bits.
#[derive(Debug, Clone, Copy)]
pub struct BitQ24;

impl BitQuantity for BitQ24 {
    open spec fn quantity(&self) -> nat {
        24
    }

    fn get_bit_quantity(&self) -> (r: usize) {
        let value: usize = 24;
        value
    }
}

/// A width chosen at run time among the fixed widths of 1 to 24 bits.
#[derive(Debug, Clone, Copy)]
pub enum BitQDyn {
    BitQ1,
    BitQ2,
    BitQ3,
    BitQ4,
    BitQ5,
    BitQ6,
    BitQ7,
    BitQ8,
    BitQ9,
    BitQ10,
    BitQ11,
    BitQ12,
    BitQ13,
    BitQ14,
    BitQ15,
    BitQ16,
    BitQ17,
    BitQ18,
    BitQ19,
    BitQ20,
    BitQ21,
    BitQ22,
    BitQ23,
    BitQ24,
}

impl BitQDyn {
    /// The width of `quantity` bits, when it is one of the fixed widths.
    pub fn get_from_quantity(quantity: usize) -> (r: Option<Self>)
        ensures
            r is Some <==> 1 <= quantity <= 24,
            r matches Some(d) ==> d.quantity() == quantity,
    {
        match quantity {
            1 => Some(Self::BitQ1),
            2 => Some(Self::BitQ2),
            3 => Some(Self::BitQ3),
            4 => Some(Self::BitQ4),
            5 => Some(Self::BitQ5),
            6 => Some(Self::BitQ6),
            7 => Some(Self::BitQ7),
            8 => Some(Self::BitQ8),
            9 => Some(Self::BitQ9),
            10 => Some(Self::BitQ10),
            11 => Some(Self::BitQ11),
            12 => Some(Self::BitQ12),
            13 => Some(Self::BitQ13),
            14 => Some(Self::BitQ14),
            15 => Some(Self::BitQ15),
            16 => Some(Self::BitQ16),
            17 => Some(Self::BitQ17),
            18 => Some(Self::BitQ18),
            19 => Some(Self::BitQ19),
            20 => Some(Self::BitQ20),
            21 => Some(Self::BitQ21),
            22 => Some(Self::BitQ22),
            23 => Some(Self::BitQ23),
            24 => Some(Self::BitQ24),
            _ => None,
        }
    }

    /// The run-time form of the width that `quantity` reports, when it is one of the fixed
    /// widths.
    pub fn get_from_trait<T: BitQuantity>(quantity: T) -> (r: Option<Self>)
        ensures
            r is Some <==> quantity.quantity() <= 24,
            r matches Some(d) ==> d.quantity() == quantity.quantity(),
    {
        Self::get_from_quantity(quantity.get_bit_quantity())
    }
}

impl BitQuantity for BitQDyn {
    open spec fn quantity(&self) -> nat {
        match self {
            Self::BitQ1 => 1,
            Self::BitQ2 => 2,
            Self::BitQ3 => 3,
            Self::BitQ4 => 4,
            Self::BitQ5 => 5,
            Self::BitQ6 => 6,
            Self::BitQ7 => 7,
            Self::BitQ8 => 8,
            Self::BitQ9 => 9,
            Self::BitQ10 => 10,
            Self::BitQ11 => 11,
            Self::BitQ12 => 12,
            Self::BitQ13 => 13,
            Self::BitQ14 => 14,
            Self::BitQ15 => 15,
            Self::BitQ16 => 16,
            Self::BitQ17 => 17,
            Self::BitQ18 => 18,
            Self::BitQ19 => 19,
            Self::BitQ20 => 20,
            Self::BitQ21 => 21,
            Self::BitQ22 => 22,
            Self::BitQ23 => 23,
            Self::BitQ24 => 24,
        }
    }

    fn get_bit_quantity(&self) -> (r: usize) {
        match self {
            Self::BitQ1 => 1,
            Self::BitQ2 => 2,
            Self::BitQ3 => 3,
            Self::BitQ4 => 4,
            Self::BitQ5 => 5,
            Self::BitQ6 => 6,
            Self::BitQ7 => 7,
            Self::BitQ8 => 8,
            Self::BitQ9 => 9,
            Self::BitQ10 => 10,
            Self::BitQ11 => 11,
            Self::BitQ12 => 12,
            Self::BitQ13 => 13,
            Self::BitQ14 => 14,
            Self::BitQ15 => 15,
            Self::BitQ16 => 16,
            Self::BitQ17 => 17,
            Self::BitQ18 => 18,
            Self::BitQ19 => 19,
            Self::BitQ20 => 20,
            Self::BitQ21 => 21,
            Self::BitQ22 => 22,
            Self::BitQ23 => 23,
            Self::BitQ24 => 24,
        }
    }
}

impl BitQuantity for u8 {
    open spec fn quantity(&self) -> nat {
        8
    }

    fn get_bit_quantity(&self) -> (r: usize) {
        core::mem::size_of::<u8>() * 8
    }
}

impl BitQuantity for u16 {
    open spec fn quantity(&self) -> nat {
        16
    }

    fn get_bit_quantity(&self) -> (r: usize) {
        core::mem::size_of::<u16>() * 8
    }
}

impl BitQuantity for u32 {
    open spec fn quantity(&self) -> nat {
        32
    }

    fn get_bit_quantity(&self) -> (r: usize) {
        core::mem::size_of::<u32>() * 8
    }
}

} // verus!
