pub mod bit_group;
pub mod bit_quantity;
pub mod bit_size;
