use vaf::bit_quantity::{
    BitQ1, BitQ12, BitQ16, BitQ24, BitQ3, BitQ7, BitQ8, BitQDyn, BitQuantity,
};
use vaf::bit_size::BitSize;

#[test]
fn three_bit_value_is_left_aligned_in_one_group() {
    let mut packed = BitSize::new(0b101, BitQ3);
    assert_eq!(packed.0.len(), 1);
    assert_eq!(packed.0[0].data(), 0b1010_0000);
    assert_eq!(packed.to_bytes(), vec![0b0000_0101]);
    assert_eq!(packed.to_u32(), 5);
    assert_eq!(packed.to_byte(), 5);
}

#[test]
fn twelve_bit_value_keeps_a_whole_byte_then_a_partial_one() {
    let mut packed = BitSize::new(0xABC, BitQ12);
    assert_eq!(packed.0.len(), 2);
    assert_eq!(packed.0[0].data(), 0xBC);
    assert_eq!(packed.0[1].data(), 0xA0);
    assert_eq!(packed.to_bytes(), vec![0xBC, 0x0A]);
    assert_eq!(packed.to_byte(), 0xBC);
    assert_eq!(packed.to_u32(), 0xABC);
}

#[test]
fn round_trip_at_every_dynamic_width() {
    for w in 1..=24usize {
        let width = BitQDyn::get_from_quantity(w).unwrap();
        let top: u32 = (1u32 << w) - 1;
        for v in [0u32, 1, top / 3, top / 2, top - 1, top] {
            let packed = BitSize::new(v, width.clone());
            assert_eq!(packed.to_u32(), v, "width {} value {}", w, v);
        }
    }
}

#[test]
fn round_trip_at_full_word_width() {
    for v in [0u32, 1, 0x8000_0000, 0xDEAD_BEEF, u32::MAX] {
        assert_eq!(BitSize::new(v, 0u32).to_u32(), v);
    }
}

#[test]
fn byte_count_is_the_started_bytes_of_the_width() {
    for w in 1..=24usize {
        let width = BitQDyn::get_from_quantity(w).unwrap();
        let mut packed = BitSize::new(0xFFFF_FFFF, width);
        assert_eq!(packed.to_bytes().len(), (w + 7) / 8, "width {}", w);
        assert_eq!(packed.0.len(), (w + 7) / 8);
    }
    assert_eq!(BitSize::new(7, 0u8).to_bytes().len(), 1);
    assert_eq!(BitSize::new(7, 0u16).to_bytes().len(), 2);
    assert_eq!(BitSize::new(7, 0u32).to_bytes().len(), 4);
}

#[test]
fn native_widths_mask_the_value() {
    let v: u32 = 0x1234_5678;
    assert_eq!(BitSize::new(v, 0u8).to_u32(), 0x78);
    assert_eq!(BitSize::new(v, 0u16).to_u32(), 0x5678);
    assert_eq!(BitSize::new(v, 0u32).to_u32(), 0x1234_5678);
    assert_eq!(BitSize::new(v, 0u16).to_bytes(), vec![0x78, 0x56]);
    assert_eq!(BitSize::new(v, 0u32).to_bytes(), vec![0x78, 0x56, 0x34, 0x12]);
}

#[test]
fn bits_above_the_width_are_dropped() {
    assert_eq!(BitSize::new(0b1111_1101, BitQ3).to_u32(), 5);
    assert_eq!(BitSize::new(0x1FF, BitQ8).to_u32(), 0xFF);
    assert_eq!(BitSize::new(0x12345, BitQ12).to_u32(), 0x345);
    assert_eq!(BitSize::new(0xFFFF_FFFF, BitQ24).to_u32(), 0xFF_FFFF);
    assert_eq!(BitSize::new(2, BitQ1).to_u32(), 0);
    assert_eq!(BitSize::new(0x1_2345, BitQ16).to_u32(), 0x2345);
}

#[test]
fn dynamic_width_exists_only_from_one_to_twenty_four() {
    assert!(BitQDyn::get_from_quantity(0).is_none());
    assert!(BitQDyn::get_from_quantity(25).is_none());
    assert!(BitQDyn::get_from_quantity(32).is_none());
    let thirteen = BitQDyn::get_from_quantity(13).unwrap();
    assert_eq!(thirteen.get_bit_quantity(), 13);
    for w in 1..=24usize {
        assert_eq!(BitQDyn::get_from_quantity(w).unwrap().get_bit_quantity(), w);
    }
}

#[test]
fn dynamic_width_from_another_width() {
    assert_eq!(BitQDyn::get_from_trait(BitQ7).unwrap().get_bit_quantity(), 7);
    assert_eq!(BitQDyn::get_from_trait(0u8).unwrap().get_bit_quantity(), 8);
    assert_eq!(BitQDyn::get_from_trait(0u16).unwrap().get_bit_quantity(), 16);
    assert!(BitQDyn::get_from_trait(0u32).is_none());
}

#[test]
fn widths_report_their_bit_counts() {
    assert_eq!(BitQ1.get_bit_quantity(), 1);
    assert_eq!(BitQ24.get_bit_quantity(), 24);
    assert_eq!(0u8.get_bit_quantity(), 8);
    assert_eq!(0u16.get_bit_quantity(), 16);
    assert_eq!(0u32.get_bit_quantity(), 32);
    assert_eq!(BitSize::new(3, BitQ12).get_bit_quantity(), 12);
}

#[test]
fn first_byte_of_a_packed_value() {
    assert_eq!(BitSize::new(0x1234, BitQ16).to_byte(), 0x34);
    assert_eq!(BitSize::new(0x7F, BitQ7).to_byte(), 0x7F);
    assert_eq!(BitSize::new(0xAB_CDEF, 0u32).to_byte(), 0xEF);
}

#[test]
fn extraction_leaves_the_value_unchanged() {
    let mut packed = BitSize::new(0x5A5, BitQ12);
    let first = packed.to_bytes();
    let second = packed.to_bytes();
    assert_eq!(first, second);
    assert_eq!(packed.0[1].data(), 0x50);
    assert_eq!(packed.to_u32(), 0x5A5);
}
