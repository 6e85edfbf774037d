use vl53l0x::spad::filter_spad_map;

fn set_bits(map: &[u8]) -> u32 {
    let mut n = 0;
    for b in map {
        n += b.count_ones();
    }
    n
}

#[test]
fn spad_map_keeps_first_count_bits_from_offset_zero() {
    let mut map = vec![0xFFu8, 0xFF, 0xFF, 0xFF, 0xFF, 0xFF];
    filter_spad_map(&mut map, 5, 0);
    assert_eq!(map, vec![0x1F, 0x00, 0x00, 0x00, 0x00, 0x00]);
    assert_eq!(set_bits(&map), 5);
}

#[test]
fn spad_map_aperture_offset_clears_low_bits() {
    let mut map = vec![0xFFu8, 0xFF, 0xFF, 0xFF, 0xFF, 0xFF];
    filter_spad_map(&mut map, 4, 1);
    // the first aperture pixel is bit 12, so bits 12..16 stay
    assert_eq!(map, vec![0x00, 0xF0, 0x00, 0x00, 0x00, 0x00]);
    assert_eq!(set_bits(&map), 4);
}

#[test]
fn spad_map_caps_at_available_bits() {
    let mut map = vec![0x0Fu8, 0x00, 0x00, 0x00, 0x00, 0x00];
    filter_spad_map(&mut map, 10, 0);
    // only four eligible bits are set, so all four stay
    assert_eq!(map, vec![0x0F, 0x00, 0x00, 0x00, 0x00, 0x00]);
    assert_eq!(set_bits(&map), 4);
}

#[test]
fn spad_map_scans_bit_positions_in_order() {
    // set bits scattered over the map; only the first `count` eligible
    // ones, in bit order, survive
    let mut map = vec![0b1010_0000u8, 0b0000_0101, 0b1000_0000, 0x00, 0xFF, 0x00];
    filter_spad_map(&mut map, 3, 0);
    // eligible set bits in order: 5, 7, 8, 10, 23, 32..39; three stay
    assert_eq!(map, vec![0b1010_0000, 0b0000_0001, 0x00, 0x00, 0x00, 0x00]);
    assert_eq!(set_bits(&map), 3);
}

#[test]
fn spad_map_count_is_min_of_reported_and_available() {
    let mut map = vec![0xFFu8, 0xFF, 0x00, 0x00, 0x00, 0x00];
    filter_spad_map(&mut map, 40, 1);
    // eligible bits: 12..16, four of them; min(40, 4) stay
    assert_eq!(set_bits(&map), 4);
    assert_eq!(map[0], 0x00);
}

#[test]
fn spad_map_zero_count_clears_everything() {
    let mut map = vec![0xAAu8, 0x55, 0xFF, 0x00, 0x12, 0x34];
    filter_spad_map(&mut map, 0, 0);
    assert_eq!(map, vec![0x00; 6]);
}
