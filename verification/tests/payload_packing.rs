use modbus_rtu::payload::{pack_bits, pack_byte, pack_words, unpack_bits, unpack_words};

#[test]
fn bits_pack_lowest_first() {
    assert_eq!(pack_bits(&[true, false, true]), vec![0x05]);
    assert_eq!(pack_bits(&[false; 8]), vec![0x00]);
    assert_eq!(pack_bits(&[true; 8]), vec![0xFF]);
    assert_eq!(
        pack_bits(&[true, false, true, true, false, false, true, true, false, true]),
        vec![0xCD, 0x02]
    );
}

#[test]
fn no_bits_pack_to_no_bytes() {
    assert_eq!(pack_bits(&[]), Vec::<u8>::new());
    assert_eq!(unpack_bits(&[], 0), Vec::<bool>::new());
    assert_eq!(pack_words(&[]), Vec::<u8>::new());
    assert_eq!(unpack_words(&[], 0), Vec::<u16>::new());
}

#[test]
fn packed_length_is_the_quantity_over_eight_rounded_up() {
    for quantity in 0..=2000usize {
        let bits = vec![true; quantity];
        assert_eq!(pack_bits(&bits).len(), (quantity + 7) / 8);
    }
}

#[test]
fn each_single_bit_lands_in_its_place() {
    for at in 0..24usize {
        let mut bits = vec![false; 24];
        bits[at] = true;
        let mut expected = vec![0u8; 3];
        expected[at / 8] = 1 << (at % 8);
        assert_eq!(pack_bits(&bits), expected);
        assert_eq!(unpack_bits(&expected, 24), bits);
    }
}

#[test]
fn pack_byte_takes_up_to_eight_bits_from_an_offset() {
    let bits = [true, true, false, false, true, false, true, false, true, true, true];
    assert_eq!(pack_byte(&bits, 0), 0b0101_0011);
    assert_eq!(pack_byte(&bits, 8), 0b0000_0111);
    assert_eq!(pack_byte(&bits, 3), 0b1110_1010);
    assert_eq!(pack_byte(&bits, 10), 0b0000_0001);
    assert_eq!(pack_byte(&bits, 11), 0);
}

#[test]
fn unpacking_reads_only_the_bits_asked_for() {
    assert_eq!(unpack_bits(&[0x05], 3), vec![true, false, true]);
    assert_eq!(unpack_bits(&[0xFD], 3), vec![true, false, true]);
    assert_eq!(unpack_bits(&[0xFF, 0x01], 9), vec![true; 9]);
    assert_eq!(unpack_bits(&[0xFF, 0xFE], 9), {
        let mut bits = vec![true; 8];
        bits.push(false);
        bits
    });
}

#[test]
fn bits_survive_packing_and_unpacking() {
    for quantity in [1usize, 7, 8, 9, 63, 64, 65, 1000, 2000] {
        let bits: Vec<bool> = (0..quantity).map(|i| i % 5 == 1 || i % 11 == 0).collect();
        assert_eq!(unpack_bits(&pack_bits(&bits), quantity), bits);
    }
}

#[test]
fn words_are_laid_out_high_byte_first() {
    assert_eq!(pack_words(&[10, 20]), vec![0x00, 0x0A, 0x00, 0x14]);
    assert_eq!(pack_words(&[0x1234, 0xFF00, 0x00FF]), vec![0x12, 0x34, 0xFF, 0x00, 0x00, 0xFF]);
    assert_eq!(unpack_words(&[0x12, 0x34, 0xFF, 0x00, 0x00, 0xFF], 3), vec![0x1234, 0xFF00, 0x00FF]);
    assert_eq!(unpack_words(&[0x12, 0x34, 0xFF, 0x00], 1), vec![0x1234]);
}

#[test]
fn words_survive_packing_and_unpacking() {
    let words: Vec<u16> = (0..=65535u32).step_by(257).map(|w| w as u16).collect();
    let packed = pack_words(&words);
    assert_eq!(packed.len(), 2 * words.len());
    assert_eq!(unpack_words(&packed, words.len()), words);
}
