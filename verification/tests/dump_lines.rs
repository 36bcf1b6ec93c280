use modbus_rtu::dump::{
    addresses_in_range, bit_dump, item_address, printable, text_of, word_dump, BitLine, WordLine,
};

#[test]
fn item_address_counts_from_the_start() {
    assert_eq!(item_address(0, 0), 0);
    assert_eq!(item_address(100, 7), 107);
    assert_eq!(item_address(65535, 0), 65535);
    assert_eq!(item_address(65000, 535), 65535);
}

#[test]
fn visible_bytes_print_as_themselves() {
    assert_eq!(printable(b'A'), 'A');
    assert_eq!(printable(b' '), ' ');
    assert_eq!(printable(b'~'), '~');
    assert_eq!(printable(32), ' ');
    assert_eq!(printable(126), '~');
}

#[test]
fn other_bytes_print_as_a_dot() {
    assert_eq!(printable(0), '.');
    assert_eq!(printable(31), '.');
    assert_eq!(printable(127), '.');
    assert_eq!(printable(255), '.');
}

#[test]
fn text_of_registers_is_high_byte_then_low_byte() {
    assert_eq!(text_of(&[0x4869, 0x2100, 0x007E]), vec!['H', 'i', '!', '.', '.', '~']);
    assert_eq!(text_of(&[]), Vec::<char>::new());
}

#[test]
fn no_bits_give_no_lines() {
    assert_eq!(bit_dump(&[], 0), Vec::<BitLine>::new());
    assert_eq!(bit_dump(&[], 65535), Vec::<BitLine>::new());
    assert_eq!(word_dump(&[], 65535), Vec::<WordLine>::new());
}

#[test]
fn three_bits_give_one_short_line() {
    assert_eq!(
        bit_dump(&[true, false, true], 0),
        vec![BitLine { address: 0, bits: vec![true, false, true], byte: 0x05 }]
    );
}

#[test]
fn ten_bits_give_two_lines() {
    let bits = [true, false, true, true, false, false, true, true, false, true];
    assert_eq!(
        bit_dump(&bits, 19),
        vec![
            BitLine {
                address: 19,
                bits: vec![true, false, true, true, false, false, true, true],
                byte: 0xCD
            },
            BitLine { address: 27, bits: vec![false, true], byte: 0x02 },
        ]
    );
}

#[test]
fn sixteen_bits_give_two_full_lines() {
    let lines = bit_dump(&[true; 16], 65520);
    assert_eq!(lines.len(), 2);
    assert_eq!(lines[0], BitLine { address: 65520, bits: vec![true; 8], byte: 0xFF });
    assert_eq!(lines[1], BitLine { address: 65528, bits: vec![true; 8], byte: 0xFF });
}

#[test]
fn two_thousand_bits_give_250_lines() {
    let bits: Vec<bool> = (0..2000).map(|i| i % 2 == 0).collect();
    let lines = bit_dump(&bits, 63536);
    assert_eq!(lines.len(), 250);
    for (j, line) in lines.iter().enumerate() {
        assert_eq!(line.address as usize, 63536 + 8 * j);
        assert_eq!(line.bits.len(), 8);
        assert_eq!(line.byte, 0x55);
    }
    assert_eq!(lines[249].address, 65528);
}

#[test]
fn two_registers_give_one_line() {
    assert_eq!(
        word_dump(&[10, 20], 0),
        vec![WordLine { address: 0, words: vec![10, 20], text: vec!['.', '.', '.', '.'] }]
    );
}

#[test]
fn nine_registers_give_two_lines() {
    let words = [0x4D6F, 0x6462, 0x7573, 0x2052, 0x5455, 0x0000, 0xFFFF, 0x7F20, 0x4F4B];
    let lines = word_dump(&words, 1000);
    assert_eq!(
        lines,
        vec![
            WordLine {
                address: 1000,
                words: words[..8].to_vec(),
                text: "Modbus RTU..... ".chars().collect(),
            },
            WordLine { address: 1008, words: vec![0x4F4B], text: vec!['O', 'K'] },
        ]
    );
}

#[test]
fn one_hundred_twenty_five_registers_give_sixteen_lines() {
    let words: Vec<u16> = (0..125).collect();
    let lines = word_dump(&words, 65411);
    assert_eq!(lines.len(), 16);
    assert_eq!(lines[15].address, 65531);
    assert_eq!(lines[15].words, vec![120, 121, 122, 123, 124]);
    assert_eq!(lines[15].text.len(), 10);
    assert_eq!(lines[4].text[1], ' ');
    assert_eq!(lines[4].words[0], 32);
}

#[test]
fn addresses_fit_up_to_65535() {
    assert!(addresses_in_range(0, 0));
    assert!(addresses_in_range(0, 65535));
    assert!(addresses_in_range(1, 65535));
    assert!(!addresses_in_range(2, 65535));
    assert!(addresses_in_range(65536, 0));
    assert!(!addresses_in_range(65537, 0));
    assert!(addresses_in_range(2000, 63536));
    assert!(!addresses_in_range(2000, 63537));
}
