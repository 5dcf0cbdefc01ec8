use chip8_emulator::nibble::{Nibble, NibblePair, parse_hex_digit};

#[test]
fn split_word_all_bytes() {
    for full_byte in 0u8..=u8::MAX {
        let observed = NibblePair::from_byte(full_byte);
        let full_byte_as_str = format!("{:08b}", full_byte);

        let expected_high_word = &full_byte_as_str[0..4];
        let expected_low_word = &full_byte_as_str[4..8];

        assert_eq!(expected_high_word, observed.high.to_bit_string());
        assert_eq!(expected_low_word, observed.low.to_bit_string());

        let back_as_byte: u8 = observed.to_byte();
        assert_eq!(back_as_byte, full_byte);
    }
}

#[test]
fn nibble_values_and_hex_chars() {
    let hex_chars = [
        '0', '1', '2', '3', '4', '5', '6', '7', '8', '9', 'A', 'B', 'C', 'D', 'E', 'F',
    ];
    for value in 0u8..16 {
        let nibble = Nibble::from_value(value);
        assert_eq!(nibble.to_u8(), value);
        assert_eq!(nibble.to_hex_char(), hex_chars[value as usize]);
        assert_eq!(Nibble::from_hex_char(hex_chars[value as usize]), nibble);
    }
}

#[test]
fn parse_hex_digit_both_cases() {
    assert_eq!(parse_hex_digit('0'), Some(0));
    assert_eq!(parse_hex_digit('9'), Some(9));
    assert_eq!(parse_hex_digit('a'), Some(10));
    assert_eq!(parse_hex_digit('A'), Some(10));
    assert_eq!(parse_hex_digit('f'), Some(15));
    assert_eq!(parse_hex_digit('F'), Some(15));
    assert_eq!(parse_hex_digit('g'), None);
    assert_eq!(parse_hex_digit(' '), None);
}

#[test]
fn nibble_pair_known_bytes() {
    let pair = NibblePair::from_byte(0xAB);
    assert_eq!(pair.high, Nibble::B1010);
    assert_eq!(pair.low, Nibble::B1011);
    assert_eq!(pair.high.to_bit_string(), "1010");
    assert_eq!(pair.low.to_bit_string(), "1011");
    assert_eq!(pair.to_byte(), 0xAB);
}
