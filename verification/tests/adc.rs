use fsrpad::adc::{
    config_word, signed_reading, swap_bytes, unsigned_word, CONFIG_BASE, CONFIG_REGISTER,
    CONVERSION_REGISTER, MAX_CHANNELS,
};

#[test]
fn config_word_selects_each_input() {
    assert_eq!(config_word(0), 0x42E0);
    assert_eq!(config_word(1), 0x52E0);
    assert_eq!(config_word(2), 0x62E0);
    assert_eq!(config_word(3), 0x72E0);
}

#[test]
fn config_word_sets_only_the_multiplexer_field() {
    for channel in 0..MAX_CHANNELS {
        let word = config_word(channel);
        assert_eq!(word, 0b0_100_001_0_111_00000 | ((channel as u16) << 12));
        assert_eq!(word & 0x0FFF, CONFIG_BASE & 0x0FFF);
        assert_eq!((word >> 12) & 0b111, 0b100 + channel as u16);
        assert_eq!(word >> 15, 0);
    }
}

#[test]
fn registers_are_the_converters() {
    assert_eq!(CONFIG_REGISTER, 1);
    assert_eq!(CONVERSION_REGISTER, 0);
    assert_eq!(MAX_CHANNELS, 4);
}

#[test]
fn swap_bytes_exchanges_high_and_low() {
    assert_eq!(swap_bytes(0x1234), 0x3412);
    assert_eq!(swap_bytes(0x00FF), 0xFF00);
    assert_eq!(swap_bytes(0x42E0), 0xE042);
    assert_eq!(swap_bytes(0), 0);
    assert_eq!(swap_bytes(0xFFFF), 0xFFFF);
}

#[test]
fn swap_bytes_agrees_with_std_on_every_word() {
    for word in 0..=u16::MAX {
        assert_eq!(swap_bytes(word), word.swap_bytes());
        assert_eq!(swap_bytes(swap_bytes(word)), word);
    }
}

#[test]
fn signed_reading_is_twos_complement() {
    assert_eq!(signed_reading(0), 0);
    assert_eq!(signed_reading(0x7FFF), i16::MAX);
    assert_eq!(signed_reading(0x8000), i16::MIN);
    assert_eq!(signed_reading(0xFFFF), -1);
    assert_eq!(signed_reading(0xFC18), -1000);
}

#[test]
fn signed_and_unsigned_agree_with_casts_on_every_word() {
    for word in 0..=u16::MAX {
        let value = signed_reading(word);
        assert_eq!(value, word as i16);
        assert_eq!(unsigned_word(value), word);
    }
}

#[test]
fn unsigned_word_of_negative_reading() {
    assert_eq!(unsigned_word(-1), 0xFFFF);
    assert_eq!(unsigned_word(i16::MIN), 0x8000);
    assert_eq!(unsigned_word(1000), 1000);
}
