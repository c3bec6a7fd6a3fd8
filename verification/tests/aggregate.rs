use fsrpad::aggregate::{
    byte_to_states, states_to_byte, AggregateState, WireMode, MASK_BITS, RAW_TAG,
};

#[test]
fn four_channels_pack_into_the_low_bits() {
    assert_eq!(states_to_byte(&vec![true, false, true, false]), 0b0000_0101);
}

#[test]
fn pack_puts_channel_zero_in_the_least_significant_bit() {
    assert_eq!(states_to_byte(&vec![]), 0);
    assert_eq!(states_to_byte(&vec![false]), 0);
    assert_eq!(states_to_byte(&vec![true]), 1);
    assert_eq!(states_to_byte(&vec![false, true]), 2);
    assert_eq!(states_to_byte(&vec![false, false, false, true]), 8);
    assert_eq!(states_to_byte(&vec![true; 4]), 0x0F);
    assert_eq!(states_to_byte(&vec![true; 8]), 0xFF);
    assert_eq!(states_to_byte(&vec![false, false, false, false, false, false, false, true]), 0x80);
}

#[test]
fn unpack_reads_the_low_bits() {
    assert_eq!(byte_to_states(0b0000_0101, 4), vec![true, false, true, false]);
    assert_eq!(byte_to_states(0xFF, 0), Vec::<bool>::new());
    assert_eq!(byte_to_states(0xF0, 4), vec![false; 4]);
    assert_eq!(byte_to_states(0x80, 8), vec![
        false, false, false, false, false, false, false, true
    ]);
}

#[test]
fn every_byte_round_trips_through_eight_states() {
    assert_eq!(MASK_BITS, 8);
    for byte in 0..=u8::MAX {
        let states = byte_to_states(byte, MASK_BITS);
        assert_eq!(states.len(), 8);
        for (i, state) in states.iter().enumerate() {
            assert_eq!(*state, byte & (1 << i) != 0);
        }
        assert_eq!(states_to_byte(&states), byte);
    }
}

#[test]
fn every_state_list_round_trips() {
    for count in 0..=MASK_BITS {
        for pattern in 0u32..(1 << count) {
            let states: Vec<bool> = (0..count).map(|i| pattern & (1 << i) != 0).collect();
            let byte = states_to_byte(&states);
            assert_eq!(byte as u32, pattern);
            assert_eq!(byte_to_states(byte, count), states);
        }
    }
}

#[test]
fn bitmask_reply_is_one_byte() {
    let state = AggregateState::Bitmask(states_to_byte(&vec![true, false, true, false]));
    assert_eq!(state.encode(), vec![0b0000_0101]);
    assert_eq!(state.mode(), WireMode::Bitmask);
    assert_eq!(WireMode::Bitmask.reply_len(), 1);
}

#[test]
fn raw_reply_is_two_bytes_big_endian() {
    assert_eq!(AggregateState::Raw(0x1234).encode(), vec![0x12, 0x34]);
    assert_eq!(AggregateState::Raw(1).encode(), vec![0x00, 0x01]);
    assert_eq!(AggregateState::Raw(-2).encode(), vec![0xFF, 0xFE]);
    assert_eq!(AggregateState::Raw(i16::MIN).encode(), vec![0x80, 0x00]);
    assert_eq!(AggregateState::Raw(i16::MAX).encode(), vec![0x7F, 0xFF]);
    assert_eq!(AggregateState::Raw(0).mode(), WireMode::Raw);
    assert_eq!(WireMode::Raw.reply_len(), 2);
}

#[test]
fn raw_encoding_agrees_with_std_on_every_reading() {
    for reading in i16::MIN..=i16::MAX {
        let state = AggregateState::Raw(reading);
        let bytes = state.encode();
        assert_eq!(bytes, reading.to_be_bytes().to_vec());
        assert_eq!(AggregateState::decode(WireMode::Raw, &bytes), Some(state));
    }
}

#[test]
fn bitmask_decodes_from_every_byte() {
    for mask in 0..=u8::MAX {
        let state = AggregateState::Bitmask(mask);
        assert_eq!(AggregateState::decode(WireMode::Bitmask, &state.encode()), Some(state));
        assert_eq!(AggregateState::decode(WireMode::Bitmask, &[mask]), Some(state));
    }
}

#[test]
fn decode_reads_most_significant_byte_first() {
    assert_eq!(
        AggregateState::decode(WireMode::Raw, &[0x12, 0x34]),
        Some(AggregateState::Raw(0x1234))
    );
    assert_eq!(
        AggregateState::decode(WireMode::Raw, &[0xFC, 0x18]),
        Some(AggregateState::Raw(-1000))
    );
}

#[test]
fn decode_turns_down_a_wrong_length() {
    assert_eq!(AggregateState::decode(WireMode::Bitmask, &[]), None);
    assert_eq!(AggregateState::decode(WireMode::Bitmask, &[1, 2]), None);
    assert_eq!(AggregateState::decode(WireMode::Raw, &[]), None);
    assert_eq!(AggregateState::decode(WireMode::Raw, &[1]), None);
    assert_eq!(AggregateState::decode(WireMode::Raw, &[1, 2, 3]), None);
}

#[test]
fn initial_snapshot_is_zero() {
    assert_eq!(AggregateState::initial(WireMode::Bitmask), AggregateState::Bitmask(0));
    assert_eq!(AggregateState::initial(WireMode::Raw), AggregateState::Raw(0));
}

#[test]
fn word_holds_payload_and_tag() {
    assert_eq!(RAW_TAG, 0x1_0000);
    assert_eq!(AggregateState::Bitmask(0b0101).to_word(), 5);
    assert_eq!(AggregateState::Bitmask(0xFF).to_word(), 0xFF);
    assert_eq!(AggregateState::Raw(0).to_word(), 0x1_0000);
    assert_eq!(AggregateState::Raw(-2).to_word(), 0x1_FFFE);
    assert_eq!(AggregateState::Raw(0x1234).to_word(), 0x1_1234);
}

#[test]
fn every_snapshot_round_trips_through_its_word() {
    for mask in 0..=u8::MAX {
        let state = AggregateState::Bitmask(mask);
        assert_eq!(AggregateState::from_word(state.to_word()), state);
    }
    for reading in i16::MIN..=i16::MAX {
        let state = AggregateState::Raw(reading);
        assert_eq!(AggregateState::from_word(state.to_word()), state);
    }
}

#[test]
fn every_word_holds_a_snapshot() {
    assert_eq!(AggregateState::from_word(0), AggregateState::Bitmask(0));
    assert_eq!(AggregateState::from_word(0xFFFF_FFFF), AggregateState::Raw(-1));
    assert_eq!(AggregateState::from_word(0xFFFE_1234), AggregateState::Bitmask(0x34));
    assert_eq!(AggregateState::from_word(0x0003_8000), AggregateState::Raw(i16::MIN));
    assert_eq!(AggregateState::from_word(0x0002_00FF), AggregateState::Bitmask(0xFF));
}
