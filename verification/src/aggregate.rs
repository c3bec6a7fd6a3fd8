//! The snapshot that is published once per poll cycle, and its encodings.
//!
//! With several channels the snapshot is a bitmask: bit `i`, counted from the
//! least significant, is the state of channel `i`, and the bits above the
//! last channel are zero. With a single sensor it may instead be the raw
//! signed reading of channel 0. On the wire a bitmask is one byte and a raw
//! reading two bytes, most significant first, in two's complement. In memory
//! either form fits one 32-bit word.

use vstd::prelude::*;
use crate::adc::{as_signed, as_unsigned, signed_reading, unsigned_word};

verus! {

/// Most channels that one bitmask byte can hold.
pub const MASK_BITS: usize = 8;

/// Set in the word of a snapshot that holds a raw reading.
pub const RAW_TAG: u32 = 0x1_0000;

/// What the published snapshot means.
#[derive(Clone, Copy, Debug, PartialEq, Eq)]
pub enum WireMode {
    /// One bit of state for each channel.
    Bitmask,
    /// The raw reading of channel 0.
    Raw,
}

/// The externally observable state as of one poll cycle.
#[derive(Clone, Copy, Debug, PartialEq, Eq)]
pub enum AggregateState {
    Bitmask(u8),
    Raw(i16),
}

/// Bit `index` of `byte`, counted from the least significant one.
pub open spec fn bit(byte: u8, index: u8) -> bool {
    (byte >> index) & 1 == 1
}

/// The byte whose bit `i` is `states[i]`, for up to eight states.
pub open spec fn pack(states: Seq<bool>) -> u8
    recommends
        states.len() <= MASK_BITS,
    decreases states.len(),
{
    if states.len() == 0 {
        0u8
    } else if states.last() {
        pack(states.drop_last()) | (1u8 << ((states.len() - 1) as u8))
    } else {
        pack(states.drop_last())
    }
}

/// The lowest `count` bits of `byte` as states.
pub open spec fn unpack(byte: u8, count: nat) -> Seq<bool>
    recommends
        count <= MASK_BITS,
{
    Seq::new(count, |i: int| bit(byte, i as u8))
}

/// Setting bit `k` of a byte changes that bit and no other.
proof fn set_bit_sets_one_bit(byte: u8, k: u8, i: u8)
    requires
        k < 8,
        i < 8,
    ensures
        bit(byte | (1u8 << k), i) == (bit(byte, i) || i == k),
{
    assert(((byte | (1u8 << k)) >> i) & 1 == 1 <==> ((byte >> i) & 1 == 1 || i == k))
        by (bit_vector)
        requires
            k < 8,
            i < 8,
    ;
}

/// Bit `i` of the packed byte is `states[i]`, and the bits from
/// `states.len()` up are zero.
pub proof fn pack_bits(states: Seq<bool>, i: u8)
    requires
        states.len() <= MASK_BITS,
        i < MASK_BITS,
    ensures
        bit(pack(states), i) == (i < states.len() && states[i as int]),
    decreases states.len(),
{
    if states.len() == 0 {
        assert((0u8 >> i) & 1 == 0) by (bit_vector);
    } else {
        let rest: Seq<bool> = states.drop_last();
        pack_bits(rest, i);
        if states.last() {
            set_bit_sets_one_bit(pack(rest), (states.len() - 1) as u8, i);
        }
    }
}

/// Packing states and unpacking as many again gives the states back: bit
/// `i` of the packed byte is exactly `states[i]`.
pub proof fn pack_unpack_round_trip(states: Seq<bool>)
    requires
        states.len() <= MASK_BITS,
    ensures
        unpack(pack(states), states.len()) == states,
        forall|i: int| 0 <= i < states.len() ==> bit(pack(states), i as u8) == states[i],
{
    assert forall|i: int| 0 <= i < states.len() implies unpack(pack(states), states.len())[i]
        == states[i] by {
        pack_bits(states, i as u8);
    }
    assert(unpack(pack(states), states.len()) =~= states);
    assert forall|i: int| 0 <= i < states.len() implies bit(pack(states), i as u8)
        == states[i] by {
        pack_bits(states, i as u8);
    }
}

/// Two bytes with the same eight bits are the same byte.
proof fn bits_determine_byte(a: u8, b: u8)
    requires
        forall|i: u8| i < 8 ==> bit(a, i) == bit(b, i),
    ensures
        a == b,
{
    assert(bit(a, 0) == bit(b, 0));
    assert(bit(a, 1) == bit(b, 1));
    assert(bit(a, 2) == bit(b, 2));
    assert(bit(a, 3) == bit(b, 3));
    assert(bit(a, 4) == bit(b, 4));
    assert(bit(a, 5) == bit(b, 5));
    assert(bit(a, 6) == bit(b, 6));
    assert(bit(a, 7) == bit(b, 7));
    assert(a == b) by (bit_vector)
        requires
            ((a >> 0u8) & 1 == 1) == ((b >> 0u8) & 1 == 1),
            ((a >> 1u8) & 1 == 1) == ((b >> 1u8) & 1 == 1),
            ((a >> 2u8) & 1 == 1) == ((b >> 2u8) & 1 == 1),
            ((a >> 3u8) & 1 == 1) == ((b >> 3u8) & 1 == 1),
            ((a >> 4u8) & 1 == 1) == ((b >> 4u8) & 1 == 1),
            ((a >> 5u8) & 1 == 1) == ((b >> 5u8) & 1 == 1),
            ((a >> 6u8) & 1 == 1) == ((b >> 6u8) & 1 == 1),
            ((a >> 7u8) & 1 == 1) == ((b >> 7u8) & 1 == 1),
    ;
}

/// Unpacking all eight bits of a byte and packing them gives the byte back.
pub proof fn unpack_pack_round_trip(byte: u8)
    ensures
        pack(unpack(byte, MASK_BITS as nat)) == byte,
{
    let states: Seq<bool> = unpack(byte, MASK_BITS as nat);
    assert forall|i: u8| i < 8 implies bit(pack(states), i) == bit(byte, i) by {
        pack_bits(states, i);
    }
    bits_determine_byte(pack(states), byte);
}

/// Packs up to eight channel states into one byte, channel 0 in the least
/// significant bit.
pub fn states_to_byte(states: &Vec<bool>) -> (byte: u8)
    requires
        states@.len() <= MASK_BITS,
    ensures
        byte == pack(states@),
        forall|i: u8| i < MASK_BITS ==> bit(byte, i) == (i < states@.len() && states@[i as int]),
{
    let mut ret: u8 = 0;
    let mut i: usize = 0;
    while i < states.len()
        invariant
            i <= states@.len() <= MASK_BITS,
            ret == pack(states@.take(i as int)),
        decreases states@.len() - i,
    {
        assert(states@.take(i + 1).drop_last() =~= states@.take(i as int));
        if states[i] {
            let place: u8 = i as u8;
            ret = ret | (1u8 << place);
        }
        i += 1;
    }
    proof {
        assert(states@.take(i as int) =~= states@);
        assert forall|k: u8| k < MASK_BITS implies bit(ret, k) == (k < states@.len()
            && states@[k as int]) by {
            pack_bits(states@, k);
        }
    }
    ret
}

/// Unpacks the lowest `count` bits of `byte` into channel states.
pub fn byte_to_states(byte: u8, count: usize) -> (states: Vec<bool>)
    requires
        count <= MASK_BITS,
    ensures
        states@ == unpack(byte, count as nat),
{
    let mut states: Vec<bool> = Vec::new();
    let mut i: usize = 0;
    while i < count
        invariant
            i <= count <= MASK_BITS,
            states@ == unpack(byte, i as nat),
        decreases count - i,
    {
        let place: u8 = i as u8;
        states.push((byte >> place) & 1 == 1);
        i += 1;
        assert(states@ =~= unpack(byte, i as nat));
    }
    states
}

impl WireMode {
    /// Number of bytes in a reply.
    pub open spec fn reply_len_spec(self) -> usize {
        match self {
            WireMode::Bitmask => 1,
            WireMode::Raw => 2,
        }
    }

    /// Number of bytes in a reply.
    #[verifier::when_used_as_spec(reply_len_spec)]
    pub fn reply_len(self) -> (len: usize)
        ensures
            len == self.reply_len_spec(),
    {
        match self {
            WireMode::Bitmask => 1,
            WireMode::Raw => 2,
        }
    }
}

impl AggregateState {
    /// The snapshot before the first poll cycle has completed: no channel
    /// pressed, or a reading of zero.
    pub open spec fn initial_spec(mode: WireMode) -> AggregateState {
        match mode {
            WireMode::Bitmask => AggregateState::Bitmask(0),
            WireMode::Raw => AggregateState::Raw(0),
        }
    }

    /// Which of the two forms this snapshot has.
    pub open spec fn mode_spec(self) -> WireMode {
        match self {
            AggregateState::Bitmask(_) => WireMode::Bitmask,
            AggregateState::Raw(_) => WireMode::Raw,
        }
    }

    /// The bytes that go to a client.
    pub open spec fn wire(self) -> Seq<u8> {
        match self {
            AggregateState::Bitmask(mask) => seq![mask],
            AggregateState::Raw(reading) => seq![
                (as_unsigned(reading) / 0x100) as u8,
                (as_unsigned(reading) % 0x100) as u8,
            ],
        }
    }

    /// The snapshot that `bytes` stand for in `mode`, if they have the
    /// length of a reply.
    pub open spec fn parse(mode: WireMode, bytes: Seq<u8>) -> Option<AggregateState> {
        match mode {
            WireMode::Bitmask => if bytes.len() == 1 {
                Some(AggregateState::Bitmask(bytes[0]))
            } else {
                None
            },
            WireMode::Raw => if bytes.len() == 2 {
                Some(AggregateState::Raw(as_signed((bytes[0] * 0x100 + bytes[1]) as u16) as i16))
            } else {
                None
            },
        }
    }

    /// The word that holds this snapshot in memory: the payload in the low
    /// sixteen bits, and above it the tag of a raw reading.
    pub open spec fn word(self) -> u32 {
        match self {
            AggregateState::Bitmask(mask) => mask as u32,
            AggregateState::Raw(reading) => (RAW_TAG + as_unsigned(reading)) as u32,
        }
    }

    /// The snapshot that a word holds. Every word holds one.
    pub open spec fn of_word(word: u32) -> AggregateState {
        if (word / RAW_TAG) % 2 == 1 {
            AggregateState::Raw(as_signed((word % 0x1_0000) as u16) as i16)
        } else {
            AggregateState::Bitmask((word % 0x100) as u8)
        }
    }

    /// The snapshot before the first poll cycle has completed.
    #[verifier::when_used_as_spec(initial_spec)]
    pub fn initial(mode: WireMode) -> (state: AggregateState)
        ensures
            state == AggregateState::initial_spec(mode),
    {
        match mode {
            WireMode::Bitmask => AggregateState::Bitmask(0),
            WireMode::Raw => AggregateState::Raw(0),
        }
    }

    /// Which of the two forms this snapshot has.
    #[verifier::when_used_as_spec(mode_spec)]
    pub fn mode(self) -> (mode: WireMode)
        ensures
            mode == self.mode_spec(),
    {
        match self {
            AggregateState::Bitmask(_) => WireMode::Bitmask,
            AggregateState::Raw(_) => WireMode::Raw,
        }
    }

    /// Encodes the snapshot for the wire.
    pub fn encode(self) -> (bytes: Vec<u8>)
        ensures
            bytes@ == self.wire(),
            bytes@.len() == self.mode_spec().reply_len_spec(),
    {
        let mut bytes: Vec<u8> = Vec::new();
        match self {
            AggregateState::Bitmask(mask) => {
                bytes.push(mask);
            },
            AggregateState::Raw(reading) => {
                let pattern: u16 = unsigned_word(reading);
                bytes.push((pattern / 0x100) as u8);
                bytes.push((pattern % 0x100) as u8);
            },
        }
        assert(bytes@ =~= self.wire());
        bytes
    }

    /// Decodes a reply received in `mode`. Gives `None` exactly if `bytes`
    /// does not have the length of a reply in that mode.
    pub fn decode(mode: WireMode, bytes: &[u8]) -> (state: Option<AggregateState>)
        ensures
            state == AggregateState::parse(mode, bytes@),
            state is Some <==> bytes@.len() == mode.reply_len_spec(),
    {
        match mode {
            WireMode::Bitmask => {
                if bytes.len() == 1 {
                    Some(AggregateState::Bitmask(bytes[0]))
                } else {
                    None
                }
            },
            WireMode::Raw => {
                if bytes.len() == 2 {
                    let pattern: u16 = bytes[0] as u16 * 0x100 + bytes[1] as u16;
                    Some(AggregateState::Raw(signed_reading(pattern)))
                } else {
                    None
                }
            },
        }
    }

    /// Packs the snapshot into one word.
    pub fn to_word(self) -> (word: u32)
        ensures
            word == self.word(),
    {
        match self {
            AggregateState::Bitmask(mask) => mask as u32,
            AggregateState::Raw(reading) => RAW_TAG + unsigned_word(reading) as u32,
        }
    }

    /// Unpacks the snapshot that `word` holds.
    pub fn from_word(word: u32) -> (state: AggregateState)
        ensures
            state == AggregateState::of_word(word),
    {
        if (word / RAW_TAG) % 2 == 1 {
            AggregateState::Raw(signed_reading((word % 0x1_0000) as u16))
        } else {
            AggregateState::Bitmask((word % 0x100) as u8)
        }
    }
}

/// What is encoded for the wire decodes to itself.
pub proof fn wire_round_trip(state: AggregateState)
    ensures
        AggregateState::parse(state.mode_spec(), state.wire()) == Some(state),
{
}

/// What is decoded from the wire encodes to the bytes it came from.
pub proof fn parse_round_trip(mode: WireMode, bytes: Seq<u8>)
    requires
        bytes.len() == mode.reply_len_spec(),
    ensures
        AggregateState::parse(mode, bytes) matches Some(state) && state.mode_spec() == mode
            && state.wire() == bytes,
{
    let state: AggregateState = AggregateState::parse(mode, bytes).unwrap();
    assert(state.wire() =~= bytes);
}

/// A snapshot that is packed into a word comes out of it unchanged, and the
/// word is the payload, with the tag added for a raw reading.
pub proof fn word_round_trip(state: AggregateState)
    ensures
        AggregateState::of_word(state.word()) == state,
        state.word() == match state {
            AggregateState::Bitmask(mask) => mask as int,
            AggregateState::Raw(reading) => RAW_TAG + as_unsigned(reading),
        },
{
}

} // verus!
