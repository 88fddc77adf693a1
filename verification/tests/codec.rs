use bittide::error::BittideChannelControlError;
use bittide::message::BittideMessage;

#[test]
fn sync_encodes_to_the_sync_word() {
    assert_eq!(BittideMessage::SyncMessage.serialize(), 0b0001);
    assert_eq!(BittideMessage::deserialize(0b0001), BittideMessage::SyncMessage);
}

#[test]
fn data_packs_neighbor_and_payload() {
    let message = BittideMessage::CommMessage { neighbor: 3, data: 0x2a };
    assert_eq!(message.serialize(), (3 << 1) | (0x2a << 4));
    assert_eq!(message.serialize(), 0x2a6);
    assert_eq!(BittideMessage::deserialize(0x2a6), message);
}

#[test]
fn round_trip_over_all_neighbors() {
    let payloads = [0u32, 1, 42, 0x0123_4567, 0x0fff_fffe, 0x0fff_ffff];
    for neighbor in 0u8..8 {
        for &data in payloads.iter() {
            let message = BittideMessage::CommMessage { neighbor, data };
            assert_eq!(BittideMessage::deserialize(message.serialize()), message);
        }
    }
    assert_eq!(
        BittideMessage::deserialize(BittideMessage::SyncMessage.serialize()),
        BittideMessage::SyncMessage
    );
}

#[test]
fn fields_outside_their_width_are_masked() {
    let message = BittideMessage::CommMessage { neighbor: 9, data: 0xffff_ffff };
    assert_eq!(message.serialize(), (1 << 1) | (0x0fff_ffff << 4));
    assert_eq!(
        BittideMessage::deserialize(message.serialize()),
        BittideMessage::CommMessage { neighbor: 1, data: 0x0fff_ffff }
    );
}

#[test]
fn zero_word_is_data_for_neighbor_zero() {
    assert_eq!(
        BittideMessage::deserialize(0),
        BittideMessage::CommMessage { neighbor: 0, data: 0 }
    );
    assert_eq!(BittideMessage::CommMessage { neighbor: 0, data: 0 }.serialize(), 0);
}

#[test]
fn tag_bit_is_ignored_on_data_words() {
    // 0b0011 differs from the sync word, so it is data for neighbour 1.
    assert_eq!(
        BittideMessage::deserialize(0b0011),
        BittideMessage::CommMessage { neighbor: 1, data: 0 }
    );
}

#[test]
fn received_on_rewrites_the_neighbor() {
    let message = BittideMessage::CommMessage { neighbor: 7, data: 5 };
    assert_eq!(
        message.received_on(2),
        BittideMessage::CommMessage { neighbor: 2, data: 5 }
    );
    assert_eq!(BittideMessage::SyncMessage.received_on(2), BittideMessage::SyncMessage);
}

#[test]
fn result_codes() {
    assert_eq!(BittideChannelControlError::encode(Ok(())), 0);
    assert_eq!(BittideChannelControlError::encode(Err(BittideChannelControlError::DecodeError)), 1);
    assert_eq!(
        BittideChannelControlError::encode(Err(BittideChannelControlError::SyncMessageFromUserCode)),
        2
    );
    assert_eq!(BittideChannelControlError::encode(Err(BittideChannelControlError::InvalidNeigbor)), 3);
    assert_eq!(BittideChannelControlError::encode(Err(BittideChannelControlError::TideFifoFull)), 4);
    assert_eq!(
        BittideChannelControlError::encode(Err(BittideChannelControlError::FrequenceControllerError)),
        5
    );
}

#[test]
fn result_codes_decode() {
    assert_eq!(BittideChannelControlError::decode(0), Ok(()));
    assert_eq!(BittideChannelControlError::decode(1), Err(BittideChannelControlError::DecodeError));
    assert_eq!(
        BittideChannelControlError::decode(2),
        Err(BittideChannelControlError::SyncMessageFromUserCode)
    );
    assert_eq!(BittideChannelControlError::decode(3), Err(BittideChannelControlError::InvalidNeigbor));
    assert_eq!(BittideChannelControlError::decode(4), Err(BittideChannelControlError::TideFifoFull));
    assert_eq!(
        BittideChannelControlError::decode(5),
        Err(BittideChannelControlError::FrequenceControllerError)
    );
    assert_eq!(BittideChannelControlError::decode(6), Err(BittideChannelControlError::DecodeError));
    assert_eq!(
        BittideChannelControlError::decode(u32::MAX),
        Err(BittideChannelControlError::DecodeError)
    );
}

#[test]
fn result_codes_round_trip() {
    for value in 0u32..6 {
        assert_eq!(
            BittideChannelControlError::encode(BittideChannelControlError::decode(value)),
            value
        );
    }
}
