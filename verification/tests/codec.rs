use card_server::protocol::{CardData, ACK_RESPONSE, CARD_DATA_SIZE};

#[test]
fn constants_match_wire_format() {
    assert_eq!(CARD_DATA_SIZE, 10);
    assert_eq!(ACK_RESPONSE, 0x01);
}

#[test]
fn decode_valid_frame() {
    let bytes = [1u8, 1, 0, 0, 0, 0x78, 0x56, 0x34, 0x12, 0];
    let data = CardData::from_bytes(&bytes).expect("a 10-byte frame decodes");
    assert_eq!(data.table_id, 1);
    assert_eq!(data.card_id, 1);
    assert_eq!(data.timestamp, 0x12345678);
    assert_eq!(data.player, 0);
}

#[test]
fn decode_little_endian_fields() {
    let bytes = [7u8, 0x0E, 0, 0, 0, 0x01, 0x02, 0x03, 0x04, 9];
    let data = CardData::from_bytes(&bytes).unwrap();
    assert_eq!(data.card_id, 14);
    assert_eq!(data.timestamp, 0x04030201);
    assert_eq!(data.table_id, 7);
    assert_eq!(data.player, 9);
}

#[test]
fn decode_empty_buffer_fails() {
    let bytes: [u8; 0] = [];
    assert_eq!(CardData::from_bytes(&bytes), Err("Invalid data length"));
}

#[test]
fn decode_short_buffer_fails() {
    let bytes = [1u8, 2, 3, 4, 5];
    assert_eq!(CardData::from_bytes(&bytes), Err("Invalid data length"));
}

#[test]
fn decode_nine_bytes_fails() {
    let bytes = [0u8; 9];
    assert_eq!(CardData::from_bytes(&bytes), Err("Invalid data length"));
}

#[test]
fn decode_long_buffer_fails() {
    let bytes = [0u8; 11];
    assert_eq!(CardData::from_bytes(&bytes), Err("Invalid data length"));
}

#[test]
fn decode_is_deterministic() {
    let bytes = [3u8, 0xFF, 0xFF, 0xFF, 0xFF, 0, 0, 0, 0, 1];
    let first = CardData::from_bytes(&bytes).unwrap();
    let second = CardData::from_bytes(&bytes).unwrap();
    assert_eq!(first, second);
    assert_eq!(first.card_id, u32::MAX);
}

#[test]
fn decode_round_trips_all_fields() {
    let original = CardData { table_id: 5, card_id: 0xDEADBEEF, timestamp: 0xCAFEBABE, player: 2 };
    let mut wire = Vec::new();
    wire.push(original.table_id);
    wire.extend_from_slice(&original.card_id.to_le_bytes());
    wire.extend_from_slice(&original.timestamp.to_le_bytes());
    wire.push(original.player);
    let decoded = CardData::from_bytes(&wire).unwrap();
    assert_eq!(decoded, original);
}

#[test]
fn player_type_zero_is_dealer() {
    let data = CardData { table_id: 1, card_id: 1, timestamp: 0, player: 0 };
    assert_eq!(data.player_type(), "Dealer");
}

#[test]
fn player_type_nonzero_is_player() {
    for player in [1u8, 2, 100, 255] {
        let data = CardData { table_id: 1, card_id: 1, timestamp: 0, player };
        assert_eq!(data.player_type(), "Player");
    }
}
