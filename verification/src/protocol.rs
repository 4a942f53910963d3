use vstd::prelude::*;

verus! {

/// Number of bytes in one wire frame.
pub const CARD_DATA_SIZE: usize = 10;

/// The single acknowledgment byte sent back after a successfully decoded frame.
pub const ACK_RESPONSE: u8 = 0x01;

/// One decoded wire frame: a card event reported by a table.
#[derive(Debug, Clone, Copy, PartialEq, Eq, Structural)]
pub struct CardData {
    /// Which table the frame claims to come from (redundant with the channel).
    pub table_id: u8,
    /// Identifier of the card, resolved against the lookup table.
    pub card_id: u32,
    /// Epoch seconds at which the event was recorded by the sender.
    pub timestamp: u32,
    /// 0 means the dealer drew the card; anything else, a player.
    pub player: u8,
}

/// The unsigned 32-bit integer laid out little-endian in four bytes.
pub open spec fn le32(b0: u8, b1: u8, b2: u8, b3: u8) -> u32 {
    (b0 + b1 * 0x100 + b2 * 0x1_0000 + b3 * 0x100_0000) as u32
}

/// The frame that a well-formed 10-byte buffer denotes.
pub open spec fn spec_decode(bytes: Seq<u8>) -> CardData
    recommends
        bytes.len() == CARD_DATA_SIZE,
{
    CardData {
        table_id: bytes[0],
        card_id: le32(bytes[1], bytes[2], bytes[3], bytes[4]),
        timestamp: le32(bytes[5], bytes[6], bytes[7], bytes[8]),
        player: bytes[9],
    }
}

/// The 10-byte buffer that lays a frame out on the wire: the table byte, the
/// two 32-bit fields little-endian, and the role byte.
pub open spec fn spec_encode(data: CardData) -> Seq<u8> {
    seq![
        data.table_id,
        (data.card_id & 0xff) as u8,
        ((data.card_id >> 8) & 0xff) as u8,
        ((data.card_id >> 16) & 0xff) as u8,
        ((data.card_id >> 24) & 0xff) as u8,
        (data.timestamp & 0xff) as u8,
        ((data.timestamp >> 8) & 0xff) as u8,
        ((data.timestamp >> 16) & 0xff) as u8,
        ((data.timestamp >> 24) & 0xff) as u8,
        data.player,
    ]
}

impl CardData {
    /// Decodes one wire frame. A buffer of any length other than exactly
    /// 10 bytes is a hard failure; a 10-byte buffer always decodes, to the
    /// frame its bytes denote.
    pub fn from_bytes(bytes: &[u8]) -> (r: Result<Self, &'static str>)
        ensures
            bytes@.len() == CARD_DATA_SIZE <==> r is Ok,
            bytes@.len() == CARD_DATA_SIZE ==> r == Ok::<CardData, &'static str>(
                spec_decode(bytes@),
            ),
            bytes@.len() != CARD_DATA_SIZE ==> (r matches Err(m) && m@ == "Invalid data length"@),
    {
        if bytes.len() != CARD_DATA_SIZE {
            return Err("Invalid data length");
        }

        let card_id = le_u32(bytes[1], bytes[2], bytes[3], bytes[4]);
        let timestamp = le_u32(bytes[5], bytes[6], bytes[7], bytes[8]);
        Ok(CardData { table_id: bytes[0], card_id, timestamp, player: bytes[9] })
    }

    /// The role the frame reports: 0 is the dealer, every other value a player.
    pub fn player_type(&self) -> (r: &'static str)
        ensures
            self.player == 0 ==> r@ == "Dealer"@,
            self.player != 0 ==> r@ == "Player"@,
    {
        match self.player {
            0 => "Dealer",
            _ => "Player",
        }
    }
}

/// Assembles four bytes into the little-endian 32-bit integer they denote.
fn le_u32(b0: u8, b1: u8, b2: u8, b3: u8) -> (r: u32)
    ensures
        r == le32(b0, b1, b2, b3),
{
    (b0 as u32) + (b1 as u32) * 0x100 + (b2 as u32) * 0x1_0000 + (b3 as u32) * 0x100_0000
}

/// Laying a frame out on the wire and decoding it again yields the same four
/// fields: the codec loses nothing.
pub proof fn lemma_decode_round_trip(data: CardData)
    ensures
        spec_encode(data).len() == CARD_DATA_SIZE,
        spec_decode(spec_encode(data)) == data,
{
    let c = data.card_id;
    let t = data.timestamp;
    assert(le32(
        (c & 0xff) as u8,
        ((c >> 8) & 0xff) as u8,
        ((c >> 16) & 0xff) as u8,
        ((c >> 24) & 0xff) as u8,
    ) == c) by (bit_vector);
    assert(le32(
        (t & 0xff) as u8,
        ((t >> 8) & 0xff) as u8,
        ((t >> 16) & 0xff) as u8,
        ((t >> 24) & 0xff) as u8,
    ) == t) by (bit_vector);
}

} // verus!
