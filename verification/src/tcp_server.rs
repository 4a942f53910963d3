use vstd::prelude::*;
use crate::card_processor::CardProcessor;
use crate::config::ServerConfig;
use crate::protocol::{CardData, ACK_RESPONSE, CARD_DATA_SIZE};

verus! {

/// Which listeners the service starts for a port list and a table cap: the
/// 1-based position in the list is the table identifier, and positions past
/// the cap are never bound.
pub open spec fn spec_listener_plan(ports: Seq<u16>, max_tables: u8) -> Seq<(u8, u16)> {
    Seq::new(
        vstd::math::min(ports.len() as int, max_tables as int) as nat,
        |i: int| ((i + 1) as u8, ports[i]),
    )
}

/// Computes the listener plan of a configuration: one `(table_id, port)` pair
/// per listener to start, in port-list order, truncated at `max_tables`.
pub fn plan_listeners(config: &ServerConfig) -> (r: Vec<(u8, u16)>)
    ensures
        r@ == spec_listener_plan(config.ports@, config.max_tables),
{
    let mut plan: Vec<(u8, u16)> = Vec::new();
    let mut i: usize = 0;
    while i < config.ports.len() && i < config.max_tables as usize
        invariant
            i <= config.ports@.len(),
            i <= config.max_tables,
            plan@ =~= spec_listener_plan(config.ports@, config.max_tables).take(i as int),
        decreases config.ports@.len() - i,
    {
        let table_id: u8 = (i + 1) as u8;
        plan.push((table_id, config.ports[i]));
        i += 1;
    }
    proof {
        assert(plan@ =~= spec_listener_plan(config.ports@, config.max_tables));
    }
    plan
}

/// What the transport reported on one turn of a connection's read loop:
/// a buffer that arrived, or a failed read or acknowledgment write.
pub enum SocketEvent {
    Frame(Vec<u8>),
    ReadFailed,
    WriteFailed,
}

/// What the handler must do after one turn: send an acknowledgment byte and
/// keep reading, keep reading without acknowledging, or close and deregister.
pub enum ConnAction {
    SendAck(u8),
    KeepReading,
    Disconnect,
}

/// One turn of the per-connection state machine. A well-formed 10-byte frame
/// is decoded, handed to the resolver and acknowledged with the single byte
/// `ACK_RESPONSE`; a buffer of any other length is skipped without closing
/// the connection and without any acknowledgment; a transport failure in
/// either direction ends the connection.
pub fn connection_step(processor: &CardProcessor, event: &SocketEvent) -> (r: ConnAction)
    ensures
        (event matches SocketEvent::Frame(b) && b@.len() == CARD_DATA_SIZE) ==> r
            == ConnAction::SendAck(ACK_RESPONSE),
        (event matches SocketEvent::Frame(b) && b@.len() != CARD_DATA_SIZE) ==> r
            is KeepReading,
        (event is ReadFailed || event is WriteFailed) ==> r is Disconnect,
{
    match event {
        SocketEvent::Frame(bytes) => match CardData::from_bytes(bytes.as_slice()) {
            Ok(card_data) => {
                let _label = processor.process_card(card_data);
                ConnAction::SendAck(ACK_RESPONSE)
            },
            Err(_) => ConnAction::KeepReading,
        },
        SocketEvent::ReadFailed => ConnAction::Disconnect,
        SocketEvent::WriteFailed => ConnAction::Disconnect,
    }
}

} // verus!
