use gha_dashboard::relay::{error_notice, relay_step, ClientMessage, RelayEvent, RelayStep};

#[test]
fn a_snapshot_that_is_written_out_is_sent() {
    assert_eq!(relay_step(RelayEvent::Snapshot { serialized: true }), RelayStep::SendSnapshot);
}

#[test]
fn a_snapshot_that_cannot_be_written_out_is_passed_over() {
    assert_eq!(relay_step(RelayEvent::Snapshot { serialized: false }), RelayStep::Continue);
}

#[test]
fn the_error_of_the_sequence_is_sent_as_a_notice() {
    assert_eq!(relay_step(RelayEvent::SequenceFailed), RelayStep::SendErrorNotice);
    assert_eq!(
        error_notice("Failed to fetch repositories"),
        "Error: Failed to fetch repositories"
    );
    assert_eq!(error_notice(""), "Error: ");
}

#[test]
fn the_relay_stops_when_nothing_can_be_delivered() {
    assert_eq!(relay_step(RelayEvent::Sent { delivered: false }), RelayStep::Stop);
    assert_eq!(relay_step(RelayEvent::Sent { delivered: true }), RelayStep::Continue);
}

#[test]
fn the_relay_stops_when_the_client_closes() {
    assert_eq!(relay_step(RelayEvent::Client(ClientMessage::Close)), RelayStep::Stop);
    assert_eq!(relay_step(RelayEvent::Client(ClientMessage::Text)), RelayStep::Continue);
    assert_eq!(relay_step(RelayEvent::Client(ClientMessage::Other)), RelayStep::Continue);
}

#[test]
fn the_relay_stops_when_nothing_more_can_come() {
    assert_eq!(relay_step(RelayEvent::Exhausted), RelayStep::Stop);
}
