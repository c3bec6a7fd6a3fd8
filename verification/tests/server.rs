use fsrpad::aggregate::{states_to_byte, AggregateState, WireMode};
use fsrpad::server::{
    handle_event, on_accept, respond, ConnectionAction, ConnectionEvent, ListenerAction,
    ListenerEvent, REQUEST_LEN,
};
use fsrpad::snapshot::SharedSnapshot;

#[test]
fn request_is_answered_with_the_latest_snapshot() {
    let latest = AggregateState::Bitmask(states_to_byte(&vec![true, false, true, false]));
    assert_eq!(
        respond(ConnectionEvent::Requested, latest),
        ConnectionAction::Reply { state: latest }
    );
    match respond(ConnectionEvent::Requested, latest) {
        ConnectionAction::Reply { state } => assert_eq!(state.encode(), vec![0b0000_0101]),
        other => panic!("no reply, but {:?}", other),
    }
}

#[test]
fn handler_waits_closes_and_replies() {
    let latest = AggregateState::Raw(9);
    assert_eq!(respond(ConnectionEvent::Opened, latest), ConnectionAction::AwaitRequest);
    assert_eq!(respond(ConnectionEvent::Replied, latest), ConnectionAction::AwaitRequest);
    assert_eq!(respond(ConnectionEvent::Failed, latest), ConnectionAction::Close);
    assert_eq!(REQUEST_LEN, 1);
}

#[test]
fn handler_reads_the_snapshot_for_each_request() {
    let snapshot = SharedSnapshot::new(WireMode::Bitmask);
    assert_eq!(handle_event(ConnectionEvent::Opened, &snapshot), ConnectionAction::AwaitRequest);
    assert_eq!(
        handle_event(ConnectionEvent::Requested, &snapshot),
        ConnectionAction::Reply { state: AggregateState::Bitmask(0) }
    );
    snapshot.publish(AggregateState::Bitmask(0b0101));
    assert_eq!(handle_event(ConnectionEvent::Replied, &snapshot), ConnectionAction::AwaitRequest);
    assert_eq!(
        handle_event(ConnectionEvent::Requested, &snapshot),
        ConnectionAction::Reply { state: AggregateState::Bitmask(0b0101) }
    );
    assert_eq!(handle_event(ConnectionEvent::Failed, &snapshot), ConnectionAction::Close);
}

#[test]
fn listener_goes_on_after_a_failed_accept() {
    assert_eq!(on_accept(ListenerEvent::Accepted), ListenerAction::Serve);
    assert_eq!(on_accept(ListenerEvent::AcceptFailed), ListenerAction::Skip);
}
