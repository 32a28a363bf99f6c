use chat_relay::fanout::{Delivery, Publication};
use chat_relay::msg::{Msg, MsgData};
use chat_relay::session::{
    after_write, inbound_step, outbound_step, Flow, FlowStep, Inbound, InboundOutcome,
    OutboundStep, Phase, Session,
};
use chat_relay::state::ChatState;
use std::sync::Arc;

#[test]
fn sibling_is_the_other_flow() {
    assert_eq!(Flow::Inbound.sibling(), Flow::Outbound);
    assert_eq!(Flow::Outbound.sibling(), Flow::Inbound);
}

#[test]
fn a_session_opens_active_under_its_identity() {
    let state = ChatState::new();
    let (session, _subscription) = Session::open("alice".to_string(), &state);
    assert_eq!(session.identity(), "alice");
    assert_eq!(session.phase(), Phase::Active);
}

#[test]
fn opening_subscribes_before_anything_is_published() {
    let mut state = ChatState::new();
    let (_session, mut subscription) = Session::open("alice".to_string(), &state);
    let outcome = state.handle_message(Msg::join("room1", "alice"));
    assert_eq!(outcome, Publication::Delivered { subscribers: 1 });
    assert!(matches!(subscription.poll(), Delivery::Message(_)));
}

#[test]
fn first_flow_to_end_cancels_its_sibling() {
    let state = ChatState::new();
    let (mut session, _subscription) = Session::open("alice".to_string(), &state);
    assert_eq!(session.flow_ended(Flow::Inbound), Some(Flow::Outbound));
    assert_eq!(session.phase(), Phase::Closing { trigger: Flow::Inbound });

    let (mut other, _subscription) = Session::open("bob".to_string(), &state);
    assert_eq!(other.flow_ended(Flow::Outbound), Some(Flow::Inbound));
    assert_eq!(other.phase(), Phase::Closing { trigger: Flow::Outbound });
}

#[test]
fn a_later_end_changes_nothing() {
    let state = ChatState::new();
    let (mut session, _subscription) = Session::open("alice".to_string(), &state);
    session.flow_ended(Flow::Outbound);
    assert_eq!(session.flow_ended(Flow::Inbound), None);
    assert_eq!(session.flow_ended(Flow::Outbound), None);
    assert_eq!(session.phase(), Phase::Closing { trigger: Flow::Outbound });
    session.reconcile(&state);
    assert_eq!(session.phase(), Phase::Closed { trigger: Flow::Outbound });
    assert_eq!(session.flow_ended(Flow::Inbound), None);
    assert_eq!(session.phase(), Phase::Closed { trigger: Flow::Outbound });
    assert_eq!(session.identity(), "alice");
}

#[test]
fn an_active_session_is_not_reconciled() {
    let mut state = ChatState::new();
    let (mut session, mut subscription) = Session::open("alice".to_string(), &state);
    state.handle_message(Msg::join("room1", "alice"));
    assert!(matches!(subscription.poll(), Delivery::Message(_)));
    assert!(session.reconcile(&state).is_empty());
    assert_eq!(session.phase(), Phase::Active);
    assert_eq!(subscription.poll(), Delivery::Empty);
}

#[test]
fn a_failed_read_closes_the_session_and_announces_each_room_once() {
    let mut state = ChatState::new();
    let mut observer = state.subscribe();
    let (mut session, _subscription) = Session::open("alice".to_string(), &state);
    for room in ["room1", "room2"] {
        let outcome = inbound_step(&mut state, Inbound::Envelope(Msg::join(room, "alice")));
        assert_eq!(outcome.step, FlowStep::Continue);
    }
    inbound_step(&mut state, Inbound::Envelope(Msg::join("room3", "bob")));
    for _ in 0..3 {
        assert!(matches!(observer.poll(), Delivery::Message(_)));
    }

    assert_eq!(
        inbound_step(&mut state, Inbound::Failed),
        InboundOutcome { step: FlowStep::Stop, published: None }
    );
    assert_eq!(session.flow_ended(Flow::Inbound), Some(Flow::Outbound));
    assert_eq!(session.phase(), Phase::Closing { trigger: Flow::Inbound });

    let mut departures = session.reconcile(&state);
    assert_eq!(session.phase(), Phase::Closed { trigger: Flow::Inbound });
    departures.sort_by(|a, b| a.room.cmp(&b.room));
    assert_eq!(departures.len(), 2);
    assert_eq!(departures[0].room, "room1");
    assert_eq!(departures[1].room, "room2");
    for departure in &departures {
        assert!(matches!(departure.outcome, Publication::Delivered { subscribers } if subscribers >= 1));
    }

    let mut left = Vec::new();
    for _ in 0..2 {
        match observer.poll() {
            Delivery::Message(msg) => {
                assert_eq!(msg.username, "alice");
                assert_eq!(msg.data, MsgData::Leave);
                left.push(msg.room.clone());
            }
            other => panic!("expected a leave envelope, found {other:?}"),
        }
    }
    left.sort();
    assert_eq!(left, vec!["room1", "room2"]);
    assert_eq!(observer.poll(), Delivery::Empty);

    assert!(session.reconcile(&state).is_empty());
    assert_eq!(observer.poll(), Delivery::Empty);
    assert_eq!(session.phase(), Phase::Closed { trigger: Flow::Inbound });
}

#[test]
fn reconciling_without_subscribers_still_closes() {
    let mut state = ChatState::new();
    state.handle_message(Msg::join("room1", "alice"));
    let (mut session, subscription) = Session::open("alice".to_string(), &state);
    drop(subscription);
    session.flow_ended(Flow::Outbound);
    let departures = session.reconcile(&state);
    assert_eq!(departures.len(), 1);
    assert_eq!(departures[0].room, "room1");
    assert_eq!(departures[0].outcome, Publication::NoSubscribers);
    assert_eq!(session.phase(), Phase::Closed { trigger: Flow::Outbound });
}

#[test]
fn reconciling_an_identity_without_rooms_publishes_nothing() {
    let state = ChatState::new();
    let mut observer = state.subscribe();
    let (mut session, _subscription) = Session::open("alice".to_string(), &state);
    session.flow_ended(Flow::Inbound);
    assert!(session.reconcile(&state).is_empty());
    assert_eq!(session.phase(), Phase::Closed { trigger: Flow::Inbound });
    assert_eq!(observer.poll(), Delivery::Empty);
}

#[test]
fn inbound_applies_and_publishes_an_envelope() {
    let mut state = ChatState::new();
    let mut observer = state.subscribe();
    let outcome = inbound_step(&mut state, Inbound::Envelope(Msg::join("room1", "alice")));
    assert_eq!(
        outcome,
        InboundOutcome {
            step: FlowStep::Continue,
            published: Some(Publication::Delivered { subscribers: 1 }),
        }
    );
    assert_eq!(state.get_user_rooms("alice"), vec!["room1".to_string()]);
    assert!(matches!(observer.poll(), Delivery::Message(_)));
}

#[test]
fn inbound_reports_a_publish_that_nobody_heard() {
    let mut state = ChatState::new();
    let outcome = inbound_step(&mut state, Inbound::Envelope(Msg::join("room1", "alice")));
    assert_eq!(
        outcome,
        InboundOutcome { step: FlowStep::Continue, published: Some(Publication::NoSubscribers) }
    );
    assert_eq!(state.get_room_users("room1"), vec!["alice".to_string()]);
}

#[test]
fn inbound_skips_what_does_not_decode() {
    let mut state = ChatState::new();
    let mut observer = state.subscribe();
    state.handle_message(Msg::join("room1", "alice"));
    assert!(matches!(observer.poll(), Delivery::Message(_)));
    let skipped = InboundOutcome { step: FlowStep::Continue, published: None };
    assert_eq!(inbound_step(&mut state, Inbound::Malformed), skipped);
    assert_eq!(inbound_step(&mut state, Inbound::NotText), skipped);
    assert_eq!(observer.poll(), Delivery::Empty);
    assert_eq!(state.get_user_rooms("alice"), vec!["room1".to_string()]);
}

#[test]
fn inbound_ends_with_the_stream() {
    let mut state = ChatState::new();
    let mut observer = state.subscribe();
    state.handle_message(Msg::join("room1", "alice"));
    assert!(matches!(observer.poll(), Delivery::Message(_)));
    let ended = InboundOutcome { step: FlowStep::Stop, published: None };
    assert_eq!(inbound_step(&mut state, Inbound::Closed), ended);
    assert_eq!(inbound_step(&mut state, Inbound::Failed), ended);
    assert_eq!(observer.poll(), Delivery::Empty);
    assert_eq!(state.get_user_rooms("alice"), vec!["room1".to_string()]);
}

#[test]
fn outbound_writes_what_arrives() {
    let envelope = Arc::new(Msg::message("room1", "alice", "hello world"));
    assert_eq!(
        outbound_step(Delivery::Message(envelope.clone())),
        OutboundStep::Write(envelope)
    );
}

#[test]
fn outbound_waits_on_an_empty_queue() {
    assert_eq!(outbound_step(Delivery::Empty), OutboundStep::Wait);
}

#[test]
fn outbound_ends_on_overflow_and_on_a_closed_channel() {
    assert_eq!(outbound_step(Delivery::Lagged(1)), OutboundStep::Stop);
    assert_eq!(outbound_step(Delivery::Lagged(u64::MAX)), OutboundStep::Stop);
    assert_eq!(outbound_step(Delivery::Closed), OutboundStep::Stop);
}

#[test]
fn outbound_ends_when_a_write_fails() {
    assert_eq!(after_write(true), FlowStep::Continue);
    assert_eq!(after_write(false), FlowStep::Stop);
}
