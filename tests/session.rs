use compactsee::domain::{ContractEvent, Event};
use compactsee::session::{Action, Frame, Input, Session, SessionError, TextPayload, PING_EVERY};

fn event(state: &str) -> ContractEvent {
    ContractEvent {
        typename: "ContractCall".to_string(),
        state: state.to_string(),
        address: "02abc".to_string(),
        chain_state: "cs".to_string(),
    }
}

fn time_left(a: &Action) -> Option<u64> {
    match a {
        Action::Emit(Event::TimeLeft(n)) => Some(*n),
        _ => None,
    }
}

/// Runs quiet seconds until the session stops; returns the events emitted.
fn quiet_run(mut s: Session, max: usize) -> (Vec<Event>, Action) {
    let mut out = Vec::new();
    for _ in 0..max {
        let (s1, a) = s.step(Input::Tick);
        s = s1;
        match a {
            Action::Emit(e) => out.push(e),
            other => return (out, other),
        }
        let (s2, a) = s.step(Input::Sent(true));
        s = s2;
        match a {
            Action::Wait => {}
            Action::Ping => {
                let (s3, a) = s.step(Input::Pinged(true));
                s = s3;
                assert!(matches!(a, Action::Wait));
            }
            other => return (out, other),
        }
    }
    panic!("session did not stop");
}

#[test]
fn tick_reports_time_left() {
    let (_, a) = Session::new(300).step(Input::Tick);
    assert_eq!(time_left(&a), Some(299));
}

#[test]
fn quiet_session_counts_down_then_disconnects() {
    let (events, last) = quiet_run(Session::new(3), 10);
    assert_eq!(events.len(), 4);
    let left: Vec<Option<u64>> = events[..3].iter().map(|e| match e {
        Event::TimeLeft(n) => Some(*n),
        _ => None,
    }).collect();
    assert_eq!(left, vec![Some(2), Some(1), Some(0)]);
    assert!(matches!(events[3], Event::Disconnect));
    assert!(matches!(last, Action::Stop(Ok(()))));
}

#[test]
fn zero_budget_disconnects_at_first_tick() {
    let (events, last) = quiet_run(Session::new(0), 3);
    assert_eq!(events.len(), 1);
    assert!(matches!(events[0], Event::Disconnect));
    assert!(matches!(last, Action::Stop(Ok(()))));
}

#[test]
fn ping_every_thirty_ticks() {
    let mut s = Session::new(100);
    let mut pings = 0;
    for tick in 1..=60u64 {
        let (s1, _) = s.step(Input::Tick);
        let (s2, a) = s1.step(Input::Sent(true));
        s = s2;
        if matches!(a, Action::Ping) {
            pings += 1;
            assert_eq!(tick % PING_EVERY, 0);
            let (s3, _) = s.step(Input::Pinged(true));
            s = s3;
        }
    }
    assert_eq!(pings, 2);
}

#[test]
fn failed_ping_ends_cleanly() {
    let mut s = Session::new(100);
    for _ in 0..PING_EVERY {
        let (s1, _) = s.step(Input::Tick);
        s = s1.step(Input::Sent(true)).0;
    }
    let (s, a) = s.step(Input::Pinged(false));
    assert!(matches!(a, Action::Stop(Ok(()))));
    assert!(matches!(s.step(Input::Tick).1, Action::Stop(Ok(()))));
}

#[test]
fn cancellation_emits_disconnect_then_stops() {
    let (s, a) = Session::new(300).step(Input::Cancelled);
    assert!(matches!(a, Action::Emit(Event::Disconnect)));
    let (_, a) = s.step(Input::Sent(true));
    assert!(matches!(a, Action::Stop(Ok(()))));
}

#[test]
fn decoded_state_replaces_hex() {
    let (s, a) = Session::new(300).step(Input::Frame(Frame::Text(TextPayload::Action(event("0a0b")))));
    match a {
        Action::Decode(b) => assert_eq!(b, vec![0x0a, 0x0b]),
        _ => panic!("expected a decode"),
    }
    let (s, a) = s.step(Input::Decoded(Some("ContractState { .. }".to_string())));
    match a {
        Action::Emit(Event::ContractEvent(e)) => {
            assert_eq!(e.state, "ContractState { .. }");
            assert_eq!(e.typename, "ContractCall");
            assert_eq!(e.address, "02abc");
            assert_eq!(e.chain_state, "cs");
        }
        _ => panic!("expected the event"),
    }
    assert!(matches!(s.step(Input::Sent(true)).1, Action::Wait));
}

#[test]
fn undecodable_state_keeps_hex() {
    let (s, _) = Session::new(300).step(Input::Frame(Frame::Text(TextPayload::Action(event("DEADbeef")))));
    let (_, a) = s.step(Input::Decoded(None));
    match a {
        Action::Emit(Event::ContractEvent(e)) => assert_eq!(e.state, "DEADbeef"),
        _ => panic!("expected the event"),
    }
}

#[test]
fn invalid_hex_state_ends_session() {
    let (s, a) = Session::new(300).step(Input::Frame(Frame::Text(TextPayload::Action(event("xyz")))));
    assert!(matches!(a, Action::Stop(Err(SessionError::InvalidHex))));
    assert!(matches!(s.step(Input::Tick).1, Action::Stop(Err(SessionError::InvalidHex))));
}

#[test]
fn full_channel_ends_session_without_more_sends() {
    let (s, _) = Session::new(300).step(Input::Tick);
    let (s, a) = s.step(Input::Sent(false));
    assert!(matches!(a, Action::Stop(Err(SessionError::ChannelUnavailable))));
    let (s, a) = s.step(Input::Tick);
    assert!(matches!(a, Action::Stop(Err(SessionError::ChannelUnavailable))));
    let (_, a) = s.step(Input::Cancelled);
    assert!(matches!(a, Action::Stop(Err(SessionError::ChannelUnavailable))));
}

#[test]
fn close_frame_ends_without_disconnect() {
    let (_, a) = Session::new(300).step(Input::Frame(Frame::Close));
    assert!(matches!(a, Action::Stop(Ok(()))));
}

#[test]
fn protocol_violations_end_cleanly() {
    for p in [TextPayload::NotJson, TextPayload::NoContractData, TextPayload::Malformed] {
        let (_, a) = Session::new(300).step(Input::Frame(Frame::Text(p)));
        assert!(matches!(a, Action::Stop(Ok(()))));
    }
    let (_, a) = Session::new(300).step(Input::Frame(Frame::Ended));
    assert!(matches!(a, Action::Stop(Ok(()))));
}

#[test]
fn pong_other_and_receive_errors_are_ignored() {
    for f in [Frame::Pong, Frame::Other, Frame::ReceiveError] {
        let (s, a) = Session::new(300).step(Input::Frame(f));
        assert!(matches!(a, Action::Wait));
        assert_eq!(time_left(&s.step(Input::Tick).1), Some(299));
    }
}
