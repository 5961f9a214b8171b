use pcp_session::Ipv4;
use pcp_session::Ipv6;
use pcp_session::chan;
use pcp_session::chan::Poll;
use pcp_session::event::Event;
use pcp_session::handle::Error;
use pcp_session::handle::Verdict;
use pcp_session::handle::RequestType;
use pcp_session::handle::classify_received;
use pcp_session::handle::judge_reply;
use pcp_session::handle::poll_to_option;
use pcp_session::handle::session;
use pcp_session::handle::settle_submission;
use pcp_session::handle::settle_verdict;
use pcp_session::map::InboundMap;
use pcp_session::map::MapPayload;
use pcp_session::map::OutboundMap;
use pcp_session::state::AtomicState;
use pcp_session::state::MapHandle;
use pcp_session::state::State;
use pcp_session::state::may_transition;
use pcp_session::state::state_of_tag;
use pcp_session::state::tag_of_state;
use pcp_session::types::ChannelError;
use pcp_session::types::ParsingError;
use pcp_session::types::SocketError;
use pcp_session::worker::Phase;
use pcp_session::worker::Reaction;
use pcp_session::worker::absorb_event;

#[test]
fn a_delivered_identifier_is_accepted_as_itself() {
    assert_eq!(judge_reply(Ok(Some(7))), Verdict::Accept(7));
    assert_eq!(judge_reply(Ok(Some(0))), Verdict::Accept(0));
}

#[test]
fn an_absence_reply_is_rejected() {
    assert_eq!(judge_reply(Ok(None)), Verdict::Rejected);
}

#[test]
fn a_broken_reply_channel_is_severed() {
    assert_eq!(judge_reply(Err(ChannelError)), Verdict::Severed);
}

#[test]
fn a_received_error_classifies_as_itself() {
    let e = Error::Parsing(ParsingError::InvalidOpcode(9));
    assert_eq!(classify_received(Ok(e)), e);
    let e = Error::Socket(SocketError { code: -2 });
    assert_eq!(classify_received(Ok(e)), e);
}

#[test]
fn a_severed_error_channel_classifies_as_channel() {
    assert_eq!(classify_received(Err(ChannelError)), Error::Channel(ChannelError));
}

#[test]
fn only_a_pending_value_polls_as_some() {
    assert_eq!(poll_to_option(Poll::Received(5u64)), Some(5));
    assert_eq!(poll_to_option(Poll::<u64>::Empty), None);
    assert_eq!(poll_to_option(Poll::<u64>::Severed), None);
}

#[test]
fn every_state_survives_the_tag_round_trip() {
    let states = vec![
        State::Requested,
        State::Granted,
        State::Renewing,
        State::Expired,
        State::Deleted,
    ];
    for s in states {
        assert_eq!(state_of_tag(tag_of_state(s)), s);
    }
    // Decoding is total: an unknown tag reads as `Requested`.
    assert_eq!(state_of_tag(200), State::Requested);
}

#[test]
fn terminal_states_admit_no_transition_but_staying_put() {
    assert!(may_transition(State::Requested, State::Granted));
    assert!(may_transition(State::Granted, State::Renewing));
    assert!(may_transition(State::Renewing, State::Granted));
    assert!(may_transition(State::Granted, State::Deleted));
    assert!(may_transition(State::Expired, State::Expired));
    assert!(!may_transition(State::Expired, State::Granted));
    assert!(!may_transition(State::Deleted, State::Requested));
}

#[test]
fn the_state_cell_publishes_the_last_write_to_every_share() {
    let cell = AtomicState::new(State::Requested);
    assert_eq!(cell.read(), State::Requested);
    let share = cell.share();
    cell.write(State::Granted);
    assert_eq!(cell.read(), State::Granted);
    assert_eq!(share.read(), State::Granted);
    share.write(State::Expired);
    assert_eq!(cell.read(), State::Expired);
}

#[test]
fn a_mapping_handle_wraps_exactly_what_it_was_given() {
    let cell = AtomicState::new(State::Requested);
    let (event_tx, _event_rx) = chan::channel::<Event<Ipv4>>();
    let (_alert_tx, alert_rx) = chan::channel::<State>();
    let mapping = MapHandle::new(99, cell.share(), event_tx, alert_rx);
    assert_eq!(mapping.id(), 99);
    cell.write(State::Granted);
    assert_eq!(mapping.current_state(), State::Granted);
}

#[test]
fn only_the_first_shutdown_moves_the_worker() {
    let shutdown = Event::<Ipv4>::Shutdown;
    assert_eq!(absorb_event(Phase::Running, &shutdown), (Phase::Stopping, Reaction::BeginShutdown));
    assert_eq!(absorb_event(Phase::Stopping, &shutdown), (Phase::Stopping, Reaction::Ignore));
    assert_eq!(absorb_event(Phase::Stopped, &shutdown), (Phase::Stopped, Reaction::Ignore));
}

#[test]
fn mapping_events_are_dispatched_only_while_running() {
    let (reply_tx, _reply_rx) = chan::channel();
    let (alert_tx, _alert_rx) = chan::channel();
    let map = pcp_session::map::InboundMap {
        internal_address: Ipv4 { bits: 1 },
        internal_port: 53,
        lifetime_seconds: 60,
    };
    let event = Event::InboundMap(
        map,
        pcp_session::handle::RequestType::Once,
        AtomicState::new(State::Requested),
        reply_tx,
        alert_tx,
    );
    assert_eq!(absorb_event(Phase::Running, &event), (Phase::Running, Reaction::Dispatch));
    assert_eq!(absorb_event(Phase::Stopping, &event), (Phase::Stopping, Reaction::Ignore));
    assert_eq!(absorb_event(Phase::Stopped, &event), (Phase::Stopped, Reaction::Ignore));
}

#[test]
fn a_session_runs_over_the_other_address_family_too() {
    let (handle, worker) = pcp_session::handle::session::<Ipv6>();
    let map = pcp_session::map::InboundMap {
        internal_address: Ipv6 { high: 0xFE80_0000_0000_0000, low: 1 },
        internal_port: 443,
        lifetime_seconds: 60,
    };
    let pending = handle
        .submit(pcp_session::map::MapPayload::Inbound(map), pcp_session::handle::RequestType::Once)
        .unwrap();
    match worker.next_event().unwrap() {
        Event::InboundMap(map, _, _, reply, _) => {
            assert_eq!(map.internal_address, Ipv6 { high: 0xFE80_0000_0000_0000, low: 1 });
            assert!(chan::send(&reply, Some(11)));
        }
        _ => panic!("expected an inbound mapping event"),
    }
    assert_eq!(handle.conclude(pending).unwrap().id(), 11);
}

fn plain_inbound() -> MapPayload<Ipv4> {
    MapPayload::Inbound(InboundMap {
        internal_address: Ipv4 { bits: 1 },
        internal_port: 8080,
        lifetime_seconds: 120,
    })
}

#[test]
fn the_event_constructor_passes_the_descriptor_through_unchanged() {
    let (reply_tx, _reply_rx) = chan::channel();
    let (alert_tx, _alert_rx) = chan::channel();
    let payload = MapPayload::Outbound(OutboundMap {
        internal_address: Ipv4 { bits: 1 },
        internal_port: 5000,
        remote_address: Ipv4 { bits: 2 },
        remote_port: 443,
        lifetime_seconds: 300,
    });
    let cell = AtomicState::new(State::Requested);
    match Event::for_mapping(payload, RequestType::KeepAlive, cell, reply_tx, alert_tx) {
        Event::OutboundMap(map, kind, carried, _, _) => {
            assert_eq!(map.internal_port, 5000);
            assert_eq!(map.remote_port, 443);
            assert_eq!(kind, RequestType::KeepAlive);
            assert_eq!(carried.read(), State::Requested);
        }
        _ => panic!("expected an outbound mapping event"),
    }
}

#[test]
fn a_failed_send_settles_as_a_channel_error() {
    let (handle, _worker) = session::<Ipv4>();
    let pending = handle.submit(plain_inbound(), RequestType::Once).unwrap();
    assert!(matches!(settle_submission(false, pending), Err(Error::Channel(ChannelError))));
    let pending = handle.submit(plain_inbound(), RequestType::Once).unwrap();
    assert!(settle_submission(true, pending).is_ok());
}

#[test]
fn each_verdict_settles_as_its_contract_says() {
    let (handle, _worker) = session::<Ipv4>();
    let (follow_up, _follow_rx) = chan::channel::<Event<Ipv4>>();

    let pending = handle.submit(plain_inbound(), RequestType::Once).unwrap();
    match settle_verdict(Verdict::Accept(9), None, pending, chan::clone_sender(&follow_up)) {
        Ok(mapping) => assert_eq!(mapping.id(), 9),
        Err(_) => panic!("an accepted verdict must yield a mapping handle"),
    }

    let pending = handle.submit(plain_inbound(), RequestType::Once).unwrap();
    let fetched = Some(Error::Parsing(ParsingError::Truncated));
    match settle_verdict(Verdict::Rejected, fetched, pending, chan::clone_sender(&follow_up)) {
        Err(e) => assert_eq!(e, Error::Parsing(ParsingError::Truncated)),
        Ok(_) => panic!("a rejected verdict must yield the fetched error"),
    }

    let pending = handle.submit(plain_inbound(), RequestType::Once).unwrap();
    match settle_verdict(Verdict::Rejected, None, pending, chan::clone_sender(&follow_up)) {
        Err(e) => assert_eq!(e, Error::Channel(ChannelError)),
        Ok(_) => panic!("a rejection without a fetchable error must yield Channel"),
    }

    let pending = handle.submit(plain_inbound(), RequestType::Once).unwrap();
    match settle_verdict(Verdict::Severed, None, pending, follow_up) {
        Err(e) => assert_eq!(e, Error::Channel(ChannelError)),
        Ok(_) => panic!("a severed verdict must yield Channel"),
    }
}

#[test]
fn every_error_payload_converts_to_its_own_variant() {
    assert_eq!(Error::from(SocketError { code: 111 }), Error::Socket(SocketError { code: 111 }));
    assert_eq!(Error::from(ChannelError), Error::Channel(ChannelError));
    assert_eq!(
        Error::from(ParsingError::Truncated),
        Error::Parsing(ParsingError::Truncated)
    );
}
