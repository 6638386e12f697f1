use chat_realtime::connection::{
    start_connection, CloseCause, ConnState, Event, Reaction, CLIENT_TIMEOUT_MS, HEARTBEAT_INTERVAL_MS,
};
use chat_realtime::protocol::WsMessage;
use chat_realtime::registry::ChatServer;

#[test]
fn handshake_without_identity_is_rejected() {
    let mut srv = ChatServer::new();
    assert!(start_connection(None, "s", &mut srv, 0).is_none());
    assert!(start_connection(Some(0), "s", &mut srv, 0).is_none());
    assert!(srv.lookup(0).is_none());
}

#[test]
fn handshake_registers_session() {
    let mut srv = ChatServer::new();
    let conn = start_connection(Some(7), "s7", &mut srv, 100).unwrap();
    assert_eq!(conn.user_id(), 7);
    assert_eq!(*conn.state(), ConnState::Active);
    assert_eq!(conn.last_heartbeat(), 100);
    assert_eq!(srv.lookup(7), Some(&"s7"));
}

#[test]
fn heartbeat_timeout_closes_only_that_connection() {
    let mut srv = ChatServer::new();
    let mut quiet = start_connection(Some(1), "s1", &mut srv, 0).unwrap();
    let mut chatty = start_connection(Some(2), "s2", &mut srv, 0).unwrap();
    let mut now = 0;
    let mut closed_at = None;
    for _ in 0..5 {
        now += HEARTBEAT_INTERVAL_MS;
        assert!(matches!(chatty.step(&mut srv, Event::Pong, now), Reaction::Nothing));
        match quiet.step(&mut srv, Event::Tick, now) {
            Reaction::Probe => {}
            Reaction::Close { cause } => {
                assert_eq!(cause, CloseCause::HeartbeatTimeout);
                closed_at = Some(now);
                break;
            }
            other => panic!("unexpected reaction {:?}", other),
        }
    }
    assert_eq!(closed_at, Some(15000));
    assert!(closed_at.unwrap() > CLIENT_TIMEOUT_MS);
    assert_eq!(*quiet.state(), ConnState::Closing);
    assert!(srv.lookup(1).is_none());
    assert_eq!(srv.lookup(2), Some(&"s2"));
    quiet.finish();
    assert_eq!(*quiet.state(), ConnState::Closed);
    assert!(matches!(chatty.step(&mut srv, Event::Tick, now), Reaction::Probe));
}

#[test]
fn tick_at_exactly_the_timeout_still_probes() {
    let mut srv = ChatServer::new();
    let mut conn = start_connection(Some(1), 1u8, &mut srv, 1000).unwrap();
    assert!(matches!(conn.step(&mut srv, Event::Tick, 1000 + CLIENT_TIMEOUT_MS), Reaction::Probe));
    assert!(matches!(
        conn.step(&mut srv, Event::Tick, 1001 + CLIENT_TIMEOUT_MS),
        Reaction::Close { cause: CloseCause::HeartbeatTimeout }
    ));
}

#[test]
fn tick_with_clock_behind_heartbeat_probes() {
    let mut srv = ChatServer::new();
    let mut conn = start_connection(Some(1), 1u8, &mut srv, 50_000).unwrap();
    assert!(matches!(conn.step(&mut srv, Event::Tick, 10), Reaction::Probe));
}

#[test]
fn ping_is_answered_and_refreshes_heartbeat() {
    let mut srv = ChatServer::new();
    let mut conn = start_connection(Some(1), 1u8, &mut srv, 0).unwrap();
    match conn.step(&mut srv, Event::Ping { payload: vec![1, 2, 3] }, 9000) {
        Reaction::Pong { payload } => assert_eq!(payload, vec![1, 2, 3]),
        other => panic!("unexpected reaction {:?}", other),
    }
    assert_eq!(conn.last_heartbeat(), 9000);
    assert!(matches!(conn.step(&mut srv, Event::Tick, 15000), Reaction::Probe));
}

#[test]
fn data_frame_is_dispatched_and_counts_as_life() {
    let mut srv = ChatServer::new();
    let mut conn = start_connection(Some(1), 1u8, &mut srv, 0).unwrap();
    let msg = WsMessage::MessageRead { message_id: 4 };
    match conn.step(&mut srv, Event::Text { message: Some(msg) }, 8000) {
        Reaction::Dispatch { message: WsMessage::MessageRead { message_id } } => assert_eq!(message_id, 4),
        other => panic!("unexpected reaction {:?}", other),
    }
    assert_eq!(conn.last_heartbeat(), 8000);
}

#[test]
fn malformed_frame_is_discarded_and_connection_stays() {
    let mut srv = ChatServer::new();
    let mut conn = start_connection(Some(1), 1u8, &mut srv, 0).unwrap();
    assert!(matches!(conn.step(&mut srv, Event::Text { message: None }, 10), Reaction::Discard));
    assert_eq!(*conn.state(), ConnState::Active);
    assert_eq!(srv.lookup(1), Some(&1u8));
}

#[test]
fn other_frames_change_nothing() {
    let mut srv = ChatServer::new();
    let mut conn = start_connection(Some(1), 1u8, &mut srv, 5).unwrap();
    assert!(matches!(conn.step(&mut srv, Event::Other, 700), Reaction::Nothing));
    assert_eq!(conn.last_heartbeat(), 5);
}

#[test]
fn peer_close_leaves_registry_once() {
    let mut srv = ChatServer::new();
    let mut conn = start_connection(Some(1), "old", &mut srv, 0).unwrap();
    assert!(matches!(
        conn.step(&mut srv, Event::Close, 1),
        Reaction::Close { cause: CloseCause::PeerClosed }
    ));
    assert!(srv.lookup(1).is_none());
    srv.join(1, "new");
    assert!(matches!(conn.step(&mut srv, Event::Close, 2), Reaction::Nothing));
    assert!(matches!(conn.step(&mut srv, Event::Ended, 3), Reaction::Nothing));
    assert_eq!(srv.lookup(1), Some(&"new"));
}

#[test]
fn read_error_and_stream_end_close() {
    let mut srv = ChatServer::new();
    let mut a = start_connection(Some(1), 1u8, &mut srv, 0).unwrap();
    let mut b = start_connection(Some(2), 2u8, &mut srv, 0).unwrap();
    assert!(matches!(a.step(&mut srv, Event::ReadError, 1), Reaction::Close { cause: CloseCause::ReadError }));
    assert!(matches!(b.step(&mut srv, Event::Ended, 1), Reaction::Close { cause: CloseCause::StreamEnded }));
    assert!(srv.lookup(1).is_none());
    assert!(srv.lookup(2).is_none());
}

#[test]
fn closed_connection_ignores_everything() {
    let mut srv = ChatServer::new();
    let mut conn = start_connection(Some(1), 1u8, &mut srv, 0).unwrap();
    conn.step(&mut srv, Event::Close, 1);
    conn.finish();
    assert!(matches!(conn.step(&mut srv, Event::Ping { payload: vec![] }, 2), Reaction::Nothing));
    assert!(matches!(conn.step(&mut srv, Event::Tick, 100_000), Reaction::Nothing));
    assert_eq!(*conn.state(), ConnState::Closed);
}
