use radar_server::{
    ClientState, PubClient, PubSessionSubscribeResult, RadarServer, S2CMessage,
};
use tokio::sync::mpsc::{channel, Receiver};

fn connect(server: &mut RadarServer, capacity: usize) -> (u32, Receiver<S2CMessage>) {
    let (tx, rx) = channel(capacity);
    let id = server.register_client(PubClient::new(tx, "127.0.0.1:4000".to_string()));
    (id, rx)
}

fn drain(rx: &mut Receiver<S2CMessage>) -> Vec<S2CMessage> {
    let mut out = Vec::new();
    while let Ok(m) = rx.try_recv() {
        out.push(m);
    }
    out
}

fn is_session_id(s: &str) -> bool {
    s.len() == 6 && s.chars().all(|c| c.is_ascii_alphanumeric())
}

fn count(viewers: usize) -> S2CMessage {
    S2CMessage::NotifyViewCount { viewers }
}

#[test]
fn client_ids_advance_from_two() {
    let mut server = RadarServer::new();
    let (a, _ra) = connect(&mut server, 16);
    let (b, _rb) = connect(&mut server, 16);
    assert_eq!(a, 2);
    assert_eq!(b, 3);
    assert_eq!(server.client(a).unwrap().client_id, a);
    assert!(matches!(server.client(a).unwrap().state, ClientState::Unassigned));
    assert!(server.client(99).is_none());
}

#[test]
fn scenario_publisher_and_first_subscriber() {
    let mut server = RadarServer::new();
    let (a, mut ra) = connect(&mut server, 16);
    let s = server.pub_session_create(a).unwrap().session_id.clone();
    assert!(is_session_id(&s));
    match &server.client(a).unwrap().state {
        ClientState::Publisher { session_id } => assert_eq!(session_id, &s),
        _ => panic!("owner is not the publisher"),
    }
    let found = server.pub_session_find(&s).unwrap();
    assert_eq!(found.owner_id, a);
    assert_eq!(found.subscriber_count(), 0);

    let (b, mut rb) = connect(&mut server, 16);
    assert_eq!(server.pub_session_subscribe(&s, b), PubSessionSubscribeResult::Success);
    assert_eq!(drain(&mut rb), vec![count(1)]);
    assert!(drain(&mut ra).is_empty());
    match &server.client(b).unwrap().state {
        ClientState::Subscriber { session_id } => assert_eq!(session_id, &s),
        _ => panic!("b is not a subscriber"),
    }
}

#[test]
fn scenario_second_subscriber_and_departures() {
    let mut server = RadarServer::new();
    let (a, _ra) = connect(&mut server, 16);
    let s = server.pub_session_create(a).unwrap().session_id.clone();
    let (b, mut rb) = connect(&mut server, 16);
    let (c, mut rc) = connect(&mut server, 16);
    assert_eq!(server.pub_session_subscribe(&s, b), PubSessionSubscribeResult::Success);
    assert_eq!(drain(&mut rb), vec![count(1)]);

    assert_eq!(server.pub_session_subscribe(&s, c), PubSessionSubscribeResult::Success);
    assert_eq!(drain(&mut rb), vec![count(2)]);
    assert_eq!(drain(&mut rc), vec![count(2)]);
    assert_eq!(server.pub_session_find(&s).unwrap().subscriber_count(), 2);

    server.unregister_client(b);
    assert!(server.client(b).is_none());
    assert_eq!(server.pub_session_find(&s).unwrap().subscriber_count(), 1);
    assert_eq!(drain(&mut rc), vec![count(1)]);
    assert!(drain(&mut rb).is_empty());

    server.unregister_client(a);
    assert!(server.pub_session_find(&s).is_none());
    assert_eq!(drain(&mut rc), vec![S2CMessage::NotifySessionClosed]);

    let (d, _rd) = connect(&mut server, 16);
    assert_eq!(server.pub_session_subscribe(&s, d), PubSessionSubscribeResult::InvalidSessionId);
}

#[test]
fn scenario_validation_failures() {
    let mut server = RadarServer::new();
    let (a, _ra) = connect(&mut server, 16);
    let s = server.pub_session_create(a).unwrap().session_id.clone();
    assert_eq!(server.pub_session_subscribe(&s, 777), PubSessionSubscribeResult::InvalidClientId);

    let (b, _rb) = connect(&mut server, 16);
    let unknown = "ZZZZZZ".to_string();
    assert_eq!(server.pub_session_subscribe(&unknown, b), PubSessionSubscribeResult::InvalidSessionId);
    assert!(matches!(server.client(b).unwrap().state, ClientState::Unassigned));

    assert_eq!(server.pub_session_subscribe(&s, b), PubSessionSubscribeResult::Success);
    assert!(server.pub_session_create(b).is_none());
    assert!(server.pub_session_create(777).is_none());
}

#[test]
fn roles_block_create_and_subscribe() {
    let mut server = RadarServer::new();
    let (a, _ra) = connect(&mut server, 16);
    let s = server.pub_session_create(a).unwrap().session_id.clone();
    assert!(server.pub_session_create(a).is_none());
    assert_eq!(server.pub_session_subscribe(&s, a), PubSessionSubscribeResult::InvalidClientState);

    let (b, _rb) = connect(&mut server, 16);
    assert_eq!(server.pub_session_subscribe(&s, b), PubSessionSubscribeResult::Success);
    assert_eq!(server.pub_session_subscribe(&s, b), PubSessionSubscribeResult::InvalidClientState);
    assert_eq!(server.pub_session_find(&s).unwrap().subscriber_count(), 1);
}

#[test]
fn session_ids_are_six_alphanumerics() {
    let mut server = RadarServer::new();
    for _ in 0..50 {
        let (a, _ra) = connect(&mut server, 16);
        let s = server.pub_session_create(a).unwrap().session_id.clone();
        assert!(is_session_id(&s), "bad id {}", s);
    }
}

#[test]
fn create_with_id_uses_that_id() {
    let mut server = RadarServer::new();
    let (a, _ra) = connect(&mut server, 16);
    let created = server.pub_session_create_with_id(a, "abc123".to_string()).unwrap();
    assert_eq!(created.session_id, "abc123");
    assert_eq!(created.owner_id, a);
    assert_eq!(created.subscriber_count(), 0);
    assert!(server.pub_session_find(&"abc123".to_string()).is_some());
    assert!(server.pub_session_find(&"abc124".to_string()).is_none());
}

#[test]
fn create_with_taken_id_replaces_session() {
    let mut server = RadarServer::new();
    let (a, _ra) = connect(&mut server, 16);
    let (b, _rb) = connect(&mut server, 16);
    let (c, _rc) = connect(&mut server, 16);
    let id = "Q1w2E3".to_string();
    server.pub_session_create_with_id(a, id.clone()).unwrap();
    assert_eq!(server.pub_session_subscribe(&id, c), PubSessionSubscribeResult::Success);
    let replaced = server.pub_session_create_with_id(b, id.clone()).unwrap();
    assert_eq!(replaced.owner_id, b);
    assert_eq!(replaced.subscriber_count(), 0);
}

#[test]
fn unsubscribe_non_member_keeps_map() {
    let mut server = RadarServer::new();
    let (a, _ra) = connect(&mut server, 16);
    let s = server.pub_session_create(a).unwrap().session_id.clone();
    let (b, mut rb) = connect(&mut server, 16);
    let (c, _rc) = connect(&mut server, 16);
    assert_eq!(server.pub_session_subscribe(&s, b), PubSessionSubscribeResult::Success);
    drain(&mut rb);

    server.pub_session_unsubscribe(&s, c);
    assert_eq!(server.pub_session_find(&s).unwrap().subscriber_count(), 1);
    assert_eq!(drain(&mut rb), vec![count(1)]);
    assert!(matches!(server.client(c).unwrap().state, ClientState::Unassigned));
}

#[test]
fn unsubscribe_unknown_session_sends_nothing() {
    let mut server = RadarServer::new();
    let (a, _ra) = connect(&mut server, 16);
    let s = server.pub_session_create(a).unwrap().session_id.clone();
    let (b, mut rb) = connect(&mut server, 16);
    assert_eq!(server.pub_session_subscribe(&s, b), PubSessionSubscribeResult::Success);
    drain(&mut rb);

    server.pub_session_unsubscribe(&"ZZZZZZ".to_string(), b);
    assert!(drain(&mut rb).is_empty());
    assert_eq!(server.pub_session_find(&s).unwrap().subscriber_count(), 1);
    match &server.client(b).unwrap().state {
        ClientState::Subscriber { session_id } => assert_eq!(session_id, &s),
        _ => panic!("role changed by an unrelated unsubscribe"),
    }
}

#[test]
fn unsubscribe_resets_role() {
    let mut server = RadarServer::new();
    let (a, _ra) = connect(&mut server, 16);
    let s = server.pub_session_create(a).unwrap().session_id.clone();
    let (b, _rb) = connect(&mut server, 16);
    assert_eq!(server.pub_session_subscribe(&s, b), PubSessionSubscribeResult::Success);
    server.pub_session_unsubscribe(&s, b);
    assert!(matches!(server.client(b).unwrap().state, ClientState::Unassigned));
    assert_eq!(server.pub_session_find(&s).unwrap().subscriber_count(), 0);
    let (c, _rc) = connect(&mut server, 16);
    server.pub_session_create(b).unwrap();
    assert_eq!(server.pub_session_subscribe(&s, c), PubSessionSubscribeResult::Success);
}

#[test]
fn stale_subscriber_after_close() {
    let mut server = RadarServer::new();
    let (a, _ra) = connect(&mut server, 16);
    let s = server.pub_session_create(a).unwrap().session_id.clone();
    let (b, mut rb) = connect(&mut server, 16);
    assert_eq!(server.pub_session_subscribe(&s, b), PubSessionSubscribeResult::Success);
    server.unregister_client(a);
    assert_eq!(drain(&mut rb), vec![count(1), S2CMessage::NotifySessionClosed]);
    assert!(matches!(server.client(b).unwrap().state, ClientState::Subscriber { .. }));
    server.unregister_client(b);
    assert!(server.client(b).is_none());
    server.unregister_client(b);
}

#[test]
fn full_queue_misses_broadcast_only() {
    let mut server = RadarServer::new();
    let (a, _ra) = connect(&mut server, 16);
    let s = server.pub_session_create(a).unwrap().session_id.clone();
    let (b, mut rb) = connect(&mut server, 1);
    let (c, mut rc) = connect(&mut server, 16);
    assert_eq!(server.pub_session_subscribe(&s, b), PubSessionSubscribeResult::Success);
    // b's queue now holds its first count and is full.
    assert_eq!(server.pub_session_subscribe(&s, c), PubSessionSubscribeResult::Success);
    assert_eq!(drain(&mut rc), vec![count(2)]);
    assert_eq!(drain(&mut rb), vec![count(1)]);
    assert_eq!(server.pub_session_find(&s).unwrap().subscriber_count(), 2);

    let session = server.pub_session_find(&s).unwrap();
    assert_eq!(session.broadcast(&S2CMessage::NotifySessionClosed), vec![true, true]);
    assert_eq!(drain(&mut rb), vec![S2CMessage::NotifySessionClosed]);
    assert_eq!(drain(&mut rc), vec![S2CMessage::NotifySessionClosed]);
}

#[test]
fn closed_queue_misses_broadcast_only() {
    let mut server = RadarServer::new();
    let (a, _ra) = connect(&mut server, 16);
    let s = server.pub_session_create(a).unwrap().session_id.clone();
    let (b, rb) = connect(&mut server, 16);
    let (c, mut rc) = connect(&mut server, 16);
    assert_eq!(server.pub_session_subscribe(&s, b), PubSessionSubscribeResult::Success);
    assert_eq!(server.pub_session_subscribe(&s, c), PubSessionSubscribeResult::Success);
    drop(rb);
    drain(&mut rc);
    let session = server.pub_session_find(&s).unwrap();
    let message = S2CMessage::Response { payload: "hello".to_string() };
    assert_eq!(session.broadcast(&message), vec![false, true]);
    assert_eq!(drain(&mut rc), vec![message]);
}

#[test]
fn full_queue_reported_in_outcomes() {
    let mut server = RadarServer::new();
    let (a, _ra) = connect(&mut server, 16);
    let s = server.pub_session_create(a).unwrap().session_id.clone();
    let (b, mut rb) = connect(&mut server, 16);
    let (c, _rc) = connect(&mut server, 1);
    assert_eq!(server.pub_session_subscribe(&s, b), PubSessionSubscribeResult::Success);
    assert_eq!(server.pub_session_subscribe(&s, c), PubSessionSubscribeResult::Success);
    drain(&mut rb);
    let session = server.pub_session_find(&s).unwrap();
    assert_eq!(session.broadcast(&S2CMessage::NotifySessionClosed), vec![true, false]);
    assert_eq!(drain(&mut rb), vec![S2CMessage::NotifySessionClosed]);
}

#[test]
fn broadcast_to_empty_session() {
    let mut server = RadarServer::new();
    let (a, mut ra) = connect(&mut server, 16);
    let s = server.pub_session_create(a).unwrap().session_id.clone();
    let session = server.pub_session_find(&s).unwrap();
    assert!(session.broadcast(&S2CMessage::NotifySessionClosed).is_empty());
    assert!(drain(&mut ra).is_empty());
}
