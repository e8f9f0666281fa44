//! End-to-end scenarios driven through the signalling facade.

use whip_signaller::action::Action;
use whip_signaller::error::{DeliveryError, ExchangeError, ProtocolViolation};
use whip_signaller::exchange::ExchangeOutcome;
use whip_signaller::signaller::Signaller;

fn started() -> Signaller {
    let mut s = Signaller::default();
    let acts = s.start();
    assert_eq!(acts.len(), 1);
    match &acts[0] {
        Action::AddConsumer { id } => assert_eq!(id, "xid"),
        other => panic!("unexpected action {:?}", other),
    }
    s
}

/// Drain the queue, collecting every emitted action.
fn drain(s: &mut Signaller) -> Vec<Action> {
    let mut all = Vec::new();
    while let Some(mut acts) = s.process_next() {
        all.append(&mut acts);
    }
    all
}

fn exchanges(acts: &[Action]) -> Vec<(String, String)> {
    acts.iter()
        .filter_map(|a| match a {
            Action::Exchange { id, body } => Some((id.clone(), body.clone())),
            _ => None,
        })
        .collect()
}

#[test]
fn start_is_idempotent() {
    let mut s = started();
    let again = s.start();
    assert!(again.is_empty());
}

#[test]
fn offer_then_sentinel_candidate_exchanges_exactly_once() {
    let mut s = started();
    s.handle_sdp("p1", "v=0...").unwrap();
    s.handle_ice("p1", "candidate:18 1 UDP 2015363327 192.168.0.4 44323 typ host", Some(0), None)
        .unwrap();

    let first = s.process_next().unwrap();
    assert_eq!(first.len(), 1);
    match &first[0] {
        Action::StartTimer { id, delay_ms } => {
            assert_eq!(id, "p1");
            assert_eq!(*delay_ms, 500);
        }
        other => panic!("unexpected action {:?}", other),
    }

    let second = s.process_next().unwrap();
    assert_eq!(second.len(), 1);
    match &second[0] {
        Action::Exchange { id, body } => {
            assert_eq!(id, "p1");
            assert_eq!(
                body,
                "v=0...a=candidate:18 1 UDP 2015363327 192.168.0.4 44323 typ host\n\
                 a=end-of-candidates\n"
            );
        }
        other => panic!("unexpected action {:?}", other),
    }
    assert!(s.process_next().is_none());
}

#[test]
fn offer_alone_exchanges_on_gather_timeout() {
    let mut s = started();
    s.handle_sdp("p2", "v=0\r\no=- 0 0 IN IP4 127.0.0.1\r\n").unwrap();
    s.gather_timeout("p2").unwrap();
    let acts = drain(&mut s);
    let ex = exchanges(&acts);
    assert_eq!(ex.len(), 1);
    assert_eq!(ex[0].0, "p2");
    assert_eq!(ex[0].1, "v=0\r\no=- 0 0 IN IP4 127.0.0.1\r\na=end-of-candidates\n");
}

#[test]
fn later_timer_after_sentinel_is_a_no_op() {
    let mut s = started();
    s.handle_sdp("p1", "v=0...").unwrap();
    s.handle_ice("p1", "candidate:18 ...", Some(0), None).unwrap();
    s.gather_timeout("p1").unwrap();
    let acts = drain(&mut s);
    assert_eq!(exchanges(&acts).len(), 1);
}

#[test]
fn duplicate_timeouts_exchange_only_once() {
    let mut s = started();
    s.handle_sdp("p2", "v=0...").unwrap();
    s.gather_timeout("p2").unwrap();
    s.gather_timeout("p2").unwrap();
    let acts = drain(&mut s);
    assert_eq!(exchanges(&acts).len(), 1);
}

#[test]
fn consumer_removed_before_any_fragment_means_no_exchange_ever() {
    let mut s = started();
    s.consumer_removed("p3").unwrap();
    let acts = drain(&mut s);
    assert!(exchanges(&acts).is_empty());
    assert!(acts.is_empty());
}

#[test]
fn consumer_removed_while_accumulating_cancels_the_session() {
    let mut s = started();
    s.handle_sdp("p3", "v=0...").unwrap();
    s.consumer_removed("p3").unwrap();
    s.gather_timeout("p3").unwrap();
    let acts = drain(&mut s);
    assert!(exchanges(&acts).is_empty());
}

#[test]
fn round_trip_delivers_the_echoed_answer() {
    let mut s = started();
    s.handle_sdp("p1", "v=0\r\n").unwrap();
    for i in 0..5 {
        let cand = format!("candidate:{} 1 UDP 1 10.0.0.{} 9 typ host", i, i);
        s.handle_ice("p1", &cand, Some(0), None).unwrap();
    }
    s.handle_ice("p1", "candidate:18 1 UDP 1 10.0.0.18 9 typ host", Some(0), None).unwrap();
    let acts = drain(&mut s);
    let ex = exchanges(&acts);
    assert_eq!(ex.len(), 1);
    // Stub endpoint: echo back a fixed answer for the received offer.
    let answer = "v=0\r\na=answer\r\n".to_string();
    let outcome = ExchangeOutcome::Response { status: 200, body: answer.clone() };
    let delivered = s.handle_exchange_result("p1", outcome);
    assert_eq!(delivered.len(), 1);
    match &delivered[0] {
        Action::DeliverAnswer { id, answer: got } => {
            assert_eq!(id, "p1");
            assert_eq!(got, &answer);
        }
        other => panic!("unexpected action {:?}", other),
    }
    // The correlation is consumed: a second outcome is dropped.
    let outcome = ExchangeOutcome::Response { status: 200, body: answer };
    assert!(s.handle_exchange_result("p1", outcome).is_empty());
}

#[test]
fn rejected_status_is_reported_once_and_not_retried() {
    let mut s = started();
    s.handle_sdp("r1", "v=0...").unwrap();
    s.gather_timeout("r1").unwrap();
    let acts = drain(&mut s);
    assert_eq!(exchanges(&acts).len(), 1);
    let outcome = ExchangeOutcome::Response { status: 500, body: "oops".to_string() };
    let reported = s.handle_exchange_result("r1", outcome);
    assert_eq!(reported.len(), 1);
    match &reported[0] {
        Action::ReportError { id, error } => {
            assert_eq!(id, "r1");
            assert_eq!(*error, ExchangeError::Rejected(500));
        }
        other => panic!("unexpected action {:?}", other),
    }
    let acts = drain(&mut s);
    assert!(exchanges(&acts).is_empty());
}

#[test]
fn duplicate_offer_is_reported_and_dropped() {
    let mut s = started();
    s.handle_sdp("p1", "v=0 first").unwrap();
    s.handle_sdp("p1", "v=0 second").unwrap();
    s.gather_timeout("p1").unwrap();
    let acts = drain(&mut s);
    assert!(acts.iter().any(|a| matches!(
        a,
        Action::LogViolation { violation: ProtocolViolation::DuplicateOffer, .. }
    )));
    let ex = exchanges(&acts);
    assert_eq!(ex.len(), 1);
    assert_eq!(ex[0].1, "v=0 firsta=end-of-candidates\n");
}

#[test]
fn fragments_after_send_are_dropped_with_a_warning() {
    let mut s = started();
    s.handle_sdp("p1", "v=0...").unwrap();
    s.gather_timeout("p1").unwrap();
    s.handle_ice("p1", "candidate:4 late", Some(0), None).unwrap();
    let acts = drain(&mut s);
    assert_eq!(exchanges(&acts).len(), 1);
    assert!(acts.iter().any(|a| matches!(
        a,
        Action::LogViolation { violation: ProtocolViolation::LateFragment, .. }
    )));
}

#[test]
fn sessions_are_isolated_by_id() {
    let mut s = started();
    s.handle_sdp("a", "v=A").unwrap();
    s.handle_sdp("b", "v=B").unwrap();
    s.gather_timeout("a").unwrap();
    s.gather_timeout("b").unwrap();
    let acts = drain(&mut s);
    let ex = exchanges(&acts);
    assert_eq!(ex.len(), 2);
    assert_eq!(ex[0], ("a".to_string(), "v=Aa=end-of-candidates\n".to_string()));
    assert_eq!(ex[1], ("b".to_string(), "v=Ba=end-of-candidates\n".to_string()));
}

#[test]
fn candidates_before_the_offer_keep_arrival_order() {
    let mut s = started();
    s.handle_ice("p1", "candidate:1 early", Some(0), None).unwrap();
    s.handle_sdp("p1", "v=0...").unwrap();
    s.gather_timeout("p1").unwrap();
    let acts = drain(&mut s);
    let ex = exchanges(&acts);
    assert_eq!(ex.len(), 1);
    assert_eq!(ex[0].1, "a=candidate:1 early\nv=0...a=end-of-candidates\n");
}

#[test]
fn stop_drains_queued_messages_then_disconnects() {
    let mut s = started();
    s.handle_sdp("p1", "v=0...").unwrap();
    s.handle_ice("p1", "candidate:18 now", Some(0), None).unwrap();
    let acts = s.stop();
    assert_eq!(exchanges(&acts).len(), 1);
    // Disconnected: enqueues fail, and nothing is processed any more.
    assert_eq!(s.handle_sdp("p1", "v=0..."), Err(DeliveryError::Closed));
    assert!(s.process_next().is_none());
    // A second stop is a no-op.
    assert!(s.stop().is_empty());
}

#[test]
fn enqueue_before_start_fails_with_closed() {
    let mut s = Signaller::default();
    assert_eq!(s.handle_sdp("p1", "v=0"), Err(DeliveryError::Closed));
    assert_eq!(s.consumer_removed("p1"), Err(DeliveryError::Closed));
    assert_eq!(s.gather_timeout("p1"), Err(DeliveryError::Closed));
    assert_eq!(s.handle_ice("p1", "candidate:1", Some(0), None), Err(DeliveryError::Closed));
}
