//! Unit tests for the mailbox, the sentinel detector, the exchange
//! interpretation and the settings surface.

use whip_signaller::error::{DeliveryError, ExchangeError};
use whip_signaller::exchange::{answer_is_valid, interpret_outcome, ExchangeOutcome};
use whip_signaller::mailbox::Mailbox;
use whip_signaller::message::WhipMessage;
use whip_signaller::sentinel::{candidate_is_sentinel, contains_str};
use whip_signaller::signaller::Signaller;

#[test]
fn mailbox_is_fifo_and_bounded() {
    let mut mb = Mailbox::new(2);
    assert_eq!(mb.len(), 0);
    assert!(mb.send(WhipMessage::ConsumerRemoved { id: "a".into() }).is_ok());
    assert!(mb.send(WhipMessage::ConsumerRemoved { id: "b".into() }).is_ok());
    assert_eq!(
        mb.send(WhipMessage::ConsumerRemoved { id: "c".into() }),
        Err(DeliveryError::Full)
    );
    assert_eq!(mb.len(), 2);
    match mb.pop_front() {
        Some(WhipMessage::ConsumerRemoved { id }) => assert_eq!(id, "a"),
        other => panic!("unexpected message {:?}", other),
    }
    match mb.pop_front() {
        Some(WhipMessage::ConsumerRemoved { id }) => assert_eq!(id, "b"),
        other => panic!("unexpected message {:?}", other),
    }
    assert!(mb.pop_front().is_none());
}

#[test]
fn closed_mailbox_refuses_sends_but_keeps_messages() {
    let mut mb = Mailbox::new(8);
    assert!(mb.send(WhipMessage::GatherTimeout { id: "x".into() }).is_ok());
    mb.close();
    assert_eq!(
        mb.send(WhipMessage::GatherTimeout { id: "y".into() }),
        Err(DeliveryError::Closed)
    );
    assert_eq!(mb.len(), 1);
    assert!(mb.pop_front().is_some());
}

#[test]
fn mailbox_full_signaller_reports_full() {
    let mut s = Signaller::default();
    s.start();
    for i in 0..1000 {
        let id = format!("p{}", i);
        assert!(s.consumer_removed(&id).is_ok());
    }
    assert_eq!(s.consumer_removed("overflow"), Err(DeliveryError::Full));
}

#[test]
fn sentinel_is_detected_by_its_marker_text() {
    assert!(candidate_is_sentinel("candidate:18 1 UDP 1 10.0.0.1 9 typ host"));
    assert!(candidate_is_sentinel("prefix candidate:18"));
    assert!(!candidate_is_sentinel("candidate:17 1 UDP 1 10.0.0.1 9 typ host"));
    assert!(!candidate_is_sentinel("candidate:1"));
    assert!(!candidate_is_sentinel(""));
}

#[test]
fn substring_search_agrees_with_std() {
    let haystacks = ["", "a", "abc", "candidate:18", "xcandidate:1", "aaab", "abab"];
    let needles = ["", "a", "ab", "aab", "candidate:18", "z"];
    for h in haystacks {
        for n in needles {
            assert_eq!(contains_str(h, n), h.contains(n), "h={:?} n={:?}", h, n);
        }
    }
}

#[test]
fn success_with_sdp_body_is_the_answer() {
    let outcome = ExchangeOutcome::Response { status: 201, body: "v=0\r\n".to_string() };
    assert_eq!(interpret_outcome(outcome), Ok("v=0\r\n".to_string()));
}

#[test]
fn non_success_status_is_rejected_with_that_status() {
    for status in [199u16, 300, 404, 500] {
        let outcome = ExchangeOutcome::Response { status, body: "v=0\r\n".to_string() };
        assert_eq!(interpret_outcome(outcome), Err(ExchangeError::Rejected(status)));
    }
}

#[test]
fn success_with_non_sdp_body_is_malformed() {
    let outcome = ExchangeOutcome::Response { status: 200, body: "<html>".to_string() };
    assert_eq!(interpret_outcome(outcome), Err(ExchangeError::MalformedAnswer));
    let outcome = ExchangeOutcome::Response { status: 200, body: "v".to_string() };
    assert_eq!(interpret_outcome(outcome), Err(ExchangeError::MalformedAnswer));
}

#[test]
fn transport_failure_maps_to_transport() {
    assert_eq!(
        interpret_outcome(ExchangeOutcome::TransportFailure),
        Err(ExchangeError::Transport)
    );
}

#[test]
fn answer_validity_requires_a_version_line() {
    assert!(answer_is_valid("v=0"));
    assert!(answer_is_valid("v="));
    assert!(!answer_is_valid("v"));
    assert!(!answer_is_valid(""));
    assert!(!answer_is_valid("o=-"));
}

#[test]
fn default_settings_and_property_surface() {
    let mut s = Signaller::default();
    assert_eq!(s.address(), Some("ws://127.0.0.1:8443".to_string()));
    assert_eq!(s.cafile(), None);
    assert!(s.set_address(Some("http://10.0.0.1:7080/whip/endpoint".to_string())));
    assert!(!s.set_address(None));
    assert_eq!(s.address(), Some("http://10.0.0.1:7080/whip/endpoint".to_string()));
    s.set_cafile("/tmp/ca.pem".to_string());
    assert_eq!(s.cafile(), Some("/tmp/ca.pem".to_string()));
}
