use analytics_core::catalog::Implementation;
use analytics_core::connection::{
    call_deadline_ms, classify_transport, invalidates_channel, needs_connect, transition,
    ConnectionEvent, ConnectionState, TransportCode,
};
use analytics_core::dispatch::{EngineError, ErrorKind};
use analytics_core::response::{batch_replies, health_check, AnalysisResponse, BatchState, BatchStream, BridgeState};
use analytics_core::service::AnalyticsService;

fn ids(v: &[&str]) -> Vec<String> {
    v.iter().map(|s| s.to_string()).collect()
}

#[test]
fn batch_emits_one_reply_per_request_in_order() {
    let mut s = BatchStream::new(ids(&["a", "b", "c"]));
    assert_eq!(s.state(), BatchState::Open);
    assert_eq!(s.next_index(), Some(0));
    s.emit(AnalysisResponse::from_outcome("a", "mean", 3, true, Ok((Implementation::Native, 1, "2.0".to_string()))));
    assert_eq!(s.next_index(), Some(1));
    let e = EngineError::new(ErrorKind::NotImplemented, "algorithm 'unknown' is not implemented natively");
    s.emit(AnalysisResponse::failure("b", &e));
    s.emit(AnalysisResponse::from_outcome("c", "max", 4, true, Ok((Implementation::Native, 1, "9.0".to_string()))));
    assert_eq!(s.state(), BatchState::Closed);
    assert_eq!(s.next_index(), None);
    let replies = s.into_replies();
    assert_eq!(replies.len(), 3);
    assert_eq!(replies[0].request_id, "a");
    assert!(replies[0].success);
    assert_eq!(replies[0].result_json, "2.0");
    assert_eq!(replies[1].request_id, "b");
    assert!(!replies[1].success);
    assert!(replies[1].error_message.starts_with("NotImplemented"));
    assert_eq!(replies[2].request_id, "c");
    assert!(replies[2].success);
    assert_eq!(replies[2].result_json, "9.0");
}

#[test]
fn batch_reply_ids_are_forced_to_request_order() {
    let replies = vec![
        AnalysisResponse::decode_failure("wrong", "bad body"),
        AnalysisResponse::success("", "1.0".to_string(), None),
    ];
    let out = batch_replies(ids(&["x", "y"]), replies);
    assert_eq!(out.len(), 2);
    assert_eq!(out[0].request_id, "x");
    assert!(!out[0].success);
    assert_eq!(out[0].error_message, "Request conversion error: bad body");
    assert_eq!(out[1].request_id, "y");
    assert!(out[1].success);
    assert_eq!(out[1].result_json, "1.0");
    assert!(out[1].metadata.is_none());
}

#[test]
fn cancelled_batch_keeps_emitted_replies() {
    let mut s = BatchStream::new(ids(&["a", "b"]));
    s.emit(AnalysisResponse::success("a", "1.0".to_string(), None));
    s.cancel();
    assert_eq!(s.state(), BatchState::Cancelled);
    assert_eq!(s.next_index(), None);
    assert_eq!(s.into_replies().len(), 1);
    let empty = BatchStream::new(vec![]);
    assert_eq!(empty.state(), BatchState::Closed);
}

#[test]
fn health_with_bridge_disabled() {
    let s = AnalyticsService::new();
    let h = s.health_check("0.1.0");
    assert!(h.healthy);
    assert_eq!(h.version, "0.1.0");
    assert_eq!(h.capabilities[0], ("native".to_string(), "available".to_string()));
    assert_eq!(h.capabilities[1], ("alternate".to_string(), "disabled".to_string()));
    let u = health_check(BridgeState::Unavailable, "v");
    assert_eq!(u.capabilities[1].1, "unavailable");
}

#[test]
fn bridge_probe_failure_contributes_nothing() {
    let s = AnalyticsService::with_bridge(false, vec![]);
    assert_eq!(s.health_check("v").capabilities[1].1, "unavailable");
    assert_eq!(s.get_supported_algorithms().len(), 20);
}

#[test]
fn connection_lifecycle() {
    assert!(needs_connect(ConnectionState::Idle));
    assert_eq!(transition(ConnectionState::Idle, ConnectionEvent::Connect), ConnectionState::Connecting);
    assert_eq!(transition(ConnectionState::Connecting, ConnectionEvent::ConnectSucceeded), ConnectionState::Ready);
    assert_eq!(transition(ConnectionState::Connecting, ConnectionEvent::ConnectFailed), ConnectionState::Failed);
    assert!(needs_connect(ConnectionState::Failed));
    assert!(!needs_connect(ConnectionState::Ready));
    assert_eq!(transition(ConnectionState::Ready, ConnectionEvent::CallFinished { unavailable: false }), ConnectionState::Ready);
    assert_eq!(transition(ConnectionState::Ready, ConnectionEvent::CallFinished { unavailable: true }), ConnectionState::Idle);
    assert_eq!(transition(ConnectionState::Ready, ConnectionEvent::Disconnect), ConnectionState::Idle);
    assert_eq!(transition(ConnectionState::Idle, ConnectionEvent::ConnectSucceeded), ConnectionState::Idle);
}

#[test]
fn transport_failures() {
    assert_eq!(classify_transport(TransportCode::DeadlineExceeded), ErrorKind::Timeout);
    assert_eq!(classify_transport(TransportCode::Unavailable), ErrorKind::Transport);
    assert!(invalidates_channel(TransportCode::Unavailable));
    assert!(!invalidates_channel(TransportCode::Internal));
    assert_eq!(call_deadline_ms(250, 30), 250);
    assert_eq!(call_deadline_ms(0, 30), 30000);
    assert_eq!(call_deadline_ms(-1, u64::MAX), u64::MAX);
}
