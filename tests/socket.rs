use nu_plugin_socket::commands::{Connect, Listen, Protocol};
use nu_plugin_socket::endpoint::{first_address, port_from_int, Endpoint};
use nu_plugin_socket::error::{ErrorKind, SocketError, Step, Subject};
use nu_plugin_socket::payload::{
    input_payload, receive_buffer, reply_payload, take_received, PipelineValue,
    DATAGRAM_BUFFER_LEN, REQUEST_BUFFER_LEN,
};
use nu_plugin_socket::server::{
    AcceptOutcome, LoopAction, Phase, ServerLoop, StopReason, IDLE_POLL_MILLIS,
};
use nu_plugin_socket::timeout::{resolve_timeout, timeout_as_unsigned, DEFAULT_TIMEOUT_NANOS};

const SECOND: i64 = 1_000_000_000;

#[test]
fn ports_in_range_are_accepted() {
    assert_eq!(port_from_int(0).unwrap(), 0);
    assert_eq!(port_from_int(80).unwrap(), 80);
    assert_eq!(port_from_int(65535).unwrap(), 65535);
}

#[test]
fn ports_out_of_range_are_invalid_arguments() {
    for bad in [-1i64, 65536, i64::MIN, i64::MAX] {
        let e = port_from_int(bad).unwrap_err();
        assert_eq!(e.step, Step::InvalidPort);
        assert_eq!(e.kind(), ErrorKind::InvalidArgument);
        assert_eq!(e.subject(), Subject::Port);
        assert_eq!(e.title(), "Invalid port number");
    }
}

#[test]
fn connect_plan_refuses_bad_port_before_anything_else() {
    let r = Connect.plan("localhost".to_string(), 70000, false, None, None, PipelineValue::Other("int".to_string()));
    assert_eq!(r.unwrap_err().step, Step::InvalidPort);
}

#[test]
fn connect_plan_refuses_unsupported_input() {
    let r = Connect.plan("localhost".to_string(), 80, false, None, None, PipelineValue::Other("record".to_string()));
    let e = r.unwrap_err();
    assert_eq!(e.step, Step::UnsupportedInput);
    assert_eq!(e.cause, "record");
    assert_eq!(e.subject(), Subject::Input);
}

#[test]
fn connect_plan_collects_everything() {
    let p = Connect
        .plan("example.com".to_string(), 43, true, None, Some(5 * SECOND), PipelineValue::Text("ping".to_string()))
        .unwrap();
    assert_eq!(p.endpoint.host, "example.com");
    assert_eq!(p.endpoint.port, 43);
    assert_eq!(p.protocol, Protocol::Udp);
    assert_eq!(p.timeout_nanos, 5_000_000_000);
    assert_eq!(p.payload, b"ping".to_vec());
    let q = Connect.plan("h".to_string(), 1, false, None, None, PipelineValue::Nothing).unwrap();
    assert_eq!(q.protocol, Protocol::Tcp);
    assert_eq!(q.timeout_nanos, 10_000_000_000);
    assert!(q.payload.is_empty());
}

#[test]
fn listen_plan_checks_port() {
    let p = Listen.plan("0.0.0.0".to_string(), 8080, true).unwrap();
    assert_eq!(p.endpoint.port, 8080);
    assert!(p.single_shot);
    assert_eq!(Listen.plan("0.0.0.0".to_string(), 65536, false).unwrap_err().step, Step::InvalidPort);
}

#[test]
fn timeout_precedence() {
    assert_eq!(resolve_timeout(Some(2 * SECOND), Some(5 * SECOND)), 2 * SECOND);
    assert_eq!(resolve_timeout(None, Some(5 * SECOND)), 5 * SECOND);
    assert_eq!(resolve_timeout(None, None), 10 * SECOND);
    assert_eq!(DEFAULT_TIMEOUT_NANOS, 10 * SECOND);
    assert_eq!(resolve_timeout(Some(2 * SECOND), None), 2 * SECOND);
}

#[test]
fn negative_timeout_wraps() {
    assert_eq!(timeout_as_unsigned(-1), u64::MAX);
    assert_eq!(timeout_as_unsigned(i64::MIN), 1u64 << 63);
    assert_eq!(timeout_as_unsigned(7), 7);
}

#[test]
fn address_text_joins_host_and_port() {
    let e = Endpoint::new("example.com".to_string(), 80).unwrap();
    assert_eq!(e.address_text(), "example.com:80");
    assert_eq!(Endpoint::new("h".to_string(), 0).unwrap().address_text(), "h:0");
    assert_eq!(Endpoint::new("::1".to_string(), 65535).unwrap().address_text(), "::1:65535");
    assert_eq!(Endpoint::new("x".to_string(), 10).unwrap().address_text(), "x:10");
}

#[test]
fn first_address_is_stable() {
    let found = vec![(127u8, 1u16), (10, 2), (192, 3)];
    let a = first_address(Ok(found.clone())).unwrap();
    let b = first_address(Ok(found)).unwrap();
    assert_eq!(a, (127, 1));
    assert_eq!(a, b);
}

#[test]
fn first_address_errors() {
    let e = first_address::<u32>(Err("no such host".to_string())).unwrap_err();
    assert_eq!(e.step, Step::Resolve);
    assert_eq!(e.cause, "no such host");
    assert_eq!(e.subject(), Subject::Host);
    let e = first_address::<u32>(Ok(vec![])).unwrap_err();
    assert_eq!(e.step, Step::NoAddress);
    assert_eq!(e.kind(), ErrorKind::NoAddress);
}

#[test]
fn input_payload_shapes() {
    assert_eq!(input_payload(PipelineValue::Text("ping".to_string())).unwrap(), b"ping".to_vec());
    assert_eq!(input_payload(PipelineValue::Text("é".to_string())).unwrap(), vec![0xC3, 0xA9]);
    assert_eq!(input_payload(PipelineValue::Binary(vec![0, 255])).unwrap(), vec![0, 255]);
    assert!(input_payload(PipelineValue::Nothing).unwrap().is_empty());
}

#[test]
fn reply_must_be_bytes() {
    let e = reply_payload(PipelineValue::Other("int".to_string())).unwrap_err();
    assert_eq!(e.step, Step::ClosureOutput);
    assert_eq!(e.kind(), ErrorKind::Protocol);
    assert_eq!(e.cause, "int");
    assert_eq!(reply_payload(PipelineValue::Nothing).unwrap_err().step, Step::ClosureOutput);
    assert_eq!(reply_payload(PipelineValue::Text("pong".to_string())).unwrap(), b"pong".to_vec());
    assert_eq!(reply_payload(PipelineValue::Binary(vec![1, 2])).unwrap(), vec![1, 2]);
}

#[test]
fn datagram_truncated_to_received_length() {
    let mut buf = receive_buffer(DATAGRAM_BUFFER_LEN);
    assert_eq!(buf.len(), 65535);
    assert!(buf.iter().all(|b| *b == 0));
    buf[..4].copy_from_slice(&[1, 2, 3, 4]);
    assert_eq!(take_received(buf, 4), vec![1, 2, 3, 4]);
    let req = receive_buffer(REQUEST_BUFFER_LEN);
    assert_eq!(req.len(), 4096);
    assert!(take_received(req, 0).is_empty());
}

#[test]
fn single_shot_stops_after_one_connection() {
    let mut lp = ServerLoop::new(true);
    assert_eq!(lp.check_cancel(false), LoopAction::Accept);
    assert_eq!(lp.on_accept(AcceptOutcome::WouldBlock), LoopAction::Sleep(IDLE_POLL_MILLIS));
    assert_eq!(lp.check_cancel(false), LoopAction::Accept);
    assert_eq!(lp.on_accept(AcceptOutcome::Accepted), LoopAction::Dispatch { then_stop: true });
    assert!(lp.is_stopped());
    assert_eq!(lp.phase, Phase::Stopped(StopReason::SingleShotDone));
    assert_eq!(lp.check_cancel(false), LoopAction::Stop(StopReason::SingleShotDone));
}

#[test]
fn cancellation_while_idle_stops_without_connection() {
    let mut lp = ServerLoop::new(false);
    assert_eq!(lp.check_cancel(false), LoopAction::Accept);
    assert_eq!(lp.on_accept(AcceptOutcome::WouldBlock), LoopAction::Sleep(50));
    assert_eq!(lp.check_cancel(true), LoopAction::Stop(StopReason::Cancelled));
    assert!(lp.is_stopped());
}

#[test]
fn server_keeps_serving_after_a_bad_connection() {
    let mut lp = ServerLoop::new(false);
    assert_eq!(lp.check_cancel(false), LoopAction::Accept);
    assert_eq!(lp.on_accept(AcceptOutcome::Accepted), LoopAction::Dispatch { then_stop: false });
    assert!(reply_payload(PipelineValue::Other("int".to_string())).is_err());
    assert_eq!(lp.check_cancel(false), LoopAction::Accept);
    assert_eq!(lp.on_accept(AcceptOutcome::Accepted), LoopAction::Dispatch { then_stop: false });
    assert_eq!(reply_payload(PipelineValue::Text("ok".to_string())).unwrap(), b"ok".to_vec());
    assert!(!lp.is_stopped());
}

#[test]
fn accept_failure_is_fatal() {
    let mut lp = ServerLoop::new(false);
    lp.check_cancel(false);
    assert_eq!(lp.on_accept(AcceptOutcome::Failed), LoopAction::Stop(StopReason::AcceptFailed));
    assert_eq!(lp.check_cancel(true), LoopAction::Stop(StopReason::AcceptFailed));
}

#[test]
fn every_step_has_title_kind_and_subject() {
    let e = SocketError::new(Step::UdpReceive, "timed out".to_string());
    assert_eq!(e.title(), "Failed to receive UDP packet (timed out?)");
    assert_eq!(e.kind(), ErrorKind::Receive);
    assert_eq!(e.subject(), Subject::Call);
    let e = SocketError::new(Step::ListenBind, String::new());
    assert_eq!(e.kind(), ErrorKind::Bind);
    assert_eq!(e.title(), "Failed to bind to address");
}
