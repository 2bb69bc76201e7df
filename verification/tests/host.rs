use std::cell::RefCell;

use raxon::core_types::Size;
use raxon::host::{
    command_batch_response,
    HostBridge, HostBridgeJsonError, HostBridgeJsonErrorCode, HostBridgeJsonReplyResult,
    HostBridgeJsonRequest, HostBridgeRequest, HostBridgeResponse, HostDriver, HostSession,
    HostSessionError, HostSessionHandle, HostSessionRegistry, WireProtocolError,
    HOST_BRIDGE_PROTOCOL_VERSION,
};

#[derive(Debug)]
struct RecordingDriver {
    ticks: usize,
    viewport: Size,
    events: RefCell<Vec<String>>,
    command_batches: Vec<String>,
}

impl RecordingDriver {
    fn new(command_batches: Vec<&str>) -> Self {
        RecordingDriver {
            ticks: 0,
            viewport: Size::new(0, 0),
            events: RefCell::new(Vec::new()),
            command_batches: command_batches.into_iter().map(String::from).collect(),
        }
    }
}

impl HostDriver for RecordingDriver {
    fn tick(&mut self) {
        self.ticks += 1;
    }

    fn set_viewport(&mut self, viewport: Size) {
        self.viewport = viewport;
    }

    fn dispatch_wire_event_batch_json(&self, payload: &str) -> Result<(), WireProtocolError> {
        if payload.starts_with('{') {
            self.events.borrow_mut().push(payload.to_string());
            Ok(())
        } else {
            Err(WireProtocolError { message: "bad event batch".to_string() })
        }
    }

    fn drain_command_batch_json(&mut self) -> Result<String, serde_json::Error> {
        if self.command_batches.is_empty() {
            Ok("{\"commands\":[]}".to_string())
        } else {
            Ok(self.command_batches.remove(0))
        }
    }
}


#[test]
fn bridge_json_routes_resize_tick_and_nested_command_batch() {
    let mut registry = HostSessionRegistry::new();
    let handle =
        registry.insert_driver(RecordingDriver::new(vec!["{\"commands\":[{\"kind\":\"mount\",\"id\":7}]}"]));

    let request = HostBridgeRequest::ResizeTickAndDrainCommandBatch {
        handle: handle.to_raw(),
        width: 375.0f32.to_bits(),
        height: 812.0f32.to_bits(),
    };
    let response = registry
        .handle_decoded_request(Ok(HostBridgeJsonRequest::new(request)))
        .expect("bridge request succeeds");

    assert_eq!(
        response,
        HostBridgeResponse::CommandBatch { batch: "{\"commands\":[{\"kind\":\"mount\",\"id\":7}]}".to_string() }
    );
    let driver = registry.get(handle).expect("session remains live").driver();
    assert_eq!(driver.ticks, 1);
    assert_eq!(driver.viewport, Size::new(375.0f32.to_bits(), 812.0f32.to_bits()));
}

#[test]
fn bridge_json_dispatches_events_and_destroy_errors_after_removal() {
    let mut registry = HostSessionRegistry::new();
    let handle = registry.insert_driver(RecordingDriver::new(Vec::new()));
    let batch = "{\"events\":[{\"type\":\"tap\",\"target\":42}]}".to_string();

    let response = registry
        .handle_request(HostBridgeRequest::DispatchEventBatch { handle: handle.to_raw(), batch: batch.clone() })
        .expect("event dispatch succeeds");
    assert_eq!(response, HostBridgeResponse::Acknowledged);
    assert_eq!(
        registry.get(handle).expect("session remains live").driver().events.borrow()[0],
        batch
    );

    let response = registry
        .handle_request(HostBridgeRequest::Destroy { handle: handle.to_raw() })
        .expect("destroy succeeds");
    assert_eq!(response, HostBridgeResponse::Destroyed { handle: handle.to_raw() });
    assert_eq!(
        registry.handle_request(HostBridgeRequest::TickAndDrainCommandBatch { handle: handle.to_raw() }),
        Err(HostSessionError::UnknownSession { handle: handle.to_raw() })
    );
}

#[test]
fn bridge_json_reports_invalid_request_json_and_unknown_handles() {
    let mut registry: HostSessionRegistry<RecordingDriver> = HostSessionRegistry::new();
    assert!(matches!(
        registry.handle_decoded_request(Err("key must be a string".to_string())),
        Err(HostSessionError::RequestJson(_))
    ));
    assert_eq!(
        registry.handle_decoded_request(Ok(HostBridgeJsonRequest {
            protocol_version: HOST_BRIDGE_PROTOCOL_VERSION + 1,
            request: HostBridgeRequest::DrainCommandBatch { handle: 99 },
        })),
        Err(HostSessionError::UnsupportedBridgeVersion {
            expected: HOST_BRIDGE_PROTOCOL_VERSION,
            found: HOST_BRIDGE_PROTOCOL_VERSION + 1,
        })
    );
    assert_eq!(
        registry.handle_request(HostBridgeRequest::DrainCommandBatch { handle: 99 }),
        Err(HostSessionError::UnknownSession { handle: 99 })
    );
}

#[test]
fn host_bridge_owns_registry_and_returns_json_replies() {
    let mut bridge = HostBridge::new();
    let handle = bridge.insert_driver(RecordingDriver::new(vec!["{\"commands\":[{\"kind\":\"frame\",\"id\":11}]}"]));
    assert!(bridge.contains(handle));

    let reply = bridge.handle_decoded_request_reply(Ok(HostBridgeJsonRequest::new(
        HostBridgeRequest::TickAndDrainCommandBatch { handle: handle.to_raw() },
    )));
    assert_eq!(reply.protocol_version, HOST_BRIDGE_PROTOCOL_VERSION);
    assert_eq!(
        reply.result,
        HostBridgeJsonReplyResult::Success {
            response: HostBridgeResponse::CommandBatch {
                batch: "{\"commands\":[{\"kind\":\"frame\",\"id\":11}]}".to_string()
            },
        }
    );

    let reply = bridge.handle_decoded_request_reply(Ok(HostBridgeJsonRequest::new(
        HostBridgeRequest::DrainCommandBatch { handle: 999 },
    )));
    match reply.result {
        HostBridgeJsonReplyResult::Error { error } => {
            assert_eq!(error.code, HostBridgeJsonErrorCode::UnknownSession);
            assert_eq!(error.message, "unknown host session handle 999");
            assert_eq!(error.handle, Some(999));
        }
        _ => panic!("expected error reply"),
    }

    let reply = bridge.handle_decoded_request_reply(Err("expected value".to_string()));
    match reply.result {
        HostBridgeJsonReplyResult::Error { error } => {
            assert_eq!(error.code, HostBridgeJsonErrorCode::RequestJson);
            assert_eq!(error.message, "invalid host request JSON: expected value");
        }
        _ => panic!("expected error reply"),
    }
}

#[test]
fn handles_are_allocated_in_order_and_never_reused_while_live() {
    let mut registry = HostSessionRegistry::new();
    let a = registry.insert_driver(RecordingDriver::new(Vec::new()));
    let b = registry.insert_driver(RecordingDriver::new(Vec::new()));
    assert_eq!(a.to_raw(), 1);
    assert_eq!(b.to_raw(), 2);
    assert_eq!(registry.len(), 2);
    assert!(registry.remove(a).is_some());
    assert!(registry.remove(a).is_none());
    assert!(!registry.contains(a));
    let c = registry.insert_session(HostSession::new(RecordingDriver::new(Vec::new())));
    assert_eq!(c.to_raw(), 3);
    assert_eq!(registry.len(), 2);
    assert!(!registry.is_empty());
    assert_eq!(HostSessionHandle::from_raw(7).to_raw(), 7);
}

#[test]
fn registry_operations_report_unknown_sessions() {
    let mut registry = HostSessionRegistry::new();
    let h = registry.insert_driver(RecordingDriver::new(Vec::new()));
    let ghost = HostSessionHandle::from_raw(42);
    assert_eq!(registry.tick(ghost), Err(HostSessionError::UnknownSession { handle: 42 }));
    assert_eq!(registry.tick(h), Ok(()));
    assert_eq!(registry.get(h).unwrap().driver().ticks, 1);
    assert_eq!(
        registry.dispatch_event_batch_json(h, "not json"),
        Err(HostSessionError::Event(WireProtocolError { message: "bad event batch".to_string() }))
    );
    assert_eq!(
        registry.dispatch_events_tick_and_drain_command_batch_json(h, "nope"),
        Err(HostSessionError::Event(WireProtocolError { message: "bad event batch".to_string() }))
    );
    // A rejected batch stops the round trip before the frame.
    assert_eq!(registry.get(h).unwrap().driver().ticks, 1);
    assert_eq!(
        registry.dispatch_events_tick_and_drain_command_batch_json(h, "{}"),
        Ok("{\"commands\":[]}".to_string())
    );
    assert_eq!(registry.get(h).unwrap().driver().ticks, 2);
}

#[test]
fn non_json_command_batches_are_command_json_errors() {
    let mut registry = HostSessionRegistry::new();
    let h = registry.insert_driver(RecordingDriver::new(vec!["not json"]));
    assert!(matches!(
        registry.handle_request(HostBridgeRequest::DrainCommandBatch { handle: h.to_raw() }),
        Err(HostSessionError::CommandJson(_))
    ));
}

#[test]
fn error_messages_match_their_kind() {
    assert_eq!(
        HostSessionError::UnsupportedBridgeVersion { expected: 1, found: 20 }.message(),
        "unsupported host bridge protocol version 20; expected 1"
    );
    assert_eq!(
        HostSessionError::CommandJson("eof".to_string()).message(),
        "failed to encode host command batch: eof"
    );
    assert_eq!(
        HostSessionError::ResponseJson("x".to_string()).message(),
        "failed to encode host response: x"
    );
    let e = HostBridgeJsonError::from_error(&HostSessionError::UnsupportedBridgeVersion { expected: 1, found: 2 });
    assert_eq!(e.code, HostBridgeJsonErrorCode::UnsupportedBridgeVersion);
    assert_eq!(e.expected_version, Some(1));
    assert_eq!(e.found_version, Some(2));
    assert_eq!(e.handle, None);
    assert_eq!(
        HostBridgeJsonRequest::new(HostBridgeRequest::Destroy { handle: 1 }).ensure_supported(),
        Ok(())
    );
}

#[test]
fn a_request_touches_only_the_session_it_names() {
    let mut registry = HostSessionRegistry::new();
    let a = registry.insert_driver(RecordingDriver::new(Vec::new()));
    let b = registry.insert_driver(RecordingDriver::new(Vec::new()));
    registry
        .handle_request(HostBridgeRequest::TickAndDrainCommandBatch { handle: a.to_raw() })
        .expect("tick succeeds");
    assert_eq!(registry.get(a).unwrap().driver().ticks, 1);
    assert_eq!(registry.get(b).unwrap().driver().ticks, 0);
    registry.handle_request(HostBridgeRequest::Destroy { handle: a.to_raw() }).expect("destroy succeeds");
    assert!(!registry.contains(a));
    assert!(registry.contains(b));
}

#[test]
fn removing_a_just_inserted_session_restores_the_registry() {
    let mut registry = HostSessionRegistry::new();
    let a = registry.insert_driver(RecordingDriver::new(Vec::new()));
    let b = registry.insert_driver(RecordingDriver::new(Vec::new()));
    assert_eq!(registry.remove(b).map(|s| s.into_driver().ticks), Some(0));
    assert_eq!(registry.len(), 1);
    assert!(registry.contains(a));
    assert!(!registry.contains(b));
}

#[test]
fn get_mut_reaches_the_live_session() {
    let mut registry = HostSessionRegistry::new();
    let h = registry.insert_driver(RecordingDriver::new(Vec::new()));
    registry.get_mut(h).expect("live").driver_mut().ticks = 7;
    assert_eq!(registry.get(h).unwrap().driver().ticks, 7);
    assert!(registry.get_mut(HostSessionHandle::from_raw(99)).is_none());
    let mut bridge = HostBridge::with_registry(registry);
    assert_eq!(bridge.len(), 1);
    assert!(bridge.registry().contains(h));
    assert!(bridge.registry_mut().remove(h).is_some());
    assert!(bridge.is_empty());
}

#[test]
fn wire_errors_convert_to_event_errors() {
    let e: HostSessionError = WireProtocolError { message: "bad".to_string() }.into();
    assert_eq!(e, HostSessionError::Event(WireProtocolError { message: "bad".to_string() }));
    assert_eq!(e.message(), "bad");
}

#[test]
fn command_batches_carry_the_drained_text() {
    assert_eq!(
        command_batch_response(Ok("[1, {\"a\": 2}]".to_string())),
        Ok(HostBridgeResponse::CommandBatch { batch: "[1, {\"a\": 2}]".to_string() })
    );
    assert!(matches!(command_batch_response(Ok("nope".to_string())), Err(HostSessionError::CommandJson(_))));
    assert_eq!(
        command_batch_response(Err(HostSessionError::UnknownSession { handle: 3 })),
        Err(HostSessionError::UnknownSession { handle: 3 })
    );
}

#[test]
fn drain_requests_answer_the_pending_batch_in_order() {
    let mut registry = HostSessionRegistry::new();
    let h = registry.insert_driver(RecordingDriver::new(vec!["[1]", "{\"commands\":[2]}"]));
    assert_eq!(registry.drain_command_batch_json(h), Ok("[1]".to_string()));
    assert_eq!(
        registry.handle_request(HostBridgeRequest::DrainCommandBatch { handle: h.to_raw() }),
        Ok(HostBridgeResponse::CommandBatch { batch: "{\"commands\":[2]}".to_string() })
    );
    assert_eq!(registry.drain_command_batch_json(h), Ok("{\"commands\":[]}".to_string()));
    assert_eq!(registry.get(h).expect("live").driver().ticks, 0);
    assert_eq!(
        registry.drain_command_batch_json(HostSessionHandle::from_raw(h.to_raw() + 1)),
        Err(HostSessionError::UnknownSession { handle: h.to_raw() + 1 })
    );
}
