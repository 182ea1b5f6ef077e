use wry::bridge::{reply, reply_script, Dispatch, MessageBridge, RpcMessage, BRIDGE_BOOTSTRAP};

fn message(id: Option<&str>, method: &str, params: &str) -> RpcMessage {
    RpcMessage {
        id: id.map(|s| s.to_string()),
        method: method.to_string(),
        params: params.to_string(),
    }
}

#[test]
fn ping_request_resolves_its_continuation() {
    let bridge = MessageBridge::new(true);
    let d = bridge.dispatch(Ok(message(Some("\"1\""), "ping", "{}")));
    match d {
        Dispatch::Invoke { method, params, reply_to } => {
            assert_eq!(method, "ping");
            assert_eq!(params, "{}");
            let outcome: Result<String, String> = Ok("{\"ping\":\"pong\"}".to_string());
            let script = reply(&reply_to, &outcome);
            assert_eq!(
                script,
                Some("window.external.rpc._result(\"1\", {\"ping\":\"pong\"})".to_string())
            );
        }
        _ => panic!("a well-formed request must invoke the handler"),
    }
}

#[test]
fn notification_invokes_handler_without_reply() {
    let bridge = MessageBridge::new(true);
    let d = bridge.dispatch(Ok(message(None, "log", "[1,2]")));
    match d {
        Dispatch::Invoke { method, params, reply_to } => {
            assert_eq!(method, "log");
            assert_eq!(params, "[1,2]");
            assert_eq!(reply_to, None);
            let outcome: Result<String, String> = Ok("null".to_string());
            assert_eq!(reply(&reply_to, &outcome), None);
        }
        _ => panic!("a notification must invoke the handler"),
    }
}

#[test]
fn handler_error_rejects_the_continuation() {
    let outcome: Result<String, String> = Err("\"boom\"".to_string());
    let script = reply(&Some("7".to_string()), &outcome);
    assert_eq!(script, Some("window.external.rpc._error(7, \"boom\")".to_string()));
}

#[test]
fn reply_script_carries_value_or_error_not_both() {
    let ok: Result<String, String> = Ok("42".to_string());
    let err: Result<String, String> = Err("\"no\"".to_string());
    let a = reply_script("\"k\"", &ok);
    let b = reply_script("\"k\"", &err);
    assert_eq!(a, "window.external.rpc._result(\"k\", 42)");
    assert_eq!(b, "window.external.rpc._error(\"k\", \"no\")");
    assert!(!a.contains("\"no\""));
    assert!(!b.contains("42"));
}

#[test]
fn malformed_message_is_reported_and_bridge_stays_usable() {
    let bridge = MessageBridge::new(true);
    let d = bridge.dispatch(Err("expected value at line 1 column 1".to_string()));
    match d {
        Dispatch::ReportParseError(e) => assert_eq!(e, "expected value at line 1 column 1"),
        _ => panic!("a parse failure must be reported and nothing invoked"),
    }
    let next = bridge.dispatch(Ok(message(Some("2"), "ping", "{}")));
    assert!(matches!(next, Dispatch::Invoke { .. }));
}

#[test]
fn messages_are_ignored_without_handler() {
    let bridge = MessageBridge::new(false);
    assert!(matches!(bridge.dispatch(Ok(message(Some("1"), "ping", "{}"))), Dispatch::Ignore));
    assert!(matches!(bridge.dispatch(Err("bad".to_string())), Dispatch::Ignore));
}

#[test]
fn bootstrap_forwards_to_post_message() {
    assert_eq!(
        BRIDGE_BOOTSTRAP,
        "window.external={invoke:s=>window.chrome.webview.postMessage(s)}"
    );
}
