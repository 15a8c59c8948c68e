use presence_rpc::payload::ActivityPayload;
use presence_rpc::session::{RpcError, RpcSession};

fn empty_payload() -> ActivityPayload {
    ActivityPayload {
        details: None,
        state: None,
        start_timestamp: None,
        end_timestamp: None,
        large_image: None,
        large_text: None,
        small_image: None,
        small_text: None,
    }
}

#[test]
fn missing_config_fails_set_activity_without_connecting() {
    let mut s = RpcSession::new(String::new());
    let r = s.set_activity(empty_payload());
    assert!(matches!(r, Err(RpcError::ConfigMissing)));
    assert!(!s.is_connected());
}

#[test]
fn missing_config_fails_clear_activity_without_connecting() {
    let mut s = RpcSession::new(String::new());
    let r = s.clear_activity();
    assert!(matches!(r, Err(RpcError::ConfigMissing)));
    assert!(!s.is_connected());
}

#[test]
fn disconnect_with_no_client_is_a_noop_success() {
    let mut s = RpcSession::new("123456789012345678".to_string());
    assert!(!s.is_connected());
    s.disconnect();
    assert!(!s.is_connected());
    s.disconnect();
    assert!(!s.is_connected());
}

#[test]
fn disconnect_with_missing_config_is_also_a_noop() {
    let mut s = RpcSession::new(String::new());
    s.disconnect();
    assert!(!s.is_connected());
}

#[test]
fn set_activity_outcome_matches_the_stored_handle() {
    let mut s = RpcSession::new("123456789012345678".to_string());
    match s.set_activity(empty_payload()) {
        Ok(()) => assert!(s.is_connected()),
        Err(RpcError::ConfigMissing) => panic!("the id is configured"),
        Err(RpcError::SetActivityFailed(_)) => assert!(s.is_connected()),
        Err(RpcError::ClearActivityFailed(_)) => panic!("not a clear command"),
        Err(RpcError::InitFailed(_)) | Err(RpcError::ConnectFailed(_)) => {
            assert!(!s.is_connected())
        }
    }
}

#[test]
fn clear_activity_outcome_matches_the_stored_handle() {
    let mut s = RpcSession::new("123456789012345678".to_string());
    match s.clear_activity() {
        Ok(()) => assert!(s.is_connected()),
        Err(RpcError::ConfigMissing) => panic!("the id is configured"),
        Err(RpcError::ClearActivityFailed(_)) => assert!(s.is_connected()),
        Err(RpcError::SetActivityFailed(_)) => panic!("not a set command"),
        Err(RpcError::InitFailed(_)) | Err(RpcError::ConnectFailed(_)) => {
            assert!(!s.is_connected())
        }
    }
}

#[test]
fn config_missing_message_matches_the_surface() {
    assert_eq!(
        RpcError::ConfigMissing.message(),
        "DISCORD_CLIENT_ID no configurado"
    );
}

#[test]
fn init_failed_message_is_prefixed() {
    assert_eq!(
        RpcError::InitFailed("boom".to_string()).message(),
        "RPC init error: boom"
    );
}

#[test]
fn connect_failed_message_is_prefixed() {
    assert_eq!(
        RpcError::ConnectFailed("no socket".to_string()).message(),
        "RPC connect error: no socket"
    );
}

#[test]
fn set_activity_failed_message_is_prefixed() {
    assert_eq!(
        RpcError::SetActivityFailed("pipe closed".to_string()).message(),
        "RPC set_activity error: pipe closed"
    );
}

#[test]
fn clear_activity_failed_message_is_prefixed() {
    assert_eq!(
        RpcError::ClearActivityFailed("pipe closed".to_string()).message(),
        "RPC clear_activity error: pipe closed"
    );
}
