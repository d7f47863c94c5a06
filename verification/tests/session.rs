use discord_rpc::{NativeCall, RichPresence, RpcError, RPC};

fn open() -> RPC {
    RPC::init("378906438590005272", false, None).unwrap().0
}

#[test]
fn init_plans_the_opening_call() {
    let (rpc, call) = RPC::init("378906438590005272", false, None).unwrap();
    assert!(rpc.is_open());
    assert_eq!(
        call,
        NativeCall::Initialize {
            application_id: b"378906438590005272\0".to_vec(),
            auto_register: 0,
            steam_id: None,
        }
    );
}

#[test]
fn init_carries_flag_and_platform_id() {
    let (_, call) = RPC::init("1", true, Some("480")).unwrap();
    assert_eq!(
        call,
        NativeCall::Initialize {
            application_id: vec![b'1', 0],
            auto_register: 1,
            steam_id: Some(b"480\0".to_vec()),
        }
    );
}

#[test]
fn init_rejects_nul_in_application_id() {
    assert_eq!(RPC::init("12\034", false, None).err(), Some(RpcError::InvalidText));
}

#[test]
fn init_rejects_nul_in_platform_id() {
    assert_eq!(RPC::init("1234", true, Some("4\080")).err(), Some(RpcError::InvalidText));
}

#[test]
fn update_presence_plans_publish_call() {
    let rpc = open();
    let presence = RichPresence {
        details: Some("Details".to_string()),
        party_size: Some(4),
        party_max: Some(13),
        ..RichPresence::default()
    };
    let expected = presence.to_native().unwrap();
    assert_eq!(expected.details, Some(b"Details\0".to_vec()));
    assert_eq!(expected.party_size, 4);
    assert_eq!(expected.party_max, 13);
    assert_eq!(rpc.update_presence(presence), Ok(NativeCall::UpdatePresence(expected)));
}

#[test]
fn update_presence_rejects_nul_and_plans_nothing() {
    let rpc = open();
    let presence = RichPresence { state: Some("a\0".to_string()), ..RichPresence::default() };
    assert_eq!(rpc.update_presence(presence), Err(RpcError::InvalidText));
}

#[test]
fn update_presence_rejects_timestamp_out_of_range() {
    let rpc = open();
    let presence = RichPresence { start_time: Some(u64::MAX), ..RichPresence::default() };
    assert_eq!(rpc.update_presence(presence), Err(RpcError::TimestampOutOfRange));
}

#[test]
fn clear_and_pump_on_open_session() {
    let rpc = open();
    assert_eq!(rpc.clear_presence(), Ok(NativeCall::ClearPresence));
    assert_eq!(rpc.run_callbacks(), Ok(NativeCall::RunCallbacks));
}

#[test]
fn shutdown_releases_exactly_once() {
    let mut rpc = open();
    assert_eq!(rpc.shutdown(), Some(NativeCall::Shutdown));
    assert!(!rpc.is_open());
    assert_eq!(rpc.shutdown(), None);
    assert!(!rpc.is_open());
}

#[test]
fn closed_session_rejects_every_operation() {
    let mut rpc = open();
    rpc.shutdown();
    assert_eq!(rpc.update_presence(RichPresence::default()), Err(RpcError::SessionClosed));
    let bad = RichPresence { state: Some("\0".to_string()), ..RichPresence::default() };
    assert_eq!(rpc.update_presence(bad), Err(RpcError::SessionClosed));
    assert_eq!(rpc.clear_presence(), Err(RpcError::SessionClosed));
    assert_eq!(rpc.run_callbacks(), Err(RpcError::SessionClosed));
}

#[test]
fn sessions_are_independent() {
    let mut first = open();
    let second = open();
    first.shutdown();
    assert_eq!(second.clear_presence(), Ok(NativeCall::ClearPresence));
}
