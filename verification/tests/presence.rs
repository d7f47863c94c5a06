use discord_rpc::presence::{to_wire_opt, to_wire_size, to_wire_time};
use discord_rpc::{NativePresence, RichPresence, RpcError};

fn blank() -> NativePresence {
    NativePresence {
        state: None,
        details: None,
        start_timestamp: 0,
        end_timestamp: 0,
        large_image_key: None,
        large_image_text: None,
        small_image_key: None,
        small_image_text: None,
        party_id: None,
        party_size: 0,
        party_max: 0,
        match_secret: None,
        join_secret: None,
        spectate_secret: None,
        instance: 0,
    }
}

fn wire(text: &str) -> Option<Vec<u8>> {
    let mut bytes = text.as_bytes().to_vec();
    bytes.push(0);
    Some(bytes)
}

#[test]
fn default_presence_has_no_field_set() {
    let p = RichPresence::default();
    assert_eq!(p.state, None);
    assert_eq!(p.details, None);
    assert_eq!(p.start_time, None);
    assert_eq!(p.end_time, None);
    assert_eq!(p.large_image_key, None);
    assert_eq!(p.large_image_text, None);
    assert_eq!(p.small_image_key, None);
    assert_eq!(p.small_image_text, None);
    assert_eq!(p.party_id, None);
    assert_eq!(p.party_size, None);
    assert_eq!(p.party_max, None);
    assert_eq!(p.spectate_secret, None);
    assert_eq!(p.join_secret, None);
}

#[test]
fn empty_presence_marshals_to_sentinels() {
    assert_eq!(RichPresence::default().to_native(), Ok(blank()));
}

#[test]
fn full_presence_marshals_field_by_field() {
    let p = RichPresence {
        state: Some("State".to_string()),
        details: Some("Details".to_string()),
        start_time: Some(1_500_000_000),
        end_time: Some(1_500_000_600),
        large_image_key: Some("large_image".to_string()),
        large_image_text: Some("large image".to_string()),
        small_image_key: Some("small_image".to_string()),
        small_image_text: Some("small image".to_string()),
        party_id: Some("party".to_string()),
        party_size: Some(4),
        party_max: Some(13),
        spectate_secret: Some("spectate".to_string()),
        join_secret: Some("join".to_string()),
    };
    let expected = NativePresence {
        state: wire("State"),
        details: wire("Details"),
        start_timestamp: 1_500_000_000,
        end_timestamp: 1_500_000_600,
        large_image_key: wire("large_image"),
        large_image_text: wire("large image"),
        small_image_key: wire("small_image"),
        small_image_text: wire("small image"),
        party_id: wire("party"),
        party_size: 4,
        party_max: 13,
        match_secret: None,
        join_secret: wire("join"),
        spectate_secret: wire("spectate"),
        instance: 0,
    };
    assert_eq!(p.to_native(), Ok(expected));
}

#[test]
fn empty_text_is_not_absence() {
    let p = RichPresence { state: Some(String::new()), ..RichPresence::default() };
    let native = p.to_native().unwrap();
    assert_eq!(native.state, Some(vec![0]));
    assert_eq!(native.details, None);
}

#[test]
fn nul_in_any_text_field_is_rejected() {
    let bad = || Some("a\0b".to_string());
    let cases = vec![
        RichPresence { state: bad(), ..RichPresence::default() },
        RichPresence { details: bad(), ..RichPresence::default() },
        RichPresence { large_image_key: bad(), ..RichPresence::default() },
        RichPresence { large_image_text: bad(), ..RichPresence::default() },
        RichPresence { small_image_key: bad(), ..RichPresence::default() },
        RichPresence { small_image_text: bad(), ..RichPresence::default() },
        RichPresence { party_id: bad(), ..RichPresence::default() },
        RichPresence { spectate_secret: bad(), ..RichPresence::default() },
        RichPresence { join_secret: bad(), ..RichPresence::default() },
    ];
    for p in cases {
        assert_eq!(p.to_native(), Err(RpcError::InvalidText));
    }
}

#[test]
fn timestamp_beyond_wire_range_is_rejected() {
    let p = RichPresence { start_time: Some(1u64 << 63), ..RichPresence::default() };
    assert_eq!(p.to_native(), Err(RpcError::TimestampOutOfRange));
    let q = RichPresence { end_time: Some(u64::MAX), ..RichPresence::default() };
    assert_eq!(q.to_native(), Err(RpcError::TimestampOutOfRange));
}

#[test]
fn largest_timestamp_is_carried() {
    let p = RichPresence { end_time: Some(i64::MAX as u64), ..RichPresence::default() };
    assert_eq!(p.to_native().unwrap().end_timestamp, i64::MAX);
}

#[test]
fn invalid_text_wins_over_invalid_time() {
    let p = RichPresence {
        start_time: Some(u64::MAX),
        join_secret: Some("\0".to_string()),
        ..RichPresence::default()
    };
    assert_eq!(p.to_native(), Err(RpcError::InvalidText));
}

#[test]
fn wire_time_values() {
    assert_eq!(to_wire_time(None), Some(0));
    assert_eq!(to_wire_time(Some(0)), Some(0));
    assert_eq!(to_wire_time(Some(1_500_000_000)), Some(1_500_000_000));
    assert_eq!(to_wire_time(Some((1u64 << 63) - 1)), Some(i64::MAX));
    assert_eq!(to_wire_time(Some(1u64 << 63)), None);
}

#[test]
fn wire_size_values() {
    assert_eq!(to_wire_size(None), 0);
    assert_eq!(to_wire_size(Some(4)), 4);
    assert_eq!(to_wire_size(Some(0x7fff_ffff)), i32::MAX);
    assert_eq!(to_wire_size(Some(0x8000_0000)), i32::MIN);
    assert_eq!(to_wire_size(Some(u32::MAX)), -1);
}

#[test]
fn wire_opt_values() {
    assert_eq!(to_wire_opt(&None), Ok(None));
    assert_eq!(to_wire_opt(&Some("hi".to_string())), Ok(Some(vec![b'h', b'i', 0])));
    assert_eq!(to_wire_opt(&Some("h\0i".to_string())), Err(RpcError::InvalidText));
}
