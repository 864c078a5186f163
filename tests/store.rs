use trailer_sync::channel::{
    backoff_delay, decode_frame, encode_broadcast, ChannelAction, ChannelEvent, ConnectionState, Inbound, MAX_RETRIES,
};
use trailer_sync::record::{render_locations, TrailerRecord, TrailerSchedule, User};
use trailer_sync::store::{fetch_status, App, DispatchError, FetchError, GlobalState, NotFound, Router, Screen};

fn record(id: &str, hot: bool) -> TrailerRecord {
    TrailerRecord {
        trailer_id: id.to_string(),
        cisco_ids: vec!["18008".to_string()],
        schedule: TrailerSchedule {
            request_date: "2024-05-01".to_string(),
            carrier_code: "ABCD".to_string(),
            last_free_date: "2024-05-03".to_string(),
            schedule_date: "2024-05-02".to_string(),
            schedule_time: "08:00".to_string(),
            arrival_time: "07:45".to_string(),
            door_number: "12".to_string(),
            is_hot: hot,
        },
    }
}

fn user() -> User {
    User {
        username: "ana".to_string(),
        role: "admin".to_string(),
        token: "tok".to_string(),
        refresh_token: "ref".to_string(),
    }
}

fn hot_of(s: &GlobalState, id: &str) -> bool {
    s.trailers.iter().find(|r| r.trailer_id == id).unwrap().schedule.is_hot
}

fn open_store_with_t1() -> GlobalState {
    let mut s = GlobalState::new();
    s.log_in(user());
    assert!(s.apply_snapshot(Ok(vec![record("T1", false)])));
    s.on_channel_event(ChannelEvent::Opened);
    s
}

const HOT_T1: &str = r#"{"type":"hot_trailer","data":{"message":"T1"}}"#;

#[test]
fn snapshot_fills_empty_store_and_starts_channel() {
    let mut s = GlobalState::new();
    assert_eq!(s.connection, ConnectionState::Closed);
    let connect = s.apply_snapshot(Ok(vec![record("T1", false)]));
    assert!(connect);
    assert_eq!(s.trailers.len(), 1);
    assert_eq!(s.trailers[0].trailer_id, "T1");
    assert!(!s.trailers[0].schedule.is_hot);
    assert_eq!(s.connection, ConnectionState::Connecting);
    assert!(s.channel_created);
}

#[test]
fn hot_trailer_frame_sets_flag_and_redelivery_keeps_it() {
    let mut s = open_store_with_t1();
    assert_eq!(s.connection, ConnectionState::Open);
    let r = s.receive_frame(HOT_T1);
    assert!(matches!(r, Inbound::SetHot { ref id, hot: true } if id == "T1"));
    assert!(hot_of(&s, "T1"));
    s.receive_frame(HOT_T1);
    assert!(hot_of(&s, "T1"));
}

#[test]
fn broadcast_dropped_while_channel_closed() {
    let mut s = GlobalState::new();
    s.log_in(user());
    s.replace_records(vec![record("T1", false)]);
    assert_eq!(s.connection, ConnectionState::Closed);
    let r = s.broadcast_for_write("T1", true);
    assert_eq!(r, Err(DispatchError::ChannelNotOpen));
    assert_eq!(s.trailers.len(), 1);
    assert!(!hot_of(&s, "T1"));
}

#[test]
fn broadcast_built_while_open() {
    let s = open_store_with_t1();
    let r = s.broadcast_for_write("T1", true).unwrap();
    assert_eq!(r, r#"{"type":"hot_trailer","data":{"message":"T1","hot":true}}"#);
}

#[test]
fn explicit_target_false_clears_flag_twice() {
    let mut s = open_store_with_t1();
    s.receive_frame(HOT_T1);
    let off = r#"{"type":"hot_trailer","data":{"message":"T1","hot":false}}"#;
    s.receive_frame(off);
    assert!(!hot_of(&s, "T1"));
    s.receive_frame(off);
    assert!(!hot_of(&s, "T1"));
}

#[test]
fn replace_records_keeps_first_of_each_id() {
    let mut s = GlobalState::new();
    s.replace_records(vec![record("T1", false), record("T2", false), record("T1", true)]);
    let ids: Vec<&str> = s.trailers.iter().map(|r| r.trailer_id.as_str()).collect();
    assert_eq!(ids, vec!["T1", "T2"]);
    assert!(!s.trailers[0].schedule.is_hot);
    s.replace_records(vec![record("T3", false), record("T3", false)]);
    assert_eq!(s.trailers.len(), 1);
    s.replace_records(vec![]);
    assert!(s.trailers.is_empty());
}

#[test]
fn unknown_kind_leaves_records_unchanged() {
    let mut s = open_store_with_t1();
    let r = s.receive_frame(r#"{"type":"ping","data":{"message":"T1"}}"#);
    assert!(matches!(r, Inbound::Unknown(ref k) if k == "ping"));
    assert_eq!(s.trailers.len(), 1);
    assert!(!hot_of(&s, "T1"));
    assert_eq!(s.connection, ConnectionState::Open);
}

#[test]
fn malformed_frames_are_dropped() {
    let mut s = open_store_with_t1();
    for text in ["not json", "", r#"{"data":{"message":"T1"}}"#, r#"{"type":7}"#, r#"{"type":"hot_trailer","data":{}}"#] {
        let r = s.receive_frame(text);
        assert!(matches!(r, Inbound::Malformed), "{}", text);
        assert_eq!(s.connection, ConnectionState::Open);
        assert!(!hot_of(&s, "T1"));
    }
}

#[test]
fn frame_for_absent_trailer_changes_nothing() {
    let mut s = open_store_with_t1();
    s.receive_frame(r#"{"type":"hot_trailer","data":{"message":"T9"}}"#);
    assert_eq!(s.trailers.len(), 1);
    assert!(!hot_of(&s, "T1"));
}

#[test]
fn channel_built_once_across_refills() {
    let mut s = GlobalState::new();
    assert!(!s.apply_snapshot(Ok(vec![])));
    assert!(s.apply_snapshot(Ok(vec![record("T1", false)])));
    assert!(!s.apply_snapshot(Ok(vec![])));
    assert!(!s.apply_snapshot(Ok(vec![record("T2", false)])));
    assert!(!s.connect_websocket());
    assert!(s.channel_created);
}

#[test]
fn send_gated_on_open() {
    let mut s = GlobalState::new();
    assert!(s.send_ws_message("hi").is_err());
    s.replace_records(vec![record("T1", false)]);
    assert!(s.connect_websocket());
    assert!(s.send_ws_message("hi").is_err());
    assert_eq!(s.connection, ConnectionState::Connecting);
    s.on_channel_event(ChannelEvent::Opened);
    assert!(s.send_ws_message("hi").is_ok());
    s.on_channel_event(ChannelEvent::Failed);
    assert_eq!(s.connection, ConnectionState::Errored);
    assert!(s.send_ws_message("hi").is_err());
    assert_eq!(s.connection, ConnectionState::Errored);
}

#[test]
fn channel_close_and_stuck_states() {
    let mut s = open_store_with_t1();
    s.on_channel_event(ChannelEvent::Closed);
    assert_eq!(s.connection, ConnectionState::Closed);
    s.on_channel_event(ChannelEvent::Opened);
    assert_eq!(s.connection, ConnectionState::Closed);
    let mut e = open_store_with_t1();
    e.on_channel_event(ChannelEvent::Failed);
    e.on_channel_event(ChannelEvent::Opened);
    assert_eq!(e.connection, ConnectionState::Errored);
}

#[test]
fn plant_labels() {
    let locs = vec!["18008".to_string(), "99999".to_string(), "22010".to_string(), "18044".to_string()];
    assert_eq!(render_locations(&locs), "AR 40 FF");
    assert_eq!(render_locations(&vec!["1".to_string()]), "");
    assert_eq!(render_locations(&vec![]), "");
    assert_eq!(render_locations(&vec!["18044".to_string()]), "FF");
}

#[test]
fn fetch_status_kinds() {
    assert_eq!(fetch_status(200), Ok(()));
    assert_eq!(fetch_status(204), Ok(()));
    assert_eq!(fetch_status(401), Err(FetchError::Unauthorized));
    assert_eq!(fetch_status(403), Err(FetchError::Unauthorized));
    assert_eq!(fetch_status(500), Err(FetchError::Transport));
    assert_eq!(fetch_status(302), Err(FetchError::Transport));
}

#[test]
fn unauthorized_snapshot_ends_session() {
    let mut s = GlobalState::new();
    s.log_in(user());
    s.replace_records(vec![record("T1", false)]);
    assert!(!s.apply_snapshot(Err(FetchError::Unauthorized)));
    assert!(s.user.is_none());
    assert_eq!(s.current_view, "login");
    assert_eq!(s.trailers.len(), 1);
    assert!(!s.channel_created);
}

#[test]
fn failed_snapshot_changes_nothing() {
    let mut s = GlobalState::new();
    s.log_in(user());
    assert!(!s.apply_snapshot(Err(FetchError::Transport)));
    assert!(!s.apply_snapshot(Err(FetchError::Decode)));
    assert!(s.user.is_some());
    assert!(s.trailers.is_empty());
    assert_eq!(s.connection, ConnectionState::Closed);
}

#[test]
fn broadcast_escapes_id_and_decodes_back() {
    let f = encode_broadcast("T\"1", false);
    assert_eq!(f, r#"{"type":"hot_trailer","data":{"message":"T\"1","hot":false}}"#);
    match decode_frame(&f) {
        Inbound::SetHot { id, hot } => {
            assert_eq!(id, "T\"1");
            assert!(!hot);
        }
        other => panic!("{:?}", other),
    }
}

#[test]
fn authorization_header() {
    let mut s = GlobalState::new();
    assert_eq!(s.authorization(), None);
    s.log_in(user());
    assert_eq!(s.authorization(), Some("Bearer tok".to_string()));
}

#[test]
fn hot_target_is_opposite() {
    let mut s = GlobalState::new();
    s.replace_records(vec![record("T1", false), record("T2", true)]);
    assert_eq!(s.hot_target("T1"), Some(true));
    assert_eq!(s.hot_target("T2"), Some(false));
    assert_eq!(s.hot_target("T3"), None);
}

#[test]
fn set_hot_absent_is_noop() {
    let mut s = GlobalState::new();
    s.replace_records(vec![record("T1", true)]);
    s.set_hot("T2", false);
    assert!(hot_of(&s, "T1"));
    s.set_hot("T1", false);
    assert!(!hot_of(&s, "T1"));
}

#[test]
fn routing_screens() {
    let mut s = App();
    assert_eq!(s.current_view, "login");
    assert_eq!(Router(&s), Screen::Login);
    s.log_in(user());
    assert_eq!(Router(&s), Screen::Trailers);
    s.current_view = "elsewhere".to_string();
    assert_eq!(Router(&s), Screen::NotFound);
    assert_eq!(NotFound(), "Page Not Found");
}

#[test]
fn backoff_doubles() {
    assert_eq!(backoff_delay(0), 500);
    assert_eq!(backoff_delay(1), 1000);
    assert_eq!(backoff_delay(4), 8000);
    assert_eq!(MAX_RETRIES, 5);
}

#[test]
fn errored_channel_retries_then_gives_up() {
    let mut s = open_store_with_t1();
    for n in 0..5u32 {
        let a = s.on_channel_event(ChannelEvent::Failed);
        assert_eq!(a, ChannelAction::RetryAfter(backoff_delay(n)));
        assert_eq!(s.connection, ConnectionState::Errored);
        assert_eq!(s.on_channel_event(ChannelEvent::RetryDue), ChannelAction::Reconnect);
        assert_eq!(s.connection, ConnectionState::Connecting);
        assert_eq!(s.retries, n + 1);
    }
    assert_eq!(s.on_channel_event(ChannelEvent::Failed), ChannelAction::GiveUp);
    assert_eq!(s.on_channel_event(ChannelEvent::RetryDue), ChannelAction::GiveUp);
    assert_eq!(s.connection, ConnectionState::Errored);
    assert!(s.channel_created);
}

#[test]
fn reopening_clears_retries() {
    let mut s = open_store_with_t1();
    s.on_channel_event(ChannelEvent::Failed);
    s.on_channel_event(ChannelEvent::RetryDue);
    assert_eq!(s.retries, 1);
    assert_eq!(s.on_channel_event(ChannelEvent::Opened), ChannelAction::Nothing);
    assert_eq!(s.connection, ConnectionState::Open);
    assert_eq!(s.retries, 0);
    assert_eq!(s.on_channel_event(ChannelEvent::RetryDue), ChannelAction::Nothing);
}

#[test]
fn confirmed_write_on_open_channel_broadcasts() {
    let mut s = open_store_with_t1();
    let r = s.finish_write("T1", true, Ok(()));
    assert_eq!(r, Ok(r#"{"type":"hot_trailer","data":{"message":"T1","hot":true}}"#.to_string()));
    assert!(s.failed_write.is_none());
    assert!(!hot_of(&s, "T1"));
}

#[test]
fn failed_write_is_marked_and_not_broadcast() {
    let mut s = open_store_with_t1();
    assert_eq!(s.finish_write("T1", true, Err(FetchError::Transport)), Err(DispatchError::WriteFailed));
    assert_eq!(s.failed_write.as_deref(), Some("T1"));
    assert!(s.user.is_some());
    assert!(s.finish_write("T1", true, Ok(())).is_ok());
    assert!(s.failed_write.is_none());
    assert_eq!(s.finish_write("T1", true, Err(FetchError::Unauthorized)), Err(DispatchError::WriteFailed));
    assert!(s.user.is_none());
    assert_eq!(s.current_view, "login");
}

#[test]
fn confirmed_write_on_closed_channel_is_dropped() {
    let mut s = GlobalState::new();
    s.replace_records(vec![record("T1", false)]);
    assert_eq!(s.finish_write("T1", true, Ok(())), Err(DispatchError::ChannelNotOpen));
    assert!(!hot_of(&s, "T1"));
}
