use discord_watcher::{resolve_name, CustomVoiceState, RawVoiceState};

fn raw() -> RawVoiceState {
    RawVoiceState {
        user_id: 3,
        guild_id: Some(8),
        channel_id: Some(9),
        self_deaf: true,
        self_mute: false,
        self_stream: Some(true),
        self_video: true,
    }
}

#[test]
fn resolve_prefers_cache_then_fetch_then_empty() {
    assert_eq!(resolve_name(Some("cached".to_string()), Some("fetched".to_string())), "cached");
    assert_eq!(resolve_name(None, Some("fetched".to_string())), "fetched");
    assert_eq!(resolve_name(None, None), "");
}

#[test]
fn snapshot_of_a_record_keeps_ids_and_flags() {
    let s = CustomVoiceState::new(Some(raw()), "ann".to_string(), "g".to_string(), "c".to_string());
    assert_eq!(s.user_id, 3);
    assert_eq!(s.username, "ann");
    assert_eq!(s.guild_name, "g");
    assert_eq!(s.channel_id, Some(9));
    assert_eq!(s.channel_name, "c");
    assert!(s.self_deaf && !s.self_mute && s.self_stream && s.self_video);
}

#[test]
fn snapshot_without_channel_or_guild_has_empty_names() {
    let mut r = raw();
    r.channel_id = None;
    r.guild_id = None;
    r.self_stream = None;
    let s = CustomVoiceState::new(Some(r), "ann".to_string(), "g".to_string(), "c".to_string());
    assert_eq!(s.channel_id, None);
    assert_eq!(s.channel_name, "");
    assert_eq!(s.guild_name, "");
    assert!(!s.self_stream);
}

#[test]
fn snapshot_of_no_record_is_empty() {
    let s = CustomVoiceState::new(None, "ann".to_string(), "g".to_string(), "c".to_string());
    assert_eq!(
        s,
        CustomVoiceState {
            user_id: 0,
            username: String::new(),
            guild_name: String::new(),
            channel_id: None,
            channel_name: String::new(),
            self_deaf: false,
            self_mute: false,
            self_stream: false,
            self_video: false,
        }
    );
}
