use discord_watcher::{CustomVoiceState, StateStore};

fn snap(user_id: u64, channel: Option<u64>) -> CustomVoiceState {
    CustomVoiceState {
        user_id,
        username: format!("user{}", user_id),
        guild_name: String::new(),
        channel_id: channel,
        channel_name: String::new(),
        self_deaf: false,
        self_mute: false,
        self_stream: false,
        self_video: false,
    }
}

#[test]
fn put_then_get_round_trips() {
    let mut store = StateStore::new();
    let s = snap(5, Some(9));
    store.put(5, s.clone());
    assert_eq!(store.get(5), Some(s));
}

#[test]
fn get_of_unknown_user_is_none() {
    let store = StateStore::new();
    assert_eq!(store.get(5), None);
}

#[test]
fn put_overwrites_and_keeps_others() {
    let mut store = StateStore::new();
    store.put(5, snap(5, Some(9)));
    store.put(6, snap(6, Some(9)));
    store.put(5, snap(5, None));
    assert_eq!(store.get(5), Some(snap(5, None)));
    assert_eq!(store.get(6), Some(snap(6, Some(9))));
}
