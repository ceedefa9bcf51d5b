use discord_watcher::{
    handle_voice_update, resolve_name, ChannelMessage, CustomVoiceState, RawVoiceState,
    SemanticEvent, StateStore,
};

const U: u64 = 42;
const C1: u64 = 100;
const C2: u64 = 200;

fn channel_name(id: Option<u64>) -> String {
    match id {
        Some(C1) => "C1".to_string(),
        Some(C2) => "C2".to_string(),
        _ => String::new(),
    }
}

fn state(channel_id: Option<u64>, self_mute: bool) -> CustomVoiceState {
    let raw = RawVoiceState {
        user_id: U,
        guild_id: Some(1),
        channel_id,
        self_deaf: false,
        self_mute,
        self_stream: None,
        self_video: false,
    };
    CustomVoiceState::new(
        Some(raw),
        resolve_name(Some("U".to_string()), None),
        resolve_name(None, Some("guild".to_string())),
        channel_name(channel_id),
    )
}

fn event_of(messages: Vec<ChannelMessage>) -> SemanticEvent {
    assert_eq!(messages.len(), 2);
    assert!(matches!(messages[0], ChannelMessage::DebugData(..)));
    match messages.into_iter().nth(1) {
        Some(ChannelMessage::Event(e)) => e,
        other => panic!("expected an event, got {:?}", other),
    }
}

fn join(store: &mut StateStore) -> SemanticEvent {
    event_of(handle_voice_update(store, None, state(Some(C1), false)))
}

fn joined_then_moved(store: &mut StateStore) -> SemanticEvent {
    join(store);
    event_of(handle_voice_update(store, None, state(Some(C2), false)))
}

#[test]
fn scenario_join_records_state() {
    let mut store = StateStore::new();
    let e = join(&mut store);
    assert_eq!(e, SemanticEvent::Joined { user: "U".to_string(), channel: "C1".to_string() });
    let recorded = store.get(U).expect("state recorded");
    assert_eq!(recorded.channel_id, Some(C1));
    assert_eq!(recorded, state(Some(C1), false));
}

#[test]
fn scenario_join_then_move() {
    let mut store = StateStore::new();
    let e = joined_then_moved(&mut store);
    assert_eq!(
        e,
        SemanticEvent::Moved {
            user: "U".to_string(),
            from_channel: "C1".to_string(),
            to_channel: "C2".to_string(),
        }
    );
}

#[test]
fn scenario_join_move_then_leave() {
    let mut store = StateStore::new();
    joined_then_moved(&mut store);
    let e = event_of(handle_voice_update(&mut store, None, state(None, false)));
    assert_eq!(e, SemanticEvent::Left { user: "U".to_string(), channel: "C2".to_string() });
    assert_eq!(store.get(U).expect("state kept after leaving").channel_id, None);
}

#[test]
fn scenario_mute_then_unmute() {
    let mut store = StateStore::new();
    store.put(U, state(Some(C1), false));
    let first = event_of(handle_voice_update(&mut store, None, state(Some(C1), true)));
    let second = event_of(handle_voice_update(&mut store, None, state(Some(C1), false)));
    assert_eq!(first, SemanticEvent::Muted { user: "U".to_string(), channel: "C1".to_string() });
    assert_eq!(second, SemanticEvent::Unmuted { user: "U".to_string(), channel: "C1".to_string() });
}

#[test]
fn update_prefers_the_previous_state_it_carries() {
    let mut store = StateStore::new();
    store.put(U, state(Some(C1), false));
    let given = state(Some(C2), false);
    let messages = handle_voice_update(&mut store, Some(given.clone()), state(Some(C2), true));
    assert_eq!(
        messages[0],
        ChannelMessage::DebugData(Some(given), state(Some(C2), true))
    );
    assert_eq!(
        messages[1],
        ChannelMessage::Event(SemanticEvent::Muted { user: "U".to_string(), channel: "C2".to_string() })
    );
    assert_eq!(store.get(U), Some(state(Some(C2), true)));
}

#[test]
fn updates_of_other_users_do_not_mix() {
    let mut store = StateStore::new();
    join(&mut store);
    let mut other = state(Some(C2), false);
    other.user_id = U + 1;
    let e = event_of(handle_voice_update(&mut store, None, other));
    assert!(matches!(e, SemanticEvent::Joined { .. }));
    assert_eq!(store.get(U), Some(state(Some(C1), false)));
}
