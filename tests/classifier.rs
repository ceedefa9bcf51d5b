use discord_watcher::{classify, CustomVoiceState, SemanticEvent};

fn snap(user_id: u64, name: &str, channel: Option<(u64, &str)>, mute: bool, deaf: bool) -> CustomVoiceState {
    CustomVoiceState {
        user_id,
        username: name.to_string(),
        guild_name: "guild".to_string(),
        channel_id: channel.map(|c| c.0),
        channel_name: channel.map(|c| c.1.to_string()).unwrap_or_default(),
        self_deaf: deaf,
        self_mute: mute,
        self_stream: false,
        self_video: false,
    }
}

#[test]
fn first_sighting_in_channel_is_joined() {
    let cur = snap(1, "ann", Some((10, "lobby")), false, false);
    assert_eq!(
        classify(&None, &cur),
        SemanticEvent::Joined { user: "ann".to_string(), channel: "lobby".to_string() }
    );
}

#[test]
fn first_sighting_outside_channel_is_unclassified() {
    let cur = snap(1, "ann", None, true, false);
    assert_eq!(
        classify(&None, &cur),
        SemanticEvent::Unclassified { raw_old: None, raw_new: cur.clone() }
    );
}

#[test]
fn leave_names_previous_channel() {
    let prev = snap(1, "ann", Some((10, "lobby")), false, false);
    let mut cur = snap(1, "ann", None, false, false);
    cur.channel_name = "stale".to_string();
    assert_eq!(
        classify(&Some(prev), &cur),
        SemanticEvent::Left { user: "ann".to_string(), channel: "lobby".to_string() }
    );
}

#[test]
fn move_names_both_channels() {
    let prev = snap(1, "ann", Some((10, "lobby")), false, false);
    let cur = snap(1, "ann", Some((11, "games")), false, false);
    assert_eq!(
        classify(&Some(prev), &cur),
        SemanticEvent::Moved {
            user: "ann".to_string(),
            from_channel: "lobby".to_string(),
            to_channel: "games".to_string(),
        }
    );
}

#[test]
fn move_with_deafen_is_a_move() {
    let prev = snap(1, "ann", Some((10, "lobby")), false, false);
    let cur = snap(1, "ann", Some((11, "games")), true, true);
    assert_eq!(
        classify(&Some(prev), &cur),
        SemanticEvent::Moved {
            user: "ann".to_string(),
            from_channel: "lobby".to_string(),
            to_channel: "games".to_string(),
        }
    );
}

#[test]
fn move_between_channels_of_one_name_is_a_move() {
    let prev = snap(1, "ann", Some((10, "general")), false, false);
    let cur = snap(1, "ann", Some((12, "general")), false, false);
    assert!(matches!(classify(&Some(prev), &cur), SemanticEvent::Moved { .. }));
}

#[test]
fn deafen_in_same_channel() {
    let prev = snap(1, "ann", Some((10, "lobby")), false, false);
    let cur = snap(1, "ann", Some((10, "lobby")), true, true);
    assert_eq!(
        classify(&Some(prev), &cur),
        SemanticEvent::Deafened { user: "ann".to_string(), channel: "lobby".to_string() }
    );
}

#[test]
fn undeafen_in_same_channel() {
    let prev = snap(1, "ann", Some((10, "lobby")), false, true);
    let cur = snap(1, "ann", Some((10, "lobby")), false, false);
    assert_eq!(
        classify(&Some(prev), &cur),
        SemanticEvent::Undeafened { user: "ann".to_string(), channel: "lobby".to_string() }
    );
}

#[test]
fn mute_and_unmute_in_same_channel() {
    let quiet = snap(1, "ann", Some((10, "lobby")), true, false);
    let loud = snap(1, "ann", Some((10, "lobby")), false, false);
    assert_eq!(
        classify(&Some(loud.clone()), &quiet),
        SemanticEvent::Muted { user: "ann".to_string(), channel: "lobby".to_string() }
    );
    assert_eq!(
        classify(&Some(quiet), &loud),
        SemanticEvent::Unmuted { user: "ann".to_string(), channel: "lobby".to_string() }
    );
}

#[test]
fn stream_toggle_is_unclassified() {
    let prev = snap(1, "ann", Some((10, "lobby")), false, false);
    let mut cur = prev.clone();
    cur.self_stream = true;
    assert_eq!(
        classify(&Some(prev.clone()), &cur),
        SemanticEvent::Unclassified { raw_old: Some(prev), raw_new: cur.clone() }
    );
}

#[test]
fn classification_is_repeatable() {
    let prev = snap(1, "ann", Some((10, "lobby")), false, false);
    let cur = snap(1, "ann", Some((10, "lobby")), true, false);
    let previous = Some(prev);
    let first = classify(&previous, &cur);
    let second = classify(&previous, &cur);
    assert_eq!(first, second);
    assert_eq!(
        first,
        SemanticEvent::Muted { user: "ann".to_string(), channel: "lobby".to_string() }
    );
}
