use crate::snapshot::CustomVoiceState;
use vstd::prelude::*;

verus! {

/// One observed voice-channel transition, or a lifecycle event of the watcher.
#[derive(Debug, PartialEq, Eq)]
pub enum SemanticEvent {
    /// The bot connected to the gateway under this name.
    BotConnected { bot_name: String },
    /// The user entered a channel.
    Joined { user: String, channel: String },
    /// The user was already in the channel when the bot connected.
    AlreadyInChannel { user: String, channel: String },
    /// The user left the channel.
    Left { user: String, channel: String },
    /// The user went from one channel to another.
    Moved { user: String, from_channel: String, to_channel: String },
    Muted { user: String, channel: String },
    Unmuted { user: String, channel: String },
    Deafened { user: String, channel: String },
    Undeafened { user: String, channel: String },
    /// No tracked field changed, or the pair of states makes no sense; both
    /// states are kept so that they can be shown as they are.
    Unclassified { raw_old: Option<CustomVoiceState>, raw_new: CustomVoiceState },
}

impl Clone for SemanticEvent {
    fn clone(&self) -> (r: Self)
        ensures
            r == *self,
    {
        match self {
            SemanticEvent::BotConnected { bot_name } => SemanticEvent::BotConnected {
                bot_name: bot_name.clone(),
            },
            SemanticEvent::Joined { user, channel } => SemanticEvent::Joined {
                user: user.clone(),
                channel: channel.clone(),
            },
            SemanticEvent::AlreadyInChannel { user, channel } => SemanticEvent::AlreadyInChannel {
                user: user.clone(),
                channel: channel.clone(),
            },
            SemanticEvent::Left { user, channel } => SemanticEvent::Left {
                user: user.clone(),
                channel: channel.clone(),
            },
            SemanticEvent::Moved { user, from_channel, to_channel } => SemanticEvent::Moved {
                user: user.clone(),
                from_channel: from_channel.clone(),
                to_channel: to_channel.clone(),
            },
            SemanticEvent::Muted { user, channel } => SemanticEvent::Muted {
                user: user.clone(),
                channel: channel.clone(),
            },
            SemanticEvent::Unmuted { user, channel } => SemanticEvent::Unmuted {
                user: user.clone(),
                channel: channel.clone(),
            },
            SemanticEvent::Deafened { user, channel } => SemanticEvent::Deafened {
                user: user.clone(),
                channel: channel.clone(),
            },
            SemanticEvent::Undeafened { user, channel } => SemanticEvent::Undeafened {
                user: user.clone(),
                channel: channel.clone(),
            },
            SemanticEvent::Unclassified { raw_old, raw_new } => SemanticEvent::Unclassified {
                raw_old: match raw_old {
                    Some(s) => Some(s.clone()),
                    None => None,
                },
                raw_new: raw_new.clone(),
            },
        }
    }
}

/// The transition table, first match wins:
/// - no previous state, now in a channel: joined;
/// - a previous state, now in no channel: left the previous state's channel;
/// - a previous state, now in a channel:
///   - another channel id than before: moved (ids, not names, are compared);
///   - else the deafen flag changed: deafened or undeafened;
///   - else the mute flag changed: muted or unmuted;
///   - else unclassified;
/// - no previous state and in no channel: unclassified.
///
/// A move names both channels; a leave takes its names from the previous
/// state; every other event takes them from the current one.
pub open spec fn classify_spec(
    previous: Option<CustomVoiceState>,
    current: CustomVoiceState,
) -> SemanticEvent {
    match previous {
        None => if current.channel_id is Some {
            SemanticEvent::Joined { user: current.username, channel: current.channel_name }
        } else {
            SemanticEvent::Unclassified { raw_old: None, raw_new: current }
        },
        Some(prev) => if current.channel_id is None {
            SemanticEvent::Left { user: prev.username, channel: prev.channel_name }
        } else if prev.channel_id != current.channel_id {
            SemanticEvent::Moved {
                user: current.username,
                from_channel: prev.channel_name,
                to_channel: current.channel_name,
            }
        } else if prev.self_deaf != current.self_deaf {
            if current.self_deaf {
                SemanticEvent::Deafened { user: current.username, channel: current.channel_name }
            } else {
                SemanticEvent::Undeafened { user: current.username, channel: current.channel_name }
            }
        } else if prev.self_mute != current.self_mute {
            if current.self_mute {
                SemanticEvent::Muted { user: current.username, channel: current.channel_name }
            } else {
                SemanticEvent::Unmuted { user: current.username, channel: current.channel_name }
            }
        } else {
            SemanticEvent::Unclassified { raw_old: previous, raw_new: current }
        },
    }
}

fn same_channel(a: Option<u64>, b: Option<u64>) -> (r: bool)
    ensures
        r == (a == b),
{
    match (a, b) {
        (Some(x), Some(y)) => x == y,
        (None, None) => true,
        _ => false,
    }
}

/// Derives the one semantic event of a user's transition from `previous`
/// (absent on the first sighting) to `current`. Total and free of effects.
pub fn classify(previous: &Option<CustomVoiceState>, current: &CustomVoiceState) -> (r:
    SemanticEvent)
    ensures
        r == classify_spec(*previous, *current),
{
    match previous {
        None => {
            if current.channel_id.is_some() {
                SemanticEvent::Joined {
                    user: current.username.clone(),
                    channel: current.channel_name.clone(),
                }
            } else {
                SemanticEvent::Unclassified { raw_old: None, raw_new: current.clone() }
            }
        },
        Some(prev) => {
            if current.channel_id.is_none() {
                SemanticEvent::Left {
                    user: prev.username.clone(),
                    channel: prev.channel_name.clone(),
                }
            } else if !same_channel(prev.channel_id, current.channel_id) {
                SemanticEvent::Moved {
                    user: current.username.clone(),
                    from_channel: prev.channel_name.clone(),
                    to_channel: current.channel_name.clone(),
                }
            } else if prev.self_deaf != current.self_deaf {
                if current.self_deaf {
                    SemanticEvent::Deafened {
                        user: current.username.clone(),
                        channel: current.channel_name.clone(),
                    }
                } else {
                    SemanticEvent::Undeafened {
                        user: current.username.clone(),
                        channel: current.channel_name.clone(),
                    }
                }
            } else if prev.self_mute != current.self_mute {
                if current.self_mute {
                    SemanticEvent::Muted {
                        user: current.username.clone(),
                        channel: current.channel_name.clone(),
                    }
                } else {
                    SemanticEvent::Unmuted {
                        user: current.username.clone(),
                        channel: current.channel_name.clone(),
                    }
                }
            } else {
                SemanticEvent::Unclassified {
                    raw_old: Some(prev.clone()),
                    raw_new: current.clone(),
                }
            }
        },
    }
}

/// A first sighting is a join exactly when the user is in a channel, and
/// unclassified otherwise.
pub proof fn lemma_first_sighting(current: CustomVoiceState)
    ensures
        (classify_spec(None, current) is Joined) == (current.channel_id is Some),
        current.channel_id is None ==> classify_spec(None, current) is Unclassified,
{
}

/// Going from a channel to no channel is a leave, named after the channel and
/// user of the previous state.
pub proof fn lemma_leave_names_previous_channel(prev: CustomVoiceState, current: CustomVoiceState)
    requires
        prev.channel_id is Some,
        current.channel_id is None,
    ensures
        classify_spec(Some(prev), current) == (SemanticEvent::Left {
            user: prev.username,
            channel: prev.channel_name,
        }),
{
}

/// Going from one channel to another is a move from the previous channel's
/// name to the current one's, whatever happened to the mute and deafen flags.
pub proof fn lemma_move_dominates(prev: CustomVoiceState, current: CustomVoiceState)
    requires
        prev.channel_id is Some,
        current.channel_id is Some,
        prev.channel_id != current.channel_id,
    ensures
        classify_spec(Some(prev), current) == (SemanticEvent::Moved {
            user: current.username,
            from_channel: prev.channel_name,
            to_channel: current.channel_name,
        }),
        !(classify_spec(Some(prev), current) is Deafened),
        !(classify_spec(Some(prev), current) is Undeafened),
{
}

/// Within one channel, a change of the deafen flag is a deafen when the user
/// is now deaf and an undeafen otherwise; a deafen or undeafen is only ever
/// classified when the channel stayed the same.
pub proof fn lemma_deafen_within_channel(prev: CustomVoiceState, current: CustomVoiceState)
    requires
        current.channel_id is Some,
        prev.channel_id == current.channel_id,
        prev.self_deaf != current.self_deaf,
    ensures
        current.self_deaf ==> classify_spec(Some(prev), current) == (SemanticEvent::Deafened {
            user: current.username,
            channel: current.channel_name,
        }),
        !current.self_deaf ==> classify_spec(Some(prev), current) == (SemanticEvent::Undeafened {
            user: current.username,
            channel: current.channel_name,
        }),
{
}

/// A deafen or undeafen always comes from a pair of states in one channel.
pub proof fn lemma_deafen_needs_same_channel(
    previous: Option<CustomVoiceState>,
    current: CustomVoiceState,
)
    requires
        classify_spec(previous, current) is Deafened || classify_spec(previous, current) is Undeafened,
    ensures
        previous is Some,
        current.channel_id is Some,
        previous->0.channel_id == current.channel_id,
{
}

/// Classification depends on its two inputs alone: two results for the same
/// pair of states are the same event.
pub proof fn lemma_classify_deterministic(
    previous: Option<CustomVoiceState>,
    current: CustomVoiceState,
    first: SemanticEvent,
    second: SemanticEvent,
)
    requires
        first == classify_spec(previous, current),
        second == classify_spec(previous, current),
    ensures
        first == second,
{
}

} // verus!
