use crate::classify::SemanticEvent;
use crate::snapshot::CustomVoiceState;
use crate::text::{bool_text, bool_word, decimal, decimal_text, join3, opt_view};
use vstd::prelude::*;

verus! {

/// The named system sounds that a desktop notification can ask for.
#[derive(Debug, Clone, Copy, PartialEq, Eq, Structural)]
pub enum NotificationSound {
    Reminder,
}

impl NotificationSound {
    /// The name under which the desktop notification service knows this sound.
    pub open spec fn name_spec(self) -> Seq<char> {
        match self {
            NotificationSound::Reminder => "Reminder"@,
        }
    }

    pub fn to_str(self) -> (r: String)
        ensures
            r@ == self.name_spec(),
    {
        match self {
            NotificationSound::Reminder => String::from_str("Reminder"),
        }
    }
}

/// The raw dump of a snapshot: every field, by name, in declaration order.
pub open spec fn dump_spec(s: CustomVoiceState) -> Seq<char> {
    "{user_id: "@ + decimal(s.user_id as nat) + ", username: "@ + s.username@ + ", guild_name: "@
        + s.guild_name@ + ", channel_id: "@ + match s.channel_id {
        Some(c) => decimal(c as nat),
        None => "none"@,
    } + ", channel_name: "@ + s.channel_name@ + ", self_deaf: "@ + bool_word(s.self_deaf)
        + ", self_mute: "@ + bool_word(s.self_mute) + ", self_stream: "@ + bool_word(
        s.self_stream,
    ) + ", self_video: "@ + bool_word(s.self_video) + "}"@
}

/// The raw dump of a snapshot that may be missing.
pub open spec fn dump_opt_spec(s: Option<CustomVoiceState>) -> Seq<char> {
    match s {
        Some(s) => dump_spec(s),
        None => "none"@,
    }
}

impl CustomVoiceState {
    /// Writes out every field of the snapshot, for diagnosis.
    pub fn dump(&self) -> (r: String)
        ensures
            r@ == dump_spec(*self),
    {
        let mut s = String::from_str("{user_id: ");
        s.append(decimal_text(self.user_id).as_str());
        s.append(", username: ");
        s.append(self.username.as_str());
        s.append(", guild_name: ");
        s.append(self.guild_name.as_str());
        s.append(", channel_id: ");
        match self.channel_id {
            Some(c) => s.append(decimal_text(c).as_str()),
            None => s.append("none"),
        }
        s.append(", channel_name: ");
        s.append(self.channel_name.as_str());
        s.append(", self_deaf: ");
        s.append(bool_text(self.self_deaf).as_str());
        s.append(", self_mute: ");
        s.append(bool_text(self.self_mute).as_str());
        s.append(", self_stream: ");
        s.append(bool_text(self.self_stream).as_str());
        s.append(", self_video: ");
        s.append(bool_text(self.self_video).as_str());
        s.append("}");
        s
    }
}

fn dump_opt(s: &Option<CustomVoiceState>) -> (r: String)
    ensures
        r@ == dump_opt_spec(*s),
{
    match s {
        Some(s) => s.dump(),
        None => String::from_str("none"),
    }
}

/// The line that the event log shows for an event, if it shows one: a
/// connect sets the status instead; an unclassified pair is dumped whole.
pub open spec fn log_line_spec(e: SemanticEvent) -> Option<Seq<char>> {
    match e {
        SemanticEvent::BotConnected { .. } => None,
        SemanticEvent::Joined { user, channel } => Some(user@ + " joined "@ + channel@),
        SemanticEvent::AlreadyInChannel { user, channel } => Some(
            user@ + " is already in "@ + channel@,
        ),
        SemanticEvent::Left { user, channel } => Some(user@ + " left "@ + channel@),
        SemanticEvent::Moved { user, from_channel, to_channel } => Some(
            user@ + " moved from "@ + from_channel@ + " to "@ + to_channel@,
        ),
        SemanticEvent::Muted { user, channel } => Some(user@ + " muted in "@ + channel@),
        SemanticEvent::Unmuted { user, channel } => Some(user@ + " unmuted in "@ + channel@),
        SemanticEvent::Deafened { user, channel } => Some(user@ + " deafened in "@ + channel@),
        SemanticEvent::Undeafened { user, channel } => Some(user@ + " undeafened in "@ + channel@),
        SemanticEvent::Unclassified { raw_old, raw_new } => Some(
            "Unknown event:\n\told_state: "@ + dump_opt_spec(raw_old) + "\n\tnew_state: "@
                + dump_spec(raw_new),
        ),
    }
}

/// The body of the desktop notification for an event, if it gets one: a
/// connect and an unclassified pair are not announced.
pub open spec fn notification_body_spec(e: SemanticEvent) -> Option<Seq<char>> {
    match e {
        SemanticEvent::BotConnected { .. } => None,
        SemanticEvent::Joined { user, channel } => Some(user@ + " joined "@ + channel@),
        SemanticEvent::AlreadyInChannel { user, channel } => Some(
            user@ + " is already in "@ + channel@,
        ),
        SemanticEvent::Left { user, channel } => Some(user@ + " left "@ + channel@),
        SemanticEvent::Moved { user, from_channel, to_channel } => Some(
            user@ + " moved from "@ + from_channel@ + " to "@ + to_channel@,
        ),
        SemanticEvent::Muted { user, channel } => Some(
            user@ + " muted themselves in "@ + channel@,
        ),
        SemanticEvent::Unmuted { user, channel } => Some(
            user@ + " unmuted themselves in "@ + channel@,
        ),
        SemanticEvent::Deafened { user, channel } => Some(
            user@ + " deafened themselves in "@ + channel@,
        ),
        SemanticEvent::Undeafened { user, channel } => Some(
            user@ + " undeafened themselves in "@ + channel@,
        ),
        SemanticEvent::Unclassified { .. } => None,
    }
}

/// The title of every notification.
pub open spec fn notice_summary_spec() -> Seq<char> {
    "Discord Watcher"@
}

/// How long a notification stays up, in milliseconds.
pub const NOTICE_TIMEOUT_MS: u32 = 500;

/// A desktop notification, with the sound that goes with it.
#[derive(Debug, Clone, PartialEq, Eq)]
pub struct Notice {
    pub summary: String,
    pub body: String,
    pub sound: NotificationSound,
    pub timeout_ms: u32,
}

impl SemanticEvent {
    /// The line for the event log (see `log_line_spec`).
    pub fn log_line(&self) -> (r: Option<String>)
        ensures
            opt_view(r) == log_line_spec(*self),
    {
        match self {
            SemanticEvent::BotConnected { .. } => None,
            SemanticEvent::Joined { user, channel } => Some(join3(user, " joined ", channel)),
            SemanticEvent::AlreadyInChannel { user, channel } => Some(
                join3(user, " is already in ", channel),
            ),
            SemanticEvent::Left { user, channel } => Some(join3(user, " left ", channel)),
            SemanticEvent::Moved { user, from_channel, to_channel } => {
                let mut s = join3(user, " moved from ", from_channel);
                s.append(" to ");
                s.append(to_channel.as_str());
                Some(s)
            },
            SemanticEvent::Muted { user, channel } => Some(join3(user, " muted in ", channel)),
            SemanticEvent::Unmuted { user, channel } => Some(join3(user, " unmuted in ", channel)),
            SemanticEvent::Deafened { user, channel } => Some(join3(user, " deafened in ", channel)),
            SemanticEvent::Undeafened { user, channel } => Some(
                join3(user, " undeafened in ", channel),
            ),
            SemanticEvent::Unclassified { raw_old, raw_new } => {
                let mut s = String::from_str("Unknown event:\n\told_state: ");
                s.append(dump_opt(raw_old).as_str());
                s.append("\n\tnew_state: ");
                s.append(raw_new.dump().as_str());
                Some(s)
            },
        }
    }

    /// The body of the event's notification (see `notification_body_spec`).
    pub fn notification_body(&self) -> (r: Option<String>)
        ensures
            opt_view(r) == notification_body_spec(*self),
    {
        match self {
            SemanticEvent::BotConnected { .. } => None,
            SemanticEvent::Joined { user, channel } => Some(join3(user, " joined ", channel)),
            SemanticEvent::AlreadyInChannel { user, channel } => Some(
                join3(user, " is already in ", channel),
            ),
            SemanticEvent::Left { user, channel } => Some(join3(user, " left ", channel)),
            SemanticEvent::Moved { user, from_channel, to_channel } => {
                let mut s = join3(user, " moved from ", from_channel);
                s.append(" to ");
                s.append(to_channel.as_str());
                Some(s)
            },
            SemanticEvent::Muted { user, channel } => Some(
                join3(user, " muted themselves in ", channel),
            ),
            SemanticEvent::Unmuted { user, channel } => Some(
                join3(user, " unmuted themselves in ", channel),
            ),
            SemanticEvent::Deafened { user, channel } => Some(
                join3(user, " deafened themselves in ", channel),
            ),
            SemanticEvent::Undeafened { user, channel } => Some(
                join3(user, " undeafened themselves in ", channel),
            ),
            SemanticEvent::Unclassified { .. } => None,
        }
    }

    /// The desktop notification for the event, if it gets one: titled
    /// "Discord Watcher", with the reminder sound, up for half a second.
    pub fn notice(&self) -> (r: Option<Notice>)
        ensures
            r is Some == notification_body_spec(*self) is Some,
            r matches Some(n) ==> {
                &&& Some(n.body@) == notification_body_spec(*self)
                &&& n.summary@ == notice_summary_spec()
                &&& n.sound == NotificationSound::Reminder
                &&& n.timeout_ms == NOTICE_TIMEOUT_MS
            },
    {
        match self.notification_body() {
            Some(body) => Some(
                Notice {
                    summary: String::from_str("Discord Watcher"),
                    body,
                    sound: NotificationSound::Reminder,
                    timeout_ms: NOTICE_TIMEOUT_MS,
                },
            ),
            None => None,
        }
    }
}

} // verus!
