//! Voice-channel activity watcher: resolves voice-state records into
//! snapshots, classifies each transition into one semantic event, keeps the
//! last known state of every user, and renders events for presentation.

pub mod classify;
pub mod event_log;
pub mod render;
pub mod snapshot;
pub mod store;
pub mod text;
pub mod watcher;

pub use classify::{classify, SemanticEvent};
pub use event_log::{AppModel, DebugVoiceState};
pub use render::{Notice, NotificationSound};
pub use snapshot::{resolve_name, CustomVoiceState, RawVoiceState};
pub use store::StateStore;
pub use watcher::{
    handle_voice_update, present_members, startup_messages, ChannelMessage, ChannelRoster,
    PresenceEntry,
};
