use vstd::prelude::*;

verus! {

/// A voice-state record as the gateway delivers it: identifiers and raw flags,
/// before any name has been resolved.
#[derive(Debug, Clone, Copy, PartialEq, Eq)]
pub struct RawVoiceState {
    pub user_id: u64,
    pub guild_id: Option<u64>,
    pub channel_id: Option<u64>,
    pub self_deaf: bool,
    pub self_mute: bool,
    pub self_stream: Option<bool>,
    pub self_video: bool,
}

/// A fully resolved, display-ready record of one user's voice state.
///
/// An empty `channel_name` may mean "not in a channel" or "not resolved":
/// only `channel_id` says whether the user is in a channel.
#[derive(Debug, PartialEq, Eq)]
pub struct CustomVoiceState {
    pub user_id: u64,
    pub username: String,
    pub guild_name: String,
    pub channel_id: Option<u64>,
    pub channel_name: String,
    pub self_deaf: bool,
    pub self_mute: bool,
    pub self_stream: bool,
    pub self_video: bool,
}

impl Clone for CustomVoiceState {
    fn clone(&self) -> (r: Self)
        ensures
            r == *self,
    {
        CustomVoiceState {
            user_id: self.user_id,
            username: self.username.clone(),
            guild_name: self.guild_name.clone(),
            channel_id: self.channel_id,
            channel_name: self.channel_name.clone(),
            self_deaf: self.self_deaf,
            self_mute: self.self_mute,
            self_stream: self.self_stream,
            self_video: self.self_video,
        }
    }
}

/// What a name resolves to: the cached value when there is one, else the
/// fetched value, else the empty string.
pub open spec fn resolved_name(cached: Option<String>, fetched: Option<String>) -> Seq<char> {
    match cached {
        Some(c) => c@,
        None => match fetched {
            Some(f) => f@,
            None => Seq::empty(),
        },
    }
}

/// Settles one name from the two lookups: the cache first, then the network
/// fetch (made only on a cache miss), then the empty string, so that a name
/// that cannot be resolved never holds up classification.
pub fn resolve_name(cached: Option<String>, fetched: Option<String>) -> (r: String)
    ensures
        r@ == resolved_name(cached, fetched),
{
    match cached {
        Some(c) => c,
        None => match fetched {
            Some(f) => f,
            None => String::new(),
        },
    }
}

impl CustomVoiceState {
    /// `self` is the snapshot built from `state` with the resolved names given:
    /// a missing state gives the empty snapshot; a guild or channel name counts
    /// only where the record names a guild or channel; a missing stream flag
    /// reads as `false`.
    pub open spec fn built_from(
        self,
        state: Option<RawVoiceState>,
        username: Seq<char>,
        guild_name: Seq<char>,
        channel_name: Seq<char>,
    ) -> bool {
        match state {
            None => {
                &&& self.user_id == 0
                &&& self.username@ == Seq::<char>::empty()
                &&& self.guild_name@ == Seq::<char>::empty()
                &&& self.channel_id is None
                &&& self.channel_name@ == Seq::<char>::empty()
                &&& !self.self_deaf
                &&& !self.self_mute
                &&& !self.self_stream
                &&& !self.self_video
            },
            Some(raw) => {
                &&& self.user_id == raw.user_id
                &&& self.username@ == username
                &&& self.guild_name@ == (if raw.guild_id is Some {
                    guild_name
                } else {
                    Seq::<char>::empty()
                })
                &&& self.channel_id == raw.channel_id
                &&& self.channel_name@ == (if raw.channel_id is Some {
                    channel_name
                } else {
                    Seq::<char>::empty()
                })
                &&& self.self_deaf == raw.self_deaf
                &&& self.self_mute == raw.self_mute
                &&& self.self_stream == (raw.self_stream == Some(true))
                &&& self.self_video == raw.self_video
            },
        }
    }

    /// Builds the snapshot of a voice-state record from the names resolved
    /// for it (see `resolve_name`).
    pub fn new(
        state: Option<RawVoiceState>,
        username: String,
        guild_name: String,
        channel_name: String,
    ) -> (r: CustomVoiceState)
        ensures
            r.built_from(state, username@, guild_name@, channel_name@),
    {
        match state {
            None => CustomVoiceState {
                user_id: 0,
                username: String::new(),
                guild_name: String::new(),
                channel_id: None,
                channel_name: String::new(),
                self_deaf: false,
                self_mute: false,
                self_stream: false,
                self_video: false,
            },
            Some(raw) => {
                let guild_name = if raw.guild_id.is_some() {
                    guild_name
                } else {
                    String::new()
                };
                let channel_name = if raw.channel_id.is_some() {
                    channel_name
                } else {
                    String::new()
                };
                CustomVoiceState {
                    user_id: raw.user_id,
                    username,
                    guild_name,
                    channel_id: raw.channel_id,
                    channel_name,
                    self_deaf: raw.self_deaf,
                    self_mute: raw.self_mute,
                    self_stream: raw.self_stream.unwrap_or(false),
                    self_video: raw.self_video,
                }
            },
        }
    }
}

} // verus!
