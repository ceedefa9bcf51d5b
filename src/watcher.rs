use crate::classify::{classify, classify_spec, SemanticEvent};
use crate::snapshot::CustomVoiceState;
use crate::store::{lookup, StateStore};
use vstd::prelude::*;

verus! {

/// What travels from the watcher to the presentation side, in order.
#[derive(Debug, PartialEq, Eq)]
pub enum ChannelMessage {
    /// An event to show and announce.
    Event(SemanticEvent),
    /// The pair of states that an update was classified from, for inspection.
    DebugData(Option<CustomVoiceState>, CustomVoiceState),
}

/// The previous state that an update is classified against: the one that came
/// with the update, else the one last recorded for the user.
pub open spec fn effective_previous(
    recorded: Map<u64, CustomVoiceState>,
    given: Option<CustomVoiceState>,
    user_id: u64,
) -> Option<CustomVoiceState> {
    match given {
        Some(p) => Some(p),
        None => lookup(recorded, user_id),
    }
}

/// The messages that one voice-state update produces: the pair of states it
/// was classified from, then the event.
pub open spec fn update_messages(
    recorded: Map<u64, CustomVoiceState>,
    given: Option<CustomVoiceState>,
    current: CustomVoiceState,
) -> Seq<ChannelMessage> {
    let prev = effective_previous(recorded, given, current.user_id);
    seq![ChannelMessage::DebugData(prev, current), ChannelMessage::Event(classify_spec(prev, current))]
}

/// Handles one voice-state update of `current.user_id`: fills in the previous
/// state from the store when the update lacks one, classifies the transition,
/// and records `current` as the user's last state (also after a leave).
pub fn handle_voice_update(
    store: &mut StateStore,
    previous: Option<CustomVoiceState>,
    current: CustomVoiceState,
) -> (r: Vec<ChannelMessage>)
    ensures
        r@ == update_messages(old(store)@, previous, current),
        final(store)@ == old(store)@.insert(current.user_id, current),
{
    let prev = match previous {
        Some(p) => Some(p),
        None => store.get(current.user_id),
    };
    let event = classify(&prev, &current);
    let mut out: Vec<ChannelMessage> = Vec::new();
    out.push(ChannelMessage::DebugData(prev, current.clone()));
    out.push(ChannelMessage::Event(event));
    store.put(current.user_id, current);
    proof {
        assert(out@ =~= update_messages(old(store)@, previous, current));
    }
    out
}

/// One voice state of a guild as listed at connect time: the channel it is in
/// and, where the guild's member list has the user, the user's name.
#[derive(Debug, Clone, PartialEq, Eq)]
pub struct PresenceEntry {
    pub channel_id: Option<u64>,
    pub member_name: Option<String>,
}

/// The names of the listed members in channel `channel_id`, in list order.
pub open spec fn present_names(entries: Seq<PresenceEntry>, channel_id: u64) -> Seq<Seq<char>>
    decreases entries.len(),
{
    if entries.len() == 0 {
        Seq::empty()
    } else {
        let rest = present_names(entries.drop_last(), channel_id);
        let e = entries.last();
        if e.channel_id == Some(channel_id) && e.member_name is Some {
            rest.push(e.member_name->0@)
        } else {
            rest
        }
    }
}

/// The names of the members found in channel `channel_id` among a guild's
/// voice states, skipping those whose member record is missing.
pub fn present_members(entries: &Vec<PresenceEntry>, channel_id: u64) -> (r: Vec<String>)
    ensures
        r@.map_values(|s: String| s@) == present_names(entries@, channel_id),
{
    let mut out: Vec<String> = Vec::new();
    let mut i: usize = 0;
    while i < entries.len()
        invariant
            i <= entries@.len(),
            out@.map_values(|s: String| s@) == present_names(entries@.subrange(0, i as int), channel_id),
        decreases entries@.len() - i,
    {
        let e = &entries[i];
        proof {
            assert(entries@.subrange(0, i + 1).drop_last() =~= entries@.subrange(0, i as int));
        }
        let here = match e.channel_id {
            Some(c) => c == channel_id,
            None => false,
        };
        if here {
            match &e.member_name {
                Some(name) => {
                    let ghost before = out@;
                    out.push(name.clone());
                    proof {
                        assert(out@.map_values(|s: String| s@) =~= before.map_values(
                            |s: String| s@,
                        ).push(name@));
                    }
                },
                None => {},
            }
        }
        i = i + 1;
    }
    proof {
        assert(entries@.subrange(0, entries@.len() as int) =~= entries@);
    }
    out
}

/// A channel of the guild at connect time, with the names of the members in it.
#[derive(Debug, Clone, PartialEq, Eq)]
pub struct ChannelRoster {
    pub name: String,
    pub is_voice: bool,
    pub members: Vec<String>,
}

/// The announcements for one channel: one per member, in order, for a voice
/// channel; none for any other kind of channel.
pub open spec fn channel_arrivals(roster: ChannelRoster) -> Seq<ChannelMessage> {
    if roster.is_voice {
        roster.members@.map_values(
            |m: String|
                ChannelMessage::Event(SemanticEvent::AlreadyInChannel { user: m, channel: roster.name }),
        )
    } else {
        Seq::empty()
    }
}

/// The announcements for all channels, channel by channel.
pub open spec fn roster_arrivals(rosters: Seq<ChannelRoster>) -> Seq<ChannelMessage>
    decreases rosters.len(),
{
    if rosters.len() == 0 {
        Seq::empty()
    } else {
        roster_arrivals(rosters.drop_last()) + channel_arrivals(rosters.last())
    }
}

/// The messages of a connect: that the bot is connected under `bot_name`,
/// then one "already in channel" event for each member of each voice channel.
pub fn startup_messages(bot_name: String, rosters: &Vec<ChannelRoster>) -> (r: Vec<ChannelMessage>)
    ensures
        r@ == seq![ChannelMessage::Event(SemanticEvent::BotConnected { bot_name })] + roster_arrivals(
            rosters@,
        ),
{
    let ghost head = seq![ChannelMessage::Event(SemanticEvent::BotConnected { bot_name })];
    let mut out: Vec<ChannelMessage> = Vec::new();
    out.push(ChannelMessage::Event(SemanticEvent::BotConnected { bot_name }));
    proof {
        assert(out@ =~= head + roster_arrivals(rosters@.subrange(0, 0)));
    }
    let mut i: usize = 0;
    while i < rosters.len()
        invariant
            i <= rosters@.len(),
            out@ == head + roster_arrivals(rosters@.subrange(0, i as int)),
        decreases rosters@.len() - i,
    {
        let roster = &rosters[i];
        let ghost done = out@;
        proof {
            assert(rosters@.subrange(0, i + 1).drop_last() =~= rosters@.subrange(0, i as int));
        }
        if roster.is_voice {
            let mut j: usize = 0;
            while j < roster.members.len()
                invariant
                    j <= roster.members@.len(),
                    roster == rosters@[i as int],
                    roster.is_voice,
                    out@ == done + channel_arrivals(*roster).subrange(0, j as int),
                decreases roster.members@.len() - j,
            {
                let ghost before = out@;
                out.push(
                    ChannelMessage::Event(
                        SemanticEvent::AlreadyInChannel {
                            user: roster.members[j].clone(),
                            channel: roster.name.clone(),
                        },
                    ),
                );
                proof {
                    assert(channel_arrivals(*roster).subrange(0, j + 1) =~= channel_arrivals(
                        *roster,
                    ).subrange(0, j as int).push(channel_arrivals(*roster)[j as int]));
                }
                j = j + 1;
            }
            proof {
                assert(channel_arrivals(*roster).subrange(0, j as int) =~= channel_arrivals(*roster));
            }
        } else {
            proof {
                assert(out@ =~= done + channel_arrivals(*roster));
            }
        }
        proof {
            assert(out@ =~= head + roster_arrivals(rosters@.subrange(0, i + 1)));
        }
        i = i + 1;
    }
    proof {
        assert(rosters@.subrange(0, rosters@.len() as int) =~= rosters@);
    }
    out
}

} // verus!
