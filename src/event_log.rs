use crate::classify::SemanticEvent;
use crate::render::log_line_spec;
use crate::snapshot::CustomVoiceState;
use crate::text::views;
use crate::watcher::ChannelMessage;
use vstd::prelude::*;

verus! {

/// A pair of states that an update was classified from.
#[derive(Debug, Clone, PartialEq, Eq)]
pub struct DebugVoiceState {
    pub old_state: Option<CustomVoiceState>,
    pub new_state: CustomVoiceState,
}

/// What the presentation side knows: whether and as whom the bot is connected,
/// the event log with the most recent line first, and the classified pairs in
/// arrival order.
#[derive(Debug)]
pub struct AppModel {
    pub bot_name: Option<String>,
    pub events: Vec<String>,
    pub debug_events: Vec<DebugVoiceState>,
}

/// The status line for a bot connected as `bot_name`, or not connected.
pub open spec fn status_spec(bot_name: Option<String>) -> Seq<char> {
    match bot_name {
        Some(name) => "Bot connected ( "@ + name@ + " )"@,
        None => "Bot not connected"@,
    }
}

impl AppModel {
    /// Nothing connected, nothing logged.
    pub fn new() -> (r: AppModel)
        ensures
            r.bot_name is None,
            r.events@.len() == 0,
            r.debug_events@.len() == 0,
    {
        AppModel { bot_name: None, events: Vec::new(), debug_events: Vec::new() }
    }

    /// Takes in one message from the watcher: a connect sets the bot's name;
    /// any other event puts its line at the head of the log; a classified pair
    /// is appended to the debug list.
    pub fn apply(&mut self, msg: ChannelMessage)
        ensures
            match msg {
                ChannelMessage::Event(SemanticEvent::BotConnected { bot_name }) => {
                    &&& final(self).bot_name == Some(bot_name)
                    &&& final(self).events == old(self).events
                    &&& final(self).debug_events == old(self).debug_events
                },
                ChannelMessage::Event(e) => {
                    &&& final(self).bot_name == old(self).bot_name
                    &&& views(final(self).events@) == seq![log_line_spec(e)->0] + views(
                        old(self).events@,
                    )
                    &&& final(self).debug_events == old(self).debug_events
                },
                ChannelMessage::DebugData(o, n) => {
                    &&& final(self).bot_name == old(self).bot_name
                    &&& final(self).events == old(self).events
                    &&& final(self).debug_events@ == old(self).debug_events@.push(
                        DebugVoiceState { old_state: o, new_state: n },
                    )
                },
            },
    {
        match msg {
            ChannelMessage::Event(SemanticEvent::BotConnected { bot_name }) => {
                self.bot_name = Some(bot_name);
            },
            ChannelMessage::Event(e) => {
                match e.log_line() {
                    Some(line) => {
                        let ghost before = self.events@;
                        self.events.insert(0, line);
                        proof {
                            assert(views(self.events@) =~= seq![line@] + views(before));
                        }
                    },
                    None => {},
                }
            },
            ChannelMessage::DebugData(o, n) => {
                self.debug_events.push(DebugVoiceState { old_state: o, new_state: n });
            },
        }
    }

    /// Empties the event log; the rest stays.
    pub fn clear_events(&mut self)
        ensures
            final(self).events@.len() == 0,
            final(self).bot_name == old(self).bot_name,
            final(self).debug_events == old(self).debug_events,
    {
        self.events.clear();
    }

    /// "Bot connected ( name )" or "Bot not connected".
    pub fn status_text(&self) -> (r: String)
        ensures
            r@ == status_spec(self.bot_name),
    {
        match &self.bot_name {
            Some(name) => {
                let mut s = String::from_str("Bot connected ( ");
                s.append(name.as_str());
                s.append(" )");
                s
            },
            None => String::from_str("Bot not connected"),
        }
    }
}

} // verus!
