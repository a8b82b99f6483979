//! The supervisor of one user: it owns the user's state and makes the
//! changes that operators ask for.

use vstd::prelude::*;
use crate::chat::Command;
use crate::chat::CommandView;
use crate::config::commands::CommandInfoView;
use crate::config::commands::Commands;
use crate::config::order::is_stable_sort;
use crate::config::update::alias_known;
use crate::config::update::with_change;
use crate::config::update::without_alias;
use crate::config::Chat;
use crate::config::ChatView;
use crate::config::Config;
use crate::config::Switcher;
use crate::error::Error;
use crate::state::State;
use crate::stream_servers::StreamServer;
use crate::switcher::TriggerType;

verus! {

/// The state of one user, and the operations on it.
#[derive(Debug, PartialEq, Eq)]
pub struct Noalbs {
    pub state: State,
}

/// The table of a chat, empty where the chat has none.
pub open spec fn table_of(chat: ChatView) -> Seq<(CommandView, CommandInfoView)> {
    match chat.commands {
        Some(table) => table,
        None => Seq::empty(),
    }
}

/// The threshold that stands for a number an operator gave: zero switches
/// the threshold off.
pub open spec fn threshold_of(value: u32) -> Option<u32> {
    if value == 0 {
        None
    } else {
        Some(value)
    }
}

impl Noalbs {
    /// A supervisor for the given configuration, with a fresh state.
    pub fn new(config: Config) -> (r: Noalbs)
        ensures
            r.state.config == config,
            r.state.switcher_state@ == crate::state::SwitcherStateView::initial(),
            r.state.broadcasting_software@.prev_scene == config@.switcher.switching_scenes.normal,
            r.state.broadcasting_software@.current_scene == Seq::<char>::empty(),
            !r.state.broadcasting_software.is_streaming,
            !r.state.broadcasting_software.is_connected,
            !r.state.broadcasting_software.initial_connect_done,
    {
        Noalbs { state: State::new(config) }
    }

    /// Adds a server to watch and keeps the servers in order of precedence.
    pub fn add_stream_server(&mut self, stream_server: StreamServer)
        ensures
            is_stable_sort(
                final(self).state.config.switcher.stream_servers@,
                old(self).state.config.switcher.stream_servers@.push(stream_server),
            ),
            final(self).state.config.switcher == (Switcher {
                stream_servers: final(self).state.config.switcher.stream_servers,
                ..old(self).state.config.switcher
            }),
            final(self).state.config.user == old(self).state.config.user,
            final(self).state.config.software == old(self).state.config.software,
            final(self).state.config.chat == old(self).state.config.chat,
            final(self).state.config.optional_scenes == old(self).state.config.optional_scenes,
            final(self).state.config.optional_options == old(self).state.config.optional_options,
            final(self).state.switcher_state == old(self).state.switcher_state,
            final(self).state.broadcasting_software == old(self).state.broadcasting_software,
    {
        self.state.config.switcher.add_stream_server(stream_server);
    }

    /// Whether some command has the alias. Without a chat configuration
    /// there are no commands to ask.
    pub fn contains_alias(&self, alias: &str) -> (r: Result<bool, Error>)
        ensures
            r == (match self.state.config@.chat {
                Some(chat) => Ok(alias_known(table_of(chat), alias@)),
                None => Err(Error::NoChat),
            }),
    {
        match &self.state.config.chat {
            Some(chat) => match &chat.commands {
                Some(table) => Ok(table.contains_alias(alias)),
                None => Ok(false),
            },
            None => Err(Error::NoChat),
        }
    }

    /// Gives a command one more alias. A chat that has no table of commands
    /// yet gets one.
    pub fn add_alias(&mut self, alias: String, command: Command) -> (r: Result<(), Error>)
        ensures
            match old(self).state.config@.chat {
                Some(chat) => r == Ok::<(), Error>(()) && final(self).state.config@.chat == Some(
                    ChatView {
                        commands: Some(with_change(table_of(chat), command@, None, Some(alias@))),
                        ..chat
                    },
                ),
                None => r == Err::<(), Error>(Error::NoChat) && final(self).state.config@.chat
                    is None,
            },
            final(self).state.config.user == old(self).state.config.user,
            final(self).state.config.switcher == old(self).state.config.switcher,
            final(self).state.config.software == old(self).state.config.software,
            final(self).state.config.optional_scenes == old(self).state.config.optional_scenes,
            final(self).state.config.optional_options == old(self).state.config.optional_options,
            final(self).state.switcher_state == old(self).state.switcher_state,
            final(self).state.broadcasting_software == old(self).state.broadcasting_software,
    {
        match self.state.config.chat {
            Some(ref mut chat) => {
                let mut table = match chat.commands.take() {
                    Some(table) => table,
                    None => Commands::new(),
                };
                table.touch(command, None, Some(alias));
                chat.commands = Some(table);
                Ok(())
            },
            None => Err(Error::NoChat),
        }
    }

    /// Takes an alias away from the first command that has it, and says
    /// whether there was one.
    pub fn remove_alias(&mut self, alias: &str) -> (r: Result<bool, Error>)
        ensures
            match old(self).state.config@.chat {
                Some(chat) => r == Ok::<bool, Error>(alias_known(table_of(chat), alias@))
                    && final(self).state.config@.chat == Some(
                    ChatView {
                        commands: match chat.commands {
                            Some(table) => Some(without_alias(table, alias@)),
                            None => None,
                        },
                        ..chat
                    },
                ),
                None => r == Err::<bool, Error>(Error::NoChat) && final(self).state.config@.chat
                    is None,
            },
            final(self).state.config.user == old(self).state.config.user,
            final(self).state.config.switcher == old(self).state.config.switcher,
            final(self).state.config.software == old(self).state.config.software,
            final(self).state.config.optional_scenes == old(self).state.config.optional_scenes,
            final(self).state.config.optional_options == old(self).state.config.optional_options,
            final(self).state.switcher_state == old(self).state.switcher_state,
            final(self).state.broadcasting_software == old(self).state.broadcasting_software,
    {
        match self.state.config.chat {
            Some(ref mut chat) => match chat.commands {
                Some(ref mut table) => Ok(table.remove_alias(alias)),
                None => Ok(false),
            },
            None => Err(Error::NoChat),
        }
    }

    /// The threshold of the given kind.
    pub fn get_trigger_by_type(&self, kind: TriggerType) -> (r: Option<u32>)
        ensures
            r == self.state.config.switcher.triggers.spec_get(kind),
    {
        self.state.config.switcher.triggers.get(kind)
    }

    /// Sets the threshold of the given kind; zero switches it off. The
    /// result is the threshold now in force.
    pub fn update_trigger(&mut self, kind: TriggerType, value: u32) -> (r: Option<u32>)
        ensures
            r == threshold_of(value),
            final(self).state.config.switcher == (Switcher {
                triggers: old(self).state.config.switcher.triggers.spec_with(
                    kind,
                    threshold_of(value),
                ),
                ..old(self).state.config.switcher
            }),
            final(self).state.config.user == old(self).state.config.user,
            final(self).state.config.software == old(self).state.config.software,
            final(self).state.config.chat == old(self).state.config.chat,
            final(self).state.config.optional_scenes == old(self).state.config.optional_scenes,
            final(self).state.config.optional_options == old(self).state.config.optional_options,
            final(self).state.switcher_state == old(self).state.switcher_state,
            final(self).state.broadcasting_software == old(self).state.broadcasting_software,
    {
        let real_value = if value == 0 {
            None
        } else {
            Some(value)
        };
        self.state.config.switcher.triggers.set(kind, real_value);
        real_value
    }

    /// Whether the stream is stopped when the channel hosts or raids.
    pub fn get_autostop(&self) -> (r: Result<bool, Error>)
        ensures
            r == (match self.state.config@.chat {
                Some(chat) => Ok(chat.enable_auto_stop_stream_on_host_or_raid),
                None => Err(Error::NoChat),
            }),
    {
        match &self.state.config.chat {
            Some(chat) => Ok(chat.enable_auto_stop_stream_on_host_or_raid),
            None => Err(Error::NoChat),
        }
    }

    /// Says whether the stream is to be stopped when the channel hosts or
    /// raids.
    pub fn set_autostop(&mut self, enabled: bool) -> (r: Result<(), Error>)
        ensures
            match old(self).state.config.chat {
                Some(chat) => r == Ok::<(), Error>(()) && final(self).state.config.chat == Some(
                    Chat { enable_auto_stop_stream_on_host_or_raid: enabled, ..chat },
                ),
                None => r == Err::<(), Error>(Error::NoChat) && final(self).state.config.chat
                    is None,
            },
            final(self).state.config.user == old(self).state.config.user,
            final(self).state.config.switcher == old(self).state.config.switcher,
            final(self).state.config.software == old(self).state.config.software,
            final(self).state.config.optional_scenes == old(self).state.config.optional_scenes,
            final(self).state.config.optional_options == old(self).state.config.optional_options,
            final(self).state.switcher_state == old(self).state.switcher_state,
            final(self).state.broadcasting_software == old(self).state.broadcasting_software,
    {
        match self.state.config.chat {
            Some(ref mut chat) => {
                chat.enable_auto_stop_stream_on_host_or_raid = enabled;
                Ok(())
            },
            None => Err(Error::NoChat),
        }
    }

    /// Whether the chat is told of scene changes.
    pub fn get_notify(&self) -> (r: bool)
        ensures
            r == self.state.config.switcher.auto_switch_notification,
    {
        self.state.config.switcher.auto_switch_notification
    }

    /// Says whether the chat is to be told of scene changes.
    pub fn set_notify(&mut self, enabled: bool)
        ensures
            final(self).state.config.switcher == (Switcher {
                auto_switch_notification: enabled,
                ..old(self).state.config.switcher
            }),
            final(self).state.config.user == old(self).state.config.user,
            final(self).state.config.software == old(self).state.config.software,
            final(self).state.config.chat == old(self).state.config.chat,
            final(self).state.config.optional_scenes == old(self).state.config.optional_scenes,
            final(self).state.config.optional_options == old(self).state.config.optional_options,
            final(self).state.switcher_state == old(self).state.switcher_state,
            final(self).state.broadcasting_software == old(self).state.broadcasting_software,
    {
        self.state.config.switcher.auto_switch_notification = enabled;
    }

    /// Sets the prefix that marks a chat line as a command.
    pub fn set_prefix(&mut self, prefix: String) -> (r: Result<(), Error>)
        ensures
            match old(self).state.config.chat {
                Some(chat) => r == Ok::<(), Error>(()) && final(self).state.config.chat == Some(
                    Chat { prefix, ..chat },
                ),
                None => r == Err::<(), Error>(Error::NoChat) && final(self).state.config.chat
                    is None,
            },
            final(self).state.config.user == old(self).state.config.user,
            final(self).state.config.switcher == old(self).state.config.switcher,
            final(self).state.config.software == old(self).state.config.software,
            final(self).state.config.optional_scenes == old(self).state.config.optional_scenes,
            final(self).state.config.optional_options == old(self).state.config.optional_options,
            final(self).state.switcher_state == old(self).state.switcher_state,
            final(self).state.broadcasting_software == old(self).state.broadcasting_software,
    {
        match self.state.config.chat {
            Some(ref mut chat) => {
                chat.prefix = prefix;
                Ok(())
            },
            None => Err(Error::NoChat),
        }
    }

    /// Switches the switcher on or off. The result says whether a switcher
    /// that waits to be switched on has to be woken, which is whenever it
    /// is switched on.
    pub fn set_bitrate_switcher_state(&mut self, enabled: bool) -> (wake: bool)
        ensures
            wake == enabled,
            final(self).state.config.switcher == (Switcher {
                bitrate_switcher_enabled: enabled,
                ..old(self).state.config.switcher
            }),
            final(self).state.config.user == old(self).state.config.user,
            final(self).state.config.software == old(self).state.config.software,
            final(self).state.config.chat == old(self).state.config.chat,
            final(self).state.config.optional_scenes == old(self).state.config.optional_scenes,
            final(self).state.config.optional_options == old(self).state.config.optional_options,
            final(self).state.switcher_state == old(self).state.switcher_state,
            final(self).state.broadcasting_software == old(self).state.broadcasting_software,
    {
        self.state.config.switcher.set_bitrate_switcher_enabled(enabled);
        enabled
    }
}

} // verus!
