//! The configuration of one user: the switcher's rules, the broadcasting
//! software to control, the chat to join, and what may differ from the
//! defaults.

use std::collections::HashMap;
use vstd::prelude::*;
use crate::chat::ChatLanguage;
use crate::chat::ChatPlatform;
use crate::config::commands::CommandInfoView;
pub use crate::config::commands::CommandInfo;
pub use crate::config::commands::Commands;
pub use crate::config::update::update_command;
use crate::chat::CommandView;
use crate::error::Error;
use crate::stream_servers::StreamServer;
use crate::stream_servers::StreamServerView;
use crate::switcher::ScenesView;
use crate::switcher::SwitchingScenes;
use crate::switcher::Triggers;

pub mod commands;
pub mod legacy;
pub mod load;
pub mod order;
pub mod storage;
pub mod update;

verus! {

/// How many degraded samples in a row a switch waits for, unless configured
/// otherwise.
pub const MAX_LOW_RETRY: u8 = 5;

/// The whole configuration of one user.
#[derive(Debug, PartialEq, Eq)]
pub struct Config {
    pub user: User,
    pub switcher: Switcher,
    pub software: SoftwareConnection,
    pub chat: Option<Chat>,
    pub optional_scenes: OptionalScenes,
    pub optional_options: OptionalOptions,
}

pub struct ConfigView {
    pub user: UserView,
    pub switcher: SwitcherView,
    pub software: SoftwareConnectionView,
    pub chat: Option<ChatView>,
    pub optional_scenes: OptionalScenesView,
    pub optional_options: OptionalOptions,
}

impl View for Config {
    type V = ConfigView;

    open spec fn view(&self) -> ConfigView {
        ConfigView {
            user: self.user@,
            switcher: self.switcher@,
            software: self.software@,
            chat: self.chat.deep_view(),
            optional_scenes: self.optional_scenes@,
            optional_options: self.optional_options,
        }
    }
}

#[derive(Debug, PartialEq, Eq)]
pub struct User {
    pub id: Option<i64>,
    pub name: String,
    pub password_hash: Option<String>,
}

pub struct UserView {
    pub id: Option<i64>,
    pub name: Seq<char>,
    pub password_hash: Option<Seq<char>>,
}

impl View for User {
    type V = UserView;

    open spec fn view(&self) -> UserView {
        UserView {
            id: self.id,
            name: self.name@,
            password_hash: self.password_hash.deep_view(),
        }
    }
}

/// The switcher's rules: what can be changed from outside the switcher.
#[derive(Debug, PartialEq, Eq)]
pub struct Switcher {
    /// The master switch: while it is off the switcher changes no scene.
    pub bitrate_switcher_enabled: bool,
    /// Change scenes only while the broadcasting software is streaming.
    pub only_switch_when_streaming: bool,
    /// Leave a degraded scene at the first better sample.
    pub instantly_switch_on_recover: bool,
    /// Tell the chat about each change.
    pub auto_switch_notification: bool,
    /// How many samples in a row must call for a change before it is made.
    pub retry_attempts: u8,
    /// The thresholds for the low and offline scenes.
    pub triggers: Triggers,
    /// The scenes to switch between.
    pub switching_scenes: SwitchingScenes,
    /// The watched servers, in order of precedence.
    pub stream_servers: Vec<StreamServer>,
}

pub struct SwitcherView {
    pub bitrate_switcher_enabled: bool,
    pub only_switch_when_streaming: bool,
    pub instantly_switch_on_recover: bool,
    pub auto_switch_notification: bool,
    pub retry_attempts: u8,
    pub triggers: Triggers,
    pub switching_scenes: ScenesView,
    pub stream_servers: Seq<StreamServerView>,
}

impl View for Switcher {
    type V = SwitcherView;

    open spec fn view(&self) -> SwitcherView {
        SwitcherView {
            bitrate_switcher_enabled: self.bitrate_switcher_enabled,
            only_switch_when_streaming: self.only_switch_when_streaming,
            instantly_switch_on_recover: self.instantly_switch_on_recover,
            auto_switch_notification: self.auto_switch_notification,
            retry_attempts: self.retry_attempts,
            triggers: self.triggers,
            switching_scenes: self.switching_scenes@,
            stream_servers: self.stream_servers.deep_view(),
        }
    }
}

impl SwitcherView {
    /// The rules that hold where nothing is configured.
    pub open spec fn initial() -> SwitcherView {
        SwitcherView {
            bitrate_switcher_enabled: true,
            only_switch_when_streaming: true,
            instantly_switch_on_recover: true,
            auto_switch_notification: true,
            retry_attempts: MAX_LOW_RETRY,
            triggers: Triggers {
                low: Some(800),
                rtt: Some(2500),
                offline: None,
                rtt_offline: None,
            },
            switching_scenes: ScenesView { normal: "live"@, low: "low"@, offline: "offline"@ },
            stream_servers: Seq::empty(),
        }
    }
}

impl Default for Switcher {
    fn default() -> (r: Self)
        ensures
            r@ == SwitcherView::initial(),
    {
        let r = Switcher {
            bitrate_switcher_enabled: true,
            only_switch_when_streaming: true,
            instantly_switch_on_recover: true,
            auto_switch_notification: true,
            triggers: Triggers::default(),
            stream_servers: Vec::new(),
            switching_scenes: SwitchingScenes {
                normal: "live".to_owned(),
                low: "low".to_owned(),
                offline: "offline".to_owned(),
            },
            retry_attempts: MAX_LOW_RETRY,
        };
        assert(r@.stream_servers =~= Seq::empty());
        r
    }
}

impl Switcher {
    /// Turns the master switch on or off and changes nothing else.
    pub fn set_bitrate_switcher_enabled(&mut self, enabled: bool)
        ensures
            *final(self) == (Switcher { bitrate_switcher_enabled: enabled, ..*old(self) }),
    {
        self.bitrate_switcher_enabled = enabled;
    }
}

/// The broadcasting software to control, by the protocol it speaks.
#[derive(Debug, PartialEq, Eq)]
pub enum SoftwareConnection {
    ObsOld(ObsConfig),
    Obs(ObsConfig),
}

pub enum SoftwareConnectionView {
    ObsOld(ObsConfigView),
    Obs(ObsConfigView),
}

impl View for SoftwareConnection {
    type V = SoftwareConnectionView;

    open spec fn view(&self) -> SoftwareConnectionView {
        match *self {
            SoftwareConnection::ObsOld(c) => SoftwareConnectionView::ObsOld(c@),
            SoftwareConnection::Obs(c) => SoftwareConnectionView::Obs(c@),
        }
    }
}

#[derive(Debug, PartialEq, Eq)]
pub struct ObsConfig {
    pub host: String,
    pub password: Option<String>,
    pub port: u16,
    /// Profile and collection pairs, by name.
    pub collections: Option<HashMap<String, CollectionPair>>,
}

pub struct ObsConfigView {
    pub host: Seq<char>,
    pub password: Option<Seq<char>>,
    pub port: u16,
    pub collections: Option<Map<String, CollectionPair>>,
}

impl View for ObsConfig {
    type V = ObsConfigView;

    open spec fn view(&self) -> ObsConfigView {
        ObsConfigView {
            host: self.host@,
            password: self.password.deep_view(),
            port: self.port,
            collections: match self.collections {
                Some(pairs) => Some(pairs@),
                None => None,
            },
        }
    }
}

#[derive(Debug, PartialEq, Eq)]
pub struct CollectionPair {
    /// The profile's name.
    pub profile: String,
    /// The scene collection's name.
    pub collection: String,
}

/// Where a configuration is kept.
pub trait ConfigLogic: Send + Sync {
    fn load(&self) -> Result<Config, Error>;

    fn save(&self, config: &Config) -> Result<(), Error>;
}

#[derive(Debug, PartialEq, Eq)]
pub struct Chat {
    pub platform: ConfigChatPlatform,
    pub username: String,
    pub admins: Vec<String>,
    pub language: ChatLanguage,
    pub prefix: String,
    pub enable_public_commands: bool,
    pub enable_mod_commands: bool,
    pub enable_auto_stop_stream_on_host_or_raid: bool,
    pub announce_raid_on_auto_stop: bool,
    pub commands: Option<Commands>,
}

pub struct ChatView {
    pub platform: ConfigChatPlatform,
    pub username: Seq<char>,
    pub admins: Seq<Seq<char>>,
    pub language: ChatLanguage,
    pub prefix: Seq<char>,
    pub enable_public_commands: bool,
    pub enable_mod_commands: bool,
    pub enable_auto_stop_stream_on_host_or_raid: bool,
    pub announce_raid_on_auto_stop: bool,
    pub commands: Option<Seq<(CommandView, CommandInfoView)>>,
}

impl View for Chat {
    type V = ChatView;

    open spec fn view(&self) -> ChatView {
        ChatView {
            platform: self.platform,
            username: self.username@,
            admins: self.admins.deep_view(),
            language: self.language,
            prefix: self.prefix@,
            enable_public_commands: self.enable_public_commands,
            enable_mod_commands: self.enable_mod_commands,
            enable_auto_stop_stream_on_host_or_raid: self.enable_auto_stop_stream_on_host_or_raid,
            announce_raid_on_auto_stop: self.announce_raid_on_auto_stop,
            commands: self.commands.deep_view(),
        }
    }
}

impl DeepView for Chat {
    type V = ChatView;

    open spec fn deep_view(&self) -> ChatView {
        self.view()
    }
}

impl ChatView {
    /// The chat settings that hold where nothing is configured.
    pub open spec fn initial() -> ChatView {
        ChatView {
            platform: ConfigChatPlatform::Twitch,
            username: "715209"@,
            admins: Seq::empty(),
            language: ChatLanguage::EN,
            prefix: "!"@,
            enable_public_commands: true,
            enable_mod_commands: true,
            enable_auto_stop_stream_on_host_or_raid: true,
            announce_raid_on_auto_stop: true,
            commands: None,
        }
    }
}

impl Default for Chat {
    fn default() -> (r: Self)
        ensures
            r@ == ChatView::initial(),
    {
        let r = Chat {
            platform: ConfigChatPlatform::Twitch,
            username: "715209".to_owned(),
            admins: Vec::new(),
            language: ChatLanguage::EN,
            prefix: "!".to_owned(),
            enable_public_commands: true,
            enable_mod_commands: true,
            enable_auto_stop_stream_on_host_or_raid: true,
            announce_raid_on_auto_stop: true,
            commands: None,
        };
        assert(r@.admins =~= Seq::empty());
        r
    }
}

/// The chat service to join, with what that service needs to know.
#[derive(Debug, Clone, Copy, PartialEq, Eq, Structural, PartialOrd, Ord, Hash)]
pub enum ConfigChatPlatform {
    Twitch,
    Kick(KickConfig),
    Youtube,
}

#[derive(Debug, Clone, Copy, PartialEq, Eq, Structural, PartialOrd, Ord, Hash)]
pub struct KickConfig {
    pub channel_id: Option<usize>,
    pub chatroom_id: Option<usize>,
    pub use_irlproxy: Option<bool>,
}

impl ConfigChatPlatform {
    /// The platform's kind, without its settings.
    pub open spec fn spec_kind(self) -> ChatPlatform {
        match self {
            ConfigChatPlatform::Twitch => ChatPlatform::Twitch,
            ConfigChatPlatform::Kick(_) => ChatPlatform::Kick,
            ConfigChatPlatform::Youtube => ChatPlatform::Youtube,
        }
    }

    /// The platform's kind, without its settings.
    pub fn kind(&self) -> (r: ChatPlatform)
        ensures
            r == self.spec_kind(),
    {
        match self {
            ConfigChatPlatform::Twitch => ChatPlatform::Twitch,
            ConfigChatPlatform::Kick(_) => ChatPlatform::Kick,
            ConfigChatPlatform::Youtube => ChatPlatform::Youtube,
        }
    }
}

/// A configuration kept in a file.
#[derive(Debug, PartialEq, Eq)]
pub struct File {
    pub name: std::path::PathBuf,
}

/// Scenes for special moments of a broadcast.
#[derive(Debug, PartialEq, Eq)]
pub struct OptionalScenes {
    pub starting: Option<String>,
    pub ending: Option<String>,
    pub privacy: Option<String>,
    pub refresh: Option<String>,
}

pub struct OptionalScenesView {
    pub starting: Option<Seq<char>>,
    pub ending: Option<Seq<char>>,
    pub privacy: Option<Seq<char>>,
    pub refresh: Option<Seq<char>>,
}

impl View for OptionalScenes {
    type V = OptionalScenesView;

    open spec fn view(&self) -> OptionalScenesView {
        OptionalScenesView {
            starting: self.starting.deep_view(),
            ending: self.ending.deep_view(),
            privacy: self.privacy.deep_view(),
            refresh: self.refresh.deep_view(),
        }
    }
}

impl Default for OptionalScenes {
    fn default() -> (r: Self)
        ensures
            r@ == (OptionalScenesView {
                starting: None,
                ending: None,
                privacy: None,
                refresh: None,
            }),
    {
        OptionalScenes { starting: None, ending: None, privacy: None, refresh: None }
    }
}

#[derive(Debug, Clone, Copy, PartialEq, Eq, Structural)]
pub struct OptionalOptions {
    pub twitch_transcoding_check: bool,
    pub twitch_transcoding_retries: u64,
    pub twitch_transcoding_delay_seconds: u64,
    /// Stop the stream after this many minutes on the offline scene.
    pub offline_timeout: Option<u32>,
    /// Record whenever the stream runs.
    pub record_while_streaming: bool,
    /// Show the starting scene when the stream starts.
    pub switch_to_starting_scene_on_stream_start: bool,
    /// Leave the starting scene for the live scene once the feed is there.
    pub switch_from_starting_scene_to_live_scene: bool,
}

impl OptionalOptions {
    /// The options that hold where nothing is configured.
    pub open spec fn initial() -> OptionalOptions {
        OptionalOptions {
            twitch_transcoding_check: false,
            twitch_transcoding_retries: 5,
            twitch_transcoding_delay_seconds: 15,
            offline_timeout: None,
            record_while_streaming: false,
            switch_to_starting_scene_on_stream_start: false,
            switch_from_starting_scene_to_live_scene: false,
        }
    }
}

impl Default for OptionalOptions {
    fn default() -> (r: Self)
        ensures
            r == OptionalOptions::initial(),
    {
        OptionalOptions {
            twitch_transcoding_check: false,
            twitch_transcoding_retries: 5,
            twitch_transcoding_delay_seconds: 15,
            offline_timeout: None,
            record_while_streaming: false,
            switch_to_starting_scene_on_stream_start: false,
            switch_from_starting_scene_to_live_scene: false,
        }
    }
}

#[verifier::external_type_specification]
#[verifier::external_body]
pub struct ExPathBuf(std::path::PathBuf);

} // verus!
