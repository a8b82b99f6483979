//! The first form of the configuration, and how it becomes the present one.

use std::collections::HashMap;
use vstd::prelude::*;
use vstd::string::StringExecFns;
use crate::chat::ChatLanguage;
use crate::chat::Command;
use crate::chat::CommandView;
use crate::chat::Permission;
use crate::chat::language_coded;
use crate::config::Chat;
use crate::config::ChatView;
use crate::config::Config;
use crate::config::ConfigChatPlatform;
use crate::config::ConfigView;
use crate::config::ObsConfig;
use crate::config::ObsConfigView;
use crate::config::OptionalOptions;
use crate::config::OptionalScenes;
use crate::config::OptionalScenesView;
use crate::config::SoftwareConnection;
use crate::config::SoftwareConnectionView;
use crate::config::Switcher;
use crate::config::SwitcherView;
use crate::config::User;
use crate::config::UserView;
use crate::config::commands::has_line;
use crate::config::commands::CommandInfoView;
use crate::config::commands::Commands;
use crate::config::update::command_updated;
use crate::config::update::update_command;
use crate::error::ConfigFault;
use crate::error::Error;
use crate::stream_servers::Probe;
use crate::stream_servers::ProbeView;
use crate::stream_servers::StreamServer;
use crate::stream_servers::StreamServerView;
use crate::switcher::ScenesView;
use crate::switcher::SwitchingScenes;
use crate::switcher::Triggers;
use crate::text::ascii_lowercase;
use crate::text::contains;
use crate::text::contains_text;
use crate::text::host_and_port;
use crate::text::same_text;
use crate::text::split_host_port;
use crate::text::to_lowercase;
use crate::text::unicode_lowercase;

verus! {

/// The first form of the configuration.
#[derive(Debug, PartialEq, Eq)]
pub struct ConfigOld {
    pub obs: ObsOld,
    pub rtmp: RtmpOld,
    pub twitch_chat: TwitchChat,
    pub language: Option<String>,
}

#[derive(Debug, PartialEq, Eq)]
pub struct ObsOld {
    pub ip: String,
    pub password: String,
    pub normal_scene: String,
    pub offline_scene: String,
    pub low_bitrate_scene: String,
    pub refresh_scene: String,
    pub low_bitrate_trigger: u32,
    pub high_rtt_trigger: Option<u32>,
    pub refresh_scene_interval: u32,
    pub only_switch_when_streaming: bool,
}

#[derive(Debug, PartialEq, Eq)]
pub struct RtmpOld {
    pub server: String,
    pub stats: String,
    pub application: Option<String>,
    pub key: Option<String>,
    pub id: Option<String>,
    pub publisher: Option<String>,
}

#[derive(Debug, PartialEq, Eq)]
pub struct TwitchChat {
    pub channel: String,
    pub bot_username: String,
    pub oauth: String,
    pub enable: bool,
    pub prefix: String,
    pub enable_public_commands: bool,
    pub public_commands: Vec<String>,
    pub enable_mod_commands: bool,
    pub mod_commands: Vec<String>,
    pub enable_auto_switch_notification: bool,
    pub enable_auto_stop_stream_on_host_or_raid: bool,
    pub admin_users: Vec<String>,
    pub alias: Option<Vec<Vec<String>>>,
}

impl Default for ObsOld {
    fn default() -> (r: Self)
        ensures
            r.ip@ == "localhost"@,
            r.password@ == "password"@,
            r.normal_scene@ == "live"@,
            r.low_bitrate_scene@ == "low"@,
            r.offline_scene@ == "offline"@,
            r.refresh_scene@ == "refresh"@,
            r.low_bitrate_trigger == 800,
            r.high_rtt_trigger == Some(2500u32),
            r.refresh_scene_interval == 10,
            r.only_switch_when_streaming,
    {
        ObsOld {
            ip: "localhost".to_owned(),
            password: "password".to_owned(),
            normal_scene: "live".to_owned(),
            low_bitrate_scene: "low".to_owned(),
            offline_scene: "offline".to_owned(),
            refresh_scene: "refresh".to_owned(),
            low_bitrate_trigger: 800,
            high_rtt_trigger: Some(2500),
            refresh_scene_interval: 10,
            only_switch_when_streaming: true,
        }
    }
}

fn pair_of(a: &str, b: &str) -> (r: Vec<String>)
    ensures
        r.deep_view() == seq![a@, b@],
{
    let mut r: Vec<String> = Vec::new();
    r.push(a.to_owned());
    r.push(b.to_owned());
    r
}

impl Default for TwitchChat {
    fn default() -> (r: Self)
        ensures
            r.channel@ == "715209"@,
            r.bot_username@ == "715209"@,
            r.oauth@ == "oauth:YOUR_OAUTH_HERE"@,
            r.enable,
            r.prefix@ == "!"@,
            r.enable_public_commands,
            r.public_commands.deep_view() == seq!["bitrate"@],
            r.enable_mod_commands,
            r.mod_commands.deep_view() == seq![
                "refresh"@,
                "fix"@,
                "trigger"@,
                "sourceinfo"@,
                "obsinfo"@,
            ],
            r.enable_auto_switch_notification,
            r.enable_auto_stop_stream_on_host_or_raid,
            r.admin_users.deep_view() == seq!["715209"@, "b3ck"@],
            r.alias.deep_view() == Some(
                seq![seq!["r"@, "refresh"@], seq!["f"@, "fix"@], seq!["b"@, "bitrate"@]],
            ),
    {
        let mut public_commands: Vec<String> = Vec::new();
        public_commands.push("bitrate".to_owned());
        let mut mod_commands: Vec<String> = Vec::new();
        mod_commands.push("refresh".to_owned());
        mod_commands.push("fix".to_owned());
        mod_commands.push("trigger".to_owned());
        mod_commands.push("sourceinfo".to_owned());
        mod_commands.push("obsinfo".to_owned());
        assert(mod_commands.deep_view() =~= seq![
            "refresh"@,
            "fix"@,
            "trigger"@,
            "sourceinfo"@,
            "obsinfo"@,
        ]);
        let admin_users = pair_of("715209", "b3ck");
        let mut alias: Vec<Vec<String>> = Vec::new();
        alias.push(pair_of("r", "refresh"));
        alias.push(pair_of("f", "fix"));
        alias.push(pair_of("b", "bitrate"));
        assert(alias.deep_view() =~= seq![
            seq!["r"@, "refresh"@],
            seq!["f"@, "fix"@],
            seq!["b"@, "bitrate"@],
        ]);
        TwitchChat {
            channel: "715209".to_owned(),
            bot_username: "715209".to_owned(),
            oauth: "oauth:YOUR_OAUTH_HERE".to_owned(),
            enable: true,
            prefix: "!".to_owned(),
            enable_public_commands: true,
            public_commands,
            enable_mod_commands: true,
            mod_commands,
            enable_auto_switch_notification: true,
            enable_auto_stop_stream_on_host_or_raid: true,
            admin_users,
            alias: Some(alias),
        }
    }
}

/// A server of the first form's single ingest: first in precedence,
/// enabled, with nothing overridden.
pub open spec fn first_server(name: Seq<char>, probe: ProbeView) -> StreamServerView {
    StreamServerView {
        stream_server: probe,
        name,
        priority: Some(0),
        override_scenes: None,
        depends_on: None,
        enabled: true,
    }
}

/// The server that the first form's ingest stands for. The kinds `nginx`
/// and `node-media-server` are called `RTMP`, `nimble` and
/// `srt-live-server` are called `SRT`, and an `srt-live-server` whose
/// statistics address holds `belabox.net` is a `BELABOX`. Each kind must
/// bring the fields that it needs; any other kind is not supported.
pub open spec fn legacy_server(r: RtmpOld) -> Result<StreamServerView, Error> {
    if r.server@ == "nginx"@ {
        match (r.application, r.key) {
            (Some(application), Some(key)) => Ok(
                first_server(
                    "RTMP"@,
                    ProbeView::Nginx { stats_url: r.stats@, application: application@, key: key@ },
                ),
            ),
            _ => Err(Error::ConfigInvalid(ConfigFault::MissingServerField)),
        }
    } else if r.server@ == "node-media-server"@ {
        match (r.application, r.key) {
            (Some(application), Some(key)) => Ok(
                first_server(
                    "RTMP"@,
                    ProbeView::NodeMediaServer {
                        stats_url: r.stats@,
                        application: application@,
                        key: key@,
                        auth: None,
                    },
                ),
            ),
            _ => Err(Error::ConfigInvalid(ConfigFault::MissingServerField)),
        }
    } else if r.server@ == "nimble"@ {
        match (r.id, r.application, r.key) {
            (Some(id), Some(application), Some(key)) => Ok(
                first_server(
                    "SRT"@,
                    ProbeView::Nimble {
                        id: id@,
                        stats_url: r.stats@,
                        application: application@,
                        key: key@,
                    },
                ),
            ),
            _ => Err(Error::ConfigInvalid(ConfigFault::MissingServerField)),
        }
    } else if r.server@ == "srt-live-server"@ {
        match r.publisher {
            Some(publisher) => Ok(
                if contains_text(r.stats@, "belabox.net"@) {
                    first_server(
                        "BELABOX"@,
                        ProbeView::Belabox { stats_url: r.stats@, publisher: publisher@ },
                    )
                } else {
                    first_server(
                        "SRT"@,
                        ProbeView::SrtLiveServer { stats_url: r.stats@, publisher: publisher@ },
                    )
                },
            ),
            None => Err(Error::ConfigInvalid(ConfigFault::MissingServerField)),
        }
    } else {
        Err(Error::ConfigInvalid(ConfigFault::UnsupportedServer))
    }
}

/// A result with the view of what it holds.
pub open spec fn server_outcome(r: Result<StreamServer, Error>) -> Result<StreamServerView, Error> {
    match r {
        Ok(server) => Ok(server@),
        Err(e) => Err(e),
    }
}

fn first(name: &str, probe: Probe) -> (r: StreamServer)
    ensures
        r@ == first_server(name@, probe@),
{
    StreamServer {
        stream_server: probe,
        name: name.to_owned(),
        priority: Some(0),
        override_scenes: None,
        depends_on: None,
        enabled: true,
    }
}

impl StreamServer {
    /// Makes the first form's ingest a server of the present form.
    pub fn from(r: RtmpOld) -> (server: Result<StreamServer, Error>)
        ensures
            server_outcome(server) == legacy_server(r),
    {
        let missing = Error::ConfigInvalid(ConfigFault::MissingServerField);
        let RtmpOld { server, stats, application, key, id, publisher } = r;
        if same_text(server.as_str(), "nginx") {
            match (application, key) {
                (Some(application), Some(key)) => Ok(
                    first("RTMP", Probe::Nginx { stats_url: stats, application, key }),
                ),
                _ => Err(missing),
            }
        } else if same_text(server.as_str(), "node-media-server") {
            match (application, key) {
                (Some(application), Some(key)) => Ok(
                    first(
                        "RTMP",
                        Probe::NodeMediaServer { stats_url: stats, application, key, auth: None },
                    ),
                ),
                _ => Err(missing),
            }
        } else if same_text(server.as_str(), "nimble") {
            match (id, application, key) {
                (Some(id), Some(application), Some(key)) => Ok(
                    first("SRT", Probe::Nimble { id, stats_url: stats, application, key }),
                ),
                _ => Err(missing),
            }
        } else if same_text(server.as_str(), "srt-live-server") {
            match publisher {
                Some(publisher) => {
                    if contains(stats.as_str(), "belabox.net") {
                        Ok(first("BELABOX", Probe::Belabox { stats_url: stats, publisher }))
                    } else {
                        Ok(first("SRT", Probe::SrtLiveServer { stats_url: stats, publisher }))
                    }
                },
                None => Err(missing),
            }
        } else {
            Err(Error::ConfigInvalid(ConfigFault::UnsupportedServer))
        }
    }
}

/// The table after each of the names, from first to last, got the
/// permission.
pub open spec fn with_permissions(
    table: Seq<(CommandView, CommandInfoView)>,
    names: Seq<Seq<char>>,
    permission: Permission,
) -> Seq<(CommandView, CommandInfoView)>
    decreases names.len(),
{
    if names.len() == 0 {
        table
    } else {
        command_updated(
            with_permissions(table, names.drop_last(), permission),
            names.last(),
            Some(permission),
            None,
        )
    }
}

/// Whether every entry is a pair: an alias, then the command it stands for.
pub open spec fn all_pairs(pairs: Seq<Seq<Seq<char>>>) -> bool {
    forall|i: int| 0 <= i < pairs.len() ==> (#[trigger] pairs[i]).len() >= 2
}

/// The table after each pair, from first to last, added its alias to its
/// command.
pub open spec fn with_aliases(
    table: Seq<(CommandView, CommandInfoView)>,
    pairs: Seq<Seq<Seq<char>>>,
) -> Seq<(CommandView, CommandInfoView)>
    decreases pairs.len(),
{
    if pairs.len() == 0 {
        table
    } else {
        command_updated(
            with_aliases(table, pairs.drop_last()),
            pairs.last()[1],
            None,
            Some(pairs.last()[0]),
        )
    }
}

/// The table with `switch` (alias `ss`) and `fix` (alias `f`) for mods,
/// each only where the table has no line for it yet.
pub open spec fn with_basics(table: Seq<(CommandView, CommandInfoView)>) -> Seq<
    (CommandView, CommandInfoView),
> {
    let with_switch = if has_line(table, CommandView::Switch) {
        table
    } else {
        command_updated(table, "switch"@, Some(Permission::Mod), Some("ss"@))
    };
    if has_line(with_switch, CommandView::Fix) {
        with_switch
    } else {
        command_updated(with_switch, "fix"@, Some(Permission::Mod), Some("f"@))
    }
}

/// The command table that the first form's chat settings stand for.
pub open spec fn legacy_commands(chat: TwitchChat) -> Seq<(CommandView, CommandInfoView)> {
    let for_mods = with_permissions(Seq::empty(), chat.mod_commands.deep_view(), Permission::Mod);
    let for_all = with_permissions(for_mods, chat.public_commands.deep_view(), Permission::Public);
    let aliased = match chat.alias {
        Some(pairs) => with_aliases(for_all, pairs.deep_view()),
        None => for_all,
    };
    with_basics(aliased)
}

/// The language that the first form names, or English where it names none
/// that is known.
pub open spec fn legacy_language(language: Option<String>) -> ChatLanguage {
    match language {
        Some(code) => match language_coded(ascii_lowercase(code@)) {
            Some(language) => language,
            None => ChatLanguage::EN,
        },
        None => ChatLanguage::EN,
    }
}

/// The present form of a configuration in the first form. The address of
/// the broadcasting software must be `host:port`, every alias a pair, and
/// the ingest a supported one; the first of these that fails is the error.
pub open spec fn migrated(o: ConfigOld) -> Result<ConfigView, Error> {
    match host_and_port(o.obs.ip@) {
        None => Err(Error::ConfigInvalid(ConfigFault::BadAddress)),
        Some((host, port)) => {
            if o.twitch_chat.alias is Some && !all_pairs(o.twitch_chat.alias->0.deep_view()) {
                Err(Error::ConfigInvalid(ConfigFault::BadAlias))
            } else {
                match legacy_server(o.rtmp) {
                    Err(e) => Err(e),
                    Ok(server) => Ok(
                        ConfigView {
                            user: UserView {
                                id: None,
                                name: o.twitch_chat.channel@,
                                password_hash: None,
                            },
                            switcher: SwitcherView {
                                only_switch_when_streaming: o.obs.only_switch_when_streaming,
                                auto_switch_notification: o.twitch_chat
                                    .enable_auto_switch_notification,
                                triggers: Triggers {
                                    low: Some(o.obs.low_bitrate_trigger),
                                    rtt: o.obs.high_rtt_trigger,
                                    offline: None,
                                    rtt_offline: None,
                                },
                                switching_scenes: ScenesView {
                                    normal: o.obs.normal_scene@,
                                    low: o.obs.low_bitrate_scene@,
                                    offline: o.obs.offline_scene@,
                                },
                                stream_servers: seq![server],
                                ..SwitcherView::initial()
                            },
                            software: SoftwareConnectionView::Obs(
                                ObsConfigView {
                                    host,
                                    password: Some(o.obs.password@),
                                    port,
                                    collections: Some(Map::empty()),
                                },
                            ),
                            chat: Some(
                                ChatView {
                                    platform: ConfigChatPlatform::Twitch,
                                    username: o.twitch_chat.channel@,
                                    admins: o.twitch_chat.admin_users.deep_view(),
                                    language: legacy_language(o.language),
                                    prefix: o.twitch_chat.prefix@,
                                    enable_public_commands: o.twitch_chat.enable_public_commands,
                                    enable_mod_commands: o.twitch_chat.enable_mod_commands,
                                    enable_auto_stop_stream_on_host_or_raid: o.twitch_chat
                                        .enable_auto_stop_stream_on_host_or_raid,
                                    commands: Some(legacy_commands(o.twitch_chat)),
                                    ..ChatView::initial()
                                },
                            ),
                            optional_scenes: OptionalScenesView {
                                starting: None,
                                ending: None,
                                privacy: None,
                                refresh: None,
                            },
                            optional_options: OptionalOptions::initial(),
                        },
                    ),
                }
            }
        },
    }
}

/// A result with the view of what it holds.
pub open spec fn config_outcome(r: Result<Config, Error>) -> Result<ConfigView, Error> {
    match r {
        Ok(config) => Ok(config@),
        Err(e) => Err(e),
    }
}

fn give_permissions(table: &mut Commands, names: &Vec<String>, permission: Permission)
    ensures
        final(table)@ == with_permissions(old(table)@, names.deep_view(), permission),
{
    let ghost start = table@;
    let ghost all = names.deep_view();
    let mut i: usize = 0;
    while i < names.len()
        invariant
            0 <= i <= names.len(),
            all == names.deep_view(),
            table@ == with_permissions(start, all.subrange(0, i as int), permission),
        decreases names.len() - i,
    {
        assert(all.subrange(0, i + 1).drop_last() =~= all.subrange(0, i as int));
        update_command(table, names[i].clone(), Some(permission), None);
        i += 1;
    }
    assert(all.subrange(0, names.len() as int) =~= all);
}

fn give_aliases(table: &mut Commands, pairs: &Vec<Vec<String>>) -> (r: bool)
    ensures
        r == all_pairs(pairs.deep_view()),
        r ==> final(table)@ == with_aliases(old(table)@, pairs.deep_view()),
{
    let ghost start = table@;
    let ghost all = pairs.deep_view();
    let mut i: usize = 0;
    while i < pairs.len()
        invariant
            0 <= i <= pairs.len(),
            all == pairs.deep_view(),
            all_pairs(all.subrange(0, i as int)),
            table@ == with_aliases(start, all.subrange(0, i as int)),
        decreases pairs.len() - i,
    {
        assert(all.subrange(0, i + 1).drop_last() =~= all.subrange(0, i as int));
        let pair = &pairs[i];
        assert(pair.deep_view() == all[i as int]);
        if pair.len() < 2 {
            return false;
        }
        update_command(table, pair[1].clone(), None, Some(pair[0].clone()));
        assert forall|j: int| 0 <= j < i + 1 implies (#[trigger] all.subrange(0, i + 1)[j]).len()
            >= 2 by {}
        i += 1;
    }
    assert(all.subrange(0, pairs.len() as int) =~= all);
    true
}

fn give_basics(table: &mut Commands)
    ensures
        final(table)@ == with_basics(old(table)@),
{
    if !table.contains_key(&Command::Switch) {
        update_command(table, "switch".to_owned(), Some(Permission::Mod), Some("ss".to_owned()));
    }
    if !table.contains_key(&Command::Fix) {
        update_command(table, "fix".to_owned(), Some(Permission::Mod), Some("f".to_owned()));
    }
}

fn language_of(language: &Option<String>) -> (r: ChatLanguage)
    ensures
        r == legacy_language(*language),
{
    match language {
        Some(code) => match ChatLanguage::parse(code.as_str()) {
            Some(language) => language,
            None => ChatLanguage::EN,
        },
        None => ChatLanguage::EN,
    }
}

impl Config {
    /// Makes a configuration in the first form one in the present form.
    pub fn from(o: ConfigOld) -> (config: Result<Config, Error>)
        ensures
            config_outcome(config) == migrated(o),
    {
        let (host, port) = match split_host_port(o.obs.ip.as_str()) {
            Some(pair) => pair,
            None => {
                return Err(Error::ConfigInvalid(ConfigFault::BadAddress));
            },
        };
        let mut commands = Commands::new();
        give_permissions(&mut commands, &o.twitch_chat.mod_commands, Permission::Mod);
        give_permissions(&mut commands, &o.twitch_chat.public_commands, Permission::Public);
        match &o.twitch_chat.alias {
            Some(pairs) => {
                if !give_aliases(&mut commands, pairs) {
                    return Err(Error::ConfigInvalid(ConfigFault::BadAlias));
                }
            },
            None => {},
        }
        give_basics(&mut commands);
        let language = language_of(&o.language);
        let ConfigOld { obs, rtmp, twitch_chat, language: _ } = o;
        let server = match StreamServer::from(rtmp) {
            Ok(server) => server,
            Err(e) => {
                return Err(e);
            },
        };
        let mut stream_servers: Vec<StreamServer> = Vec::new();
        stream_servers.push(server);
        assert(stream_servers.deep_view() =~= seq![server@]);
        let basis = Switcher::default();
        let chat_basis = Chat::default();
        let name = twitch_chat.channel.clone();
        let config = Config {
            user: User { id: None, name, password_hash: None },
            switcher: Switcher {
                bitrate_switcher_enabled: basis.bitrate_switcher_enabled,
                only_switch_when_streaming: obs.only_switch_when_streaming,
                instantly_switch_on_recover: basis.instantly_switch_on_recover,
                auto_switch_notification: twitch_chat.enable_auto_switch_notification,
                retry_attempts: basis.retry_attempts,
                triggers: Triggers {
                    low: Some(obs.low_bitrate_trigger),
                    rtt: obs.high_rtt_trigger,
                    offline: None,
                    rtt_offline: None,
                },
                switching_scenes: SwitchingScenes {
                    normal: obs.normal_scene,
                    low: obs.low_bitrate_scene,
                    offline: obs.offline_scene,
                },
                stream_servers,
            },
            software: SoftwareConnection::Obs(
                ObsConfig {
                    host,
                    password: Some(obs.password),
                    port,
                    collections: Some(HashMap::new()),
                },
            ),
            chat: Some(
                Chat {
                    platform: ConfigChatPlatform::Twitch,
                    username: twitch_chat.channel,
                    admins: twitch_chat.admin_users,
                    language,
                    prefix: twitch_chat.prefix,
                    enable_public_commands: twitch_chat.enable_public_commands,
                    enable_mod_commands: twitch_chat.enable_mod_commands,
                    enable_auto_stop_stream_on_host_or_raid: twitch_chat
                        .enable_auto_stop_stream_on_host_or_raid,
                    announce_raid_on_auto_stop: chat_basis.announce_raid_on_auto_stop,
                    commands: Some(commands),
                },
            ),
            optional_scenes: OptionalScenes::default(),
            optional_options: OptionalOptions::default(),
        };
        Ok(config)
    }
}

/// The text of the bot's environment file for a name and a token.
pub open spec fn environment_text(username: Seq<char>, oauth: Seq<char>) -> Seq<char> {
    "TWITCH_BOT_USERNAME="@ + username + "\nTWITCH_BOT_OAUTH="@ + oauth
}

/// Writes the text of the bot's environment file.
pub fn environment_file(username: &str, oauth: &str) -> (r: String)
    ensures
        r@ == environment_text(username@, oauth@),
{
    let mut file = "TWITCH_BOT_USERNAME=".to_owned();
    file.append(username);
    file.append("\nTWITCH_BOT_OAUTH=");
    file.append(oauth);
    file
}

/// The bot's name and token as the first form gives them, and the text of
/// the environment file that keeps them.
#[derive(Debug, PartialEq, Eq)]
pub struct BotEnvironment {
    pub username: String,
    pub oauth: String,
    pub file: String,
}

impl TwitchChat {
    /// The bot's environment: its name in lower case, its token, and the
    /// file's text.
    pub fn bot_environment(&self) -> (r: BotEnvironment)
        ensures
            r.username@ == unicode_lowercase(self.bot_username@),
            r.oauth@ == self.oauth@,
            r.file@ == environment_text(unicode_lowercase(self.bot_username@), self.oauth@),
    {
        let username = to_lowercase(self.bot_username.as_str());
        let oauth = self.oauth.clone();
        let file = environment_file(username.as_str(), oauth.as_str());
        BotEnvironment { username, oauth, file }
    }
}

} // verus!
