use noalbs::chat::AutomaticSwitchingScene;
use noalbs::chat::ChatPlatform;
use noalbs::chat::Command;
use noalbs::chat::HandleMessage;
use noalbs::config::commands::CommandInfo;
use noalbs::config::Chat;
use noalbs::config::Config;
use noalbs::config::ConfigChatPlatform;
use noalbs::config::KickConfig;
use noalbs::config::ObsConfig;
use noalbs::config::OptionalOptions;
use noalbs::config::OptionalScenes;
use noalbs::config::SoftwareConnection;
use noalbs::config::Switcher;
use noalbs::config::User;
use noalbs::error::Error;
use noalbs::noalbs::Noalbs;
use noalbs::state::State;
use noalbs::state::SwitcherState;
use noalbs::stream_servers::Probe;
use noalbs::stream_servers::StreamServer;
use noalbs::switcher::engine::Action;
use noalbs::switcher::health::StreamHealth;
use noalbs::switcher::SwitchReason;
use noalbs::switcher::SwitchType;
use noalbs::switcher::TriggerType;
use noalbs::switcher::Triggers;

fn plain_config(chat: Option<Chat>) -> Config {
    Config {
        user: User { id: Some(1), name: "streamer".to_string(), password_hash: None },
        switcher: Switcher::default(),
        software: SoftwareConnection::Obs(ObsConfig {
            host: "localhost".to_string(),
            password: None,
            port: 4455,
            collections: None,
        }),
        chat,
        optional_scenes: OptionalScenes::default(),
        optional_options: OptionalOptions::default(),
    }
}

fn watched(name: &str, priority: Option<i32>) -> StreamServer {
    StreamServer {
        stream_server: Probe::Nginx {
            stats_url: "http://localhost/stat".to_string(),
            application: "publish".to_string(),
            key: name.to_string(),
        },
        name: name.to_string(),
        priority,
        override_scenes: None,
        depends_on: None,
        enabled: true,
    }
}

#[test]
fn a_new_supervisor_starts_from_a_fresh_state() {
    let user = Noalbs::new(plain_config(Some(Chat::default())));
    assert_eq!(user.state.config, plain_config(Some(Chat::default())));
    assert_eq!(user.state.switcher_state, SwitcherState::default());
    assert_eq!(user.state.switcher_state.low_retry_count, 0);
    assert_eq!(user.state.switcher_state.last_scene, None);
    assert_eq!(user.state.switcher_state.last_switch_reason, None);
    assert_eq!(user.state.broadcasting_software.prev_scene, "live");
    assert_eq!(user.state.broadcasting_software.current_scene, "");
    assert!(!user.state.broadcasting_software.is_streaming);
    assert!(!user.state.broadcasting_software.is_connected);
    assert!(!user.state.broadcasting_software.initial_connect_done);
}

#[test]
fn operations_on_the_chat_need_a_chat() {
    let mut user = Noalbs::new(plain_config(None));
    assert_eq!(user.contains_alias("x"), Err(Error::NoChat));
    assert_eq!(user.add_alias("x".to_string(), Command::Fix), Err(Error::NoChat));
    assert_eq!(user.remove_alias("x"), Err(Error::NoChat));
    assert_eq!(user.get_autostop(), Err(Error::NoChat));
    assert_eq!(user.set_autostop(true), Err(Error::NoChat));
    assert_eq!(user.set_prefix("?".to_string()), Err(Error::NoChat));
    assert_eq!(user.state.config, plain_config(None));
    assert!(user.get_notify());
    assert_eq!(user.get_trigger_by_type(TriggerType::Low), Some(800));
}

#[test]
fn aliases_are_added_found_and_removed() {
    let mut user = Noalbs::new(plain_config(Some(Chat::default())));
    assert_eq!(user.contains_alias("f"), Ok(false));
    assert_eq!(user.remove_alias("f"), Ok(false));
    assert_eq!(user.state.config.chat.as_ref().unwrap().commands, None);
    assert_eq!(user.add_alias("f".to_string(), Command::Fix), Ok(()));
    assert_eq!(user.add_alias("fx".to_string(), Command::Fix), Ok(()));
    assert_eq!(user.add_alias("r".to_string(), Command::Refresh), Ok(()));
    assert_eq!(user.add_alias("q".to_string(), Command::Unknown("quit".to_string())), Ok(()));
    assert_eq!(user.contains_alias("f"), Ok(true));
    assert_eq!(user.contains_alias("q"), Ok(true));
    assert_eq!(user.contains_alias("F"), Ok(false));
    {
        let table = user.state.config.chat.as_ref().unwrap().commands.as_ref().unwrap();
        assert_eq!(table.len(), 3);
        assert_eq!(*table.command_at(0), Command::Fix);
        assert_eq!(
            *table.info_at(0),
            CommandInfo {
                permission: None,
                user_permissions: None,
                alias: Some(vec!["f".to_string(), "fx".to_string()])
            }
        );
        assert_eq!(*table.command_at(2), Command::Unknown("quit".to_string()));
    }
    assert_eq!(user.remove_alias("f"), Ok(true));
    assert_eq!(user.remove_alias("f"), Ok(false));
    assert_eq!(user.contains_alias("fx"), Ok(true));
    let table = user.state.config.chat.as_ref().unwrap().commands.as_ref().unwrap();
    assert_eq!(table.info_at(0).alias, Some(vec!["fx".to_string()]));
    assert_eq!(user.state.config.chat.as_ref().unwrap().prefix, "!");
}

#[test]
fn a_threshold_of_zero_switches_the_threshold_off() {
    let mut user = Noalbs::new(plain_config(None));
    assert_eq!(user.update_trigger(TriggerType::Low, 450), Some(450));
    assert_eq!(user.update_trigger(TriggerType::Rtt, 0), None);
    assert_eq!(user.update_trigger(TriggerType::Offline, u32::MAX), Some(u32::MAX));
    assert_eq!(user.get_trigger_by_type(TriggerType::Low), Some(450));
    assert_eq!(user.get_trigger_by_type(TriggerType::Rtt), None);
    assert_eq!(user.get_trigger_by_type(TriggerType::Offline), Some(u32::MAX));
    assert_eq!(
        user.state.config.switcher.triggers,
        Triggers { low: Some(450), rtt: None, offline: Some(u32::MAX), rtt_offline: None }
    );
    assert_eq!(user.update_trigger(TriggerType::Low, 0), None);
    assert_eq!(user.get_trigger_by_type(TriggerType::Low), None);
}

#[test]
fn the_settings_of_the_chat_are_read_and_set() {
    let mut user = Noalbs::new(plain_config(Some(Chat::default())));
    assert_eq!(user.get_autostop(), Ok(true));
    assert_eq!(user.set_autostop(false), Ok(()));
    assert_eq!(user.get_autostop(), Ok(false));
    assert_eq!(user.set_prefix("$".to_string()), Ok(()));
    assert_eq!(user.state.config.chat.as_ref().unwrap().prefix, "$");
    assert_eq!(user.state.config.chat.as_ref().unwrap().username, "715209");
    assert!(user.get_notify());
    user.set_notify(false);
    assert!(!user.get_notify());
    assert!(user.state.config.switcher.bitrate_switcher_enabled);
}

#[test]
fn switching_the_switcher_on_wakes_it() {
    let mut user = Noalbs::new(plain_config(None));
    assert!(!user.set_bitrate_switcher_state(false));
    assert!(!user.state.config.switcher.bitrate_switcher_enabled);
    assert!(!user.set_bitrate_switcher_state(false));
    assert!(user.set_bitrate_switcher_state(true));
    assert!(user.state.config.switcher.bitrate_switcher_enabled);
    assert!(user.set_bitrate_switcher_state(true));
    assert_eq!(user.state.config.switcher, Switcher::default());
}

#[test]
fn the_supervisor_keeps_added_servers_in_order() {
    let mut user = Noalbs::new(plain_config(None));
    user.add_stream_server(watched("backup", Some(5)));
    user.add_stream_server(watched("main", Some(1)));
    user.add_stream_server(watched("spare", Some(5)));
    let names: Vec<&str> =
        user.state.config.switcher.stream_servers.iter().map(|s| s.name.as_str()).collect();
    assert_eq!(names, vec!["main", "backup", "spare"]);
}

#[test]
fn a_scene_set_by_someone_else_is_a_manual_change() {
    let mut state = State::new(plain_config(None));
    assert_eq!(state.broadcasting_software.prev_scene, "live");
    state.scene_changed("live".to_string());
    assert_eq!(state.broadcasting_software.current_scene, "live");
    assert_eq!(state.broadcasting_software.prev_scene, "");
    assert_eq!(state.switcher_state.last_switch_reason, Some(SwitchReason::Manual));
    assert_eq!(state.switched("low".to_string(), SwitchType::Rtt), None);
    assert_eq!(state.switcher_state.last_switch_reason, Some(SwitchReason::Rtt));
    assert_eq!(state.switcher_state.last_scene, Some("low".to_string()));
    state.scene_changed("low".to_string());
    assert_eq!(state.switcher_state.last_switch_reason, Some(SwitchReason::Rtt));
    assert_eq!(state.broadcasting_software.current_scene, "low");
    assert_eq!(state.broadcasting_software.prev_scene, "live");
    state.scene_changed("privacy".to_string());
    assert_eq!(state.switcher_state.last_switch_reason, Some(SwitchReason::Manual));
    assert_eq!(state.switcher_state.last_scene, Some("low".to_string()));
    assert_eq!(state.broadcasting_software.prev_scene, "low");
}

#[test]
fn the_chat_is_told_of_a_change_where_it_is_to_be_told() {
    let mut chat = Chat::default();
    chat.platform = ConfigChatPlatform::Kick(KickConfig {
        channel_id: None,
        chatroom_id: None,
        use_irlproxy: None,
    });
    chat.username = "streamer".to_string();
    let mut state = State::new(plain_config(Some(chat)));
    state.switcher_state.low_retry_count = 4;
    let notice = state.switched("offline".to_string(), SwitchType::Offline);
    assert_eq!(
        notice,
        Some(HandleMessage::AutomaticSwitchingScene(AutomaticSwitchingScene {
            platform: ChatPlatform::Kick,
            channel: "streamer".to_string(),
            scene: "offline".to_string(),
            switch_type: SwitchType::Offline,
        }))
    );
    assert_eq!(state.switcher_state.low_retry_count, 0);
    assert_eq!(state.switcher_state.last_switch_reason, Some(SwitchReason::Offline));
    state.config.switcher.auto_switch_notification = false;
    assert_eq!(state.switched("live".to_string(), SwitchType::Normal), None);
    assert_eq!(state.switcher_state.last_scene, Some("live".to_string()));
    assert_eq!(state.switcher_state.last_switch_reason, Some(SwitchReason::Normal));
}

#[test]
fn a_state_runs_the_ticks_of_its_switcher() {
    let mut config = plain_config(None);
    config.switcher.retry_attempts = 1;
    config.switcher.only_switch_when_streaming = false;
    config.switcher.stream_servers = vec![watched("main", Some(0))];
    let mut state = State::new(config);
    state.broadcasting_software.connection_changed(true);
    state.scene_changed("live".to_string());
    let scenes = vec!["live".to_string(), "low".to_string()];
    let low = vec![StreamHealth::Online { bitrate_kbps: 800, rtt_ms: Some(10) }];
    assert_eq!(state.tick(&scenes, &low, 1), Action::Hold);
    assert_eq!(
        state.tick(&scenes, &low, 2),
        Action::SetScene { scene: "low".to_string(), switch_type: SwitchType::Low }
    );
    let gone = vec![StreamHealth::Offline];
    assert_eq!(
        state.tick(&scenes, &gone, 3),
        Action::SceneMissing { scene: "offline".to_string() }
    );
    assert_eq!(state.broadcasting_software.current_scene, "live");
}
