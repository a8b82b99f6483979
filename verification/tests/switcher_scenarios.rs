use noalbs::config::Switcher;
use noalbs::state::BroadcastingSoftwareState;
use noalbs::state::SwitcherState;
use noalbs::stream_servers::DependsOn;
use noalbs::stream_servers::Probe;
use noalbs::stream_servers::StreamServer;
use noalbs::switcher::engine::assess;
use noalbs::switcher::engine::readiness;
use noalbs::switcher::engine::level_of;
use noalbs::switcher::engine::scene_for;
use noalbs::switcher::engine::tick;
use noalbs::switcher::engine::weigh_sample;
use noalbs::switcher::engine::Action;
use noalbs::switcher::engine::Readiness;
use noalbs::switcher::engine::Verdict;
use noalbs::switcher::health::ProbeError;
use noalbs::switcher::health::StreamHealth;
use noalbs::switcher::timers::DependencyTimers;
use noalbs::switcher::timers::Track;
use noalbs::switcher::Direction;
use noalbs::switcher::Level;
use noalbs::switcher::SwitchReason;
use noalbs::switcher::SwitchType;
use noalbs::switcher::SwitchingScenes;
use noalbs::switcher::Triggers;

fn server(name: &str, priority: Option<i32>) -> StreamServer {
    StreamServer {
        stream_server: Probe::SrtLiveServer {
            stats_url: format!("http://{}/stats", name),
            publisher: "live/feed".to_string(),
        },
        name: name.to_string(),
        priority,
        override_scenes: None,
        depends_on: None,
        enabled: true,
    }
}

fn scenes(normal: &str, low: &str, offline: &str) -> SwitchingScenes {
    SwitchingScenes {
        normal: normal.to_string(),
        low: low.to_string(),
        offline: offline.to_string(),
    }
}

fn rules(retry_attempts: u8, servers: Vec<StreamServer>) -> Switcher {
    Switcher {
        bitrate_switcher_enabled: true,
        only_switch_when_streaming: true,
        instantly_switch_on_recover: true,
        auto_switch_notification: true,
        retry_attempts,
        triggers: Triggers { low: Some(800), rtt: None, offline: None, rtt_offline: None },
        switching_scenes: scenes("normal", "low", "offline"),
        stream_servers: servers,
    }
}

fn online(bitrate_kbps: u32) -> StreamHealth {
    StreamHealth::Online { bitrate_kbps, rtt_ms: None }
}

struct Rig {
    cfg: Switcher,
    state: SwitcherState,
    software: BroadcastingSoftwareState,
    scenes: Vec<String>,
    now: u64,
    calls: Vec<String>,
}

fn rig(cfg: Switcher, current_scene: &str) -> Rig {
    let mut software = BroadcastingSoftwareState::default();
    software.current_scene = current_scene.to_string();
    software.is_streaming = true;
    software.is_connected = true;
    software.initial_connect_done = true;
    Rig {
        cfg,
        state: SwitcherState::default(),
        software,
        scenes: vec!["normal".to_string(), "low".to_string(), "offline".to_string()],
        now: 1000,
        calls: Vec::new(),
    }
}

/// One turn of the loop: a tick, and the scene change if one is asked for.
fn turn(r: &mut Rig, samples: Vec<StreamHealth>) -> Action {
    r.now += 1;
    let action = tick(&r.cfg, &mut r.state, &r.software, &r.scenes, &samples, r.now);
    if let Action::SetScene { scene, switch_type } = &action {
        assert_ne!(*scene, r.software.current_scene);
        r.calls.push(scene.clone());
        r.state.switched(scene.clone(), *switch_type);
        r.software.scene_changed(scene.clone());
    }
    action
}

#[test]
fn steady_low_switches_at_the_sixth_sample() {
    let mut r = rig(rules(3, vec![server("main", Some(0))]), "normal");
    let samples = [1000, 1200, 700, 750, 780];
    for bitrate in samples {
        assert_eq!(turn(&mut r, vec![online(bitrate)]), Action::Hold);
    }
    assert_eq!(r.state.low_retry_count, 3);
    assert_eq!(
        turn(&mut r, vec![online(790)]),
        Action::SetScene { scene: "low".to_string(), switch_type: SwitchType::Low }
    );
    assert_eq!(r.calls, vec!["low".to_string()]);
    assert_eq!(r.state.low_retry_count, 0);
    assert_eq!(r.state.last_scene, Some("low".to_string()));
    assert_eq!(r.state.last_switch_reason, Some(SwitchReason::Low));
    assert_eq!(turn(&mut r, vec![online(790)]), Action::Hold);
    assert_eq!(r.calls.len(), 1);
}

#[test]
fn flapping_samples_never_switch() {
    let mut r = rig(rules(3, vec![server("main", Some(0))]), "normal");
    let counts = [0, 1, 0, 1, 0, 1];
    for (bitrate, count) in [1000, 700, 1200, 700, 1200, 700].into_iter().zip(counts) {
        assert_eq!(turn(&mut r, vec![online(bitrate)]), Action::Hold);
        assert_eq!(r.state.low_retry_count, count);
    }
    assert!(r.calls.is_empty());
    assert_eq!(r.software.current_scene, "normal");
}

#[test]
fn recovery_from_offline_is_instant() {
    let mut cfg = rules(3, vec![server("main", Some(0))]);
    cfg.triggers = Triggers { low: Some(800), rtt: Some(2500), offline: None, rtt_offline: None };
    let mut r = rig(cfg, "offline");
    r.state.low_retry_count = 2;
    let action = turn(&mut r, vec![StreamHealth::Online { bitrate_kbps: 2500, rtt_ms: Some(120) }]);
    assert_eq!(
        action,
        Action::SetScene { scene: "normal".to_string(), switch_type: SwitchType::Normal }
    );
    assert_eq!(r.calls, vec!["normal".to_string()]);
    assert_eq!(r.state.last_switch_reason, Some(SwitchReason::Normal));
}

#[test]
fn recovery_waits_for_its_count_where_it_is_not_instant() {
    let mut cfg = rules(2, vec![server("main", Some(0))]);
    cfg.instantly_switch_on_recover = false;
    let mut r = rig(cfg, "offline");
    assert_eq!(turn(&mut r, vec![online(3000)]), Action::Hold);
    assert_eq!(turn(&mut r, vec![online(3000)]), Action::Hold);
    assert_eq!(
        turn(&mut r, vec![online(3000)]),
        Action::SetScene { scene: "normal".to_string(), switch_type: SwitchType::Normal }
    );
}

#[test]
fn enabling_the_switcher_lets_it_act_in_the_next_tick() {
    let mut cfg = rules(0, vec![server("main", Some(0))]);
    cfg.bitrate_switcher_enabled = false;
    let mut r = rig(cfg, "normal");
    for _ in 0..4 {
        assert_eq!(turn(&mut r, vec![online(500)]), Action::Wait(Readiness::Disabled));
    }
    assert!(r.calls.is_empty());
    assert_eq!(r.state, SwitcherState::default());
    r.cfg.set_bitrate_switcher_enabled(true);
    assert_eq!(
        turn(&mut r, vec![online(500)]),
        Action::SetScene { scene: "low".to_string(), switch_type: SwitchType::Low }
    );
}

#[test]
fn enabling_the_switcher_starts_the_count_from_where_it_was() {
    let mut cfg = rules(2, vec![server("main", Some(0))]);
    cfg.bitrate_switcher_enabled = false;
    let mut r = rig(cfg, "normal");
    for _ in 0..5 {
        assert_eq!(turn(&mut r, vec![online(500)]), Action::Wait(Readiness::Disabled));
    }
    r.cfg.set_bitrate_switcher_enabled(true);
    assert_eq!(turn(&mut r, vec![online(500)]), Action::Hold);
    assert_eq!(turn(&mut r, vec![online(500)]), Action::Hold);
    assert_eq!(
        turn(&mut r, vec![online(500)]),
        Action::SetScene { scene: "low".to_string(), switch_type: SwitchType::Low }
    );
    assert_eq!(r.calls.len(), 1);
}

#[test]
fn the_deciding_server_overrides_the_scene() {
    let a = server("A", Some(0));
    let mut b = server("B", Some(1));
    b.override_scenes = Some(scenes("liveB", "lowB", "offlineB"));
    let mut r = rig(rules(3, vec![a, b]), "offline");
    r.scenes.push("liveB".to_string());
    let action = turn(&mut r, vec![StreamHealth::Offline, online(4000)]);
    assert_eq!(
        action,
        Action::SetScene { scene: "liveB".to_string(), switch_type: SwitchType::Normal }
    );
    assert_eq!(r.calls, vec!["liveB".to_string()]);
}

#[test]
fn a_missing_scene_is_reported_and_tried_again() {
    let mut cfg = rules(3, vec![server("main", Some(0))]);
    cfg.switching_scenes.low = "lowcam".to_string();
    let mut r = rig(cfg, "normal");
    for _ in 0..3 {
        assert_eq!(turn(&mut r, vec![online(500)]), Action::Hold);
    }
    for _ in 0..2 {
        assert_eq!(
            turn(&mut r, vec![online(500)]),
            Action::SceneMissing { scene: "lowcam".to_string() }
        );
        assert_eq!(r.state.low_retry_count, 3);
    }
    assert!(r.calls.is_empty());
    r.scenes.push("lowcam".to_string());
    assert_eq!(
        turn(&mut r, vec![online(500)]),
        Action::SetScene { scene: "lowcam".to_string(), switch_type: SwitchType::Low }
    );
    assert_eq!(r.calls, vec!["lowcam".to_string()]);
}

#[test]
fn a_failed_switch_is_tried_again_in_the_next_tick() {
    let cfg = rules(1, vec![server("main", Some(0))]);
    let mut r = rig(cfg, "normal");
    let samples = vec![online(100)];
    r.now += 1;
    assert_eq!(tick(&r.cfg, &mut r.state, &r.software, &r.scenes, &samples, r.now), Action::Hold);
    for _ in 0..3 {
        r.now += 1;
        let action = tick(&r.cfg, &mut r.state, &r.software, &r.scenes, &samples, r.now);
        assert_eq!(
            action,
            Action::SetScene { scene: "low".to_string(), switch_type: SwitchType::Low }
        );
        assert_eq!(r.state.low_retry_count, 1);
        assert_eq!(r.state.last_scene, None);
    }
}

#[test]
fn the_shown_scene_is_never_asked_for() {
    let mut a = server("A", Some(0));
    a.override_scenes = Some(scenes("normal", "normal", "normal"));
    let mut cfg = rules(0, vec![a]);
    cfg.triggers.offline = Some(50);
    let mut r = rig(cfg, "normal");
    r.state.low_retry_count = 4;
    for health in [online(100), online(10), online(5000), online(50)] {
        assert_eq!(turn(&mut r, vec![health]), Action::Hold);
        assert_eq!(r.state.low_retry_count, 0);
    }
    assert!(r.calls.is_empty());
}

#[test]
fn no_scene_is_set_while_nothing_streams() {
    let mut r = rig(rules(0, vec![server("main", Some(0))]), "normal");
    r.software.is_streaming = false;
    for _ in 0..5 {
        let action = turn(&mut r, vec![StreamHealth::Offline]);
        assert_eq!(action, Action::Wait(Readiness::NotStreaming));
    }
    r.cfg.only_switch_when_streaming = false;
    assert_eq!(
        turn(&mut r, vec![StreamHealth::Offline]),
        Action::SetScene { scene: "offline".to_string(), switch_type: SwitchType::Offline }
    );
}

#[test]
fn no_scene_is_set_while_disconnected() {
    let mut r = rig(rules(0, vec![server("main", Some(0))]), "normal");
    r.software.is_connected = false;
    assert_eq!(turn(&mut r, vec![StreamHealth::Offline]), Action::Wait(Readiness::Disconnected));
    assert_eq!(readiness(&r.cfg, &r.software), Readiness::Disconnected);
    r.software.connection_changed(true);
    assert_eq!(readiness(&r.cfg, &r.software), Readiness::Ready);
}

#[test]
fn readiness_asks_the_switch_first_then_the_stream_then_the_connection() {
    let mut cfg = rules(0, vec![]);
    let mut software = BroadcastingSoftwareState::default();
    cfg.bitrate_switcher_enabled = false;
    assert_eq!(readiness(&cfg, &software), Readiness::Disabled);
    cfg.bitrate_switcher_enabled = true;
    assert_eq!(readiness(&cfg, &software), Readiness::NotStreaming);
    software.streaming_changed(true);
    assert_eq!(readiness(&cfg, &software), Readiness::Disconnected);
    software.connection_changed(true);
    assert_eq!(readiness(&cfg, &software), Readiness::Ready);
    assert!(software.initial_connect_done);
    software.connection_changed(false);
    assert!(software.initial_connect_done);
    assert!(!software.is_connected);
}

#[test]
fn a_downward_switch_needs_its_run_of_samples() {
    let mut r = rig(rules(4, vec![server("main", Some(0))]), "normal");
    let mut run = 0;
    let feed = [100, 100, 100, 900, 100, 100, 100, 100, 900, 100, 100, 100, 100, 100];
    for bitrate in feed {
        let action = turn(&mut r, vec![online(bitrate)]);
        if let Action::SetScene { .. } = action {
            assert!(run >= 4);
        }
        run = if bitrate <= 800 { run + 1 } else { 0 };
    }
    assert_eq!(r.calls, vec!["low".to_string()]);
}

#[test]
fn samples_without_data_do_not_move_the_count() {
    let mut r = rig(rules(2, vec![server("main", Some(0))]), "normal");
    let none = StreamHealth::Error { kind: ProbeError::Timeout };
    assert_eq!(turn(&mut r, vec![online(100)]), Action::Hold);
    assert_eq!(turn(&mut r, vec![none]), Action::Hold);
    assert_eq!(r.state.low_retry_count, 1);
    let failed = StreamHealth::Error { kind: ProbeError::Transport };
    assert_eq!(turn(&mut r, vec![failed]), Action::Hold);
    assert_eq!(turn(&mut r, vec![]), Action::Hold);
    assert_eq!(r.state.low_retry_count, 1);
    assert_eq!(turn(&mut r, vec![online(100)]), Action::Hold);
    assert_eq!(
        turn(&mut r, vec![online(100)]),
        Action::SetScene { scene: "low".to_string(), switch_type: SwitchType::Low }
    );
}

#[test]
fn a_scene_set_by_hand_is_left_alone() {
    let mut r = rig(rules(0, vec![server("main", Some(0))]), "privacy");
    r.state.low_retry_count = 7;
    assert_eq!(turn(&mut r, vec![StreamHealth::Offline]), Action::Hold);
    assert_eq!(r.state.low_retry_count, 0);
    assert!(r.calls.is_empty());
}

#[test]
fn the_first_healthy_server_in_order_decides() {
    let mut a = server("A", Some(0));
    a.override_scenes = Some(scenes("liveA", "lowA", "offlineA"));
    let mut b = server("B", Some(1));
    b.override_scenes = Some(scenes("liveB", "lowB", "offlineB"));
    let c = server("C", Some(2));
    let cfg = rules(3, vec![a, b, c]);
    let timers = DependencyTimers::new();
    let both = vec![online(3000), online(3000), online(3000)];
    assert_eq!(
        assess(&cfg, &timers, &both, 5),
        Some(Verdict { class: SwitchType::Normal, decisive: Some(0) })
    );
    let second = vec![online(10), online(3000), online(3000)];
    let verdict = assess(&cfg, &timers, &second, 5).unwrap();
    assert_eq!(verdict, Verdict { class: SwitchType::Normal, decisive: Some(1) });
    assert_eq!(scene_for(&cfg, verdict.class, verdict.decisive), "liveB");
    let third = vec![StreamHealth::Offline, online(10), online(3000)];
    let verdict = assess(&cfg, &timers, &third, 5).unwrap();
    assert_eq!(verdict, Verdict { class: SwitchType::Normal, decisive: Some(2) });
    assert_eq!(scene_for(&cfg, verdict.class, verdict.decisive), "normal");
}

#[test]
fn the_worst_report_decides_where_no_server_is_healthy() {
    let mut a = server("A", Some(0));
    a.override_scenes = Some(scenes("liveA", "lowA", "offlineA"));
    let b = server("B", Some(1));
    let mut cfg = rules(3, vec![a, b]);
    cfg.triggers =
        Triggers { low: Some(800), rtt: Some(2500), offline: Some(100), rtt_offline: Some(5000) };
    let timers = DependencyTimers::new();
    let slow = StreamHealth::Online { bitrate_kbps: 3000, rtt_ms: Some(2500) };
    assert_eq!(
        assess(&cfg, &timers, &vec![slow, StreamHealth::Error { kind: ProbeError::Timeout }], 1),
        Some(Verdict { class: SwitchType::Rtt, decisive: Some(0) })
    );
    assert_eq!(
        assess(&cfg, &timers, &vec![slow, online(800)], 1),
        Some(Verdict { class: SwitchType::Low, decisive: Some(1) })
    );
    assert_eq!(
        assess(&cfg, &timers, &vec![online(800), StreamHealth::Offline], 1),
        Some(Verdict { class: SwitchType::Offline, decisive: None })
    );
    assert_eq!(
        assess(&cfg, &timers, &vec![StreamHealth::Low { bitrate_kbps: 900 }, online(100)], 1),
        Some(Verdict { class: SwitchType::Offline, decisive: Some(1) })
    );
    assert_eq!(
        assess(&cfg, &timers, &vec![StreamHealth::Low { bitrate_kbps: 900 }, online(801)], 1),
        Some(Verdict { class: SwitchType::Normal, decisive: Some(1) })
    );
    assert_eq!(
        assess(&cfg, &timers, &vec![StreamHealth::Low { bitrate_kbps: 900 }], 1),
        Some(Verdict { class: SwitchType::Low, decisive: None })
    );
    assert_eq!(assess(&cfg, &timers, &vec![], 1), None);
    assert_eq!(scene_for(&cfg, SwitchType::Rtt, Some(0)), "lowA");
    assert_eq!(scene_for(&cfg, SwitchType::Offline, None), "offline");
}

#[test]
fn a_server_that_is_not_enabled_is_passed_over() {
    let mut a = server("A", Some(0));
    a.enabled = false;
    let b = server("B", Some(1));
    let cfg = rules(3, vec![a, b]);
    let timers = DependencyTimers::new();
    assert_eq!(
        assess(&cfg, &timers, &vec![online(5000), StreamHealth::Offline], 1),
        Some(Verdict { class: SwitchType::Offline, decisive: None })
    );
    assert_eq!(assess(&cfg, &timers, &vec![online(5000)], 1), None);
}

#[test]
fn each_threshold_is_met_exactly_at_its_value() {
    let t =
        Triggers { low: Some(800), rtt: Some(2500), offline: Some(100), rtt_offline: Some(5000) };
    let class = |bitrate_kbps, rtt_ms| StreamHealth::Online { bitrate_kbps, rtt_ms }.classify(&t);
    assert_eq!(class(801, Some(2499)), Some(SwitchType::Normal));
    assert_eq!(class(801, None), Some(SwitchType::Normal));
    assert_eq!(class(800, Some(0)), Some(SwitchType::Low));
    assert_eq!(class(800, Some(2500)), Some(SwitchType::Low));
    assert_eq!(class(801, Some(2500)), Some(SwitchType::Rtt));
    assert_eq!(class(101, Some(4999)), Some(SwitchType::Low));
    assert_eq!(class(100, Some(0)), Some(SwitchType::Offline));
    assert_eq!(class(9000, Some(5000)), Some(SwitchType::Offline));
    assert_eq!(StreamHealth::Offline.classify(&t), Some(SwitchType::Offline));
    assert_eq!(StreamHealth::Low { bitrate_kbps: 101 }.classify(&t), Some(SwitchType::Low));
    assert_eq!(StreamHealth::Low { bitrate_kbps: 100 }.classify(&t), Some(SwitchType::Offline));
    assert_eq!(StreamHealth::Error { kind: ProbeError::Transport }.classify(&t), None);
    let none = Triggers { low: None, rtt: None, offline: None, rtt_offline: None };
    assert_eq!(
        StreamHealth::Online { bitrate_kbps: 0, rtt_ms: Some(u32::MAX) }.classify(&none),
        Some(SwitchType::Normal)
    );
}

#[test]
fn the_count_is_weighed_as_configured() {
    let worse = Some(Direction::Worse);
    let better = Some(Direction::Better);
    let aside = Some(Direction::Aside);
    let mut cfg = rules(3, vec![]);
    assert_eq!(weigh_sample(&cfg, 0, None, Direction::Worse), (1, worse, false));
    assert_eq!(weigh_sample(&cfg, 2, worse, Direction::Worse), (3, worse, false));
    assert_eq!(weigh_sample(&cfg, 3, worse, Direction::Worse), (3, worse, true));
    assert_eq!(weigh_sample(&cfg, 9, worse, Direction::Worse), (9, worse, true));
    assert_eq!(weigh_sample(&cfg, 3, None, Direction::Worse), (1, worse, false));
    assert_eq!(weigh_sample(&cfg, 3, better, Direction::Worse), (1, worse, false));
    assert_eq!(weigh_sample(&cfg, 3, aside, Direction::Worse), (1, worse, false));
    assert_eq!(weigh_sample(&cfg, 2, worse, Direction::Aside), (1, aside, false));
    assert_eq!(weigh_sample(&cfg, 2, aside, Direction::Aside), (3, aside, false));
    assert_eq!(weigh_sample(&cfg, 3, aside, Direction::Aside), (3, aside, true));
    assert_eq!(weigh_sample(&cfg, 2, worse, Direction::Better), (0, None, true));
    assert_eq!(weigh_sample(&cfg, 0, None, Direction::Better), (0, None, true));
    cfg.instantly_switch_on_recover = false;
    assert_eq!(weigh_sample(&cfg, 2, better, Direction::Better), (3, better, false));
    assert_eq!(weigh_sample(&cfg, 3, better, Direction::Better), (3, better, true));
    assert_eq!(weigh_sample(&cfg, 3, worse, Direction::Better), (1, better, false));
    cfg.retry_attempts = 255;
    assert_eq!(weigh_sample(&cfg, 254, worse, Direction::Worse), (255, worse, false));
    assert_eq!(weigh_sample(&cfg, 255, worse, Direction::Worse), (255, worse, true));
    cfg.retry_attempts = 0;
    assert_eq!(weigh_sample(&cfg, 0, None, Direction::Worse), (0, worse, true));
    assert_eq!(weigh_sample(&cfg, 7, better, Direction::Aside), (0, aside, true));
    assert_eq!(Level::Normal.direction_to(Level::Low), Direction::Worse);
    assert_eq!(Level::Normal.direction_to(Level::Offline), Direction::Worse);
    assert_eq!(Level::Low.direction_to(Level::Offline), Direction::Worse);
    assert_eq!(Level::Offline.direction_to(Level::Low), Direction::Better);
    assert_eq!(Level::Low.direction_to(Level::Normal), Direction::Better);
    assert_eq!(Level::Low.direction_to(Level::Low), Direction::Aside);
}

#[test]
fn a_scene_has_the_kind_of_the_rules_that_name_it() {
    let mut a = server("A", Some(0));
    a.override_scenes = Some(scenes("liveA", "low", "normal"));
    let cfg = rules(3, vec![a]);
    assert_eq!(level_of(&cfg, "normal"), Some(Level::Normal));
    assert_eq!(level_of(&cfg, "liveA"), Some(Level::Normal));
    assert_eq!(level_of(&cfg, "low"), Some(Level::Low));
    assert_eq!(level_of(&cfg, "offline"), Some(Level::Offline));
    assert_eq!(level_of(&cfg, "Normal"), None);
    assert_eq!(level_of(&cfg, ""), None);
}

fn backup_rules(seconds: u64) -> Switcher {
    let main = server("main", Some(0));
    let mut backup = server("backup", Some(1));
    backup.depends_on =
        Some(DependsOn { name: "main".to_string(), back_to_normal_seconds: seconds });
    rules(0, vec![main, backup])
}

#[test]
fn a_dependent_server_is_held_back_after_the_other_came_online() {
    let mut r = rig(backup_rules(10), "offline");
    r.now = 99;
    assert_eq!(
        turn(&mut r, vec![StreamHealth::Offline, StreamHealth::Offline]),
        Action::Hold
    );
    // The main server comes online at time 101, too weak to be healthy.
    assert_eq!(
        turn(&mut r, vec![online(10), online(3000)]),
        Action::SetScene { scene: "low".to_string(), switch_type: SwitchType::Low }
    );
    assert_eq!(
        r.state.depends_on_timer.get("main"),
        Some(Track { online: true, since: Some(101) })
    );
    // Until time 110 the backup's healthy reports do not count.
    r.now = 109;
    assert_eq!(turn(&mut r, vec![StreamHealth::Offline, online(3000)]),
        Action::SetScene { scene: "offline".to_string(), switch_type: SwitchType::Offline });
    assert_eq!(
        r.state.depends_on_timer.get("main"),
        Some(Track { online: false, since: Some(101) })
    );
    // At time 111 ten seconds have passed.
    assert_eq!(
        turn(&mut r, vec![StreamHealth::Offline, online(3000)]),
        Action::SetScene { scene: "normal".to_string(), switch_type: SwitchType::Normal }
    );
    assert_eq!(r.now, 111);
}

#[test]
fn a_held_back_server_alone_brings_no_class() {
    let cfg = backup_rules(10);
    let mut timers = DependencyTimers::new();
    timers.put("main", Track { online: true, since: Some(50) });
    let samples = vec![StreamHealth::Error { kind: ProbeError::Timeout }, online(3000)];
    assert_eq!(assess(&cfg, &timers, &samples, 59), None);
    assert_eq!(
        assess(&cfg, &timers, &samples, 60),
        Some(Verdict { class: SwitchType::Normal, decisive: Some(1) })
    );
    assert_eq!(assess(&cfg, &timers, &samples, 40), None);
    timers.put("main", Track { online: false, since: None });
    assert_eq!(
        assess(&cfg, &timers, &samples, 59),
        Some(Verdict { class: SwitchType::Normal, decisive: Some(1) })
    );
    timers.put("main", Track { online: true, since: Some(u64::MAX) });
    assert_eq!(assess(&cfg, &timers, &samples, u64::MAX), None);
}

#[test]
fn the_timers_remember_when_a_server_came_online() {
    let cfg = rules(3, vec![server("A", Some(0)), server("B", Some(1)), server("A", Some(2))]);
    let mut timers = DependencyTimers::new();
    assert_eq!(timers.get("A"), None);
    timers.observe(&cfg, &vec![StreamHealth::Offline, online(5), StreamHealth::Offline], 10);
    assert_eq!(timers.get("A"), Some(Track { online: false, since: None }));
    assert_eq!(timers.get("B"), Some(Track { online: true, since: Some(10) }));
    timers.observe(&cfg, &vec![StreamHealth::Offline, online(5), online(9000)], 20);
    assert_eq!(timers.get("A"), Some(Track { online: true, since: Some(20) }));
    assert_eq!(timers.get("B"), Some(Track { online: true, since: Some(10) }));
    let none = StreamHealth::Error { kind: ProbeError::Timeout };
    timers.observe(&cfg, &vec![none, StreamHealth::Low { bitrate_kbps: 1 }, none], 30);
    assert_eq!(timers.get("A"), Some(Track { online: true, since: Some(20) }));
    assert_eq!(timers.get("B"), Some(Track { online: false, since: Some(10) }));
    timers.observe(&cfg, &vec![online(1)], 40);
    assert_eq!(timers.get("A"), Some(Track { online: true, since: Some(20) }));
    assert_eq!(timers.get("C"), None);
}

fn slow_rules() -> Switcher {
    let mut cfg = rules(3, vec![server("main", Some(0))]);
    cfg.instantly_switch_on_recover = false;
    cfg.triggers.offline = Some(100);
    cfg
}

#[test]
fn healthy_samples_do_not_count_toward_a_worse_scene() {
    let mut r = rig(slow_rules(), "low");
    for count in 1..=3 {
        assert_eq!(turn(&mut r, vec![online(3000)]), Action::Hold);
        assert_eq!(r.state.low_retry_count, count);
        assert_eq!(r.state.retry_direction, Some(Direction::Better));
    }
    // One sample below the offline threshold starts the count again.
    for count in 1..=3 {
        assert_eq!(turn(&mut r, vec![online(50)]), Action::Hold);
        assert_eq!(r.state.low_retry_count, count);
        assert_eq!(r.state.retry_direction, Some(Direction::Worse));
    }
    assert_eq!(
        turn(&mut r, vec![online(50)]),
        Action::SetScene { scene: "offline".to_string(), switch_type: SwitchType::Offline }
    );
    assert_eq!(r.calls, vec!["offline".to_string()]);
    assert_eq!(r.state.retry_direction, None);
}

#[test]
fn degraded_samples_do_not_count_toward_a_better_scene() {
    let mut r = rig(slow_rules(), "low");
    for _ in 0..3 {
        assert_eq!(turn(&mut r, vec![online(50)]), Action::Hold);
    }
    assert_eq!(r.state.low_retry_count, 3);
    // One healthy sample does not switch; it is the first of its own count.
    for count in 1..=3 {
        assert_eq!(turn(&mut r, vec![online(3000)]), Action::Hold);
        assert_eq!(r.state.low_retry_count, count);
        assert_eq!(r.state.retry_direction, Some(Direction::Better));
    }
    assert_eq!(
        turn(&mut r, vec![online(3000)]),
        Action::SetScene { scene: "normal".to_string(), switch_type: SwitchType::Normal }
    );
    assert_eq!(r.calls, vec!["normal".to_string()]);
}

#[test]
fn a_single_healthy_sample_forbids_the_worse_scene() {
    let mut r = rig(slow_rules(), "low");
    for bitrate in [50, 50, 50, 3000, 50, 50, 3000, 50, 50, 50] {
        assert_eq!(turn(&mut r, vec![online(bitrate)]), Action::Hold);
    }
    assert_eq!(
        turn(&mut r, vec![online(50)]),
        Action::SetScene { scene: "offline".to_string(), switch_type: SwitchType::Offline }
    );
    assert_eq!(r.calls.len(), 1);
}

#[test]
fn with_instant_recovery_low_and_offline_samples_count_together() {
    let mut cfg = rules(3, vec![server("main", Some(0))]);
    cfg.triggers.offline = Some(100);
    let mut r = rig(cfg, "normal");
    for _ in 0..3 {
        assert_eq!(turn(&mut r, vec![online(500)]), Action::Hold);
    }
    assert_eq!(
        turn(&mut r, vec![online(50)]),
        Action::SetScene { scene: "offline".to_string(), switch_type: SwitchType::Offline }
    );
}

fn two_servers() -> Switcher {
    let a = server("A", Some(0));
    let mut b = server("B", Some(1));
    b.override_scenes = Some(scenes("liveB", "lowB", "offlineB"));
    rules(2, vec![a, b])
}

#[test]
fn the_deciding_server_s_scene_replaces_the_normal_scene() {
    let mut r = rig(two_servers(), "normal");
    r.scenes.push("liveB".to_string());
    let only_b = vec![StreamHealth::Offline, online(4000)];
    assert_eq!(turn(&mut r, only_b.clone()), Action::Hold);
    assert_eq!(r.state.retry_direction, Some(Direction::Aside));
    assert_eq!(turn(&mut r, only_b.clone()), Action::Hold);
    assert_eq!(r.state.low_retry_count, 2);
    assert_eq!(
        turn(&mut r, only_b.clone()),
        Action::SetScene { scene: "liveB".to_string(), switch_type: SwitchType::Normal }
    );
    assert_eq!(turn(&mut r, only_b), Action::Hold);
    assert_eq!(r.state.low_retry_count, 0);
    // The first server is back: its scene is shown again after the count.
    let both = vec![online(4000), online(4000)];
    assert_eq!(turn(&mut r, both.clone()), Action::Hold);
    assert_eq!(turn(&mut r, both.clone()), Action::Hold);
    assert_eq!(
        turn(&mut r, both),
        Action::SetScene { scene: "normal".to_string(), switch_type: SwitchType::Normal }
    );
    assert_eq!(r.calls, vec!["liveB".to_string(), "normal".to_string()]);
}

#[test]
fn a_server_that_flaps_does_not_move_the_scene_aside() {
    let mut r = rig(two_servers(), "normal");
    r.scenes.push("liveB".to_string());
    let only_b = vec![StreamHealth::Offline, online(4000)];
    let both = vec![online(4000), online(4000)];
    for _ in 0..4 {
        assert_eq!(turn(&mut r, only_b.clone()), Action::Hold);
        assert_eq!(turn(&mut r, only_b.clone()), Action::Hold);
        assert_eq!(turn(&mut r, both.clone()), Action::Hold);
        assert_eq!(r.state.low_retry_count, 0);
    }
    assert!(r.calls.is_empty());
}

#[test]
fn the_deciding_server_s_scene_is_set_from_the_low_scene_at_once() {
    let mut r = rig(two_servers(), "low");
    r.scenes.push("liveB".to_string());
    assert_eq!(
        turn(&mut r, vec![StreamHealth::Offline, online(4000)]),
        Action::SetScene { scene: "liveB".to_string(), switch_type: SwitchType::Normal }
    );
}
