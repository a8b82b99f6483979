//! The switcher's decisions: from one tick's reports to the scene to set.

use vstd::prelude::*;
use crate::config::Switcher;
use crate::config::SwitcherView;
use crate::state::BroadcastingSoftwareState;
use crate::state::SwitcherState;
use crate::state::SwitcherStateView;
use crate::stream_servers::StreamServer;
use crate::stream_servers::StreamServerView;
use crate::switcher::health::class_of;
use crate::switcher::health::StreamHealth;
use crate::switcher::timers::has_report;
use crate::switcher::timers::lookup;
use crate::switcher::timers::sampled;
use crate::switcher::timers::timers_after;
use crate::switcher::timers::DependencyTimers;
use crate::switcher::timers::Track;
use crate::switcher::Direction;
use crate::switcher::Level;
use crate::switcher::ScenesView;
use crate::switcher::SwitchType;
use crate::text::same_text;

verus! {

/// What keeps the switcher from acting, if anything.
#[derive(Debug, Clone, Copy, PartialEq, Eq, Structural)]
pub enum Readiness {
    /// Nothing does.
    Ready,
    /// The switcher is switched off.
    Disabled,
    /// Scenes change only while streaming, and nothing is streaming.
    NotStreaming,
    /// The broadcasting software is not connected.
    Disconnected,
}

/// Whether the switcher may act under the given rules and status. The
/// switch is asked first, then the stream, then the connection.
pub open spec fn readiness_of(
    policy: SwitcherView,
    is_streaming: bool,
    is_connected: bool,
) -> Readiness {
    if !policy.bitrate_switcher_enabled {
        Readiness::Disabled
    } else if policy.only_switch_when_streaming && !is_streaming {
        Readiness::NotStreaming
    } else if !is_connected {
        Readiness::Disconnected
    } else {
        Readiness::Ready
    }
}

/// Says what the switcher has to wait for before it may act.
pub fn readiness(cfg: &Switcher, software: &BroadcastingSoftwareState) -> (r: Readiness)
    ensures
        r == readiness_of(cfg@, software@.is_streaming, software@.is_connected),
{
    if !cfg.bitrate_switcher_enabled {
        Readiness::Disabled
    } else if cfg.only_switch_when_streaming && !software.is_streaming {
        Readiness::NotStreaming
    } else if !software.is_connected {
        Readiness::Disconnected
    } else {
        Readiness::Ready
    }
}

/// Whether a server's healthy reports are held back at the given time: it
/// depends on a server that came online less than the agreed number of
/// seconds ago.
pub open spec fn suppressed(
    server: StreamServerView,
    timers: Map<Seq<char>, Track>,
    now: u64,
) -> bool {
    match server.depends_on {
        Some(d) => match lookup(timers, d.name) {
            Some(track) => match track.since {
                Some(since) => now < since + d.back_to_normal_seconds,
                None => false,
            },
            None => false,
        },
        None => false,
    }
}

/// The class that server `i` adds to a tick: the class of its report,
/// except that a healthy report which is held back adds nothing.
pub open spec fn contribution(
    policy: SwitcherView,
    timers: Map<Seq<char>, Track>,
    samples: Seq<StreamHealth>,
    now: u64,
    i: int,
) -> Option<SwitchType> {
    match sampled(policy, samples, i) {
        Some(health) => {
            let class = class_of(policy.triggers, health);
            let held_back = suppressed(policy.stream_servers[i], timers, now);
            if class == Some(SwitchType::Normal) && held_back {
                None
            } else {
                class
            }
        },
        None => None,
    }
}

/// Whether some server adds the given class to the tick.
pub open spec fn contributed(
    policy: SwitcherView,
    timers: Map<Seq<char>, Track>,
    samples: Seq<StreamHealth>,
    now: u64,
    class: SwitchType,
) -> bool {
    exists|i: int| contribution(policy, timers, samples, now, i) == Some(class)
}

/// Whether server `i` is online and adds the given class.
pub open spec fn stands_for(
    policy: SwitcherView,
    timers: Map<Seq<char>, Track>,
    samples: Seq<StreamHealth>,
    now: u64,
    class: SwitchType,
    i: int,
) -> bool {
    contribution(policy, timers, samples, now, i) == Some(class) && samples[i] is Online
}

/// Whether server `i` is the first, in order of precedence, that is online
/// and adds the given class.
pub open spec fn is_decisive(
    policy: SwitcherView,
    timers: Map<Seq<char>, Track>,
    samples: Seq<StreamHealth>,
    now: u64,
    class: SwitchType,
    i: int,
) -> bool {
    &&& stands_for(policy, timers, samples, now, class, i)
    &&& forall|j: int| 0 <= j < i ==> !stands_for(policy, timers, samples, now, class, j)
}

/// The server whose scenes are used for the given class: the first online
/// server that adds the class, if there is one.
pub open spec fn decisive(
    policy: SwitcherView,
    timers: Map<Seq<char>, Track>,
    samples: Seq<StreamHealth>,
    now: u64,
    class: SwitchType,
) -> Option<int> {
    if exists|i: int| is_decisive(policy, timers, samples, now, class, i) {
        Some(choose|i: int| is_decisive(policy, timers, samples, now, class, i))
    } else {
        None
    }
}

/// The class of a tick. One healthy server that is not held back makes the
/// tick normal. Otherwise the worst report decides: offline before low,
/// low before a high round-trip time. A tick without any report has no
/// class.
pub open spec fn class_of_tick(
    policy: SwitcherView,
    timers: Map<Seq<char>, Track>,
    samples: Seq<StreamHealth>,
    now: u64,
) -> Option<SwitchType> {
    if contributed(policy, timers, samples, now, SwitchType::Normal) {
        Some(SwitchType::Normal)
    } else if contributed(policy, timers, samples, now, SwitchType::Offline) {
        Some(SwitchType::Offline)
    } else if contributed(policy, timers, samples, now, SwitchType::Low) {
        Some(SwitchType::Low)
    } else if contributed(policy, timers, samples, now, SwitchType::Rtt) {
        Some(SwitchType::Rtt)
    } else {
        None
    }
}

/// A tick's class and the server that decides its scenes.
#[derive(Debug, Clone, Copy, PartialEq, Eq, Structural)]
pub struct Verdict {
    pub class: SwitchType,
    pub decisive: Option<usize>,
}

/// What a tick's reports come to, if they come to anything.
pub open spec fn verdict_of(
    policy: SwitcherView,
    timers: Map<Seq<char>, Track>,
    samples: Seq<StreamHealth>,
    now: u64,
) -> Option<(SwitchType, Option<int>)> {
    match class_of_tick(policy, timers, samples, now) {
        Some(class) => Some((class, decisive(policy, timers, samples, now, class))),
        None => None,
    }
}

/// The scenes in force when the given server decides: its own where it
/// overrides them, else the configured ones. A server that does not exist
/// overrides nothing.
pub open spec fn scenes_in_force(policy: SwitcherView, server: Option<int>) -> ScenesView {
    match server {
        Some(i) => if 0 <= i < policy.stream_servers.len() {
            match policy.stream_servers[i].override_scenes {
                Some(scenes) => scenes,
                None => policy.switching_scenes,
            }
        } else {
            policy.switching_scenes
        },
        None => policy.switching_scenes,
    }
}

/// The scene to show for a class when the given server decides.
pub open spec fn target_scene(policy: SwitcherView, class: SwitchType, server: Option<int>) -> Seq<
    char,
> {
    scenes_in_force(policy, server).scene(class.level())
}

/// Whether server `i` overrides the scene of the given kind with `scene`.
pub open spec fn overrides_with(
    policy: SwitcherView,
    level: Level,
    scene: Seq<char>,
    i: int,
) -> bool {
    &&& 0 <= i < policy.stream_servers.len()
    &&& policy.stream_servers[i].override_scenes matches Some(scenes)
    &&& scenes.scene(level) == scene
}

/// Whether `scene` is a scene of the given kind: the configured one or one
/// that a server overrides it with.
pub open spec fn shows(policy: SwitcherView, level: Level, scene: Seq<char>) -> bool {
    policy.switching_scenes.scene(level) == scene || exists|i: int|
        overrides_with(policy, level, scene, i)
}

/// The kind of a scene, if it is one that the switcher moves between. A
/// scene of several kinds counts as the best of them.
pub open spec fn level_of_scene(policy: SwitcherView, scene: Seq<char>) -> Option<Level> {
    if shows(policy, Level::Normal, scene) {
        Some(Level::Normal)
    } else if shows(policy, Level::Low, scene) {
        Some(Level::Low)
    } else if shows(policy, Level::Offline, scene) {
        Some(Level::Offline)
    } else {
        None
    }
}

/// The count, the way it presses, and whether the change is called for
/// now.
pub struct Weight {
    pub count: u8,
    pub direction: Option<Direction>,
    pub change: bool,
}

/// The count of a switcher that counts nothing.
pub open spec fn at_rest(state: SwitcherStateView) -> SwitcherStateView {
    SwitcherStateView { low_retry_count: 0, retry_direction: None, ..state }
}

/// How many samples have been counted for a change that leaves the shown
/// scene the given way. Samples counted for another way do not count.
pub open spec fn counted(count: u8, pressing: Option<Direction>, toward: Direction) -> u8 {
    if pressing == Some(toward) {
        count
    } else {
        0
    }
}

/// What a sample that calls for another scene than the shown one does to
/// the count, and whether it calls for the change now. `toward` is the way
/// in which the change leaves the shown scene.
///
/// A change for the better, where recovery is instant, is called for at
/// once and nothing is counted. Any other sample is counted with the
/// samples before it that pressed the same way; a sample that presses
/// another way starts the count again. Once the count has reached the
/// configured number, the next sample that presses the same way calls for
/// the change.
pub open spec fn weigh(
    policy: SwitcherView,
    count: u8,
    pressing: Option<Direction>,
    toward: Direction,
) -> Weight {
    if toward == Direction::Better && policy.instantly_switch_on_recover {
        Weight { count: 0, direction: None, change: true }
    } else {
        let so_far = counted(count, pressing, toward);
        if so_far < policy.retry_attempts {
            Weight { count: (so_far + 1) as u8, direction: Some(toward), change: false }
        } else {
            Weight { count: so_far, direction: Some(toward), change: true }
        }
    }
}

/// What the switcher asks for at the end of a tick.
#[derive(Debug, PartialEq, Eq)]
pub enum Action {
    /// Wait for what is named before acting.
    Wait(Readiness),
    /// Leave the scene as it is.
    Hold,
    /// The scene to switch to does not exist; warn and leave the scene.
    SceneMissing { scene: String },
    /// Switch to this scene.
    SetScene { scene: String, switch_type: SwitchType },
}

pub enum ActionView {
    Wait(Readiness),
    Hold,
    SceneMissing { scene: Seq<char> },
    SetScene { scene: Seq<char>, switch_type: SwitchType },
}

impl View for Action {
    type V = ActionView;

    open spec fn view(&self) -> ActionView {
        match *self {
            Action::Wait(what) => ActionView::Wait(what),
            Action::Hold => ActionView::Hold,
            Action::SceneMissing { scene } => ActionView::SceneMissing { scene: scene@ },
            Action::SetScene { scene, switch_type } => ActionView::SetScene {
                scene: scene@,
                switch_type,
            },
        }
    }
}

/// What one tick brings: the reports, one for each server in the order of
/// the configuration, the time in seconds, and the broadcasting software's
/// status and scenes.
pub struct Tick {
    pub samples: Seq<StreamHealth>,
    pub now: u64,
    pub current_scene: Seq<char>,
    pub is_streaming: bool,
    pub is_connected: bool,
    pub scenes: Seq<Seq<char>>,
}

/// The switcher's memory and request after a tick.
///
/// While the switcher may not act nothing happens. Otherwise the reports
/// are taken into the timers, and a tick without a class ends there. A
/// scene that the switcher does not move between is left alone, and so is
/// the scene that the tick calls for; either clears the count. A tick that
/// calls for another scene is weighed by the way in which that scene leaves
/// the shown one: to a worse kind, to a better kind, or to another scene of
/// the same kind, which a server's own scenes can bring about. Where the
/// change is called for, the target scene is set unless it does not exist.
/// The count starts again only once the scene was set, so a change that
/// failed is asked for again in the next tick.
pub open spec fn tick_spec(policy: SwitcherView, state: SwitcherStateView, tick: Tick) -> (
    SwitcherStateView,
    ActionView,
) {
    let ready = readiness_of(policy, tick.is_streaming, tick.is_connected);
    if ready != Readiness::Ready {
        (state, ActionView::Wait(ready))
    } else {
        let timers = timers_after(policy, state.depends_on_timer, tick.samples, tick.now);
        let state = SwitcherStateView { depends_on_timer: timers, ..state };
        match verdict_of(policy, timers, tick.samples, tick.now) {
            None => (state, ActionView::Hold),
            Some((class, server)) => match level_of_scene(policy, tick.current_scene) {
                None => (at_rest(state), ActionView::Hold),
                Some(shown) => {
                    let target = target_scene(policy, class, server);
                    if target == tick.current_scene {
                        (at_rest(state), ActionView::Hold)
                    } else {
                        let weight = weigh(
                            policy,
                            state.low_retry_count,
                            state.retry_direction,
                            shown.toward(class.level()),
                        );
                        let state = SwitcherStateView {
                            low_retry_count: weight.count,
                            retry_direction: weight.direction,
                            ..state
                        };
                        if !weight.change {
                            (state, ActionView::Hold)
                        } else if !tick.scenes.contains(target) {
                            (state, ActionView::SceneMissing { scene: target })
                        } else {
                            (state, ActionView::SetScene { scene: target, switch_type: class })
                        }
                    }
                },
            },
        }
    }
}

/// The switcher's memory after the scene was set as asked: the scene and
/// the reason are remembered and the count starts again.
pub open spec fn switched_spec(
    state: SwitcherStateView,
    scene: Seq<char>,
    class: SwitchType,
) -> SwitcherStateView {
    SwitcherStateView {
        low_retry_count: 0,
        retry_direction: None,
        last_scene: Some(scene),
        last_switch_reason: Some(class.reason()),
        ..state
    }
}

/// Whether a server's healthy reports are held back at the given time.
pub fn is_suppressed(server: &StreamServer, timers: &DependencyTimers, now: u64) -> (r: bool)
    ensures
        r == suppressed(server@, timers@, now),
{
    match &server.depends_on {
        Some(d) => match timers.get(d.name.as_str()) {
            Some(track) => match track.since {
                Some(since) => now < since || now - since < d.back_to_normal_seconds,
                None => false,
            },
            None => false,
        },
        None => false,
    }
}

/// The class that server `i` adds to the tick.
pub fn contribution_of(
    cfg: &Switcher,
    timers: &DependencyTimers,
    samples: &Vec<StreamHealth>,
    now: u64,
    i: usize,
) -> (r: Option<SwitchType>)
    ensures
        r == contribution(cfg@, timers@, samples@, now, i as int),
{
    if !has_report(cfg, samples, i) {
        return None;
    }
    let class = samples[i].classify(&cfg.triggers);
    match class {
        Some(SwitchType::Normal) => {
            if is_suppressed(&cfg.stream_servers[i], timers, now) {
                None
            } else {
                class
            }
        },
        _ => class,
    }
}

/// Whether some server adds the given class to the tick, and the first
/// online server that does.
fn scan(
    cfg: &Switcher,
    timers: &DependencyTimers,
    samples: &Vec<StreamHealth>,
    now: u64,
    class: SwitchType,
) -> (r: (bool, Option<usize>))
    ensures
        r.0 == contributed(cfg@, timers@, samples@, now, class),
        match r.1 {
            Some(i) => decisive(cfg@, timers@, samples@, now, class) == Some(i as int),
            None => decisive(cfg@, timers@, samples@, now, class) is None,
        },
        r.1 matches Some(i) ==> i < cfg@.stream_servers.len() && is_decisive(
            cfg@,
            timers@,
            samples@,
            now,
            class,
            i as int,
        ),
{
    let n = cfg.stream_servers.len();
    let mut seen = false;
    let mut first: Option<usize> = None;
    let mut i: usize = 0;
    while i < n
        invariant
            0 <= i <= n,
            n == cfg.stream_servers.len(),
            n == cfg@.stream_servers.len(),
            seen == (exists|j: int|
                0 <= j < i && contribution(cfg@, timers@, samples@, now, j) == Some(class)),
            match first {
                Some(k) => k < i && is_decisive(cfg@, timers@, samples@, now, class, k as int),
                None => forall|j: int|
                    0 <= j < i ==> !stands_for(cfg@, timers@, samples@, now, class, j),
            },
        decreases n - i,
    {
        let added = contribution_of(cfg, timers, samples, now, i);
        if added == Some(class) {
            seen = true;
            if first.is_none() && samples[i].is_online() {
                first = Some(i);
            }
        }
        i += 1;
    }
    proof {
        if contributed(cfg@, timers@, samples@, now, class) {
            let j = choose|j: int| contribution(cfg@, timers@, samples@, now, j) == Some(class);
            assert(0 <= j < n);
        }
        if first is None {
            assert forall|j: int| !is_decisive(cfg@, timers@, samples@, now, class, j) by {
                if is_decisive(cfg@, timers@, samples@, now, class, j) {
                    assert(0 <= j < n);
                }
            }
        }
    }
    (seen, first)
}

impl Verdict {
    /// The verdict as plain values.
    pub open spec fn view(&self) -> (SwitchType, Option<int>) {
        (
            self.class,
            match self.decisive {
                Some(i) => Some(i as int),
                None => None,
            },
        )
    }
}

/// A verdict, if there is one, as plain values.
pub open spec fn verdict_view(v: Option<Verdict>) -> Option<(SwitchType, Option<int>)> {
    match v {
        Some(v) => Some(v@),
        None => None,
    }
}

/// Weighs the reports of one tick.
pub fn assess(
    cfg: &Switcher,
    timers: &DependencyTimers,
    samples: &Vec<StreamHealth>,
    now: u64,
) -> (r: Option<Verdict>)
    ensures
        verdict_view(r) == verdict_of(cfg@, timers@, samples@, now),
{
    let (normal, by_normal) = scan(cfg, timers, samples, now, SwitchType::Normal);
    if normal {
        return Some(Verdict { class: SwitchType::Normal, decisive: by_normal });
    }
    let (offline, by_offline) = scan(cfg, timers, samples, now, SwitchType::Offline);
    if offline {
        return Some(Verdict { class: SwitchType::Offline, decisive: by_offline });
    }
    let (low, by_low) = scan(cfg, timers, samples, now, SwitchType::Low);
    if low {
        return Some(Verdict { class: SwitchType::Low, decisive: by_low });
    }
    let (rtt, by_rtt) = scan(cfg, timers, samples, now, SwitchType::Rtt);
    if rtt {
        return Some(Verdict { class: SwitchType::Rtt, decisive: by_rtt });
    }
    None
}

/// The scene to show for a class when the given server decides.
pub fn scene_for<'a>(cfg: &'a Switcher, class: SwitchType, server: Option<usize>) -> (r: &'a String)
    ensures
        r@ == target_scene(
            cfg@,
            class,
            match server {
                Some(i) => Some(i as int),
                None => None,
            },
        ),
{
    let level = class.scene_level();
    match server {
        Some(i) if i < cfg.stream_servers.len() => match &cfg.stream_servers[i].override_scenes {
            Some(scenes) => scenes.scene(level),
            None => cfg.switching_scenes.scene(level),
        },
        _ => cfg.switching_scenes.scene(level),
    }
}

fn is_shown_as(cfg: &Switcher, level: Level, scene: &str) -> (r: bool)
    ensures
        r == shows(cfg@, level, scene@),
{
    if same_text(cfg.switching_scenes.scene(level).as_str(), scene) {
        return true;
    }
    let n = cfg.stream_servers.len();
    let mut i: usize = 0;
    while i < n
        invariant
            0 <= i <= n,
            n == cfg.stream_servers.len(),
            n == cfg@.stream_servers.len(),
            forall|j: int| 0 <= j < i ==> !overrides_with(cfg@, level, scene@, j),
        decreases n - i,
    {
        match &cfg.stream_servers[i].override_scenes {
            Some(scenes) => {
                if same_text(scenes.scene(level).as_str(), scene) {
                    assert(overrides_with(cfg@, level, scene@, i as int));
                    return true;
                }
            },
            None => {},
        }
        i += 1;
    }
    false
}

/// The kind of a scene, if it is one that the switcher moves between.
pub fn level_of(cfg: &Switcher, scene: &str) -> (r: Option<Level>)
    ensures
        r == level_of_scene(cfg@, scene@),
{
    if is_shown_as(cfg, Level::Normal, scene) {
        Some(Level::Normal)
    } else if is_shown_as(cfg, Level::Low, scene) {
        Some(Level::Low)
    } else if is_shown_as(cfg, Level::Offline, scene) {
        Some(Level::Offline)
    } else {
        None
    }
}

/// What a sample that calls for another scene than the shown one does to
/// the count, and whether it calls for the change now. The result holds the
/// new count, the way it presses, and whether to change.
pub fn weigh_sample(
    cfg: &Switcher,
    count: u8,
    pressing: Option<Direction>,
    toward: Direction,
) -> (r: (u8, Option<Direction>, bool))
    ensures
        r == ({
            let weight = weigh(cfg@, count, pressing, toward);
            (weight.count, weight.direction, weight.change)
        }),
{
    if toward == Direction::Better && cfg.instantly_switch_on_recover {
        return (0, None, true);
    }
    let so_far: u8 = match pressing {
        Some(way) => if way == toward {
            count
        } else {
            0
        },
        None => 0,
    };
    if so_far < cfg.retry_attempts {
        (so_far + 1, Some(toward), false)
    } else {
        (so_far, Some(toward), true)
    }
}

/// Whether a scene of the given name is in the list.
pub fn has_scene(scenes: &Vec<String>, name: &str) -> (r: bool)
    ensures
        r == scenes.deep_view().contains(name@),
{
    let mut i: usize = 0;
    while i < scenes.len()
        invariant
            0 <= i <= scenes.len(),
            forall|j: int| 0 <= j < i ==> scenes.deep_view()[j] != name@,
        decreases scenes.len() - i,
    {
        if same_text(scenes[i].as_str(), name) {
            assert(scenes.deep_view()[i as int] == name@);
            return true;
        }
        i += 1;
    }
    false
}

/// What a tick brings, as plain values.
pub open spec fn tick_of(
    software: &BroadcastingSoftwareState,
    scenes: &Vec<String>,
    samples: &Vec<StreamHealth>,
    now: u64,
) -> Tick {
    Tick {
        samples: samples@,
        now,
        current_scene: software.current_scene@,
        is_streaming: software.is_streaming,
        is_connected: software.is_connected,
        scenes: scenes.deep_view(),
    }
}

/// One tick of the switcher. `samples` holds one report for each server, in
/// the order of the configuration; `now` is the time in seconds; `scenes`
/// are the scenes that the broadcasting software has.
///
/// The switcher never asks for the scene that is shown, and asks for no
/// scene while it is switched off, while it waits for the stream, or while
/// the software is not connected.
pub fn tick(
    cfg: &Switcher,
    state: &mut SwitcherState,
    software: &BroadcastingSoftwareState,
    scenes: &Vec<String>,
    samples: &Vec<StreamHealth>,
    now: u64,
) -> (action: Action)
    ensures
        (final(state)@, action@) == tick_spec(
            cfg@,
            old(state)@,
            tick_of(software, scenes, samples, now),
        ),
        action@ matches ActionView::SetScene { scene, .. } ==> scene != software.current_scene@,
        action@ is SetScene ==> cfg.bitrate_switcher_enabled,
        action@ is SetScene ==> !cfg.only_switch_when_streaming || software.is_streaming,
        action@ is SetScene ==> software.is_connected,
{
    let ready = readiness(cfg, software);
    if ready != Readiness::Ready {
        return Action::Wait(ready);
    }
    state.depends_on_timer.observe(cfg, samples, now);
    let verdict = match assess(cfg, &state.depends_on_timer, samples, now) {
        Some(verdict) => verdict,
        None => {
            return Action::Hold;
        },
    };
    let shown = match level_of(cfg, software.current_scene.as_str()) {
        Some(shown) => shown,
        None => {
            state.low_retry_count = 0;
            state.retry_direction = None;
            return Action::Hold;
        },
    };
    let target = scene_for(cfg, verdict.class, verdict.decisive);
    if same_text(target.as_str(), software.current_scene.as_str()) {
        state.low_retry_count = 0;
        state.retry_direction = None;
        return Action::Hold;
    }
    let (count, direction, change) = weigh_sample(
        cfg,
        state.low_retry_count,
        state.retry_direction,
        shown.direction_to(verdict.class.scene_level()),
    );
    state.low_retry_count = count;
    state.retry_direction = direction;
    if !change {
        Action::Hold
    } else if !has_scene(scenes, target.as_str()) {
        Action::SceneMissing { scene: target.clone() }
    } else {
        Action::SetScene { scene: target.clone(), switch_type: verdict.class }
    }
}

impl SwitcherState {
    /// The scene was set as asked: remembers the scene and the reason and
    /// starts the count again.
    pub fn switched(&mut self, scene: String, switch_type: SwitchType)
        ensures
            final(self)@ == switched_spec(old(self)@, scene@, switch_type),
    {
        self.low_retry_count = 0;
        self.retry_direction = None;
        self.last_scene = Some(scene);
        self.last_switch_reason = Some(switch_type.as_reason());
    }
}

} // verus!
