//! What is kept for one user while the switcher runs.

use vstd::prelude::*;
use crate::chat::AutomaticSwitchingScene;
use crate::chat::AutomaticSwitchingSceneView;
use crate::chat::HandleMessage;
use crate::config::Config;
use crate::config::ConfigView;
use crate::switcher::engine::switched_spec;
use crate::switcher::engine::tick;
use crate::switcher::engine::tick_of;
use crate::switcher::engine::tick_spec;
use crate::switcher::engine::Action;
use crate::switcher::health::StreamHealth;
use crate::switcher::SwitchType;
use crate::switcher::timers::DependencyTimers;
use crate::switcher::timers::Track;
use crate::switcher::Direction;
use crate::switcher::SwitchReason;
use crate::text::same_text;

verus! {

/// The switcher's own memory. Only the switcher changes it.
#[derive(Debug, PartialEq, Eq)]
pub struct SwitcherState {
    /// How many samples in a row have called for the change that is pending.
    pub low_retry_count: u8,
    /// The way in which the counted samples leave the shown scene; none
    /// while nothing is counted.
    pub retry_direction: Option<Direction>,
    /// The scene that the switcher last set.
    pub last_scene: Option<String>,
    /// Why the scene was last changed.
    pub last_switch_reason: Option<SwitchReason>,
    /// When the servers that others depend on came online.
    pub depends_on_timer: DependencyTimers,
}

pub struct SwitcherStateView {
    pub low_retry_count: u8,
    pub retry_direction: Option<Direction>,
    pub last_scene: Option<Seq<char>>,
    pub last_switch_reason: Option<SwitchReason>,
    pub depends_on_timer: Map<Seq<char>, Track>,
}

impl View for SwitcherState {
    type V = SwitcherStateView;

    open spec fn view(&self) -> SwitcherStateView {
        SwitcherStateView {
            low_retry_count: self.low_retry_count,
            retry_direction: self.retry_direction,
            last_scene: self.last_scene.deep_view(),
            last_switch_reason: self.last_switch_reason,
            depends_on_timer: self.depends_on_timer@,
        }
    }
}

impl SwitcherStateView {
    /// The memory of a switcher that has not run yet.
    pub open spec fn initial() -> SwitcherStateView {
        SwitcherStateView {
            low_retry_count: 0,
            retry_direction: None,
            last_scene: None,
            last_switch_reason: None,
            depends_on_timer: Map::empty(),
        }
    }
}

impl Default for SwitcherState {
    fn default() -> (r: Self)
        ensures
            r@ == SwitcherStateView::initial(),
    {
        SwitcherState {
            low_retry_count: 0,
            retry_direction: None,
            last_scene: None,
            last_switch_reason: None,
            depends_on_timer: DependencyTimers::new(),
        }
    }
}

/// What is known about the broadcasting software. Its events keep this up
/// to date.
#[derive(Debug, PartialEq, Eq)]
pub struct BroadcastingSoftwareState {
    pub current_scene: String,
    pub prev_scene: String,
    pub is_streaming: bool,
    pub is_connected: bool,
    pub initial_connect_done: bool,
}

pub struct BroadcastingSoftwareView {
    pub current_scene: Seq<char>,
    pub prev_scene: Seq<char>,
    pub is_streaming: bool,
    pub is_connected: bool,
    pub initial_connect_done: bool,
}

impl View for BroadcastingSoftwareState {
    type V = BroadcastingSoftwareView;

    open spec fn view(&self) -> BroadcastingSoftwareView {
        BroadcastingSoftwareView {
            current_scene: self.current_scene@,
            prev_scene: self.prev_scene@,
            is_streaming: self.is_streaming,
            is_connected: self.is_connected,
            initial_connect_done: self.initial_connect_done,
        }
    }
}

impl Default for BroadcastingSoftwareState {
    fn default() -> (r: Self)
        ensures
            r@ == (BroadcastingSoftwareView {
                current_scene: Seq::empty(),
                prev_scene: Seq::empty(),
                is_streaming: false,
                is_connected: false,
                initial_connect_done: false,
            }),
    {
        BroadcastingSoftwareState {
            current_scene: String::new(),
            prev_scene: String::new(),
            is_streaming: false,
            is_connected: false,
            initial_connect_done: false,
        }
    }
}

impl BroadcastingSoftwareState {
    /// The software shows another scene: the scene shown until now becomes
    /// the previous one.
    pub fn scene_changed(&mut self, scene: String)
        ensures
            final(self)@ == (BroadcastingSoftwareView {
                current_scene: scene@,
                prev_scene: old(self)@.current_scene,
                ..old(self)@
            }),
    {
        let mut shown = scene;
        std::mem::swap(&mut self.current_scene, &mut shown);
        self.prev_scene = shown;
    }

    /// The connection to the software is there or gone. That it was there
    /// once is remembered.
    pub fn connection_changed(&mut self, connected: bool)
        ensures
            final(self)@ == (BroadcastingSoftwareView {
                is_connected: connected,
                initial_connect_done: old(self)@.initial_connect_done || connected,
                ..old(self)@
            }),
    {
        self.is_connected = connected;
        if connected {
            self.initial_connect_done = true;
        }
    }

    /// The software has started or stopped streaming.
    pub fn streaming_changed(&mut self, streaming: bool)
        ensures
            final(self)@ == (BroadcastingSoftwareView { is_streaming: streaming, ..old(self)@ }),
    {
        self.is_streaming = streaming;
    }
}

/// All that is kept for one user.
#[derive(Debug, PartialEq, Eq)]
pub struct State {
    pub config: Config,
    pub switcher_state: SwitcherState,
    pub broadcasting_software: BroadcastingSoftwareState,
}

pub struct StateView {
    pub config: ConfigView,
    pub switcher_state: SwitcherStateView,
    pub broadcasting_software: BroadcastingSoftwareView,
}

impl View for State {
    type V = StateView;

    open spec fn view(&self) -> StateView {
        StateView {
            config: self.config@,
            switcher_state: self.switcher_state@,
            broadcasting_software: self.broadcasting_software@,
        }
    }
}

/// The reason remembered after the software showed another scene: a scene
/// that the switcher did not set last was set by hand.
pub open spec fn reason_after(state: SwitcherStateView, scene: Seq<char>) -> Option<SwitchReason> {
    if state.last_scene == Some(scene) {
        state.last_switch_reason
    } else {
        Some(SwitchReason::Manual)
    }
}

/// The message that tells the chat of a scene change, where the chat is to
/// be told.
pub open spec fn notice_of(config: ConfigView, scene: Seq<char>, switch_type: SwitchType) -> Option<
    AutomaticSwitchingSceneView,
> {
    match config.chat {
        Some(chat) => if config.switcher.auto_switch_notification {
            Some(
                AutomaticSwitchingSceneView {
                    platform: chat.platform.spec_kind(),
                    channel: chat.username,
                    scene,
                    switch_type,
                },
            )
        } else {
            None
        },
        None => None,
    }
}

/// A message's scene-change notice, if it is one.
pub open spec fn notice_in(message: Option<HandleMessage>) -> Option<AutomaticSwitchingSceneView> {
    match message {
        Some(HandleMessage::AutomaticSwitchingScene(notice)) => Some(notice@),
        _ => None,
    }
}

impl State {
    /// A fresh state for a configuration: nothing remembered, nothing known
    /// of the software, and the normal scene as the one to go back to.
    pub fn new(config: Config) -> (r: State)
        ensures
            r.config == config,
            r.switcher_state@ == SwitcherStateView::initial(),
            r.broadcasting_software@ == (BroadcastingSoftwareView {
                current_scene: Seq::empty(),
                prev_scene: config@.switcher.switching_scenes.normal,
                is_streaming: false,
                is_connected: false,
                initial_connect_done: false,
            }),
    {
        let mut software = BroadcastingSoftwareState::default();
        software.prev_scene = config.switcher.switching_scenes.normal.clone();
        State { config, switcher_state: SwitcherState::default(), broadcasting_software: software }
    }

    /// One tick of the switcher on this state.
    pub fn tick(&mut self, scenes: &Vec<String>, samples: &Vec<StreamHealth>, now: u64) -> (action:
        Action)
        ensures
            (final(self).switcher_state@, action@) == tick_spec(
                old(self).config.switcher@,
                old(self).switcher_state@,
                tick_of(&old(self).broadcasting_software, scenes, samples, now),
            ),
            final(self).config == old(self).config,
            final(self).broadcasting_software == old(self).broadcasting_software,
    {
        tick(
            &self.config.switcher,
            &mut self.switcher_state,
            &self.broadcasting_software,
            scenes,
            samples,
            now,
        )
    }

    /// The software has set the scene that the switcher asked for. The
    /// scene and the reason are remembered and the count starts again. The
    /// result is the notice for the chat, where the chat is to be told.
    pub fn switched(&mut self, scene: String, switch_type: SwitchType) -> (notice: Option<
        HandleMessage,
    >)
        ensures
            final(self).switcher_state@ == switched_spec(
                old(self).switcher_state@,
                scene@,
                switch_type,
            ),
            final(self).config == old(self).config,
            final(self).broadcasting_software == old(self).broadcasting_software,
            notice_in(notice) == notice_of(old(self).config@, scene@, switch_type),
            notice is Some <==> notice_of(old(self).config@, scene@, switch_type) is Some,
    {
        let notice = match &self.config.chat {
            Some(chat) => {
                if self.config.switcher.auto_switch_notification {
                    Some(
                        HandleMessage::AutomaticSwitchingScene(
                            AutomaticSwitchingScene {
                                platform: chat.platform.kind(),
                                channel: chat.username.clone(),
                                scene: scene.clone(),
                                switch_type,
                            },
                        ),
                    )
                } else {
                    None
                }
            },
            None => None,
        };
        self.switcher_state.switched(scene, switch_type);
        notice
    }

    /// The software shows another scene. A scene that the switcher did not
    /// set last was set by hand.
    pub fn scene_changed(&mut self, scene: String)
        ensures
            final(self).broadcasting_software@ == (BroadcastingSoftwareView {
                current_scene: scene@,
                prev_scene: old(self).broadcasting_software@.current_scene,
                ..old(self).broadcasting_software@
            }),
            final(self).switcher_state@ == (SwitcherStateView {
                last_switch_reason: reason_after(old(self).switcher_state@, scene@),
                ..old(self).switcher_state@
            }),
            final(self).config == old(self).config,
    {
        let by_switcher = match &self.switcher_state.last_scene {
            Some(last) => same_text(last.as_str(), scene.as_str()),
            None => false,
        };
        if !by_switcher {
            self.switcher_state.last_switch_reason = Some(SwitchReason::Manual);
        }
        self.broadcasting_software.scene_changed(scene);
    }
}

} // verus!
