//! The scene switcher: thresholds, scene names, and the engine that turns
//! stream health into scene changes.

use vstd::prelude::*;

pub mod engine;
pub mod health;
pub mod laws;
pub mod timers;

verus! {

/// Thresholds that mark a stream as degraded. An absent threshold is
/// switched off.
#[derive(Debug, Clone, Copy, PartialEq, Eq, Structural)]
pub struct Triggers {
    /// At or below this bitrate (kbps) the stream counts as low.
    pub low: Option<u32>,
    /// At or above this round-trip time (ms) the stream counts as low.
    pub rtt: Option<u32>,
    /// At or below this bitrate (kbps) the stream counts as offline.
    pub offline: Option<u32>,
    /// At or above this round-trip time (ms) the stream counts as offline.
    pub rtt_offline: Option<u32>,
}

impl Default for Triggers {
    fn default() -> (r: Self)
        ensures
            r == (Triggers { low: Some(800), rtt: Some(2500), offline: None, rtt_offline: None }),
    {
        Triggers { low: Some(800), rtt: Some(2500), offline: None, rtt_offline: None }
    }
}

/// Names one of the thresholds that an operator can read and set.
#[derive(Debug, Clone, Copy, PartialEq, Eq, Structural)]
pub enum TriggerType {
    Low,
    Rtt,
    Offline,
}

impl Triggers {
    /// The threshold of the given kind.
    pub open spec fn spec_get(self, kind: TriggerType) -> Option<u32> {
        match kind {
            TriggerType::Low => self.low,
            TriggerType::Rtt => self.rtt,
            TriggerType::Offline => self.offline,
        }
    }

    /// These thresholds with the one of the given kind replaced.
    pub open spec fn spec_with(self, kind: TriggerType, value: Option<u32>) -> Triggers {
        match kind {
            TriggerType::Low => Triggers { low: value, ..self },
            TriggerType::Rtt => Triggers { rtt: value, ..self },
            TriggerType::Offline => Triggers { offline: value, ..self },
        }
    }

    /// Reads the threshold of the given kind.
    pub fn get(&self, kind: TriggerType) -> (r: Option<u32>)
        ensures
            r == self.spec_get(kind),
    {
        match kind {
            TriggerType::Low => self.low,
            TriggerType::Rtt => self.rtt,
            TriggerType::Offline => self.offline,
        }
    }

    /// Replaces the threshold of the given kind and leaves the others alone.
    pub fn set(&mut self, kind: TriggerType, value: Option<u32>)
        ensures
            *final(self) == old(self).spec_with(kind, value),
    {
        match kind {
            TriggerType::Low => {
                self.low = value;
            },
            TriggerType::Rtt => {
                self.rtt = value;
            },
            TriggerType::Offline => {
                self.offline = value;
            },
        }
    }
}

/// How a tick's stream health is classed.
#[derive(Debug, Clone, Copy, PartialEq, Eq, Structural)]
pub enum SwitchType {
    /// The feed is healthy.
    Normal,
    /// The bitrate is at or below the low threshold.
    Low,
    /// The round-trip time is at or above its threshold; shown as low.
    Rtt,
    /// There is no usable feed.
    Offline,
}

/// The three kinds of scene that the switcher moves between, ordered from
/// best to worst.
#[derive(Debug, Clone, Copy, PartialEq, Eq, Structural)]
pub enum Level {
    Normal,
    Low,
    Offline,
}

impl Level {
    /// 0 for normal, 1 for low, 2 for offline: a larger rank is worse.
    pub open spec fn rank(self) -> int {
        match self {
            Level::Normal => 0,
            Level::Low => 1,
            Level::Offline => 2,
        }
    }

    /// The rank as a number.
    pub fn rank_of(self) -> (r: u8)
        ensures
            r == self.rank(),
    {
        match self {
            Level::Normal => 0,
            Level::Low => 1,
            Level::Offline => 2,
        }
    }
}

/// The way in which a change leaves the scene that is shown.
#[derive(Debug, Clone, Copy, PartialEq, Eq, Structural)]
pub enum Direction {
    /// To a scene of a worse kind.
    Worse,
    /// To a scene of a better kind.
    Better,
    /// To another scene of the same kind.
    Aside,
}

impl Level {
    /// The way from a scene of this kind to one of the kind `seen`.
    pub open spec fn toward(self, seen: Level) -> Direction {
        if seen.rank() > self.rank() {
            Direction::Worse
        } else if seen.rank() < self.rank() {
            Direction::Better
        } else {
            Direction::Aside
        }
    }

    /// The way from a scene of this kind to one of the kind `seen`.
    pub fn direction_to(self, seen: Level) -> (r: Direction)
        ensures
            r == self.toward(seen),
    {
        if seen.rank_of() > self.rank_of() {
            Direction::Worse
        } else if seen.rank_of() < self.rank_of() {
            Direction::Better
        } else {
            Direction::Aside
        }
    }
}

impl SwitchType {
    /// The kind of scene that shows this class.
    pub open spec fn level(self) -> Level {
        match self {
            SwitchType::Normal => Level::Normal,
            SwitchType::Low => Level::Low,
            SwitchType::Rtt => Level::Low,
            SwitchType::Offline => Level::Offline,
        }
    }

    /// The kind of scene that shows this class.
    pub fn scene_level(self) -> (r: Level)
        ensures
            r == self.level(),
    {
        match self {
            SwitchType::Normal => Level::Normal,
            SwitchType::Low => Level::Low,
            SwitchType::Rtt => Level::Low,
            SwitchType::Offline => Level::Offline,
        }
    }

    /// The reason recorded when a switch for this class succeeds.
    pub open spec fn reason(self) -> SwitchReason {
        match self {
            SwitchType::Normal => SwitchReason::Normal,
            SwitchType::Low => SwitchReason::Low,
            SwitchType::Rtt => SwitchReason::Rtt,
            SwitchType::Offline => SwitchReason::Offline,
        }
    }

    /// The reason recorded when a switch for this class succeeds.
    pub fn as_reason(self) -> (r: SwitchReason)
        ensures
            r == self.reason(),
    {
        match self {
            SwitchType::Normal => SwitchReason::Normal,
            SwitchType::Low => SwitchReason::Low,
            SwitchType::Rtt => SwitchReason::Rtt,
            SwitchType::Offline => SwitchReason::Offline,
        }
    }
}

/// Why the scene was last changed.
#[derive(Debug, Clone, Copy, PartialEq, Eq, Structural)]
pub enum SwitchReason {
    Low,
    Offline,
    Normal,
    Rtt,
    /// Someone changed the scene by hand.
    Manual,
}

/// The scene shown for each kind of stream health.
#[derive(Debug, PartialEq, Eq)]
pub struct SwitchingScenes {
    pub normal: String,
    pub low: String,
    pub offline: String,
}

/// The scene names as plain text.
pub struct ScenesView {
    pub normal: Seq<char>,
    pub low: Seq<char>,
    pub offline: Seq<char>,
}

impl ScenesView {
    /// The scene for one kind of stream health.
    pub open spec fn scene(self, level: Level) -> Seq<char> {
        match level {
            Level::Normal => self.normal,
            Level::Low => self.low,
            Level::Offline => self.offline,
        }
    }
}

impl View for SwitchingScenes {
    type V = ScenesView;

    open spec fn view(&self) -> ScenesView {
        ScenesView { normal: self.normal@, low: self.low@, offline: self.offline@ }
    }
}

impl DeepView for SwitchingScenes {
    type V = ScenesView;

    open spec fn deep_view(&self) -> ScenesView {
        self.view()
    }
}

impl Clone for SwitchingScenes {
    fn clone(&self) -> (r: Self)
        ensures
            r == *self,
    {
        SwitchingScenes {
            normal: self.normal.clone(),
            low: self.low.clone(),
            offline: self.offline.clone(),
        }
    }
}

impl SwitchingScenes {
    /// The scene for one kind of stream health.
    pub fn scene(&self, level: Level) -> (r: &String)
        ensures
            r@ == self@.scene(level),
    {
        match level {
            Level::Normal => &self.normal,
            Level::Low => &self.low,
            Level::Offline => &self.offline,
        }
    }
}

} // verus!
