//! Remembers, for each server by name, whether it was online when last
//! sampled and when it last came online.

use vstd::prelude::*;
use crate::config::Switcher;
use crate::config::SwitcherView;
use crate::switcher::health::StreamHealth;
use crate::text::same_text;

verus! {

/// What is remembered about one server.
#[derive(Debug, Clone, Copy, PartialEq, Eq, Structural)]
pub struct Track {
    /// Whether the server was online when it was last sampled.
    pub online: bool,
    /// The time, in seconds, at which the server last came online.
    pub since: Option<u64>,
}

/// The report that a tick has from server `i`: none where the server does
/// not exist, is not enabled, was not probed or brought no sample.
pub open spec fn sampled(policy: SwitcherView, samples: Seq<StreamHealth>, i: int) -> Option<
    StreamHealth,
> {
    if 0 <= i < policy.stream_servers.len() && i < samples.len() && policy.stream_servers[i].enabled
        && !(samples[i] is Error) {
        Some(samples[i])
    } else {
        None
    }
}

/// Whether server `i` has the given name and a report in this tick.
pub open spec fn reports_as(
    policy: SwitcherView,
    samples: Seq<StreamHealth>,
    name: Seq<char>,
    i: int,
) -> bool {
    sampled(policy, samples, i) is Some && policy.stream_servers[i].name == name
}

/// Whether server `i` has the given name and is online in this tick.
pub open spec fn online_as(
    policy: SwitcherView,
    samples: Seq<StreamHealth>,
    name: Seq<char>,
    i: int,
) -> bool {
    reports_as(policy, samples, name, i) && samples[i] is Online
}

/// Whether one of the first `upto` servers has the given name and a report
/// in this tick.
pub open spec fn reported_before(
    policy: SwitcherView,
    samples: Seq<StreamHealth>,
    name: Seq<char>,
    upto: int,
) -> bool {
    exists|i: int| 0 <= i < upto && reports_as(policy, samples, name, i)
}

/// Whether a server of the given name has a report in this tick.
pub open spec fn reported(
    policy: SwitcherView,
    samples: Seq<StreamHealth>,
    name: Seq<char>,
) -> bool {
    exists|i: int| reports_as(policy, samples, name, i)
}

/// Whether a server of the given name is online in this tick.
pub open spec fn online(policy: SwitcherView, samples: Seq<StreamHealth>, name: Seq<char>) -> bool {
    exists|i: int| online_as(policy, samples, name, i)
}

/// What is remembered about a server after a tick in which it reported:
/// it came online now if it is online and was not before; otherwise the
/// time at which it last came online stays.
pub open spec fn track_after(before: Option<Track>, online: bool, now: u64) -> Track {
    let was = before matches Some(t) && t.online;
    Track {
        online,
        since: if online && !was {
            Some(now)
        } else {
            match before {
                Some(t) => t.since,
                None => None,
            }
        },
    }
}

/// What a map holds under a key, if anything.
pub open spec fn lookup(timers: Map<Seq<char>, Track>, name: Seq<char>) -> Option<Track> {
    if timers.contains_key(name) {
        Some(timers[name])
    } else {
        None
    }
}

/// The timers after the reports of the first `upto` servers have been taken
/// in.
pub open spec fn timers_upto(
    policy: SwitcherView,
    timers: Map<Seq<char>, Track>,
    samples: Seq<StreamHealth>,
    now: u64,
    upto: int,
) -> Map<Seq<char>, Track> {
    Map::new(
        |name: Seq<char>| timers.contains_key(name) || reported_before(policy, samples, name, upto),
        |name: Seq<char>|
            if reported_before(policy, samples, name, upto) {
                track_after(lookup(timers, name), online(policy, samples, name), now)
            } else {
                timers[name]
            },
    )
}

/// The timers after a tick: every name that reported is remembered as
/// online or not, and as having come online now if it was not online
/// before. Names that did not report keep what was remembered.
pub open spec fn timers_after(
    policy: SwitcherView,
    timers: Map<Seq<char>, Track>,
    samples: Seq<StreamHealth>,
    now: u64,
) -> Map<Seq<char>, Track> {
    Map::new(
        |name: Seq<char>| timers.contains_key(name) || reported(policy, samples, name),
        |name: Seq<char>|
            if reported(policy, samples, name) {
                track_after(lookup(timers, name), online(policy, samples, name), now)
            } else {
                timers[name]
            },
    )
}

/// Whether no name stands twice.
pub open spec fn distinct_names(tracks: Seq<(String, Track)>) -> bool {
    forall|i: int, j: int| 0 <= i < j < tracks.len() ==> tracks[i].0@ != tracks[j].0@
}

/// The timers of the servers that others depend on, by server name.
#[derive(Debug, PartialEq, Eq)]
pub struct DependencyTimers {
    tracks: Vec<(String, Track)>,
}

impl View for DependencyTimers {
    type V = Map<Seq<char>, Track>;

    closed spec fn view(&self) -> Map<Seq<char>, Track> {
        let tracks = self.tracks@;
        Map::new(
            |name: Seq<char>| exists|i: int| 0 <= i < tracks.len() && tracks[i].0@ == name,
            |name: Seq<char>|
                tracks[choose|i: int| 0 <= i < tracks.len() && tracks[i].0@ == name].1,
        )
    }
}

impl DependencyTimers {
    #[verifier::type_invariant]
    spec fn well_formed(&self) -> bool {
        distinct_names(self.tracks@)
    }

    /// No server is remembered.
    pub fn new() -> (r: DependencyTimers)
        ensures
            r@ == Map::<Seq<char>, Track>::empty(),
    {
        let r = DependencyTimers { tracks: Vec::new() };
        r
    }

    fn place(&self, name: &str) -> (r: Option<usize>)
        ensures
            match r {
                Some(i) => i < self.tracks@.len() && self.tracks@[i as int].0@ == name@,
                None => forall|j: int| 0 <= j < self.tracks@.len() ==> self.tracks@[j].0@ != name@,
            },
    {
        let mut i: usize = 0;
        while i < self.tracks.len()
            invariant
                0 <= i <= self.tracks.len(),
                forall|j: int| 0 <= j < i ==> self.tracks@[j].0@ != name@,
            decreases self.tracks.len() - i,
        {
            if same_text(self.tracks[i].0.as_str(), name) {
                return Some(i);
            }
            i += 1;
        }
        None
    }

    /// What is remembered about the server of the given name.
    pub fn get(&self, name: &str) -> (r: Option<Track>)
        ensures
            r == lookup(self@, name@),
    {
        proof {
            use_type_invariant(self);
        }
        match self.place(name) {
            Some(i) => Some(self.tracks[i].1),
            None => None,
        }
    }

    /// Remembers the given track for the server of the given name.
    pub fn put(&mut self, name: &str, track: Track)
        ensures
            final(self)@ == old(self)@.insert(name@, track),
    {
        proof {
            use_type_invariant(&*self);
        }
        let ghost before = self@;
        let ghost old_tracks = self.tracks@;
        let at = self.place(name);
        let mut tracks: Vec<(String, Track)> = Vec::new();
        std::mem::swap(&mut self.tracks, &mut tracks);
        match at {
            Some(i) => {
                let (key, _) = tracks.remove(i);
                tracks.insert(i, (key, track));
            },
            None => {
                tracks.push((name.to_owned(), track));
            },
        }
        std::mem::swap(&mut self.tracks, &mut tracks);
        proof {
            let now_tracks = self.tracks@;
            assert forall|n: Seq<char>| self@.contains_key(n) == before.insert(
                name@,
                track,
            ).contains_key(n) by {
                if before.insert(name@, track).contains_key(n) {
                    if n == name@ {
                        let k = if at is Some {
                            at->0 as int
                        } else {
                            old_tracks.len() as int
                        };
                        assert(now_tracks[k].0@ == n);
                    } else {
                        let k = choose|k: int| 0 <= k < old_tracks.len() && old_tracks[k].0@ == n;
                        assert(now_tracks[k].0@ == n);
                    }
                } else {
                    if self@.contains_key(n) {
                        let k = choose|k: int| 0 <= k < now_tracks.len() && now_tracks[k].0@ == n;
                        if k < old_tracks.len() {
                            assert(old_tracks[k].0@ == n);
                        }
                    }
                }
            }
            assert forall|n: Seq<char>| self@.contains_key(n) implies self@[n] == before.insert(
                name@,
                track,
            )[n] by {
                let k = choose|k: int| 0 <= k < now_tracks.len() && now_tracks[k].0@ == n;
                if n != name@ {
                    let k0 = choose|k: int| 0 <= k < old_tracks.len() && old_tracks[k].0@ == n;
                    assert(k0 == k);
                }
            }
        }
    }

    /// Takes in the reports of one tick.
    pub fn observe(&mut self, cfg: &Switcher, samples: &Vec<StreamHealth>, now: u64)
        ensures
            final(self)@ == timers_after(cfg@, old(self)@, samples@, now),
    {
        let ghost before = self@;
        let ghost policy = cfg@;
        let n = cfg.stream_servers.len();
        let mut i: usize = 0;
        while i < n
            invariant
                0 <= i <= n,
                n == cfg.stream_servers.len(),
                policy == cfg@,
                self@ == timers_upto(policy, before, samples@, now, i as int),
            decreases n - i,
        {
            if has_report(cfg, samples, i) {
                let name = cfg.stream_servers[i].name.as_str();
                let is_online = any_online(cfg, samples, name);
                let track = match self.get(name) {
                    Some(t) => Track {
                        online: is_online,
                        since: if is_online && !t.online {
                            Some(now)
                        } else {
                            t.since
                        },
                    },
                    None => Track {
                        online: is_online,
                        since: if is_online {
                            Some(now)
                        } else {
                            None
                        },
                    },
                };
                assert(track == track_after(lookup(self@, name@), is_online, now));
                self.put(name, track);
                proof {
                    assert(reports_as(policy, samples@, name@, i as int));
                    assert forall|m: Seq<char>| #[trigger]
                        reported_before(policy, samples@, m, i + 1) == (reported_before(
                            policy,
                            samples@,
                            m,
                            i as int,
                        ) || m == name@) by {
                        if reported_before(policy, samples@, m, i + 1) {
                            let j = choose|j: int|
                                0 <= j < i + 1 && reports_as(policy, samples@, m, j);
                            if j < i {
                                assert(reported_before(policy, samples@, m, i as int));
                            }
                        }
                        if reported_before(policy, samples@, m, i as int) {
                            let j = choose|j: int| 0 <= j < i && reports_as(policy, samples@, m, j);
                            assert(0 <= j < i + 1 && reports_as(policy, samples@, m, j));
                        }
                    }
                }
            } else {
                proof {
                    assert forall|m: Seq<char>| #[trigger]
                        reported_before(policy, samples@, m, i + 1) == reported_before(
                            policy,
                            samples@,
                            m,
                            i as int,
                        ) by {
                        if reported_before(policy, samples@, m, i + 1) {
                            let j = choose|j: int|
                                0 <= j < i + 1 && reports_as(policy, samples@, m, j);
                        }
                        if reported_before(policy, samples@, m, i as int) {
                            let j = choose|j: int| 0 <= j < i && reports_as(policy, samples@, m, j);
                            assert(0 <= j < i + 1 && reports_as(policy, samples@, m, j));
                        }
                    }
                }
            }
            i += 1;
        }
        proof {
            assert forall|m: Seq<char>| #[trigger]
                reported_before(policy, samples@, m, n as int) == reported(policy, samples@, m) by {
                if reported(policy, samples@, m) {
                    let j = choose|j: int| reports_as(policy, samples@, m, j);
                    assert(0 <= j < n && reports_as(policy, samples@, m, j));
                }
            }
        }
    }
}

/// Whether server `i` has a report in this tick.
pub fn has_report(cfg: &Switcher, samples: &Vec<StreamHealth>, i: usize) -> (r: bool)
    ensures
        r == sampled(cfg@, samples@, i as int).is_some(),
{
    i < cfg.stream_servers.len() && i < samples.len() && cfg.stream_servers[i].enabled
        && samples[i].has_sample()
}

/// Whether a server of the given name is online in this tick.
pub fn any_online(cfg: &Switcher, samples: &Vec<StreamHealth>, name: &str) -> (r: bool)
    ensures
        r == online(cfg@, samples@, name@),
{
    let n = cfg.stream_servers.len();
    let mut i: usize = 0;
    while i < n
        invariant
            0 <= i <= n,
            n == cfg.stream_servers.len(),
            forall|j: int| 0 <= j < i ==> !online_as(cfg@, samples@, name@, j),
        decreases n - i,
    {
        if has_report(cfg, samples, i) && samples[i].is_online() && same_text(
            cfg.stream_servers[i].name.as_str(),
            name,
        ) {
            assert(online_as(cfg@, samples@, name@, i as int));
            return true;
        }
        i += 1;
    }
    false
}

} // verus!
