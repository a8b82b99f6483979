//! What holds of the switcher over any run of its loop.

use vstd::prelude::*;
use crate::config::SwitcherView;
use crate::state::SwitcherStateView;
use crate::stream_servers::priority_rank;
use crate::switcher::engine::class_of_tick;
use crate::switcher::engine::counted;
use crate::switcher::engine::contribution;
use crate::switcher::engine::decisive;
use crate::switcher::engine::readiness_of;
use crate::switcher::engine::is_decisive;
use crate::switcher::engine::level_of_scene;
use crate::switcher::engine::overrides_with;
use crate::switcher::engine::shows;
use crate::switcher::engine::stands_for;
use crate::switcher::engine::switched_spec;
use crate::switcher::engine::target_scene;
use crate::switcher::engine::tick_spec;
use crate::switcher::engine::verdict_of;
use crate::switcher::engine::weigh;
use crate::switcher::engine::Weight;
use crate::switcher::engine::ActionView;
use crate::switcher::engine::Readiness;
use crate::switcher::engine::Tick;
use crate::switcher::health::StreamHealth;
use crate::switcher::timers::lookup;
use crate::switcher::timers::online;
use crate::switcher::timers::online_as;
use crate::switcher::timers::reports_as;
use crate::switcher::timers::reported;
use crate::switcher::timers::timers_after;
use crate::switcher::timers::Track;
use crate::switcher::Direction;
use crate::switcher::Level;
use crate::switcher::SwitchType;

verus! {

/// One turn of the switcher's loop: the rules in force, what the tick
/// brings, and whether the broadcasting software takes a scene that is
/// asked for.
pub struct Turn {
    pub policy: SwitcherView,
    pub tick: Tick,
    pub accepted: bool,
}

/// The switcher's memory and request after one turn: the tick, and then the
/// scene change if one was asked for and taken.
pub open spec fn turn_spec(state: SwitcherStateView, turn: Turn) -> (
    SwitcherStateView,
    ActionView,
) {
    let (after, action) = tick_spec(turn.policy, state, turn.tick);
    match action {
        ActionView::SetScene { scene, switch_type } => if turn.accepted {
            (switched_spec(after, scene, switch_type), action)
        } else {
            (after, action)
        },
        _ => (after, action),
    }
}

/// The switcher's memory after a run of turns.
pub open spec fn run(start: SwitcherStateView, turns: Seq<Turn>) -> SwitcherStateView
    decreases turns.len(),
{
    if turns.len() == 0 {
        start
    } else {
        turn_spec(run(start, turns.drop_last()), turns.last()).0
    }
}

/// What the switcher asks for in turn `i` of a run.
pub open spec fn action_at(start: SwitcherStateView, turns: Seq<Turn>, i: int) -> ActionView {
    turn_spec(run(start, turns.subrange(0, i)), turns[i]).1
}

/// In no turn of any run does the switcher ask for the scene that is
/// shown.
pub proof fn law_never_sets_the_shown_scene(start: SwitcherStateView, turns: Seq<Turn>, i: int)
    requires
        0 <= i < turns.len(),
    ensures
        action_at(start, turns, i) matches ActionView::SetScene { scene, .. } ==> scene
            != turns[i].tick.current_scene,
{
}

/// In a turn in which the switcher is switched off it asks for no scene
/// and keeps its memory as it is.
pub proof fn law_switched_off_sets_no_scene(start: SwitcherStateView, turns: Seq<Turn>, i: int)
    requires
        0 <= i < turns.len(),
        !turns[i].policy.bitrate_switcher_enabled,
    ensures
        action_at(start, turns, i) == ActionView::Wait(Readiness::Disabled),
        run(start, turns.subrange(0, i + 1)) == run(start, turns.subrange(0, i)),
{
    assert(turns.subrange(0, i + 1).drop_last() =~= turns.subrange(0, i));
}

/// In a turn in which scenes change only while streaming, and nothing is
/// streaming, the switcher asks for no scene.
pub proof fn law_not_streaming_sets_no_scene(start: SwitcherStateView, turns: Seq<Turn>, i: int)
    requires
        0 <= i < turns.len(),
        turns[i].policy.only_switch_when_streaming,
        !turns[i].tick.is_streaming,
    ensures
        action_at(start, turns, i) is Wait,
        !(action_at(start, turns, i) is SetScene),
{
}

/// In a turn in which the broadcasting software is not connected the
/// switcher asks for no scene.
pub proof fn law_disconnected_sets_no_scene(start: SwitcherStateView, turns: Seq<Turn>, i: int)
    requires
        0 <= i < turns.len(),
        !turns[i].tick.is_connected,
    ensures
        action_at(start, turns, i) is Wait,
{
}

/// In one tick the count rises by one at most, and it rises only where the
/// tick calls for another scene than the one shown.
pub proof fn law_count_rises_by_one(policy: SwitcherView, state: SwitcherStateView, tick: Tick)
    ensures
        tick_spec(policy, state, tick).0.low_retry_count <= state.low_retry_count + 1,
        tick_spec(policy, state, tick).0.low_retry_count > state.low_retry_count ==> {
            &&& readiness_of(policy, tick.is_streaming, tick.is_connected) == Readiness::Ready
            &&& level_of_scene(policy, tick.current_scene) is Some
            &&& verdict_of(
                policy,
                timers_after(policy, state.depends_on_timer, tick.samples, tick.now),
                tick.samples,
                tick.now,
            ) matches Some((class, server))
            &&& target_scene(policy, class, server) != tick.current_scene
        },
{
}

/// A change to a worse scene is asked for only when the samples counted
/// for a worse scene have reached the configured number.
pub proof fn law_worse_scene_needs_the_count(
    policy: SwitcherView,
    state: SwitcherStateView,
    tick: Tick,
)
    requires
        tick_spec(policy, state, tick).1 matches ActionView::SetScene { switch_type, .. }
            && level_of_scene(policy, tick.current_scene) matches Some(shown)
            && switch_type.level().rank() > shown.rank(),
    ensures
        counted(state.low_retry_count, state.retry_direction, Direction::Worse)
            >= policy.retry_attempts,
{
}

/// The class of a turn's reports, once they are taken into the timers.
pub open spec fn seen_class(state: SwitcherStateView, turn: Turn) -> Option<SwitchType> {
    class_of_tick(
        turn.policy,
        timers_after(turn.policy, state.depends_on_timer, turn.tick.samples, turn.tick.now),
        turn.tick.samples,
        turn.tick.now,
    )
}

/// Whether the switcher may act in a turn.
pub open spec fn ready(turn: Turn) -> bool {
    readiness_of(turn.policy, turn.tick.is_streaming, turn.tick.is_connected) == Readiness::Ready
}

/// Whether a turn brings nothing to weigh: the switcher may not act or no
/// server has a report that counts.
pub open spec fn silent(state: SwitcherStateView, turn: Turn) -> bool {
    !ready(turn) || seen_class(state, turn) is None
}

/// Whether a turn's reports are of a kind that leaves the shown scene the
/// given way: a worse kind, a better kind, or the same kind.
pub open spec fn presses(state: SwitcherStateView, turn: Turn, toward: Direction) -> bool {
    &&& !silent(state, turn)
    &&& level_of_scene(turn.policy, turn.tick.current_scene) matches Some(shown)
    &&& shown.toward(seen_class(state, turn)->0.level()) == toward
}

/// Whether a turn's reports call for a worse scene than the one shown.
pub open spec fn degrading(state: SwitcherStateView, turn: Turn) -> bool {
    presses(state, turn, Direction::Worse)
}

/// Whether a turn's reports call for a better scene than the one shown.
pub open spec fn recovering(state: SwitcherStateView, turn: Turn) -> bool {
    presses(state, turn, Direction::Better)
}

/// How many of the latest samples of a run, one after the other, pressed
/// the given way. Turns that brought nothing to weigh are passed over; any
/// other sample ends the streak.
pub open spec fn streak(start: SwitcherStateView, turns: Seq<Turn>, toward: Direction) -> nat
    decreases turns.len(),
{
    if turns.len() == 0 {
        0
    } else {
        let before = run(start, turns.drop_last());
        if silent(before, turns.last()) {
            streak(start, turns.drop_last(), toward)
        } else if presses(before, turns.last(), toward) {
            1 + streak(start, turns.drop_last(), toward)
        } else {
            0
        }
    }
}

/// The count never runs ahead of the samples: after any run that began
/// with a count of zero, what is counted for a change one way is at most
/// the streak of samples that pressed that way.
pub proof fn law_count_within_streak(
    start: SwitcherStateView,
    turns: Seq<Turn>,
    toward: Direction,
)
    requires
        start.low_retry_count == 0,
    ensures
        counted(run(start, turns).low_retry_count, run(start, turns).retry_direction, toward)
            <= streak(start, turns, toward),
    decreases turns.len(),
{
    if turns.len() > 0 {
        law_count_within_streak(start, turns.drop_last(), toward);
    }
}

/// A change that has to wait for its count is asked for only after as many
/// samples in a row as are configured have each pressed the way of that
/// change. Every change waits but one for the better where recovery is
/// instant.
pub proof fn law_change_needs_its_streak(
    start: SwitcherStateView,
    turns: Seq<Turn>,
    next: Turn,
    toward: Direction,
)
    requires
        start.low_retry_count == 0,
        turn_spec(run(start, turns), next).1 is SetScene,
        presses(run(start, turns), next, toward),
        toward == Direction::Better ==> !next.policy.instantly_switch_on_recover,
    ensures
        streak(start, turns, toward) >= next.policy.retry_attempts,
{
    law_count_within_streak(start, turns, toward);
}

/// A change to a worse scene is asked for only after as many samples in a
/// row as are configured have each called for a worse scene than the one
/// shown. One sample of another kind among them forbids the change.
pub proof fn law_degradation_is_monotone(start: SwitcherStateView, turns: Seq<Turn>, next: Turn)
    requires
        start.low_retry_count == 0,
        turn_spec(run(start, turns), next).1 is SetScene,
        degrading(run(start, turns), next),
    ensures
        streak(start, turns, Direction::Worse) >= next.policy.retry_attempts,
{
    law_change_needs_its_streak(start, turns, next, Direction::Worse);
}

/// Where recovery is not instant, a change to a better scene is asked for
/// only after as many samples in a row as are configured have each called
/// for a better scene than the one shown.
pub proof fn law_recovery_waits_for_its_streak(
    start: SwitcherStateView,
    turns: Seq<Turn>,
    next: Turn,
)
    requires
        start.low_retry_count == 0,
        !next.policy.instantly_switch_on_recover,
        turn_spec(run(start, turns), next).1 is SetScene,
        recovering(run(start, turns), next),
    ensures
        streak(start, turns, Direction::Better) >= next.policy.retry_attempts,
{
    law_change_needs_its_streak(start, turns, next, Direction::Better);
}

/// A sample that presses another way than the samples counted so far
/// starts the count again: after it, one sample is counted.
pub proof fn law_other_way_starts_again(
    policy: SwitcherView,
    count: u8,
    pressing: Option<Direction>,
    toward: Direction,
)
    requires
        pressing != Some(toward),
        policy.retry_attempts > 0,
        toward == Direction::Better ==> !policy.instantly_switch_on_recover,
    ensures
        weigh(policy, count, pressing, toward) == (Weight {
            count: 1,
            direction: Some(toward),
            change: false,
        }),
{
}

/// The first sample that presses another way than the samples counted so
/// far changes no scene, however high the count stands. Only a change for
/// the better where recovery is instant, and a switcher that waits for no
/// sample at all, are not held to this.
pub proof fn law_first_sample_of_a_way_holds(
    policy: SwitcherView,
    state: SwitcherStateView,
    tick: Tick,
)
    requires
        policy.retry_attempts > 0,
        verdict_of(
            policy,
            timers_after(policy, state.depends_on_timer, tick.samples, tick.now),
            tick.samples,
            tick.now,
        ) matches Some((class, server)) && level_of_scene(policy, tick.current_scene) matches Some(
            shown,
        ) && state.retry_direction != Some(shown.toward(class.level())) && !(shown.toward(
            class.level(),
        ) == Direction::Better && policy.instantly_switch_on_recover),
    ensures
        !(tick_spec(policy, state, tick).1 is SetScene),
        readiness_of(policy, tick.is_streaming, tick.is_connected) == Readiness::Ready
            ==> tick_spec(policy, state, tick).0.low_retry_count <= 1,
{
}

/// A change that is due is asked for: where the tick calls for a scene that
/// exists and is not shown, and the samples counted for that way have
/// reached the configured number, the switcher asks for that scene. So the
/// scene of the server that decides is shown in the end, also where it is
/// of the same kind as the scene shown.
pub proof fn law_due_change_is_asked_for(policy: SwitcherView, state: SwitcherStateView, tick: Tick)
    requires
        readiness_of(policy, tick.is_streaming, tick.is_connected) == Readiness::Ready,
        verdict_of(
            policy,
            timers_after(policy, state.depends_on_timer, tick.samples, tick.now),
            tick.samples,
            tick.now,
        ) matches Some((class, server)) && level_of_scene(policy, tick.current_scene) matches Some(
            shown,
        ) && target_scene(policy, class, server) != tick.current_scene && tick.scenes.contains(
            target_scene(policy, class, server),
        ) && counted(state.low_retry_count, state.retry_direction, shown.toward(class.level()))
            >= policy.retry_attempts,
    ensures
        tick_spec(policy, state, tick).1 == ({
            let verdict = verdict_of(
                policy,
                timers_after(policy, state.depends_on_timer, tick.samples, tick.now),
                tick.samples,
                tick.now,
            )->0;
            ActionView::SetScene {
                scene: target_scene(policy, verdict.0, verdict.1),
                switch_type: verdict.0,
            }
        }),
{
}

/// Where recovery is instant, the first healthy sample while a low or
/// offline scene is shown asks for the normal scene at once, whatever the
/// count. The switcher must be free to act and the normal scene must exist.
pub proof fn law_recovery_is_instant(policy: SwitcherView, state: SwitcherStateView, tick: Tick)
    requires
        policy.instantly_switch_on_recover,
        readiness_of(policy, tick.is_streaming, tick.is_connected) == Readiness::Ready,
        verdict_of(
            policy,
            timers_after(policy, state.depends_on_timer, tick.samples, tick.now),
            tick.samples,
            tick.now,
        ) matches Some((class, server)) && class == SwitchType::Normal && tick.scenes.contains(
            target_scene(policy, class, server),
        ),
        level_of_scene(policy, tick.current_scene) matches Some(shown) && shown != Level::Normal,
    ensures
        tick_spec(policy, state, tick).1 matches ActionView::SetScene { scene, switch_type }
            && switch_type == SwitchType::Normal && scene == target_scene(
            policy,
            SwitchType::Normal,
            decisive(
                policy,
                timers_after(policy, state.depends_on_timer, tick.samples, tick.now),
                tick.samples,
                tick.now,
                SwitchType::Normal,
            ),
        ),
{
    let timers = timers_after(policy, state.depends_on_timer, tick.samples, tick.now);
    let server = decisive(policy, timers, tick.samples, tick.now, SwitchType::Normal);
    let target = target_scene(policy, SwitchType::Normal, server);
    if target == tick.current_scene {
        law_target_has_its_kind(policy, SwitchType::Normal, server);
    }
}

/// The scene for a class is a scene of that class's kind, whichever server
/// decides.
pub proof fn law_target_has_its_kind(policy: SwitcherView, class: SwitchType, server: Option<int>)
    ensures
        shows(policy, class.level(), target_scene(policy, class, server)),
{
    match server {
        Some(i) => {
            if 0 <= i < policy.stream_servers.len()
                && policy.stream_servers[i].override_scenes is Some {
                assert(overrides_with(
                    policy,
                    class.level(),
                    target_scene(policy, class, server),
                    i,
                ));
            }
        },
        None => {},
    }
}

/// Whether the servers stand in ascending order of priority.
pub open spec fn in_order(policy: SwitcherView) -> bool {
    forall|i: int, j: int|
        0 <= i < j < policy.stream_servers.len() ==> priority_rank(
            policy.stream_servers[i].priority,
        ) <= priority_rank(policy.stream_servers[j].priority)
}

/// The normal scene where server `i` decides: its own where it overrides
/// the scenes, else the configured one.
pub open spec fn normal_scene_of(policy: SwitcherView, i: int) -> Seq<char> {
    match policy.stream_servers[i].override_scenes {
        Some(scenes) => scenes.normal,
        None => policy.switching_scenes.normal,
    }
}

/// Among the servers that are healthy in a tick and not held back, the one
/// of lowest priority decides the scenes: the tick is normal, and its scene
/// is that server's normal scene where the server overrides it, else the
/// configured one. Of several such servers of the lowest priority the one
/// that stands first decides.
pub proof fn law_priority_is_respected(
    policy: SwitcherView,
    timers: Map<Seq<char>, Track>,
    samples: Seq<StreamHealth>,
    now: u64,
    healthy: int,
)
    requires
        in_order(policy),
        contribution(policy, timers, samples, now, healthy) == Some(SwitchType::Normal),
    ensures
        verdict_of(policy, timers, samples, now) matches Some((class, Some(first))) && {
            &&& class == SwitchType::Normal
            &&& 0 <= first <= healthy
            &&& contribution(policy, timers, samples, now, first) == Some(SwitchType::Normal)
            &&& priority_rank(policy.stream_servers[first].priority) <= priority_rank(
                policy.stream_servers[healthy].priority,
            )
            &&& forall|j: int|
                0 <= j < first ==> contribution(policy, timers, samples, now, j) != Some(
                    SwitchType::Normal,
                )
            &&& target_scene(policy, class, Some(first)) == normal_scene_of(policy, first)
        },
{
    lemma_first_standing(policy, timers, samples, now, SwitchType::Normal, healthy);
    let first = choose|i: int| is_decisive(policy, timers, samples, now, SwitchType::Normal, i);
    assert(first <= healthy) by {
        if healthy < first {
            assert(stands_for(policy, timers, samples, now, SwitchType::Normal, healthy));
        }
    }
    assert forall|j: int| 0 <= j < first implies contribution(policy, timers, samples, now, j)
        != Some(SwitchType::Normal) by {
        if contribution(policy, timers, samples, now, j) == Some(SwitchType::Normal) {
            assert(stands_for(policy, timers, samples, now, SwitchType::Normal, j));
        }
    }
}

/// Where a server is online and adds a class, some server is the first to
/// do so.
pub proof fn lemma_first_standing(
    policy: SwitcherView,
    timers: Map<Seq<char>, Track>,
    samples: Seq<StreamHealth>,
    now: u64,
    class: SwitchType,
    i: int,
)
    requires
        stands_for(policy, timers, samples, now, class, i),
    ensures
        exists|k: int| is_decisive(policy, timers, samples, now, class, k),
    decreases i,
{
    if exists|j: int| 0 <= j < i && stands_for(policy, timers, samples, now, class, j) {
        let j = choose|j: int| 0 <= j < i && stands_for(policy, timers, samples, now, class, j);
        lemma_first_standing(policy, timers, samples, now, class, j);
    } else {
        assert(is_decisive(policy, timers, samples, now, class, i));
    }
}

/// A server that depends on another never makes a tick normal within the
/// agreed number of seconds after the other came online.
pub proof fn law_dependency_holds_back(
    policy: SwitcherView,
    timers: Map<Seq<char>, Track>,
    samples: Seq<StreamHealth>,
    now: u64,
    i: int,
)
    requires
        0 <= i < policy.stream_servers.len(),
        policy.stream_servers[i].depends_on matches Some(d) && lookup(timers, d.name) matches Some(
            track,
        ) && track.since matches Some(since) && now < since + d.back_to_normal_seconds,
    ensures
        contribution(policy, timers, samples, now, i) != Some(SwitchType::Normal),
        !is_decisive(policy, timers, samples, now, SwitchType::Normal, i),
{
}

/// Whether time does not run backwards from turn to turn.
pub open spec fn clock_is_monotone(turns: Seq<Turn>) -> bool {
    forall|i: int, j: int| 0 <= i <= j < turns.len() ==> turns[i].tick.now <= turns[j].tick.now
}

/// Whether a server of the given name comes online in a turn: the switcher
/// may act, the server is online, and it was not online when last sampled.
pub open spec fn comes_online(state: SwitcherStateView, turn: Turn, name: Seq<char>) -> bool {
    &&& ready(turn)
    &&& online(turn.policy, turn.tick.samples, name)
    &&& !(lookup(state.depends_on_timer, name) matches Some(track) && track.online)
}

/// Whether a server is remembered to have come online at the given time or
/// later.
pub open spec fn came_online_since(state: SwitcherStateView, name: Seq<char>, time: u64) -> bool {
    lookup(state.depends_on_timer, name) matches Some(track) && track.since matches Some(since)
        && since >= time
}

/// The time at which a server is remembered to have come online is never
/// earlier than a turn in which it came online, however the run goes on
/// from there.
pub proof fn lemma_since_is_kept(
    start: SwitcherStateView,
    turns: Seq<Turn>,
    name: Seq<char>,
    at: int,
)
    requires
        clock_is_monotone(turns),
        0 <= at < turns.len(),
        comes_online(run(start, turns.subrange(0, at)), turns[at], name),
    ensures
        came_online_since(run(start, turns), name, turns[at].tick.now),
    decreases turns.len(),
{
    let before = turns.drop_last();
    if at == turns.len() - 1 {
        let t = turns.last();
        assert(turns.subrange(0, at) =~= before);
        assert(reported(t.policy, t.tick.samples, name)) by {
            let i = choose|i: int| online_as(t.policy, t.tick.samples, name, i);
            assert(reports_as(t.policy, t.tick.samples, name, i));
        }
    } else {
        assert(before.subrange(0, at) =~= turns.subrange(0, at));
        lemma_since_is_kept(start, before, name, at);
    }
}

/// From the turn in which a server comes online, no server that depends
/// on it makes a tick normal until the agreed number of seconds have
/// passed, whatever happens in between.
pub proof fn law_dependency_suppression(
    start: SwitcherStateView,
    turns: Seq<Turn>,
    name: Seq<char>,
    at: int,
    i: int,
)
    requires
        clock_is_monotone(turns),
        0 <= at < turns.len(),
        comes_online(run(start, turns.subrange(0, at)), turns[at], name),
        0 <= i < turns.last().policy.stream_servers.len(),
        turns.last().policy.stream_servers[i].depends_on matches Some(d) && d.name == name
            && turns.last().tick.now < turns[at].tick.now + d.back_to_normal_seconds,
    ensures
        ({
            let t = turns.last();
            let state = run(start, turns.drop_last());
            let timers = timers_after(t.policy, state.depends_on_timer, t.tick.samples, t.tick.now);
            contribution(t.policy, timers, t.tick.samples, t.tick.now, i) != Some(
                SwitchType::Normal,
            )
        }),
{
    let before = turns.drop_last();
    if at < turns.len() - 1 {
        assert(before.subrange(0, at) =~= turns.subrange(0, at));
        lemma_since_is_kept(start, before, name, at);
    } else {
        let t = turns.last();
        assert(reported(t.policy, t.tick.samples, name)) by {
            let k = choose|k: int| online_as(t.policy, t.tick.samples, name, k);
            assert(reports_as(t.policy, t.tick.samples, name, k));
        }
    }
}

} // verus!
