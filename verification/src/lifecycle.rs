//! What holds of the engine over whole sequences of events.

use crate::process::{
    cancel_outstanding, child_exists, step, ActionModel, EventModel, StateModel,
};
use vstd::prelude::*;

verus! {

/// The state reached from `s` after the events were handled in order.
pub open spec fn run<V>(s: StateModel<V>, events: Seq<EventModel<V>>) -> StateModel<V>
    decreases events.len(),
{
    if events.len() == 0 {
        s
    } else {
        step(run(s, events.drop_last()), events.last()).0
    }
}

/// The action the last of the events caused.
pub open spec fn last_action<V>(s: StateModel<V>, events: Seq<EventModel<V>>) -> ActionModel<V>
    recommends
        events.len() > 0,
{
    step(run(s, events.drop_last()), events.last()).1
}

/// How many children were spawned while the events were handled.
pub open spec fn spawn_count<V>(s: StateModel<V>, events: Seq<EventModel<V>>) -> nat
    decreases events.len(),
{
    if events.len() == 0 {
        0
    } else {
        spawn_count(s, events.drop_last()) + if last_action(s, events) is Spawn {
            1nat
        } else {
            0nat
        }
    }
}

/// How many cancel signals were delivered while the events were handled.
pub open spec fn cancel_count<V>(s: StateModel<V>, events: Seq<EventModel<V>>) -> nat
    decreases events.len(),
{
    if events.len() == 0 {
        0
    } else {
        cancel_count(s, events.drop_last()) + if last_action(s, events) is Cancel {
            1nat
        } else {
            0nat
        }
    }
}

/// How many child exits are among the events.
pub open spec fn finish_count<V>(events: Seq<EventModel<V>>) -> nat
    decreases events.len(),
{
    if events.len() == 0 {
        0
    } else {
        finish_count(events.drop_last()) + if events.last() is ProcessFinished {
            1nat
        } else {
            0nat
        }
    }
}

/// The configuration of the most recent spawn, if there was one.
pub open spec fn last_spawned<V>(s: StateModel<V>, events: Seq<EventModel<V>>) -> Option<V>
    decreases events.len(),
{
    if events.len() == 0 {
        None
    } else {
        match last_action(s, events) {
            ActionModel::Spawn(c) => Some(c),
            _ => last_spawned(s, events.drop_last()),
        }
    }
}

/// Children alive after the events, for an engine that began with none:
/// spawns minus exits.
pub open spec fn live_children<V>(events: Seq<EventModel<V>>) -> int {
    spawn_count(StateModel::<V>::Stopped, events) - finish_count(events)
}

/// Every exit among the events is the exit of a child that was alive: an
/// exit is reported only by the supervisor of a spawned child, and once.
pub open spec fn exits_are_of_live_children<V>(events: Seq<EventModel<V>>) -> bool {
    forall|k: int|
        0 <= k < events.len() && (#[trigger] events[k]) is ProcessFinished ==> live_children(
            events.take(k),
        ) >= 1
}

/// The configuration a state is bound to, if it has a child.
pub open spec fn child_config<V>(s: StateModel<V>) -> Option<V> {
    match s {
        StateModel::Stopped => None,
        StateModel::Stopping(c, _) => Some(c),
        StateModel::Running(c) => Some(c),
        StateModel::Starting(c) => Some(c),
    }
}

/// `n` requests to start `c`.
pub open spec fn repeated_start<V>(c: V, n: nat) -> Seq<EventModel<V>> {
    Seq::new(n, |i: int| EventModel::StartProcess(c))
}

/// One start request for each of the configurations, in order.
pub open spec fn starts_of<V>(configs: Seq<V>) -> Seq<EventModel<V>> {
    Seq::new(configs.len(), |i: int| EventModel::StartProcess(configs[i]))
}

proof fn lemma_prefix_exits<V>(events: Seq<EventModel<V>>)
    requires
        exits_are_of_live_children(events),
        events.len() > 0,
    ensures
        exits_are_of_live_children(events.drop_last()),
{
    let shorter = events.drop_last();
    assert forall|k: int| 0 <= k < shorter.len() && (#[trigger] shorter[k]) is ProcessFinished
    implies live_children(shorter.take(k)) >= 1 by {
        assert(shorter[k] == events[k]);
        assert(shorter.take(k) =~= events.take(k));
    }
}

/// Starting from no process, the children alive are none while the state is
/// stopped and exactly one otherwise, provided every exit is that of a live
/// child.
pub proof fn lemma_child_count_follows_state<V>(events: Seq<EventModel<V>>)
    requires
        exits_are_of_live_children(events),
    ensures
        live_children(events) == if child_exists(run(StateModel::<V>::Stopped, events)) {
            1int
        } else {
            0int
        },
    decreases events.len(),
{
    if events.len() > 0 {
        let shorter = events.drop_last();
        lemma_prefix_exits(events);
        lemma_child_count_follows_state(shorter);
        if events.last() is ProcessFinished {
            assert(events.take(events.len() - 1) =~= shorter);
            assert(events[events.len() - 1] is ProcessFinished);
            assert(live_children(shorter) >= 1);
        }
    }
}

/// At most one child: after every prefix of the events, the number of spawns
/// minus the number of exits is 0 or 1, for a manager that began stopped and
/// is told of an exit only by a child that was alive.
pub proof fn lemma_at_most_one_child<V>(events: Seq<EventModel<V>>, k: int)
    requires
        exits_are_of_live_children(events),
        0 <= k <= events.len(),
    ensures
        live_children(events.take(k)) == 0 || live_children(events.take(k)) == 1,
        live_children(events.take(k)) == 1 <==> child_exists(
            run(StateModel::<V>::Stopped, events.take(k)),
        ),
{
    let prefix = events.take(k);
    assert forall|j: int| 0 <= j < prefix.len() && (#[trigger] prefix[j]) is ProcessFinished
    implies live_children(prefix.take(j)) >= 1 by {
        assert(prefix[j] == events[j]);
        assert(prefix.take(j) =~= events.take(j));
    }
    lemma_child_count_follows_state(prefix);
}

/// Whenever a child exists, its configuration is the one the most recent
/// spawn used.
pub proof fn lemma_child_config_is_last_spawned<V>(events: Seq<EventModel<V>>)
    ensures
        child_exists(run(StateModel::<V>::Stopped, events)) ==> last_spawned(
            StateModel::<V>::Stopped,
            events,
        ) == child_config(run(StateModel::<V>::Stopped, events)),
    decreases events.len(),
{
    if events.len() > 0 {
        lemma_child_config_is_last_spawned(events.drop_last());
    }
}

/// Equality reflected: whenever the state is running with `c`, the last
/// spawn used `c`.
pub proof fn lemma_running_config_is_last_spawned<V>(events: Seq<EventModel<V>>, c: V)
    requires
        run(StateModel::<V>::Stopped, events) == StateModel::Running(c),
    ensures
        last_spawned(StateModel::<V>::Stopped, events) == Some(c),
{
    lemma_child_config_is_last_spawned(events);
}

/// Idempotency: any number of requests to start `c` while `c` is starting or
/// running leaves the state as it is, spawns nothing and cancels nothing.
pub proof fn lemma_repeated_start_is_idempotent<V>(s: StateModel<V>, c: V, n: nat)
    requires
        s == StateModel::Running(c) || s == StateModel::Starting(c),
    ensures
        run(s, repeated_start(c, n)) == s,
        spawn_count(s, repeated_start(c, n)) == 0,
        cancel_count(s, repeated_start(c, n)) == 0,
    decreases n,
{
    if n > 0 {
        let events = repeated_start(c, n);
        assert(events.drop_last() =~= repeated_start(c, (n - 1) as nat));
        lemma_repeated_start_is_idempotent(s, c, (n - 1) as nat);
        assert(events.last() == EventModel::StartProcess(c));
    }
}

/// The configuration that is pending after start requests for `configs`
/// arrived during a swap toward `pending`.
pub open spec fn coalesced<V>(pending: V, configs: Seq<V>) -> V {
    if configs.len() == 0 {
        pending
    } else {
        configs.last()
    }
}

/// Coalescing: while a swap from `prev` toward `pending` is in flight, start
/// requests only replace the pending configuration, the last one wins,
/// nothing is spawned or cancelled meanwhile, and the exit of the child then
/// causes exactly one spawn, of the last configuration requested.
pub proof fn lemma_pending_coalesces<V>(prev: V, pending: V, configs: Seq<V>, exit_code: Option<i32>)
    ensures
        run(StateModel::Stopping(prev, Some(pending)), starts_of(configs)) == StateModel::Stopping(
            prev,
            Some(coalesced(pending, configs)),
        ),
        spawn_count(StateModel::Stopping(prev, Some(pending)), starts_of(configs)) == 0,
        cancel_count(StateModel::Stopping(prev, Some(pending)), starts_of(configs)) == 0,
        step(
            run(StateModel::Stopping(prev, Some(pending)), starts_of(configs)),
            EventModel::ProcessFinished(exit_code),
        ) == (
            StateModel::Starting(coalesced(pending, configs)),
            ActionModel::Spawn(coalesced(pending, configs)),
        ),
        spawn_count(
            StateModel::Stopping(prev, Some(pending)),
            starts_of(configs).push(EventModel::ProcessFinished(exit_code)),
        ) == 1,
    decreases configs.len(),
{
    reveal_with_fuel(run, 2);
    reveal_with_fuel(spawn_count, 2);
    reveal_with_fuel(cancel_count, 2);
    let s = StateModel::Stopping(prev, Some(pending));
    let events = starts_of(configs);
    if configs.len() > 0 {
        assert(events.drop_last() =~= starts_of(configs.drop_last()));
        lemma_pending_coalesces(prev, pending, configs.drop_last(), exit_code);
        assert(events.last() == EventModel::StartProcess(configs.last()));
    }
    let longer = events.push(EventModel::ProcessFinished(exit_code));
    assert(longer.drop_last() =~= events);
    assert(longer.last() == EventModel::<V>::ProcessFinished(exit_code));
}

/// Stop wins over swap: a stop request during a swap clears the pending
/// configuration without any action, and the exit of the child then leads to
/// stopped, not to a start of what was pending.
pub proof fn lemma_stop_wins_over_swap<V>(prev: V, pending: V, exit_code: Option<i32>)
    ensures
        step(StateModel::Stopping(prev, Some(pending)), EventModel::StopProcess) == (
            StateModel::Stopping(prev, None),
            ActionModel::<V>::Idle,
        ),
        step(StateModel::Stopping(prev, None), EventModel::ProcessFinished(exit_code)) == (
            StateModel::<V>::Stopped,
            ActionModel::<V>::Idle,
        ),
        run(
            StateModel::Stopping(prev, Some(pending)),
            seq![EventModel::StopProcess, EventModel::ProcessFinished(exit_code)],
        ) == StateModel::<V>::Stopped,
        spawn_count(
            StateModel::Stopping(prev, Some(pending)),
            seq![EventModel::StopProcess, EventModel::ProcessFinished(exit_code)],
        ) == 0,
{
    reveal_with_fuel(run, 3);
    reveal_with_fuel(spawn_count, 3);
    let s = StateModel::Stopping(prev, Some(pending));
    let both = seq![EventModel::<V>::StopProcess, EventModel::ProcessFinished(exit_code)];
    let first = seq![EventModel::<V>::StopProcess];
    assert(both.drop_last() =~= first);
    assert(first.drop_last() =~= Seq::<EventModel<V>>::empty());
    assert(run(s, first) == StateModel::Stopping(prev, None::<V>));
    assert(spawn_count(s, first) == 0);
}

/// A cancel signal is outstanding exactly while a child is starting or
/// running; the engine asks to deliver it only when one is outstanding, and
/// asks for a spawn only when no child exists.
pub proof fn lemma_actions_fit_state<V>(s: StateModel<V>, e: EventModel<V>)
    ensures
        step(s, e).1 is Cancel ==> cancel_outstanding(s) && step(s, e).0 is Stopping,
        step(s, e).1 is Spawn ==> (s is Stopped || (s is Stopping && e is ProcessFinished)) && step(
            s,
            e,
        ).0 is Starting,
        cancel_outstanding(s) && !cancel_outstanding(step(s, e).0) ==> step(s, e).1 is Cancel
            || e is ProcessFinished,
{
}

/// The state that follows the exit of the child during a termination is
/// decided by the pending slot alone.
pub proof fn lemma_stopping_resolves<V>(prev: V, pending: Option<V>, exit_code: Option<i32>)
    ensures
        step(StateModel::Stopping(prev, pending), EventModel::ProcessFinished(exit_code)).0
            == match pending {
            Some(next) => StateModel::Starting(next),
            None => StateModel::Stopped,
        },
{
}

} // verus!
