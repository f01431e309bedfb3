//! The supervisor: one monitor per configured pool, each stepped only by the
//! events of its own pool, so that no pool's failure reaches another.
use vstd::prelude::*;
use crate::monitor::{
    Address, MonitorAction, MonitorEvent, MonitorState, PoolConfig, emits_quotes, initial_state,
    is_valid_sample, pending, pending_action, sample_of, start, step, step_post,
};

verus! {

/// The shared connection to the chain could not be established.
#[derive(Debug, Clone, Copy, PartialEq, Eq, Structural)]
pub enum ProviderError {
    WSConnectionFailed,
}

/// The monitors of all configured pools, by position.
pub struct Supervisor {
    pub monitors: Vec<MonitorState>,
}

/// Delivering `e` to monitor `index` of `before` gives `after` and the action
/// `a`: that monitor steps, every other one stays as it was.
pub open spec fn deliver_post(
    before: Seq<MonitorState>,
    index: int,
    e: MonitorEvent,
    after: Seq<MonitorState>,
    a: MonitorAction,
) -> bool {
    &&& 0 <= index < before.len()
    &&& after.len() == before.len()
    &&& step_post(before[index], e, after[index], a)
    &&& forall|j: int| 0 <= j < before.len() && j != index ==> #[trigger] after[j] == before[j]
}

/// A run of the supervisor: the `t`-th event goes to monitor `targets[t]`,
/// taking the monitors from `snaps[t]` to `snaps[t + 1]` with action `actions[t]`.
pub open spec fn is_supervisor_run(
    snaps: Seq<Seq<MonitorState>>,
    targets: Seq<int>,
    events: Seq<MonitorEvent>,
    actions: Seq<MonitorAction>,
) -> bool {
    &&& snaps.len() == events.len() + 1
    &&& targets.len() == events.len()
    &&& actions.len() == events.len()
    &&& forall|t: int|
        0 <= t < events.len() ==> deliver_post(
            snaps[t],
            targets[t],
            #[trigger] events[t],
            snaps[t + 1],
            actions[t],
        )
}

impl Supervisor {
    /// One monitor for each pool, in order, each in its initial state, and
    /// the first action of each.
    pub fn new(pools: &Vec<Address>) -> (r: (Supervisor, Vec<MonitorAction>))
        ensures
            r.0.monitors@.len() == pools@.len(),
            r.1@.len() == pools@.len(),
            forall|i: int|
                0 <= i < pools@.len() ==> #[trigger] r.0.monitors@[i] == initial_state(pools@[i])
                    && r.1@[i] == pending(r.0.monitors@[i]),
    {
        let mut monitors: Vec<MonitorState> = Vec::new();
        let mut actions: Vec<MonitorAction> = Vec::new();
        let mut i: usize = 0;
        while i < pools.len()
            invariant
                i <= pools@.len(),
                monitors@.len() == i,
                actions@.len() == i,
                forall|k: int|
                    0 <= k < i ==> #[trigger] monitors@[k] == initial_state(pools@[k])
                        && actions@[k] == pending(monitors@[k]),
            decreases pools@.len() - i,
        {
            let (state, action) = start(pools[i]);
            monitors.push(state);
            actions.push(action);
            i = i + 1;
        }
        (Supervisor { monitors }, actions)
    }

    /// Hands `event` to monitor `index` alone and returns its next action.
    pub fn deliver(&mut self, index: usize, event: MonitorEvent) -> (a: MonitorAction)
        requires
            index < old(self).monitors@.len(),
        ensures
            deliver_post(old(self).monitors@, index as int, event, final(self).monitors@, a),
    {
        let state = self.monitors.remove(index);
        let (next, action) = step(state, event);
        self.monitors.insert(index, next);
        action
    }

    /// The action that monitor `index` waits on.
    pub fn pending_of(&self, index: usize) -> (a: MonitorAction)
        requires
            index < self.monitors@.len(),
        ensures
            a == pending(self.monitors@[index as int]),
    {
        pending_action(&self.monitors[index])
    }

    /// Whether every monitor has terminated.
    pub fn is_finished(&self) -> (r: bool)
        ensures
            r == forall|i: int| 0 <= i < self.monitors@.len() ==> #[trigger] self.monitors@[i] is Terminated,
    {
        let mut i: usize = 0;
        while i < self.monitors.len()
            invariant
                i <= self.monitors@.len(),
                forall|k: int| 0 <= k < i ==> #[trigger] self.monitors@[k] is Terminated,
            decreases self.monitors@.len() - i,
        {
            match &self.monitors[i] {
                MonitorState::Terminated { .. } => {},
                _ => {
                    return false;
                },
            }
            i = i + 1;
        }
        true
    }
}

proof fn lemma_isolated_streaming_persists(
    snaps: Seq<Seq<MonitorState>>,
    targets: Seq<int>,
    events: Seq<MonitorEvent>,
    actions: Seq<MonitorAction>,
    j: int,
    config: PoolConfig,
    t: int,
)
    requires
        is_supervisor_run(snaps, targets, events, actions),
        0 <= j < snaps[0].len(),
        snaps[0][j] == (MonitorState::Streaming { config }),
        forall|u: int|
            0 <= u < events.len() && targets[u] == j ==> is_valid_sample(#[trigger] events[u], config),
        0 <= t <= events.len(),
    ensures
        0 <= j < snaps[t].len(),
        snaps[t][j] == (MonitorState::Streaming { config }),
    decreases t,
{
    if t > 0 {
        lemma_isolated_streaming_persists(snaps, targets, events, actions, j, config, t - 1);
        assert(deliver_post(snaps[t - 1], targets[t - 1], events[t - 1], snaps[t], actions[t - 1]));
        if targets[t - 1] == j {
            assert(is_valid_sample(events[t - 1], config));
        } else {
            assert(snaps[t][j] == snaps[t - 1][j]);
        }
    }
}

/// Fault isolation: a streaming monitor keeps streaming and publishes the
/// quotes of each sample delivered to it, in order, whatever the other
/// monitors receive, including a failed subscription or a failed lookup.
pub proof fn lemma_fault_isolation(
    snaps: Seq<Seq<MonitorState>>,
    targets: Seq<int>,
    events: Seq<MonitorEvent>,
    actions: Seq<MonitorAction>,
    j: int,
    config: PoolConfig,
)
    requires
        is_supervisor_run(snaps, targets, events, actions),
        0 <= j < snaps[0].len(),
        snaps[0][j] == (MonitorState::Streaming { config }),
        forall|u: int|
            0 <= u < events.len() && targets[u] == j ==> is_valid_sample(#[trigger] events[u], config),
    ensures
        forall|t: int| 0 <= t <= events.len() ==> #[trigger] snaps[t][j] == (MonitorState::Streaming { config }),
        forall|t: int|
            0 <= t < events.len() && targets[t] == j ==> emits_quotes(
                #[trigger] actions[t],
                config,
                sample_of(events[t]),
            ),
{
    assert forall|t: int| 0 <= t <= events.len() implies #[trigger] snaps[t][j] == (
    MonitorState::Streaming { config }) by {
        lemma_isolated_streaming_persists(snaps, targets, events, actions, j, config, t);
    }
    assert forall|t: int| 0 <= t < events.len() && targets[t] == j implies emits_quotes(
        #[trigger] actions[t],
        config,
        sample_of(events[t]),
    ) by {
        lemma_isolated_streaming_persists(snaps, targets, events, actions, j, config, t);
        assert(deliver_post(snaps[t], targets[t], events[t], snaps[t + 1], actions[t]));
        assert(is_valid_sample(events[t], config));
    }
}

} // verus!
