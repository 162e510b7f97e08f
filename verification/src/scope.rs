//! The bookkeeping of a scope of a worker pool: a bounded period in which
//! tasks are handed to the workers, and which ends only when every one of
//! them has completed.
//!
//! The pool itself needs threads. What it has to decide is here: when the
//! last task has completed, whether the caller of the scope has to wait, and
//! whether a task has panicked.

use vstd::prelude::*;

verus! {

/// What can happen to a scope.
#[derive(Clone, Copy, PartialEq, Eq, Debug, Structural)]
pub enum ScopeEvent {
    /// A task was handed to the workers.
    TaskSubmitted,
    /// A worker has run a task to its end, or has caught its panic.
    TaskCompleted { panicked: bool },
    /// The caller has handed over its last task and now waits for them all.
    ScopeClosed,
}

/// A scope as the mathematics sees it.
pub struct ScopeModel {
    /// The caller may still hand over tasks.
    pub open: bool,
    /// The number of tasks handed over and not yet completed.
    pub running: nat,
    /// A task has panicked since the scope began.
    pub panicked: bool,
    /// The workers have told the caller that every task has completed.
    pub drained: bool,
}

impl ScopeModel {
    /// A scope at its beginning.
    pub open spec fn fresh() -> ScopeModel {
        ScopeModel { open: true, running: 0, panicked: false, drained: false }
    }

    /// The number that the pool counts down: one for each running task, and
    /// one more while the scope is open. The one more keeps the count above
    /// zero until the caller has handed over its last task, however fast the
    /// workers are.
    pub open spec fn counter(self) -> nat {
        if self.open {
            self.running + 1
        } else {
            self.running
        }
    }

    /// Whether the event can happen in this state. A task is handed over
    /// only while the scope is open, only a running task completes, and a
    /// scope is closed once.
    pub open spec fn admits(self, event: ScopeEvent) -> bool {
        match event {
            ScopeEvent::TaskSubmitted => self.open,
            ScopeEvent::TaskCompleted { panicked } => self.running > 0,
            ScopeEvent::ScopeClosed => self.open,
        }
    }

    /// The state after the event.
    pub open spec fn after(self, event: ScopeEvent) -> ScopeModel {
        match event {
            ScopeEvent::TaskSubmitted => ScopeModel { running: self.running + 1, ..self },
            ScopeEvent::TaskCompleted { panicked } => ScopeModel {
                running: (self.running - 1) as nat,
                panicked: self.panicked || panicked,
                drained: self.drained || (!self.open && self.running == 1),
                ..self
            },
            ScopeEvent::ScopeClosed => ScopeModel { open: false, ..self },
        }
    }

    /// Every task that was handed over has completed, and no other will
    /// come.
    pub open spec fn all_done(self) -> bool {
        !self.open && self.running == 0
    }

    /// Whether each event of the sequence can happen after the ones before
    /// it, starting in this state.
    pub open spec fn admits_all(self, events: Seq<ScopeEvent>) -> bool
        decreases events.len(),
    {
        if events.len() == 0 {
            true
        } else {
            self.admits_all(events.drop_last()) && self.after_all(events.drop_last()).admits(
                events.last(),
            )
        }
    }

    /// The state after all events of the sequence, in their order.
    pub open spec fn after_all(self, events: Seq<ScopeEvent>) -> ScopeModel
        decreases events.len(),
    {
        if events.len() == 0 {
            self
        } else {
            self.after_all(events.drop_last()).after(events.last())
        }
    }
}

/// Whether a task of the sequence of events has panicked.
pub open spec fn any_panicked(events: Seq<ScopeEvent>) -> bool {
    exists|k: int|
        0 <= k < events.len() && #[trigger] events[k] == (ScopeEvent::TaskCompleted {
            panicked: true,
        })
}

/// The number of tasks that the events hand over.
pub open spec fn submissions(events: Seq<ScopeEvent>) -> nat
    decreases events.len(),
{
    if events.len() == 0 {
        0
    } else {
        submissions(events.drop_last()) + if events.last() is TaskSubmitted {
            1nat
        } else {
            0nat
        }
    }
}

/// The number of tasks that the events complete.
pub open spec fn completions(events: Seq<ScopeEvent>) -> nat
    decreases events.len(),
{
    if events.len() == 0 {
        0
    } else {
        completions(events.drop_last()) + if events.last() is TaskCompleted {
            1nat
        } else {
            0nat
        }
    }
}

/// Whatever the order in which tasks are handed over and complete: the
/// workers tell the caller that the scope is drained only after the scope
/// was closed and every task that was handed over has completed, and the
/// scope then knows of a panic exactly if one of these tasks has panicked.
pub proof fn lemma_scope_history(events: Seq<ScopeEvent>)
    requires
        ScopeModel::fresh().admits_all(events),
    ensures
        ({
            let state = ScopeModel::fresh().after_all(events);
            &&& state.running == submissions(events) - completions(events)
            &&& state.panicked == any_panicked(events)
            &&& state.drained ==> state.all_done()
            &&& state.open ==> state.counter() >= 1
        }),
    decreases events.len(),
{
    if events.len() > 0 {
        let before = events.drop_last();
        lemma_scope_history(before);
        let state = ScopeModel::fresh().after_all(before);
        if any_panicked(before) {
            let k = choose|k: int|
                0 <= k < before.len() && #[trigger] before[k] == (ScopeEvent::TaskCompleted {
                    panicked: true,
                });
            assert(events[k] == before[k]);
        }
        if events.last() == (ScopeEvent::TaskCompleted { panicked: true }) {
            assert(events[events.len() - 1] == events.last());
        }
        if any_panicked(events) {
            let k = choose|k: int|
                0 <= k < events.len() && #[trigger] events[k] == (ScopeEvent::TaskCompleted {
                    panicked: true,
                });
            if k < before.len() {
                assert(before[k] == events[k]);
            }
        }
    }
}

/// The counters and flags that a pool keeps for its scope.
pub struct ScopeState {
    tasks: u64,
    open: bool,
    finished: bool,
    panicked: bool,
}

impl View for ScopeState {
    type V = ScopeModel;

    closed spec fn view(&self) -> ScopeModel {
        ScopeModel {
            open: self.open,
            running: if self.open {
                (self.tasks - 1) as nat
            } else {
                self.tasks as nat
            },
            panicked: self.panicked,
            drained: self.finished,
        }
    }
}

impl ScopeState {
    #[verifier::type_invariant]
    spec fn consistent(self) -> bool {
        &&& self.open ==> self.tasks >= 1
        &&& self.finished ==> !self.open && self.tasks == 0
    }

    /// The number of tasks that may still be handed over before the counter
    /// of the scope overflows.
    pub closed spec fn room(&self) -> nat {
        (u64::MAX - self.tasks) as nat
    }

    /// The state of a pool that has run no task yet: the counter is one.
    pub fn new() -> (state: ScopeState)
        ensures
            state@ == ScopeModel::fresh(),
            state.room() >= 1,
    {
        ScopeState { tasks: 1, open: true, finished: false, panicked: false }
    }

    /// The number that the pool counts down.
    pub fn counter(&self) -> (count: u64)
        ensures
            count == self@.counter(),
    {
        proof {
            use_type_invariant(self);
        }
        self.tasks
    }

    /// Whether the caller may still hand over tasks.
    pub fn is_open(&self) -> (open: bool)
        ensures
            open == self@.open,
    {
        self.open
    }

    /// The number of tasks handed over and not yet completed.
    pub fn running(&self) -> (count: u64)
        ensures
            count == self@.running,
    {
        proof {
            use_type_invariant(self);
        }
        if self.open {
            self.tasks - 1
        } else {
            self.tasks
        }
    }

    /// Whether the workers have told the caller that every task has
    /// completed.
    pub fn is_drained(&self) -> (drained: bool)
        ensures
            drained == self@.drained,
    {
        self.finished
    }

    /// Whether a task has panicked since the scope began.
    pub fn has_panicked(&self) -> (panicked: bool)
        ensures
            panicked == self@.panicked,
    {
        self.panicked
    }

    /// Whether the counter has room for one more task.
    pub fn has_room(&self) -> (room: bool)
        ensures
            room == (self.room() >= 1),
    {
        self.tasks < u64::MAX
    }

    /// A task is handed to the workers: the counter goes up by one.
    pub fn task_submitted(&mut self)
        requires
            old(self)@.admits(ScopeEvent::TaskSubmitted),
            old(self).room() >= 1,
        ensures
            final(self)@ == old(self)@.after(ScopeEvent::TaskSubmitted),
            final(self).room() == old(self).room() - 1,
    {
        proof {
            use_type_invariant(&*self);
        }
        self.tasks = self.tasks + 1;
    }

    /// A worker has run a task to its end, or has caught its panic: the
    /// counter goes down by one. The result says whether this was the last
    /// task of a closed scope, so that the worker has to wake the caller.
    pub fn task_completed(&mut self, panicked: bool) -> (wake: bool)
        requires
            old(self)@.admits(ScopeEvent::TaskCompleted { panicked }),
        ensures
            final(self)@ == old(self)@.after(ScopeEvent::TaskCompleted { panicked }),
            final(self).room() == old(self).room() + 1,
            wake == final(self)@.all_done(),
    {
        proof {
            use_type_invariant(&*self);
        }
        let last = self.tasks == 1;
        self.tasks = self.tasks - 1;
        if panicked {
            self.panicked = true;
        }
        if last {
            self.finished = true;
        }
        last
    }

    /// The caller has handed over its last task: the counter goes down by
    /// the one that stood for the open scope. The result says whether tasks
    /// are still running, so that the caller has to wait until the scope is
    /// drained.
    pub fn scope_closed(&mut self) -> (wait: bool)
        requires
            old(self)@.admits(ScopeEvent::ScopeClosed),
        ensures
            final(self)@ == old(self)@.after(ScopeEvent::ScopeClosed),
            final(self).room() == old(self).room() + 1,
            wait == !final(self)@.all_done(),
    {
        proof {
            use_type_invariant(&*self);
        }
        self.open = false;
        self.tasks = self.tasks - 1;
        self.tasks > 0
    }

    /// Ends a scope of which every task has completed, and makes the state
    /// ready for the next one. The result says whether a task of the scope
    /// that ends has panicked: the caller then panics in its turn.
    pub fn reset(&mut self) -> (panicked: bool)
        requires
            old(self)@.all_done(),
        ensures
            panicked == old(self)@.panicked,
            final(self)@ == ScopeModel::fresh(),
            final(self).room() >= 1,
    {
        let panicked = self.panicked;
        *self = ScopeState::new();
        panicked
    }
}

} // verus!
