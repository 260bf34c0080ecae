//! The actor runtime: one-at-a-time handling of messages, timers and
//! cancellation, with an owned task group.
//!
//! The actor decides what each ready source means and what has to be done
//! about it; the caller waits for the sources and carries the effects out.

use crate::assoc::{
    assoc_map, distinct_keys, lemma_assoc_absent, lemma_assoc_at, lemma_assoc_empty,
    lemma_assoc_push, lemma_assoc_remove,
};
use crate::task_group::{TaskGroup, TaskGroupView, TaskId};
use vstd::prelude::*;

verus! {

/// The grace that child tasks get between cancellation and abort, in seconds.
pub const SHUTDOWN_TIMEOUT_SECS: u64 = 5;

/// The key under which a timer can be removed again.
#[derive(Debug, Clone, Copy, PartialEq, Eq, Hash, Structural)]
pub struct TimerKey(pub u64);

/// An entry of the timer queue.
#[derive(Debug, PartialEq, Eq)]
pub enum TaskActorTimer<Timer> {
    /// A timer that the actor's owner set.
    Timer(Timer),
    /// The deadline after which the child tasks are stopped by force.
    ShutdownTimeout,
}

/// What one call of `update` hands to the actor's owner.
#[derive(Debug, PartialEq, Eq)]
pub enum TaskActorEvent<Message, Timer> {
    /// A message was received.
    Message(Message),
    /// A timer of the owner fired.
    Timer(Timer),
    /// The actor has stopped.
    Stopped(TaskActorStopReason),
}

/// Why an actor stopped.
#[derive(Debug, Clone, Copy, PartialEq, Eq, Structural)]
pub enum TaskActorStopReason {
    /// The inbound channel was closed and is drained.
    Closed,
    /// The shutdown deadline passed and the child tasks were stopped by force.
    Aborted,
    /// The outer cancellation signal was given.
    Cancelled,
}

/// The source that became ready.
#[derive(Debug, PartialEq, Eq)]
pub enum TaskActorInput<Message> {
    /// A message came in.
    Received(Message),
    /// The inbound channel is closed and empty.
    ChannelClosed,
    /// The timer with this key expired.
    TimerFired(TimerKey),
    /// The outer cancellation signal was given.
    Cancelled,
}

/// What the caller has to carry out for the actor.
#[derive(Debug, PartialEq, Eq)]
pub enum TaskActorEffect {
    /// Close the receiver for new senders.
    CloseReceiver,
    /// Arm a timer that reports `key` after `seconds`.
    StartTimer { key: TimerKey, seconds: u64 },
    /// Give the child tasks their cancellation signal.
    CancelTasks,
    /// Await these child tasks.
    AwaitTasks(Vec<TaskId>),
    /// Stop these child tasks by force.
    AbortTasks(Vec<TaskId>),
}

/// The outcome of one ready source: the event for the owner, if there is one
/// yet, and the effects to carry out first.
pub struct TaskActorStep<Message, Timer> {
    pub event: Option<TaskActorEvent<Message, Timer>>,
    pub effects: Vec<TaskActorEffect>,
}

/// A pending timer.
pub struct TimerEntry<Timer> {
    pub key: TimerKey,
    pub timer: TaskActorTimer<Timer>,
}

/// What an actor is, as contracts see it.
pub struct TaskActorView<Timer> {
    /// Whether shutdown has begun.
    pub shutdown: bool,
    /// The pending timers.
    pub timers: Map<TimerKey, TaskActorTimer<Timer>>,
    /// The number of the next timer key.
    pub next_timer: u64,
    /// The child task group.
    pub tasks: TaskGroupView,
}

/// The scaffold of an actor: shutdown flag, timer queue and child tasks.
pub struct TaskActor<Timer> {
    shutdown: bool,
    timers: Vec<TimerEntry<Timer>>,
    next_timer: u64,
    tasks: TaskGroup,
}

/// Reads the key of a timer entry.
pub open spec fn entry_key<Timer>() -> spec_fn(TimerEntry<Timer>) -> TimerKey {
    |e: TimerEntry<Timer>| e.key
}

/// Reads the timer of a timer entry.
pub open spec fn entry_timer<Timer>() -> spec_fn(TimerEntry<Timer>) -> TaskActorTimer<Timer> {
    |e: TimerEntry<Timer>| e.timer
}

/// The effects of entering shutdown, and the state after it: the flag is
/// set, the receiver closed, the shutdown deadline armed, and the child
/// tasks cancelled and awaited. The child tasks stay in the group until
/// they report their end, so that the deadline can still stop them by
/// force. A second shutdown does nothing.
pub open spec fn shutdown_entered<Timer>(
    before: TaskActorView<Timer>,
    after: TaskActorView<Timer>,
    effects: Seq<TaskActorEffect>,
) -> bool {
    if before.shutdown {
        after == before && effects.len() == 0
    } else {
        &&& after.shutdown
        &&& after.timers == before.timers.insert(
            TimerKey(before.next_timer),
            TaskActorTimer::ShutdownTimeout,
        )
        &&& after.next_timer == before.next_timer + 1
        &&& after.tasks.cancelled
        &&& after.tasks.next == before.tasks.next
        &&& after.tasks.members == before.tasks.members
        &&& effects.len() == 4
        &&& effects[0] == TaskActorEffect::CloseReceiver
        &&& effects[1] == (TaskActorEffect::StartTimer {
            key: TimerKey(before.next_timer),
            seconds: SHUTDOWN_TIMEOUT_SECS,
        })
        &&& effects[2] == TaskActorEffect::CancelTasks
        &&& effects[3] matches TaskActorEffect::AwaitTasks(ids) && ids@.no_duplicates()
            && ids@.to_set() == before.tasks.members
    }
}

impl<Timer> TaskActor<Timer> {
    /// The actor as contracts see it.
    pub closed spec fn view(&self) -> TaskActorView<Timer> {
        TaskActorView {
            shutdown: self.shutdown,
            timers: assoc_map(self.timers@, entry_key::<Timer>(), entry_timer::<Timer>()),
            next_timer: self.next_timer,
            tasks: self.tasks@,
        }
    }

    /// The actor is consistent: its task group is, and every pending timer
    /// has a key of its own that this actor gave out.
    pub closed spec fn wf(&self) -> bool {
        &&& self.tasks.wf()
        &&& distinct_keys(self.timers@, entry_key::<Timer>())
        &&& forall|i: int|
            0 <= i < self.timers@.len() ==> (#[trigger] self.timers@[i]).key.0 < self.next_timer
    }

    /// Every pending timer's key is below the next one to be given.
    pub proof fn lemma_timers_below_next(&self)
        requires
            self.wf(),
        ensures
            forall|k: TimerKey| self@.timers.dom().contains(k) ==> k.0 < self@.next_timer,
    {
        assert forall|k: TimerKey| self@.timers.dom().contains(k) implies k.0
            < self@.next_timer by {
            let i = choose|i: int|
                0 <= i < self.timers@.len() && entry_key::<Timer>()(#[trigger] self.timers@[i])
                    == k;
            assert(self.timers@[i].key.0 < self.next_timer);
        }
    }

    /// A running actor without timers or child tasks.
    pub fn new() -> (actor: TaskActor<Timer>)
        ensures
            actor.wf(),
            !actor@.shutdown,
            actor@.timers == Map::<TimerKey, TaskActorTimer<Timer>>::empty(),
            actor@.next_timer == 0,
            actor@.tasks.members == Set::<TaskId>::empty(),
            actor@.tasks.next == 0,
            !actor@.tasks.cancelled,
    {
        proof {
            lemma_assoc_empty(entry_key::<Timer>(), entry_timer::<Timer>());
        }
        TaskActor { shutdown: false, timers: Vec::new(), next_timer: 0, tasks: TaskGroup::new() }
    }

    /// Whether the actor still has anything to wait for: it runs until the
    /// channel is closed and drained and every timer has fired.
    pub fn is_running(&self, receiver_closed: bool, receiver_empty: bool) -> (running: bool)
        requires
            self.wf(),
        ensures
            running == !(receiver_closed && receiver_empty && self@.timers.dom() == Set::<
                TimerKey,
            >::empty()),
    {
        proof {
            if self.timers@.len() > 0 {
                lemma_assoc_at(self.timers@, entry_key::<Timer>(), entry_timer::<Timer>(), 0);
                assert(self@.timers.dom().contains(self.timers@[0].key));
            } else {
                lemma_assoc_empty(entry_key::<Timer>(), entry_timer::<Timer>());
                assert(self.timers@ =~= Seq::<TimerEntry<Timer>>::empty());
            }
        }
        !(receiver_closed && receiver_empty && self.timers.len() == 0)
    }

    /// Whether one more timer key can be given out.
    pub fn has_timer_room(&self) -> (room: bool)
        ensures
            room == (self@.next_timer < u64::MAX),
    {
        self.next_timer < u64::MAX
    }

    /// The child task group.
    pub fn tasks(&self) -> (tasks: &TaskGroup)
        ensures
            tasks@ == self@.tasks,
            self.wf() ==> tasks.wf(),
    {
        &self.tasks
    }

    /// Takes a new child task in; the caller schedules its work under the
    /// returned number.
    pub fn spawn_task(&mut self) -> (id: TaskId)
        requires
            old(self).wf(),
            old(self)@.tasks.next < u64::MAX,
        ensures
            final(self).wf(),
            id == TaskId(old(self)@.tasks.next),
            final(self)@.tasks.members == old(self)@.tasks.members.insert(id),
            final(self)@.tasks.next == old(self)@.tasks.next + 1,
            final(self)@.tasks.cancelled == old(self)@.tasks.cancelled,
            final(self)@.shutdown == old(self)@.shutdown,
            final(self)@.timers == old(self)@.timers,
            final(self)@.next_timer == old(self)@.next_timer,
    {
        self.tasks.spawn()
    }

    /// Takes the child task `id` out, for the caller to stop it by force.
    /// Says whether it was live.
    pub fn abort_task(&mut self, id: TaskId) -> (present: bool)
        requires
            old(self).wf(),
        ensures
            final(self).wf(),
            present == old(self)@.tasks.members.contains(id),
            final(self)@.tasks.members == old(self)@.tasks.members.remove(id),
            final(self)@.tasks.next == old(self)@.tasks.next,
            final(self)@.tasks.cancelled == old(self)@.tasks.cancelled,
            final(self)@.shutdown == old(self)@.shutdown,
            final(self)@.timers == old(self)@.timers,
            final(self)@.next_timer == old(self)@.next_timer,
    {
        self.tasks.abort_task(id)
    }

    /// A child task reports its end and leaves the group.
    pub fn task_finished(&mut self, id: TaskId)
        requires
            old(self).wf(),
        ensures
            final(self).wf(),
            final(self)@.tasks.members == old(self)@.tasks.members.remove(id),
            final(self)@.tasks.next == old(self)@.tasks.next,
            final(self)@.tasks.cancelled == old(self)@.tasks.cancelled,
            final(self)@.shutdown == old(self)@.shutdown,
            final(self)@.timers == old(self)@.timers,
            final(self)@.next_timer == old(self)@.next_timer,
    {
        let _ = self.tasks.abort_task(id);
    }

    /// Puts a timer of the owner into the queue and returns its key. The
    /// caller arms it.
    pub fn insert_timer(&mut self, value: Timer) -> (key: TimerKey)
        requires
            old(self).wf(),
            old(self)@.next_timer < u64::MAX,
        ensures
            final(self).wf(),
            key == TimerKey(old(self)@.next_timer),
            !old(self)@.timers.dom().contains(key),
            final(self)@.timers == old(self)@.timers.insert(key, TaskActorTimer::Timer(value)),
            final(self)@.next_timer == old(self)@.next_timer + 1,
            final(self)@.shutdown == old(self)@.shutdown,
            final(self)@.tasks == old(self)@.tasks,
    {
        self.push_timer(TaskActorTimer::Timer(value))
    }

    fn push_timer(&mut self, timer: TaskActorTimer<Timer>) -> (key: TimerKey)
        requires
            old(self).wf(),
            old(self)@.next_timer < u64::MAX,
        ensures
            final(self).wf(),
            key == TimerKey(old(self)@.next_timer),
            !old(self)@.timers.dom().contains(key),
            final(self)@.timers == old(self)@.timers.insert(key, timer),
            final(self)@.next_timer == old(self)@.next_timer + 1,
            final(self).shutdown == old(self).shutdown,
            final(self).tasks == old(self).tasks,
    {
        let key = TimerKey(self.next_timer);
        let entry = TimerEntry { key, timer };
        proof {
            self.lemma_timers_below_next();
            lemma_assoc_push(self.timers@, entry_key::<Timer>(), entry_timer::<Timer>(), entry);
        }
        self.timers.push(entry);
        self.next_timer = self.next_timer + 1;
        key
    }

    fn timer_position(&self, key: TimerKey) -> (at: Option<usize>)
        requires
            self.wf(),
        ensures
            at.is_some() == self@.timers.dom().contains(key),
            at.is_some() ==> at.unwrap() < self.timers@.len() && self.timers@[at.unwrap() as int].key
                == key && self@.timers[key] == self.timers@[at.unwrap() as int].timer,
    {
        let mut i: usize = 0;
        while i < self.timers.len()
            invariant
                self.wf(),
                i <= self.timers@.len(),
                forall|k: int| 0 <= k < i ==> (#[trigger] self.timers@[k]).key != key,
            decreases self.timers@.len() - i,
        {
            if self.timers[i].key.0 == key.0 {
                proof {
                    lemma_assoc_at(
                        self.timers@,
                        entry_key::<Timer>(),
                        entry_timer::<Timer>(),
                        i as int,
                    );
                }
                return Some(i);
            }
            i = i + 1;
        }
        proof {
            lemma_assoc_absent(self.timers@, entry_key::<Timer>(), entry_timer::<Timer>(), key);
        }
        None
    }

    fn take_timer(&mut self, key: TimerKey) -> (taken: Option<TaskActorTimer<Timer>>)
        requires
            old(self).wf(),
        ensures
            final(self).wf(),
            taken.is_some() == old(self)@.timers.dom().contains(key),
            taken.is_some() ==> taken.unwrap() == old(self)@.timers[key],
            final(self)@.timers == old(self)@.timers.remove(key),
            final(self).next_timer == old(self).next_timer,
            final(self).shutdown == old(self).shutdown,
            final(self).tasks == old(self).tasks,
    {
        match self.timer_position(key) {
            Some(i) => {
                proof {
                    lemma_assoc_remove(
                        self.timers@,
                        entry_key::<Timer>(),
                        entry_timer::<Timer>(),
                        i as int,
                    );
                }
                let entry = self.timers.remove(i);
                Some(entry.timer)
            },
            None => {
                assert(self@.timers.remove(key) =~= self@.timers);
                None
            },
        }
    }

    /// Takes the timer with this key out of the queue, for the caller to
    /// disarm it. Says whether it was pending.
    pub fn remove_timer(&mut self, key: TimerKey) -> (present: bool)
        requires
            old(self).wf(),
        ensures
            final(self).wf(),
            present == old(self)@.timers.dom().contains(key),
            final(self)@.timers == old(self)@.timers.remove(key),
            final(self)@.next_timer == old(self)@.next_timer,
            final(self)@.shutdown == old(self)@.shutdown,
            final(self)@.tasks == old(self)@.tasks,
    {
        self.take_timer(key).is_some()
    }

    /// Enters shutdown, once: sets the flag and tells the caller to close
    /// the receiver, arm the shutdown deadline, cancel the child tasks and
    /// await them.
    pub fn shutdown(&mut self) -> (effects: Vec<TaskActorEffect>)
        requires
            old(self).wf(),
            old(self)@.next_timer < u64::MAX,
        ensures
            final(self).wf(),
            shutdown_entered(old(self)@, final(self)@, effects@),
    {
        let mut effects: Vec<TaskActorEffect> = Vec::new();
        if self.shutdown {
            return effects;
        }
        self.shutdown = true;
        let key = self.push_timer(TaskActorTimer::ShutdownTimeout);
        self.tasks.cancel();
        let waited = self.tasks.ids();
        effects.push(TaskActorEffect::CloseReceiver);
        effects.push(TaskActorEffect::StartTimer { key, seconds: SHUTDOWN_TIMEOUT_SECS });
        effects.push(TaskActorEffect::CancelTasks);
        effects.push(TaskActorEffect::AwaitTasks(waited));
        effects
    }

    /// Handles the source that became ready.
    ///
    /// A message is handed on. A closed channel and the outer cancellation
    /// enter shutdown and stop the actor. A timer of the owner is handed on;
    /// the shutdown deadline stops every child task by force and stops the
    /// actor. An unknown timer key gives no event.
    pub fn update<Message>(&mut self, input: TaskActorInput<Message>) -> (step: TaskActorStep<
        Message,
        Timer,
    >)
        requires
            old(self).wf(),
            old(self)@.next_timer < u64::MAX,
        ensures
            final(self).wf(),
            match input {
                TaskActorInput::Received(message) => {
                    &&& step.event == Some(TaskActorEvent::<Message, Timer>::Message(message))
                    &&& step.effects@.len() == 0
                    &&& final(self)@ == old(self)@
                },
                TaskActorInput::ChannelClosed => {
                    &&& step.event == Some(
                        TaskActorEvent::<Message, Timer>::Stopped(TaskActorStopReason::Closed),
                    )
                    &&& shutdown_entered(old(self)@, final(self)@, step.effects@)
                },
                TaskActorInput::Cancelled => {
                    &&& step.event == Some(
                        TaskActorEvent::<Message, Timer>::Stopped(TaskActorStopReason::Cancelled),
                    )
                    &&& shutdown_entered(old(self)@, final(self)@, step.effects@)
                },
                TaskActorInput::TimerFired(key) => {
                    &&& final(self)@.timers == old(self)@.timers.remove(key)
                    &&& final(self)@.next_timer == old(self)@.next_timer
                    &&& final(self)@.shutdown == old(self)@.shutdown
                    &&& final(self)@.tasks.next == old(self)@.tasks.next
                    &&& final(self)@.tasks.cancelled == old(self)@.tasks.cancelled
                    &&& if !old(self)@.timers.dom().contains(key) {
                        &&& step.event.is_none()
                        &&& step.effects@.len() == 0
                        &&& final(self)@.tasks == old(self)@.tasks
                    } else {
                        match old(self)@.timers[key] {
                            TaskActorTimer::Timer(timer) => {
                                &&& step.event == Some(
                                    TaskActorEvent::<Message, Timer>::Timer(timer),
                                )
                                &&& step.effects@.len() == 0
                                &&& final(self)@.tasks == old(self)@.tasks
                            },
                            TaskActorTimer::ShutdownTimeout => {
                                &&& step.event == Some(
                                    TaskActorEvent::<Message, Timer>::Stopped(
                                        TaskActorStopReason::Aborted,
                                    ),
                                )
                                &&& step.effects@.len() == 1
                                &&& step.effects@[0] matches TaskActorEffect::AbortTasks(ids)
                                    && ids@.no_duplicates() && ids@.to_set()
                                    == old(self)@.tasks.members
                                &&& final(self)@.tasks.members == Set::<TaskId>::empty()
                            },
                        }
                    }
                },
            },
    {
        match input {
            TaskActorInput::Received(message) => TaskActorStep {
                event: Some(TaskActorEvent::Message(message)),
                effects: Vec::new(),
            },
            TaskActorInput::ChannelClosed => {
                let effects = self.shutdown();
                TaskActorStep {
                    event: Some(TaskActorEvent::Stopped(TaskActorStopReason::Closed)),
                    effects,
                }
            },
            TaskActorInput::Cancelled => {
                let effects = self.shutdown();
                TaskActorStep {
                    event: Some(TaskActorEvent::Stopped(TaskActorStopReason::Cancelled)),
                    effects,
                }
            },
            TaskActorInput::TimerFired(key) => {
                match self.take_timer(key) {
                    None => TaskActorStep { event: None, effects: Vec::new() },
                    Some(TaskActorTimer::Timer(timer)) => TaskActorStep {
                        event: Some(TaskActorEvent::Timer(timer)),
                        effects: Vec::new(),
                    },
                    Some(TaskActorTimer::ShutdownTimeout) => {
                        let aborted = self.tasks.abort_all();
                        let mut effects: Vec<TaskActorEffect> = Vec::new();
                        effects.push(TaskActorEffect::AbortTasks(aborted));
                        TaskActorStep {
                            event: Some(TaskActorEvent::Stopped(TaskActorStopReason::Aborted)),
                            effects,
                        }
                    },
                }
            },
        }
    }
}

/// After shutdown was entered, the shutdown deadline is pending under the
/// key that the caller was told to arm, for the grace of five seconds, and
/// every child task is still a member of the group: so the deadline, when
/// it fires, stops by force every child task that has not reported its end.
pub proof fn lemma_shutdown_arms_deadline<Timer>(
    before: TaskActorView<Timer>,
    after: TaskActorView<Timer>,
    effects: Seq<TaskActorEffect>,
)
    requires
        !before.shutdown,
        shutdown_entered(before, after, effects),
    ensures
        after.timers.dom().contains(TimerKey(before.next_timer)),
        after.timers[TimerKey(before.next_timer)] == TaskActorTimer::<Timer>::ShutdownTimeout,
        effects[1] == (TaskActorEffect::StartTimer { key: TimerKey(before.next_timer), seconds: 5 }),
        after.tasks.members == before.tasks.members,
        after.tasks.cancelled,
{
}

} // verus!
