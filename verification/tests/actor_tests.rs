use vmm::progress_router::{progress_id, ProgressMessage, ProgressRouter, RouterStep};
use vmm::task_actor::{
    TaskActor, TaskActorEffect, TaskActorEvent, TaskActorInput, TaskActorStopReason, TimerKey,
    SHUTDOWN_TIMEOUT_SECS,
};
use vmm::task_group::{TaskGroup, TaskId, TaskResult};

fn awaited(effect: &TaskActorEffect) -> Vec<TaskId> {
    match effect {
        TaskActorEffect::AwaitTasks(ids) => {
            let mut ids = ids.clone();
            ids.sort_by_key(|t| t.0);
            ids
        }
        other => panic!("unexpected effect {:?}", other),
    }
}

#[test]
fn task_ids_count_up_from_zero() {
    let mut group = TaskGroup::new();
    assert_eq!(group.len(), 0);
    assert_eq!(group.spawn(), TaskId(0));
    assert_eq!(group.spawn(), TaskId(1));
    assert_eq!(group.spawn(), TaskId(2));
    assert_eq!(group.len(), 3);
    assert!(group.contains(TaskId(1)));
    assert!(!group.contains(TaskId(3)));
    assert!(group.has_room());
}

#[test]
fn abort_task_says_whether_the_task_was_live() {
    let mut group = TaskGroup::new();
    let a = group.spawn();
    let b = group.spawn();
    assert!(group.abort_task(a));
    assert!(!group.abort_task(a));
    assert!(!group.abort_task(TaskId(7)));
    assert!(group.contains(b));
    assert_eq!(group.len(), 1);
    assert_eq!(group.spawn(), TaskId(2));
}

#[test]
fn a_finished_task_leaves_before_its_result_is_surfaced() {
    let mut group = TaskGroup::new();
    let a = group.spawn();
    let b = group.spawn();
    assert!(matches!(group.complete(a, Some(5)), TaskResult::Completed(5)));
    assert!(!group.contains(a));
    assert!(matches!(group.complete::<u8>(b, None), TaskResult::Cancelled));
    assert_eq!(group.len(), 0);
}

#[test]
fn cancel_keeps_the_members() {
    let mut group = TaskGroup::new();
    let a = group.spawn();
    assert!(!group.is_cancelled());
    group.cancel();
    assert!(group.is_cancelled());
    assert!(group.contains(a));
}

#[test]
fn wait_and_abort_all_hand_every_member_out() {
    let mut group = TaskGroup::new();
    let a = group.spawn();
    let b = group.spawn();
    let mut waited = group.wait();
    waited.sort_by_key(|t| t.0);
    assert_eq!(waited, vec![a, b]);
    assert_eq!(group.len(), 0);
    let c = group.spawn();
    assert_eq!(c, TaskId(2));
    assert_eq!(group.abort_all(), vec![c]);
    assert_eq!(group.len(), 0);
    assert!(group.wait().is_empty());
}

#[test]
fn a_message_is_handed_on() {
    let mut actor: TaskActor<&str> = TaskActor::new();
    let step = actor.update(TaskActorInput::Received(7u8));
    assert_eq!(step.event, Some(TaskActorEvent::Message(7u8)));
    assert!(step.effects.is_empty());
    assert!(actor.is_running(false, true));
}

#[test]
fn a_user_timer_fires_once() {
    let mut actor: TaskActor<&str> = TaskActor::new();
    let first = actor.insert_timer("first");
    let second = actor.insert_timer("second");
    assert_eq!(first, TimerKey(0));
    assert_eq!(second, TimerKey(1));
    let step = actor.update::<u8>(TaskActorInput::TimerFired(second));
    assert_eq!(step.event, Some(TaskActorEvent::Timer("second")));
    assert!(step.effects.is_empty());
    let again = actor.update::<u8>(TaskActorInput::TimerFired(second));
    assert_eq!(again.event, None);
    assert!(actor.remove_timer(first));
    assert!(!actor.remove_timer(first));
}

#[test]
fn a_closed_channel_enters_shutdown() {
    let mut actor: TaskActor<&str> = TaskActor::new();
    let a = actor.spawn_task();
    let b = actor.spawn_task();
    let step = actor.update::<u8>(TaskActorInput::ChannelClosed);
    assert_eq!(step.event, Some(TaskActorEvent::Stopped(TaskActorStopReason::Closed)));
    assert_eq!(step.effects.len(), 4);
    assert_eq!(step.effects[0], TaskActorEffect::CloseReceiver);
    assert_eq!(
        step.effects[1],
        TaskActorEffect::StartTimer { key: TimerKey(0), seconds: 5 }
    );
    assert_eq!(SHUTDOWN_TIMEOUT_SECS, 5);
    assert_eq!(step.effects[2], TaskActorEffect::CancelTasks);
    assert_eq!(awaited(&step.effects[3]), vec![a, b]);
    assert!(actor.tasks().is_cancelled());
    assert_eq!(actor.tasks().len(), 2);
    let again = actor.update::<u8>(TaskActorInput::Cancelled);
    assert_eq!(again.event, Some(TaskActorEvent::Stopped(TaskActorStopReason::Cancelled)));
    assert!(again.effects.is_empty());
}

#[test]
fn cancellation_arms_the_deadline_that_aborts() {
    let mut actor: TaskActor<&str> = TaskActor::new();
    let user = actor.insert_timer("user");
    let done = actor.spawn_task();
    let late = actor.spawn_task();
    let step = actor.update::<u8>(TaskActorInput::Cancelled);
    assert_eq!(awaited(&step.effects[3]), vec![done, late]);
    assert_eq!(step.event, Some(TaskActorEvent::Stopped(TaskActorStopReason::Cancelled)));
    let deadline = match &step.effects[1] {
        TaskActorEffect::StartTimer { key, seconds } => {
            assert_eq!(*seconds, 5);
            *key
        }
        other => panic!("unexpected effect {:?}", other),
    };
    assert_ne!(deadline, user);
    actor.task_finished(done);
    let fired = actor.update::<u8>(TaskActorInput::TimerFired(deadline));
    assert_eq!(fired.event, Some(TaskActorEvent::Stopped(TaskActorStopReason::Aborted)));
    assert_eq!(fired.effects, vec![TaskActorEffect::AbortTasks(vec![late])]);
    assert_eq!(actor.tasks().len(), 0);
}

#[test]
fn the_actor_runs_until_everything_is_drained() {
    let mut actor: TaskActor<&str> = TaskActor::new();
    assert!(actor.is_running(false, false));
    assert!(!actor.is_running(true, true));
    let effects = actor.shutdown();
    assert_eq!(effects.len(), 4);
    assert!(actor.shutdown().is_empty());
    assert!(actor.is_running(true, true));
    assert!(actor.remove_timer(TimerKey(0)));
    assert!(!actor.is_running(true, true));
    assert!(actor.is_running(false, true));
    assert!(actor.is_running(true, false));
}

#[test]
fn task_finished_and_abort_on_the_actor() {
    let mut actor: TaskActor<u8> = TaskActor::new();
    let a = actor.spawn_task();
    let b = actor.spawn_task();
    actor.task_finished(a);
    assert!(!actor.tasks().contains(a));
    assert!(actor.abort_task(b));
    assert!(!actor.abort_task(b));
    assert!(actor.has_timer_room());
}

#[test]
fn the_router_forwards_until_the_channel_closes() {
    let router = ProgressRouter::new();
    let message = ProgressMessage::Update("download/1".to_string(), 10);
    assert_eq!(router.run(Some(message.clone())), RouterStep::Forward(message));
    assert_eq!(router.run(None), RouterStep::Stop);
}

#[test]
fn progress_ids_name_the_download() {
    assert_eq!(progress_id(0), "download/0");
    assert_eq!(progress_id(12), "download/12");
}

#[test]
fn ids_lists_the_members_without_taking_them() {
    let mut group = TaskGroup::new();
    let a = group.spawn();
    let b = group.spawn();
    let mut ids = group.ids();
    ids.sort_by_key(|t| t.0);
    assert_eq!(ids, vec![a, b]);
    assert_eq!(group.len(), 2);
    group.abort_task(a);
    assert_eq!(group.ids(), vec![b]);
}
