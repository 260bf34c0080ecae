//! The image cache: at most one download per URL at a time, whose result
//! every waiting caller gets.
//!
//! The cache is an actor. This module holds its state and what it decides on
//! each request, result and timer; the caller performs the effects: it
//! spawns the download, arms and disarms timers, and answers the callers.

use crate::assoc::{
    assoc_map, distinct_keys, lemma_assoc_absent, lemma_assoc_at, lemma_assoc_empty,
    lemma_assoc_push, lemma_assoc_remove,
};
use crate::task_actor::{
    shutdown_entered, TaskActor, TaskActorEffect, TaskActorEvent, TaskActorInput,
    TaskActorStopReason, TaskActorTimer, TaskActorView, TimerKey,
};
use crate::task_group::{TaskGroupView, TaskId};
use crate::text::same_text;
use vstd::prelude::*;

verus! {

/// The name of an image: the SHA-256 of its bytes in hexadecimal.
pub type ImageHash = String;

/// How long a download may take from its start, in seconds.
pub const DOWNLOAD_TIMEOUT_SECS: u64 = 60;

/// The typed outcome of a request for an image.
#[derive(Debug, Clone, PartialEq, Eq)]
pub enum GetImageHashResult {
    /// The image is in the cache under this hash.
    ImageCached(ImageHash),
    /// The server did not say how long the image is.
    DownloadNoContentLength,
    /// The server answered with this status, which is no success.
    DownloadFailed(u16),
    /// The body broke off.
    DownloadFailedToReadChunk,
    /// Cancellation came before the download was done.
    DownloadCancelled,
    /// The request could not be made, or another fault.
    UnknownError,
}

impl GetImageHashResult {
    /// A copy of the result.
    pub fn duplicate(&self) -> (copy: GetImageHashResult)
        ensures
            copy == *self,
    {
        match self {
            GetImageHashResult::ImageCached(hash) => GetImageHashResult::ImageCached(hash.clone()),
            GetImageHashResult::DownloadNoContentLength => {
                GetImageHashResult::DownloadNoContentLength
            },
            GetImageHashResult::DownloadFailed(status) => GetImageHashResult::DownloadFailed(
                *status,
            ),
            GetImageHashResult::DownloadFailedToReadChunk => {
                GetImageHashResult::DownloadFailedToReadChunk
            },
            GetImageHashResult::DownloadCancelled => GetImageHashResult::DownloadCancelled,
            GetImageHashResult::UnknownError => GetImageHashResult::UnknownError,
        }
    }
}

/// What the cache actor receives. `R` is the handle through which one
/// caller is answered.
#[derive(Debug, PartialEq, Eq)]
pub enum ImageCacheMessage<R> {
    /// A caller asks for the image behind `url`.
    GetImageHash { url: String, expected_hash: Option<ImageHash>, response: R },
    /// The worker for `url` reports how its download ended.
    GetImageHashResult(String, GetImageHashResult),
}

/// A caller that waits for a download.
#[derive(Debug, PartialEq, Eq)]
pub struct Subscriber<R> {
    pub expected_hash: Option<ImageHash>,
    pub response: R,
}

/// The timers of the cache.
#[derive(Debug, PartialEq, Eq)]
pub enum Timer {
    /// The download of the URL has taken too long; the child task runs it.
    DownloadTimeout(TaskId, String),
    /// The remembered hash of the URL is to be forgotten.
    UrlHashExpired(String),
}

/// What the caller has to carry out for the cache.
#[derive(Debug, PartialEq, Eq)]
pub enum CacheEffect<R> {
    /// Answer one caller.
    Respond { response: R, result: GetImageHashResult },
    /// Run the download of `url` as the child task `task`.
    SpawnDownload { task: TaskId, download_id: u64, url: String },
    /// Arm a timer that reports `key` after `seconds`.
    StartTimer { key: TimerKey, seconds: u64 },
    /// Disarm the timer with this key.
    CancelTimer { key: TimerKey },
    /// Stop this child task by force.
    AbortTask { task: TaskId },
}

/// The record of one URL: its download and who waits for it, or the hash
/// that the download gave.
pub struct Download<R> {
    id: u64,
    url: String,
    subscribers: Vec<Subscriber<R>>,
    timer_key: TimerKey,
    task: TaskId,
    hash: Option<ImageHash>,
}

/// The record of one URL as contracts see it.
pub struct DownloadView<R> {
    /// The number of the download.
    pub id: u64,
    /// The URL.
    pub url: String,
    /// The callers that wait, in the order in which they came.
    pub subscribers: Seq<Subscriber<R>>,
    /// The key of the download's timeout.
    pub timer_key: TimerKey,
    /// The child task that runs the download.
    pub task: TaskId,
    /// The hash that the download gave, once it has ended well.
    pub hash: Option<ImageHash>,
}

impl<R> View for Download<R> {
    type V = DownloadView<R>;

    closed spec fn view(&self) -> DownloadView<R> {
        DownloadView {
            id: self.id,
            url: self.url,
            subscribers: self.subscribers@,
            timer_key: self.timer_key,
            task: self.task,
            hash: self.hash,
        }
    }
}

/// The cache as contracts see it.
pub struct ImageCacheView<R> {
    /// The record of each URL that has one, by the URL's text.
    pub downloads: Map<Seq<char>, DownloadView<R>>,
    /// The number of the next download.
    pub next_download_id: u64,
    /// The actor runtime.
    pub actor: TaskActorView<Timer>,
}

/// The state of the cache actor.
pub struct ImageCache<R> {
    downloads: Vec<Download<R>>,
    next_download_id: u64,
    task_actor: TaskActor<Timer>,
}

/// What the main loop of the cache hands back for one ready source.
pub struct ImageCacheStep<R> {
    /// What the actor runtime asks for; to be carried out first.
    pub actor_effects: Vec<TaskActorEffect>,
    /// What the cache asks for.
    pub effects: Vec<CacheEffect<R>>,
    /// Why the loop ends, if it does.
    pub stopped: Option<TaskActorStopReason>,
}

/// Reads the URL's text of a record.
pub closed spec fn download_url<R>() -> spec_fn(Download<R>) -> Seq<char> {
    |d: Download<R>| d.url@
}

/// Reads the view of a record.
pub closed spec fn download_view<R>() -> spec_fn(Download<R>) -> DownloadView<R> {
    |d: Download<R>| d@
}

/// The URL has a finished download whose hash is the one that the caller
/// expects.
pub open spec fn cached_hit<R>(
    state: ImageCacheView<R>,
    url: Seq<char>,
    expected: Option<ImageHash>,
) -> bool {
    &&& state.downloads.dom().contains(url)
    &&& state.downloads[url].hash.is_some()
    &&& expected.is_some()
    &&& expected.unwrap()@ == state.downloads[url].hash.unwrap()@
}

/// The URL has a download that has not given a hash.
pub open spec fn in_flight<R>(state: ImageCacheView<R>, url: Seq<char>) -> bool {
    state.downloads.dom().contains(url) && state.downloads[url].hash.is_none()
}

/// The cache can number one more download, task and timer.
pub open spec fn has_room<R>(state: ImageCacheView<R>) -> bool {
    &&& state.next_download_id < u64::MAX
    &&& state.actor.next_timer < u64::MAX
    &&& state.actor.tasks.next < u64::MAX
}

/// The state with a new download of `url` for one caller, and the download's
/// task and timeout.
pub open spec fn download_started<R>(
    state: ImageCacheView<R>,
    url: String,
    expected: Option<ImageHash>,
    response: R,
) -> ImageCacheView<R> {
    let task = TaskId(state.actor.tasks.next);
    let key = TimerKey(state.actor.next_timer);
    ImageCacheView {
        downloads: state.downloads.insert(
            url@,
            DownloadView {
                id: state.next_download_id,
                url,
                subscribers: seq![Subscriber { expected_hash: expected, response }],
                timer_key: key,
                task,
                hash: None,
            },
        ),
        next_download_id: (state.next_download_id + 1) as u64,
        actor: TaskActorView {
            shutdown: state.actor.shutdown,
            timers: state.actor.timers.insert(
                key,
                TaskActorTimer::Timer(Timer::DownloadTimeout(task, url)),
            ),
            next_timer: (state.actor.next_timer + 1) as u64,
            tasks: TaskGroupView {
                members: state.actor.tasks.members.insert(task),
                next: (state.actor.tasks.next + 1) as u64,
                cancelled: state.actor.tasks.cancelled,
            },
        },
    }
}

/// What a request does to the cache, and what it asks of the caller.
///
/// A finished download with the expected hash is answered at once. A
/// download in flight takes the caller in as one more subscriber. Otherwise
/// a new download starts, in the place of a finished one if there is one: it
/// gets the next number, a child task, and a timeout.
pub open spec fn request_step<R>(
    state: ImageCacheView<R>,
    url: String,
    expected: Option<ImageHash>,
    response: R,
) -> (ImageCacheView<R>, Seq<CacheEffect<R>>) {
    if cached_hit(state, url@, expected) {
        (
            state,
            seq![
                CacheEffect::Respond {
                    response,
                    result: GetImageHashResult::ImageCached(state.downloads[url@].hash.unwrap()),
                },
            ],
        )
    } else if in_flight(state, url@) {
        let d = state.downloads[url@];
        (
            ImageCacheView {
                downloads: state.downloads.insert(
                    url@,
                    DownloadView {
                        subscribers: d.subscribers.push(
                            Subscriber { expected_hash: expected, response },
                        ),
                        ..d
                    },
                ),
                ..state
            },
            Seq::<CacheEffect<R>>::empty(),
        )
    } else {
        (
            download_started(state, url, expected, response),
            seq![
                CacheEffect::SpawnDownload {
                    task: TaskId(state.actor.tasks.next),
                    download_id: state.next_download_id,
                    url,
                },
                CacheEffect::StartTimer {
                    key: TimerKey(state.actor.next_timer),
                    seconds: DOWNLOAD_TIMEOUT_SECS,
                },
            ],
        )
    }
}

/// One answer with `result` for each subscriber, in their order.
pub open spec fn responses<R>(subscribers: Seq<Subscriber<R>>, result: GetImageHashResult) -> Seq<
    CacheEffect<R>,
> {
    Seq::new(
        subscribers.len(),
        |i: int| CacheEffect::Respond { response: subscribers[i].response, result },
    )
}

/// What a worker's report does to the cache, and what it asks of the caller.
///
/// The download's timeout is disarmed if it is still pending, every
/// subscriber is answered with the result and leaves, and a hash that the
/// download gave is remembered. The worker has ended with its report, so its
/// task leaves the group. A report for a URL without record does nothing.
pub open spec fn result_step<R>(
    state: ImageCacheView<R>,
    url: Seq<char>,
    result: GetImageHashResult,
) -> (ImageCacheView<R>, Seq<CacheEffect<R>>) {
    if !state.downloads.dom().contains(url) {
        (state, Seq::<CacheEffect<R>>::empty())
    } else {
        let d = state.downloads[url];
        let disarm = if state.actor.timers.dom().contains(d.timer_key) {
            seq![CacheEffect::<R>::CancelTimer { key: d.timer_key }]
        } else {
            Seq::<CacheEffect<R>>::empty()
        };
        let hash = match result {
            GetImageHashResult::ImageCached(h) => Some(h),
            _ => d.hash,
        };
        (
            ImageCacheView {
                downloads: state.downloads.insert(
                    url,
                    DownloadView { subscribers: Seq::<Subscriber<R>>::empty(), hash, ..d },
                ),
                actor: TaskActorView {
                    timers: state.actor.timers.remove(d.timer_key),
                    tasks: TaskGroupView {
                        members: state.actor.tasks.members.remove(d.task),
                        ..state.actor.tasks
                    },
                    ..state.actor
                },
                ..state
            },
            disarm + responses(d.subscribers, result),
        )
    }
}

/// What a fired timer does to the cache, and what it asks of the caller.
///
/// A download that has taken too long is stopped by force, if its task is
/// still live, and the record of its URL is dropped; its subscribers get no
/// answer. An expired hash drops the record of its URL.
pub open spec fn timer_step<R>(state: ImageCacheView<R>, timer: Timer) -> (
    ImageCacheView<R>,
    Seq<CacheEffect<R>>,
) {
    match timer {
        Timer::DownloadTimeout(task, url) => (
            ImageCacheView {
                downloads: state.downloads.remove(url@),
                actor: TaskActorView {
                    tasks: TaskGroupView {
                        members: state.actor.tasks.members.remove(task),
                        ..state.actor.tasks
                    },
                    ..state.actor
                },
                ..state
            },
            if state.actor.tasks.members.contains(task) {
                seq![CacheEffect::<R>::AbortTask { task }]
            } else {
                Seq::<CacheEffect<R>>::empty()
            },
        ),
        Timer::UrlHashExpired(url) => (
            ImageCacheView { downloads: state.downloads.remove(url@), ..state },
            Seq::<CacheEffect<R>>::empty(),
        ),
    }
}

/// What a message does to the cache, and what it asks of the caller.
pub open spec fn message_step<R>(state: ImageCacheView<R>, message: ImageCacheMessage<R>) -> (
    ImageCacheView<R>,
    Seq<CacheEffect<R>>,
) {
    match message {
        ImageCacheMessage::GetImageHash { url, expected_hash, response } => request_step(
            state,
            url,
            expected_hash,
            response,
        ),
        ImageCacheMessage::GetImageHashResult(url, result) => result_step(state, url@, result),
    }
}

impl<R> ImageCache<R> {
    /// The cache as contracts see it.
    pub closed spec fn view(&self) -> ImageCacheView<R> {
        ImageCacheView {
            downloads: assoc_map(self.downloads@, download_url::<R>(), download_view::<R>()),
            next_download_id: self.next_download_id,
            actor: self.task_actor@,
        }
    }

    /// The cache is consistent: its actor is, and no URL has two records.
    pub closed spec fn wf(&self) -> bool {
        &&& self.task_actor.wf()
        &&& distinct_keys(self.downloads@, download_url::<R>())
    }

    /// A cache without records, whose first download gets the number 0.
    pub fn new() -> (cache: ImageCache<R>)
        ensures
            cache.wf(),
            cache@.downloads == Map::<Seq<char>, DownloadView<R>>::empty(),
            cache@.next_download_id == 0,
            cache@.actor.timers == Map::<TimerKey, TaskActorTimer<Timer>>::empty(),
            cache@.actor.tasks.members == Set::<TaskId>::empty(),
            !cache@.actor.shutdown,
            has_room(cache@),
    {
        proof {
            lemma_assoc_empty(download_url::<R>(), download_view::<R>());
        }
        ImageCache { downloads: Vec::new(), next_download_id: 0, task_actor: TaskActor::new() }
    }

    /// Whether the cache can number one more download, task and timer.
    pub fn has_room(&self) -> (room: bool)
        ensures
            room == has_room(self@),
    {
        self.next_download_id < u64::MAX && self.task_actor.has_timer_room()
            && self.task_actor.tasks().has_room()
    }

    /// Whether the actor still has anything to wait for.
    pub fn is_running(&self, receiver_closed: bool, receiver_empty: bool) -> (running: bool)
        requires
            self.wf(),
        ensures
            running == !(receiver_closed && receiver_empty && self@.actor.timers.dom() == Set::<
                TimerKey,
            >::empty()),
    {
        self.task_actor.is_running(receiver_closed, receiver_empty)
    }

    /// A child task reports its end and leaves the group.
    pub fn task_finished(&mut self, id: TaskId)
        requires
            old(self).wf(),
        ensures
            final(self).wf(),
            final(self)@.downloads == old(self)@.downloads,
            final(self)@.next_download_id == old(self)@.next_download_id,
            final(self)@.actor.tasks.members == old(self)@.actor.tasks.members.remove(id),
            final(self)@.actor.tasks.next == old(self)@.actor.tasks.next,
            final(self)@.actor.tasks.cancelled == old(self)@.actor.tasks.cancelled,
            final(self)@.actor.shutdown == old(self)@.actor.shutdown,
            final(self)@.actor.timers == old(self)@.actor.timers,
            final(self)@.actor.next_timer == old(self)@.actor.next_timer,
    {
        self.task_actor.task_finished(id);
    }

    fn position(&self, url: &String) -> (at: Option<usize>)
        requires
            self.wf(),
        ensures
            at.is_some() == self@.downloads.dom().contains(url@),
            at.is_some() ==> at.unwrap() < self.downloads@.len() && self.downloads@[at.unwrap() as int].url@
                == url@ && self@.downloads[url@] == self.downloads@[at.unwrap() as int]@,
    {
        let mut i: usize = 0;
        while i < self.downloads.len()
            invariant
                self.wf(),
                i <= self.downloads@.len(),
                forall|k: int| 0 <= k < i ==> (#[trigger] self.downloads@[k]).url@ != url@,
            decreases self.downloads@.len() - i,
        {
            if same_text(&self.downloads[i].url, url) {
                proof {
                    lemma_assoc_at(
                        self.downloads@,
                        download_url::<R>(),
                        download_view::<R>(),
                        i as int,
                    );
                }
                return Some(i);
            }
            i = i + 1;
        }
        proof {
            lemma_assoc_absent(self.downloads@, download_url::<R>(), download_view::<R>(), url@);
        }
        None
    }

    /// Takes the record of `url` out, if there is one.
    fn take(&mut self, url: &String) -> (taken: Option<Download<R>>)
        requires
            old(self).wf(),
        ensures
            final(self).wf(),
            taken.is_some() == old(self)@.downloads.dom().contains(url@),
            taken.is_some() ==> taken.unwrap()@ == old(self)@.downloads[url@] && taken.unwrap().url@
                == url@,
            final(self)@.downloads == old(self)@.downloads.remove(url@),
            final(self).next_download_id == old(self).next_download_id,
            final(self).task_actor == old(self).task_actor,
    {
        match self.position(url) {
            Some(i) => {
                proof {
                    lemma_assoc_remove(
                        self.downloads@,
                        download_url::<R>(),
                        download_view::<R>(),
                        i as int,
                    );
                }
                Some(self.downloads.remove(i))
            },
            None => {
                assert(self@.downloads.remove(url@) =~= self@.downloads);
                None
            },
        }
    }

    /// Puts a record in for a URL that has none.
    fn put(&mut self, download: Download<R>)
        requires
            old(self).wf(),
            !old(self)@.downloads.dom().contains(download.url@),
        ensures
            final(self).wf(),
            final(self)@.downloads == old(self)@.downloads.insert(download.url@, download@),
            final(self).next_download_id == old(self).next_download_id,
            final(self).task_actor == old(self).task_actor,
    {
        proof {
            lemma_assoc_push(
                self.downloads@,
                download_url::<R>(),
                download_view::<R>(),
                download,
            );
        }
        self.downloads.push(download);
    }

    /// Handles a caller's request for the image behind `url`.
    pub fn handle_get_image_hash(
        &mut self,
        url: String,
        expected_hash: Option<ImageHash>,
        response: R,
    ) -> (effects: Vec<CacheEffect<R>>)
        requires
            old(self).wf(),
            has_room(old(self)@),
        ensures
            final(self).wf(),
            (final(self)@, effects@) == request_step(old(self)@, url, expected_hash, response),
    {
        let ghost before = self@;
        let mut effects: Vec<CacheEffect<R>> = Vec::new();
        match self.take(&url) {
            Some(mut download) => {
                match &download.hash {
                    Some(hash) => {
                        let hit = match &expected_hash {
                            Some(expected) => same_text(expected, hash),
                            None => false,
                        };
                        if hit {
                            effects.push(
                                CacheEffect::Respond {
                                    response,
                                    result: GetImageHashResult::ImageCached(hash.clone()),
                                },
                            );
                            self.put(download);
                            proof {
                                assert(self@.downloads =~= before.downloads);
                                assert(effects@ =~= request_step(
                                    before,
                                    url,
                                    expected_hash,
                                    response,
                                ).1);
                            }
                            return effects;
                        }
                    },
                    None => {
                        download.subscribers.push(Subscriber { expected_hash, response });
                        self.put(download);
                        proof {
                            assert(self@.downloads =~= request_step(
                                before,
                                url,
                                expected_hash,
                                response,
                            ).0.downloads);
                            assert(effects@ =~= Seq::<CacheEffect<R>>::empty());
                        }
                        return effects;
                    },
                }
            },
            None => {},
        }
        let download_id = self.next_download_id;
        self.next_download_id = self.next_download_id + 1;
        let task = self.task_actor.spawn_task();
        let timer_key = self.task_actor.insert_timer(Timer::DownloadTimeout(task, url.clone()));
        effects.push(CacheEffect::SpawnDownload { task, download_id, url: url.clone() });
        effects.push(CacheEffect::StartTimer { key: timer_key, seconds: DOWNLOAD_TIMEOUT_SECS });
        let mut subscribers: Vec<Subscriber<R>> = Vec::new();
        subscribers.push(Subscriber { expected_hash, response });
        self.put(Download { id: download_id, url, subscribers, timer_key, task, hash: None });
        proof {
            let after = request_step(before, url, expected_hash, response);
            assert(self@.downloads =~= after.0.downloads);
            assert(self@.actor.timers =~= after.0.actor.timers);
            assert(self@.actor.tasks == after.0.actor.tasks);
            assert(self@.actor == after.0.actor);
            assert(effects@ =~= after.1);
        }
        effects
    }

    /// Handles a worker's report on the download of `url`.
    pub fn handle_result(&mut self, url: String, result: GetImageHashResult) -> (effects: Vec<
        CacheEffect<R>,
    >)
        requires
            old(self).wf(),
        ensures
            final(self).wf(),
            (final(self)@, effects@) == result_step(old(self)@, url@, result),
    {
        let ghost before = self@;
        let mut effects: Vec<CacheEffect<R>> = Vec::new();
        match self.take(&url) {
            None => {
                proof {
                    assert(self@.downloads =~= before.downloads);
                    assert(effects@ =~= Seq::<CacheEffect<R>>::empty());
                }
                effects
            },
            Some(download) => {
                let ghost d = download@;
                let Download { id, url: own_url, subscribers, timer_key, task, hash } = download;
                if self.task_actor.remove_timer(timer_key) {
                    effects.push(CacheEffect::CancelTimer { key: timer_key });
                }
                self.task_actor.task_finished(task);
                let ghost disarm = effects@;
                let mut waiting = subscribers;
                let ghost all = waiting@;
                let mut done: usize = 0;
                let count: usize = waiting.len();
                proof {
                    assert(responses(all.subrange(0, 0), result) =~= Seq::<CacheEffect<R>>::empty());
                    assert(all.subrange(0, all.len() as int) =~= all);
                }
                while done < count
                    invariant
                        done <= count,
                        count == all.len(),
                        waiting@ == all.subrange(done as int, count as int),
                        effects@ == disarm + responses(all.subrange(0, done as int), result),
                    decreases count - done,
                {
                    let subscriber = waiting.remove(0);
                    effects.push(
                        CacheEffect::Respond {
                            response: subscriber.response,
                            result: result.duplicate(),
                        },
                    );
                    proof {
                        assert(subscriber == all[done as int]);
                        assert(waiting@ =~= all.subrange(done + 1, count as int));
                        assert(effects@ =~= disarm + responses(
                            all.subrange(0, done + 1),
                            result,
                        ));
                    }
                    done = done + 1;
                }
                let hash = match result {
                    GetImageHashResult::ImageCached(h) => Some(h),
                    _ => hash,
                };
                self.put(Download { id, url: own_url, subscribers: waiting, timer_key, task, hash });
                proof {
                    let after = result_step(before, url@, result);
                    assert(all.subrange(0, count as int) =~= all);
                    assert(waiting@ =~= Seq::<Subscriber<R>>::empty());
                    assert(self@.downloads =~= after.0.downloads);
                    assert(self@.actor.tasks == after.0.actor.tasks);
                    assert(self@.actor == after.0.actor);
                    assert(effects@ =~= after.1);
                }
                effects
            },
        }
    }

    /// Handles a message of the actor's channel.
    pub fn handle_message(&mut self, message: ImageCacheMessage<R>) -> (effects: Vec<
        CacheEffect<R>,
    >)
        requires
            old(self).wf(),
            has_room(old(self)@),
        ensures
            final(self).wf(),
            (final(self)@, effects@) == message_step(old(self)@, message),
    {
        match message {
            ImageCacheMessage::GetImageHash { url, expected_hash, response } => {
                self.handle_get_image_hash(url, expected_hash, response)
            },
            ImageCacheMessage::GetImageHashResult(url, result) => self.handle_result(url, result),
        }
    }

    /// Handles a timer of the cache that fired.
    pub fn handle_timer(&mut self, timer: Timer) -> (effects: Vec<CacheEffect<R>>)
        requires
            old(self).wf(),
        ensures
            final(self).wf(),
            (final(self)@, effects@) == timer_step(old(self)@, timer),
    {
        let ghost before = self@;
        let mut effects: Vec<CacheEffect<R>> = Vec::new();
        match timer {
            Timer::DownloadTimeout(task, url) => {
                if self.task_actor.abort_task(task) {
                    effects.push(CacheEffect::AbortTask { task });
                }
                let _ = self.take(&url);
                proof {
                    let after = timer_step(before, timer);
                    assert(self@.actor.tasks == after.0.actor.tasks);
                    assert(self@.actor == after.0.actor);
                    assert(effects@ =~= after.1);
                }
            },
            Timer::UrlHashExpired(url) => {
                let _ = self.take(&url);
                proof {
                    assert(effects@ =~= timer_step(before, timer).1);
                }
            },
        }
        effects
    }

    /// One round of the actor's main loop: takes the source that became
    /// ready through the actor runtime and handles the message or timer that
    /// comes out of it.
    pub fn run(&mut self, input: TaskActorInput<ImageCacheMessage<R>>) -> (step: ImageCacheStep<R>)
        requires
            old(self).wf(),
            has_room(old(self)@),
        ensures
            final(self).wf(),
            match input {
                TaskActorInput::Received(message) => {
                    &&& step.stopped.is_none()
                    &&& step.actor_effects@.len() == 0
                    &&& (final(self)@, step.effects@) == message_step(old(self)@, message)
                },
                TaskActorInput::ChannelClosed => {
                    &&& step.stopped == Some(TaskActorStopReason::Closed)
                    &&& step.effects@.len() == 0
                    &&& shutdown_entered(
                        old(self)@.actor,
                        final(self)@.actor,
                        step.actor_effects@,
                    )
                    &&& final(self)@.downloads == old(self)@.downloads
                    &&& final(self)@.next_download_id == old(self)@.next_download_id
                },
                TaskActorInput::Cancelled => {
                    &&& step.stopped == Some(TaskActorStopReason::Cancelled)
                    &&& step.effects@.len() == 0
                    &&& shutdown_entered(
                        old(self)@.actor,
                        final(self)@.actor,
                        step.actor_effects@,
                    )
                    &&& final(self)@.downloads == old(self)@.downloads
                    &&& final(self)@.next_download_id == old(self)@.next_download_id
                },
                TaskActorInput::TimerFired(key) => {
                    if !old(self)@.actor.timers.dom().contains(key) {
                        &&& step.stopped.is_none()
                        &&& step.actor_effects@.len() == 0
                        &&& step.effects@.len() == 0
                        &&& final(self)@ == old(self)@
                    } else {
                        match old(self)@.actor.timers[key] {
                            TaskActorTimer::Timer(timer) => {
                                &&& step.stopped.is_none()
                                &&& step.actor_effects@.len() == 0
                                &&& (final(self)@, step.effects@) == timer_step(
                                    ImageCacheView {
                                        actor: TaskActorView {
                                            timers: old(self)@.actor.timers.remove(key),
                                            ..old(self)@.actor
                                        },
                                        ..old(self)@
                                    },
                                    timer,
                                )
                            },
                            TaskActorTimer::ShutdownTimeout => {
                                &&& step.stopped == Some(TaskActorStopReason::Aborted)
                                &&& step.effects@.len() == 0
                                &&& step.actor_effects@.len() == 1
                                &&& step.actor_effects@[0] matches TaskActorEffect::AbortTasks(ids)
                                    && ids@.no_duplicates() && ids@.to_set()
                                    == old(self)@.actor.tasks.members
                                &&& final(self)@.actor.tasks.members == Set::<TaskId>::empty()
                                &&& final(self)@.actor.timers == old(self)@.actor.timers.remove(
                                    key,
                                )
                                &&& final(self)@.downloads == old(self)@.downloads
                                &&& final(self)@.next_download_id == old(self)@.next_download_id
                            },
                        }
                    }
                },
            },
    {
        let ghost before = self@;
        let actor_step = self.task_actor.update(input);
        let actor_effects = actor_step.effects;
        match actor_step.event {
            None => {
                proof {
                    assert(self@.actor.timers =~= before.actor.timers);
                    assert(self@.actor == before.actor);
                }
                ImageCacheStep { actor_effects, effects: Vec::new(), stopped: None }
            },
            Some(TaskActorEvent::Message(message)) => {
                let effects = self.handle_message(message);
                ImageCacheStep { actor_effects, effects, stopped: None }
            },
            Some(TaskActorEvent::Timer(timer)) => {
                let effects = self.handle_timer(timer);
                ImageCacheStep { actor_effects, effects, stopped: None }
            },
            Some(TaskActorEvent::Stopped(reason)) => {
                ImageCacheStep { actor_effects, effects: Vec::new(), stopped: Some(reason) }
            },
        }
    }
}

/// The cache after the callers of `callers` asked for `url` one after
/// another, none of them naming a hash.
pub open spec fn after_requests<R>(state: ImageCacheView<R>, url: String, callers: Seq<R>) -> ImageCacheView<
    R,
>
    decreases callers.len(),
{
    if callers.len() == 0 {
        state
    } else {
        request_step(
            after_requests(state, url, callers.drop_last()),
            url,
            None,
            callers.last(),
        ).0
    }
}

/// The subscribers that the callers of `callers` make, none naming a hash.
pub open spec fn plain_subscribers<R>(callers: Seq<R>) -> Seq<Subscriber<R>> {
    Seq::new(callers.len(), |i: int| Subscriber { expected_hash: None, response: callers[i] })
}

/// After one or more requests for a URL that had no download in flight, the
/// URL has one download in flight, started by the first request, and every
/// caller waits for it.
pub proof fn lemma_requests_share_download<R>(
    state: ImageCacheView<R>,
    url: String,
    callers: Seq<R>,
)
    requires
        !in_flight(state, url@),
        callers.len() >= 1,
    ensures
        in_flight(after_requests(state, url, callers), url@),
        after_requests(state, url, callers).downloads[url@].subscribers == plain_subscribers(
            callers,
        ),
        after_requests(state, url, callers).downloads[url@].id == state.next_download_id,
        after_requests(state, url, callers).downloads[url@].task == TaskId(state.actor.tasks.next),
        after_requests(state, url, callers).downloads[url@].timer_key == TimerKey(
            state.actor.next_timer,
        ),
        after_requests(state, url, callers).actor == download_started(
            state,
            url,
            None,
            callers[0],
        ).actor,
        after_requests(state, url, callers).next_download_id == download_started(
            state,
            url,
            None,
            callers[0],
        ).next_download_id,
    decreases callers.len(),
{
    let earlier = callers.drop_last();
    if earlier.len() == 0 {
        assert(after_requests(state, url, earlier) == state);
        assert(!cached_hit(state, url@, None::<ImageHash>));
        assert(callers.last() == callers[0]);
        assert(seq![Subscriber { expected_hash: None::<ImageHash>, response: callers[0] }]
            =~= plain_subscribers(callers));
    } else {
        lemma_requests_share_download(state, url, earlier);
        assert(earlier[0] == callers[0]);
        assert(plain_subscribers(earlier).push(
            Subscriber { expected_hash: None::<ImageHash>, response: callers.last() },
        ) =~= plain_subscribers(callers));
    }
}

/// Single flight. When callers ask for the same URL, which has no download
/// in flight, before the download ends, then only the first request starts a
/// download; the later ones ask nothing of the caller; and the worker's
/// report answers every caller with the same result, in the order in which
/// they came.
pub proof fn lemma_single_flight<R>(
    state: ImageCacheView<R>,
    url: String,
    callers: Seq<R>,
    result: GetImageHashResult,
)
    requires
        !in_flight(state, url@),
        callers.len() >= 1,
    ensures
        request_step(state, url, None, callers[0]).1 == seq![
            CacheEffect::<R>::SpawnDownload {
                task: TaskId(state.actor.tasks.next),
                download_id: state.next_download_id,
                url,
            },
            CacheEffect::<R>::StartTimer {
                key: TimerKey(state.actor.next_timer),
                seconds: DOWNLOAD_TIMEOUT_SECS,
            },
        ],
        forall|i: int|
            1 <= i < callers.len() ==> (#[trigger] request_step(
                after_requests(state, url, callers.subrange(0, i)),
                url,
                None,
                callers[i],
            )).1.len() == 0,
        result_step(after_requests(state, url, callers), url@, result).1 == seq![
            CacheEffect::<R>::CancelTimer { key: TimerKey(state.actor.next_timer) },
        ] + Seq::new(
            callers.len(),
            |i: int| CacheEffect::<R>::Respond { response: callers[i], result },
        ),
{
    assert(!cached_hit(state, url@, None::<ImageHash>));
    assert forall|i: int| 1 <= i < callers.len() implies (#[trigger] request_step(
        after_requests(state, url, callers.subrange(0, i)),
        url,
        None,
        callers[i],
    )).1.len() == 0 by {
        lemma_requests_share_download(state, url, callers.subrange(0, i));
    }
    lemma_requests_share_download(state, url, callers);
    let waiting = after_requests(state, url, callers);
    assert(waiting.actor.timers.dom().contains(TimerKey(state.actor.next_timer)));
    assert(responses(plain_subscribers(callers), result) =~= Seq::new(
        callers.len(),
        |i: int| CacheEffect::<R>::Respond { response: callers[i], result },
    ));
}

/// Only a download that ended well leaves a hash behind: after any other
/// report the URL's record holds the hash that it held before.
pub proof fn lemma_failure_publishes_nothing<R>(
    state: ImageCacheView<R>,
    url: Seq<char>,
    result: GetImageHashResult,
)
    requires
        state.downloads.dom().contains(url),
        !(result is ImageCached),
    ensures
        result_step(state, url, result).0.downloads[url].hash == state.downloads[url].hash,
        result_step(state, url, result).0.downloads.dom() == state.downloads.dom(),
{
    assert(result_step(state, url, result).0.downloads.dom() =~= state.downloads.dom());
}

} // verus!
