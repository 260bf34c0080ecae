use vmm::download::{cached_answer, check_response, worker_report, DownloadWorker, WorkerOutcome};
use vmm::image_cache::{
    CacheEffect, GetImageHashResult, ImageCache, ImageCacheMessage, Timer, DOWNLOAD_TIMEOUT_SECS,
};
use vmm::progress_router::ProgressMessage;
use vmm::sha256::ImageHasher;
use vmm::task_actor::{TaskActorEffect, TaskActorInput, TaskActorStopReason, TimerKey};
use vmm::task_group::TaskId;

const URL: &str = "https://example/img.qcow2";
const ABC: &str = "ba7816bf8f01cfea414140de5dae2223b00361a396177a9cb410ff61f20015ad";

fn url() -> String {
    URL.to_string()
}

fn cached(hash: &str) -> GetImageHashResult {
    GetImageHashResult::ImageCached(hash.to_string())
}

#[test]
fn the_first_request_starts_a_download() {
    let mut cache: ImageCache<u32> = ImageCache::new();
    let effects = cache.handle_get_image_hash(url(), None, 1);
    assert_eq!(
        effects,
        vec![
            CacheEffect::SpawnDownload { task: TaskId(0), download_id: 0, url: url() },
            CacheEffect::StartTimer { key: TimerKey(0), seconds: 60 },
        ]
    );
    assert_eq!(DOWNLOAD_TIMEOUT_SECS, 60);
}

#[test]
fn concurrent_requests_share_one_download() {
    let mut cache: ImageCache<u32> = ImageCache::new();
    assert_eq!(cache.handle_get_image_hash(url(), None, 1).len(), 2);
    assert!(cache.handle_get_image_hash(url(), None, 2).is_empty());
    assert!(cache.handle_get_image_hash(url(), Some("other".to_string()), 3).is_empty());
    let effects = cache.handle_result(url(), cached(ABC));
    assert_eq!(
        effects,
        vec![
            CacheEffect::CancelTimer { key: TimerKey(0) },
            CacheEffect::Respond { response: 1, result: cached(ABC) },
            CacheEffect::Respond { response: 2, result: cached(ABC) },
            CacheEffect::Respond { response: 3, result: cached(ABC) },
        ]
    );
}

#[test]
fn a_finished_download_answers_a_matching_request_at_once() {
    let mut cache: ImageCache<u32> = ImageCache::new();
    cache.handle_get_image_hash(url(), None, 1);
    cache.handle_result(url(), cached(ABC));
    let effects = cache.handle_get_image_hash(url(), Some(ABC.to_string()), 2);
    assert_eq!(effects, vec![CacheEffect::Respond { response: 2, result: cached(ABC) }]);
}

#[test]
fn a_stale_hash_is_evicted_and_downloaded_again() {
    let mut cache: ImageCache<u32> = ImageCache::new();
    cache.handle_get_image_hash(url(), None, 1);
    cache.handle_result(url(), cached(ABC));
    let effects = cache.handle_get_image_hash(url(), Some("deadbeef".to_string()), 2);
    assert_eq!(
        effects,
        vec![
            CacheEffect::SpawnDownload { task: TaskId(1), download_id: 1, url: url() },
            CacheEffect::StartTimer { key: TimerKey(1), seconds: 60 },
        ]
    );
    let again = cache.handle_get_image_hash(url(), None, 3);
    assert!(again.is_empty());
    let effects = cache.handle_result(url(), cached("00"));
    assert_eq!(
        effects,
        vec![
            CacheEffect::CancelTimer { key: TimerKey(1) },
            CacheEffect::Respond { response: 2, result: cached("00") },
            CacheEffect::Respond { response: 3, result: cached("00") },
        ]
    );
}

#[test]
fn a_request_without_expectation_downloads_again() {
    let mut cache: ImageCache<u32> = ImageCache::new();
    cache.handle_get_image_hash(url(), None, 1);
    cache.handle_result(url(), cached(ABC));
    let effects = cache.handle_get_image_hash(url(), None, 2);
    assert_eq!(effects.len(), 2);
    assert_eq!(
        effects[0],
        CacheEffect::SpawnDownload { task: TaskId(1), download_id: 1, url: url() }
    );
}

#[test]
fn different_urls_download_side_by_side() {
    let mut cache: ImageCache<u32> = ImageCache::new();
    cache.handle_get_image_hash(url(), None, 1);
    let effects = cache.handle_get_image_hash("https://example/other".to_string(), None, 2);
    assert_eq!(
        effects,
        vec![
            CacheEffect::SpawnDownload {
                task: TaskId(1),
                download_id: 1,
                url: "https://example/other".to_string()
            },
            CacheEffect::StartTimer { key: TimerKey(1), seconds: 60 },
        ]
    );
}

#[test]
fn a_cancelled_download_answers_cancelled_and_keeps_no_hash() {
    let mut cache: ImageCache<u32> = ImageCache::new();
    cache.handle_get_image_hash(url(), None, 1);
    let message: ImageCacheMessage<u32> = worker_report(url(), WorkerOutcome::Cancelled);
    assert_eq!(
        message,
        ImageCacheMessage::GetImageHashResult(url(), GetImageHashResult::DownloadCancelled)
    );
    let effects = cache.handle_message(message);
    assert_eq!(
        effects,
        vec![
            CacheEffect::CancelTimer { key: TimerKey(0) },
            CacheEffect::Respond { response: 1, result: GetImageHashResult::DownloadCancelled },
        ]
    );
    let other = cache.handle_get_image_hash("https://example/next".to_string(), None, 2);
    assert_eq!(other.len(), 2);
    let same = cache.handle_get_image_hash(url(), Some(ABC.to_string()), 3);
    assert!(same.is_empty());
}

#[test]
fn a_result_for_an_unknown_url_does_nothing() {
    let mut cache: ImageCache<u32> = ImageCache::new();
    assert!(cache.handle_result(url(), cached(ABC)).is_empty());
}

#[test]
fn a_download_timeout_aborts_the_worker_and_drops_the_record() {
    let mut cache: ImageCache<u32> = ImageCache::new();
    cache.handle_get_image_hash(url(), None, 1);
    let effects = cache.handle_timer(Timer::DownloadTimeout(TaskId(0), url()));
    assert_eq!(effects, vec![CacheEffect::AbortTask { task: TaskId(0) }]);
    let again = cache.handle_get_image_hash(url(), None, 2);
    assert_eq!(
        again[0],
        CacheEffect::SpawnDownload { task: TaskId(1), download_id: 1, url: url() }
    );
}

#[test]
fn an_expired_hash_drops_the_record() {
    let mut cache: ImageCache<u32> = ImageCache::new();
    cache.handle_get_image_hash(url(), None, 1);
    cache.handle_result(url(), cached(ABC));
    assert!(cache.handle_timer(Timer::UrlHashExpired(url())).is_empty());
    let effects = cache.handle_get_image_hash(url(), Some(ABC.to_string()), 2);
    assert_eq!(effects.len(), 2);
}

#[test]
fn the_main_loop_handles_messages_and_timers() {
    let mut cache: ImageCache<u32> = ImageCache::new();
    assert!(cache.has_room());
    let step = cache.run(TaskActorInput::Received(ImageCacheMessage::GetImageHash {
        url: url(),
        expected_hash: None,
        response: 9,
    }));
    assert_eq!(step.stopped, None);
    assert!(step.actor_effects.is_empty());
    assert_eq!(step.effects.len(), 2);
    let step = cache.run(TaskActorInput::TimerFired(TimerKey(0)));
    assert_eq!(step.stopped, None);
    assert_eq!(step.effects, vec![CacheEffect::AbortTask { task: TaskId(0) }]);
    let step = cache.run(TaskActorInput::TimerFired(TimerKey(0)));
    assert!(step.effects.is_empty());
    assert_eq!(step.stopped, None);
}

#[test]
fn the_main_loop_stops_on_cancellation() {
    let mut cache: ImageCache<u32> = ImageCache::new();
    cache.handle_get_image_hash(url(), None, 1);
    let step = cache.run(TaskActorInput::Cancelled);
    assert_eq!(step.stopped, Some(TaskActorStopReason::Cancelled));
    assert!(step.effects.is_empty());
    assert_eq!(
        step.actor_effects,
        vec![
            TaskActorEffect::CloseReceiver,
            TaskActorEffect::StartTimer { key: TimerKey(1), seconds: 5 },
            TaskActorEffect::CancelTasks,
            TaskActorEffect::AwaitTasks(vec![TaskId(0)]),
        ]
    );
    assert!(cache.is_running(true, true));
    let step = cache.run(TaskActorInput::TimerFired(TimerKey(1)));
    assert_eq!(step.stopped, Some(TaskActorStopReason::Aborted));
    assert_eq!(step.actor_effects, vec![TaskActorEffect::AbortTasks(vec![TaskId(0)])]);
    let step = cache.run(TaskActorInput::ChannelClosed);
    assert_eq!(step.stopped, Some(TaskActorStopReason::Closed));
    assert!(step.actor_effects.is_empty());
}

#[test]
fn task_finished_frees_the_task() {
    let mut cache: ImageCache<u32> = ImageCache::new();
    cache.handle_get_image_hash(url(), None, 1);
    cache.task_finished(TaskId(0));
    let effects = cache.handle_timer(Timer::DownloadTimeout(TaskId(0), url()));
    assert!(effects.is_empty());
}

#[test]
fn the_response_head_is_checked() {
    assert_eq!(check_response(200, Some(10)), Ok(10));
    assert_eq!(check_response(299, Some(0)), Ok(0));
    assert_eq!(check_response(200, None), Err(GetImageHashResult::DownloadNoContentLength));
    assert_eq!(check_response(404, None), Err(GetImageHashResult::DownloadNoContentLength));
    assert_eq!(check_response(404, Some(10)), Err(GetImageHashResult::DownloadFailed(404)));
    assert_eq!(check_response(199, Some(10)), Err(GetImageHashResult::DownloadFailed(199)));
    assert_eq!(check_response(300, Some(10)), Err(GetImageHashResult::DownloadFailed(300)));
}

#[test]
fn worker_outcomes_become_results() {
    let done: ImageCacheMessage<u8> = worker_report(url(), WorkerOutcome::Finished(cached(ABC)));
    assert_eq!(done, ImageCacheMessage::GetImageHashResult(url(), cached(ABC)));
    let failed: ImageCacheMessage<u8> = worker_report(url(), WorkerOutcome::Failed);
    assert_eq!(
        failed,
        ImageCacheMessage::GetImageHashResult(url(), GetImageHashResult::UnknownError)
    );
}

#[test]
fn the_fast_path_needs_an_expected_hash_in_the_cache() {
    assert_eq!(cached_answer(&Some(ABC.to_string()), true), Some(cached(ABC)));
    assert_eq!(cached_answer(&Some(ABC.to_string()), false), None);
    assert_eq!(cached_answer(&None, true), None);
}

#[test]
fn the_hasher_names_an_image_by_its_sha256() {
    let mut hasher = ImageHasher::new();
    hasher.update(b"a");
    hasher.update(b"bc");
    assert_eq!(hasher.finalize(), ABC);
    assert_eq!(
        ImageHasher::new().finalize(),
        "e3b0c44298fc1c149afbf4c8996fb92427ae41e4649b934ca495991b7852b855"
    );
}

#[test]
fn a_download_reports_start_updates_and_finish() {
    let (mut worker, start) = DownloadWorker::begin(7, 200, Some(11)).unwrap();
    assert_eq!(start, ProgressMessage::Start("download/7".to_string(), Some(11)));
    assert_eq!(worker.chunk(b"hello "), ProgressMessage::Update("download/7".to_string(), 6));
    assert_eq!(worker.chunk(b"world"), ProgressMessage::Update("download/7".to_string(), 5));
    let (finish, result) = worker.finish();
    assert_eq!(finish, ProgressMessage::Finish("download/7".to_string()));
    assert_eq!(
        result,
        cached("b94d27b9934d3e08a52e52d7da7dabfac484efe37a5380ee9088f7ace2efcde9")
    );
}

#[test]
fn a_flipped_byte_changes_the_hash() {
    let (mut worker, _) = DownloadWorker::begin(1, 200, Some(3)).unwrap();
    worker.chunk(b"abd");
    let (_, result) = worker.finish();
    assert_ne!(result, cached(ABC));
}

#[test]
fn a_download_does_not_begin_on_a_bad_head() {
    assert_eq!(
        DownloadWorker::begin(1, 500, Some(3)).err(),
        Some(GetImageHashResult::DownloadFailed(500))
    );
    assert_eq!(
        DownloadWorker::begin(1, 200, None).err(),
        Some(GetImageHashResult::DownloadNoContentLength)
    );
}

#[test]
fn a_broken_body_ends_the_download() {
    let (mut worker, _) = DownloadWorker::begin(1, 200, Some(3)).unwrap();
    worker.chunk(b"a");
    assert_eq!(worker.read_failed(), GetImageHashResult::DownloadFailedToReadChunk);
}

#[test]
fn a_worker_that_reported_has_left_the_group() {
    let mut cache: ImageCache<u32> = ImageCache::new();
    cache.handle_get_image_hash(url(), None, 1);
    cache.handle_result(url(), GetImageHashResult::DownloadFailed(500));
    let effects = cache.handle_timer(Timer::DownloadTimeout(TaskId(0), url()));
    assert!(effects.is_empty());
    let step = cache.run(TaskActorInput::Cancelled);
    assert_eq!(step.actor_effects[3], TaskActorEffect::AwaitTasks(vec![]));
}
