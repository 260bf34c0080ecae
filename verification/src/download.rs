//! The download worker of the image cache: what it decides between the
//! steps of a transfer, and what it reports.

use crate::image_cache::{GetImageHashResult, ImageCacheMessage, ImageHash};
use crate::progress_router::{
    download_progress_id, progress_id, reports_in_order, ProgressMessage, ProgressMessageView,
};
use crate::sha256::{image_hash_of, ImageHasher};
use vstd::prelude::*;

verus! {

/// Whether an HTTP status is a success.
pub open spec fn is_success(status: u16) -> bool {
    200 <= status < 300
}

/// What the response's head means for the download: the length of the body,
/// or the result that ends the download. A missing length is refused before
/// the status is looked at.
pub open spec fn response_checked(status: u16, content_length: Option<u64>) -> Result<
    u64,
    GetImageHashResult,
> {
    match content_length {
        None => Err(GetImageHashResult::DownloadNoContentLength),
        Some(length) => if is_success(status) {
            Ok(length)
        } else {
            Err(GetImageHashResult::DownloadFailed(status))
        },
    }
}

/// Checks the head of the response.
pub fn check_response(status: u16, content_length: Option<u64>) -> (r: Result<
    u64,
    GetImageHashResult,
>)
    ensures
        r == response_checked(status, content_length),
{
    match content_length {
        None => Err(GetImageHashResult::DownloadNoContentLength),
        Some(length) => {
            if 200 <= status && status < 300 {
                Ok(length)
            } else {
                Err(GetImageHashResult::DownloadFailed(status))
            }
        },
    }
}

/// How the race between a download and cancellation ended.
#[derive(Debug, PartialEq, Eq)]
pub enum WorkerOutcome {
    /// The download ran to a result.
    Finished(GetImageHashResult),
    /// The download broke with a fault that has no result of its own.
    Failed,
    /// Cancellation came first.
    Cancelled,
}

/// The result that a worker reports for an outcome.
pub open spec fn outcome_result(outcome: WorkerOutcome) -> GetImageHashResult {
    match outcome {
        WorkerOutcome::Finished(result) => result,
        WorkerOutcome::Failed => GetImageHashResult::UnknownError,
        WorkerOutcome::Cancelled => GetImageHashResult::DownloadCancelled,
    }
}

/// The message that a worker sends to its own actor when it ends, so that
/// the result is handled in turn with the other messages.
pub fn worker_report<R>(url: String, outcome: WorkerOutcome) -> (message: ImageCacheMessage<R>)
    ensures
        message == ImageCacheMessage::<R>::GetImageHashResult(url, outcome_result(outcome)),
{
    let result = match outcome {
        WorkerOutcome::Finished(result) => result,
        WorkerOutcome::Failed => GetImageHashResult::UnknownError,
        WorkerOutcome::Cancelled => GetImageHashResult::DownloadCancelled,
    };
    ImageCacheMessage::GetImageHashResult(url, result)
}

/// What a caller is told without asking the actor: an image whose expected
/// hash names a file of the cache is there already.
pub open spec fn fast_path(expected_hash: Option<ImageHash>, cached: bool) -> Option<
    GetImageHashResult,
> {
    match expected_hash {
        Some(hash) => if cached {
            Some(GetImageHashResult::ImageCached(hash))
        } else {
            None
        },
        None => None,
    }
}

/// The answer that needs no actor, if there is one. `cached` says whether
/// the cache holds a file under the expected hash.
pub fn cached_answer(expected_hash: &Option<ImageHash>, cached: bool) -> (answer: Option<
    GetImageHashResult,
>)
    ensures
        answer == fast_path(*expected_hash, cached),
{
    match expected_hash {
        Some(hash) => {
            if cached {
                Some(GetImageHashResult::ImageCached(hash.clone()))
            } else {
                None
            }
        },
        None => None,
    }
}

/// A download in progress as contracts see it.
pub struct DownloadWorkerView {
    /// The number of the download.
    pub download_id: u64,
    /// The bytes of the body so far.
    pub received: Seq<u8>,
    /// The progress reports so far.
    pub reported: Seq<ProgressMessageView>,
}

/// A download between the head of the response and the end of the body.
pub struct DownloadWorker {
    download_id: u64,
    hasher: ImageHasher,
    reported: Ghost<Seq<ProgressMessageView>>,
}

impl DownloadWorker {
    /// The download as contracts see it.
    pub closed spec fn view(&self) -> DownloadWorkerView {
        DownloadWorkerView {
            download_id: self.download_id,
            received: self.hasher.absorbed(),
            reported: self.reported@,
        }
    }

    /// The reports so far are a start and then updates, all under the
    /// download's progress identifier.
    pub open spec fn wf(&self) -> bool {
        &&& self@.reported.len() >= 1
        &&& reports_in_order(self@.reported, download_progress_id(self@.download_id))
        &&& forall|i: int| 0 <= i < self@.reported.len() ==> !((#[trigger] self@.reported[i]) is Finish)
    }

    /// Begins the download `download_id` on the head of the response: the
    /// worker and its first report, or the result that ends the download.
    pub fn begin(download_id: u64, status: u16, content_length: Option<u64>) -> (r: Result<
        (DownloadWorker, ProgressMessage),
        GetImageHashResult,
    >)
        ensures
            match response_checked(status, content_length) {
                Err(result) => r == Err::<(DownloadWorker, ProgressMessage), GetImageHashResult>(
                    result,
                ),
                Ok(length) => {
                    &&& r.is_ok()
                    &&& r.unwrap().0.wf()
                    &&& r.unwrap().0@.download_id == download_id
                    &&& r.unwrap().0@.received == Seq::<u8>::empty()
                    &&& r.unwrap().0@.reported == seq![r.unwrap().1@]
                    &&& r.unwrap().1@ == ProgressMessageView::Start(
                        download_progress_id(download_id),
                        Some(length),
                    )
                },
            },
    {
        match check_response(status, content_length) {
            Err(result) => Err(result),
            Ok(length) => {
                let message = ProgressMessage::Start(progress_id(download_id), Some(length));
                let ghost first = seq![message@];
                let worker = DownloadWorker {
                    download_id,
                    hasher: ImageHasher::new(),
                    reported: Ghost(first),
                };
                Ok((worker, message))
            },
        }
    }

    /// Takes one chunk of the body in and reports its length.
    pub fn chunk(&mut self, data: &[u8]) -> (message: ProgressMessage)
        requires
            old(self).wf(),
        ensures
            final(self).wf(),
            final(self)@.download_id == old(self)@.download_id,
            final(self)@.received == old(self)@.received + data@,
            final(self)@.reported == old(self)@.reported.push(message@),
            message@ == ProgressMessageView::Update(
                download_progress_id(old(self)@.download_id),
                data@.len() as u64,
            ),
    {
        self.hasher.update(data);
        let message = ProgressMessage::Update(progress_id(self.download_id), data.len() as u64);
        proof {
            self.reported@ = self.reported@.push(message@);
        }
        message
    }

    /// The body broke off: the download ends without an image.
    pub fn read_failed(self) -> (result: GetImageHashResult)
        ensures
            result == GetImageHashResult::DownloadFailedToReadChunk,
    {
        GetImageHashResult::DownloadFailedToReadChunk
    }

    /// The body is complete: the last report, and the image's name, which is
    /// the SHA-256 of all bytes that came, in hexadecimal.
    pub fn finish(self) -> (end: (ProgressMessage, GetImageHashResult))
        requires
            self.wf(),
        ensures
            end.0@ == ProgressMessageView::Finish(download_progress_id(self@.download_id)),
            reports_in_order(
                self@.reported.push(end.0@),
                download_progress_id(self@.download_id),
            ),
            end.1 matches GetImageHashResult::ImageCached(hash) && hash@ == image_hash_of(
                self@.received,
            ),
    {
        let message = ProgressMessage::Finish(progress_id(self.download_id));
        let hash = self.hasher.finalize();
        (message, GetImageHashResult::ImageCached(hash))
    }
}

} // verus!
