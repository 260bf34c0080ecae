//! The image manager: remembers the hash of each URL that was downloaded,
//! and runs at most one download per URL at a time.
//!
//! The manager decides; the caller runs the downloads and answers the
//! callers.

use crate::assoc::{
    assoc_map, distinct_keys, lemma_assoc_absent, lemma_assoc_at, lemma_assoc_empty,
    lemma_assoc_push, lemma_assoc_remove,
};
use crate::download::is_success;
use crate::text::same_text;
use vstd::prelude::*;

verus! {

/// The typed outcome of a request to the manager.
#[derive(Debug, Clone, PartialEq, Eq)]
pub enum GetImageResult {
    /// The image is in the cache under this hash.
    ImageCached(String),
    /// The image has this hash, which is not the expected one.
    InconsistentHash(String),
    /// The server answered with this status, which is no success.
    DownloadFailed(u16),
    /// The body broke off.
    DownloadFailedToReadChunk,
}

impl GetImageResult {
    /// A copy of the result.
    pub fn duplicate(&self) -> (copy: GetImageResult)
        ensures
            copy == *self,
    {
        match self {
            GetImageResult::ImageCached(hash) => GetImageResult::ImageCached(hash.clone()),
            GetImageResult::InconsistentHash(hash) => GetImageResult::InconsistentHash(
                hash.clone(),
            ),
            GetImageResult::DownloadFailed(status) => GetImageResult::DownloadFailed(*status),
            GetImageResult::DownloadFailedToReadChunk => GetImageResult::DownloadFailedToReadChunk,
        }
    }
}

/// What the manager receives. `R` is the handle through which one caller is
/// answered.
#[derive(Debug, PartialEq, Eq)]
pub enum ImageManagerMessage<R> {
    /// A caller asks for the image behind the URL, and may expect a hash.
    GetImage(String, Option<String>, R),
    /// The download with this number has ended.
    DownloadCompleted(u64, GetImageResult),
}

/// What the caller has to carry out for the manager.
#[derive(Debug, PartialEq, Eq)]
pub enum ManagerEffect<R> {
    /// Answer one caller.
    Respond { response: R, result: GetImageResult },
    /// Run the download of `url` under this number.
    StartDownload { download_id: u64, url: String, expected_hash: Option<String> },
    /// Await the end of the download's task.
    AwaitDownload { download_id: u64 },
}

/// Why the manager refused.
#[derive(Debug, Clone, Copy, PartialEq, Eq, Structural)]
pub enum ManagerError {
    /// No download has the number.
    UnknownDownload,
}

/// A download in progress.
pub struct ManagedDownload<R> {
    id: u64,
    url: String,
    senders: Vec<R>,
}

/// A download in progress as contracts see it.
pub struct ManagedDownloadView<R> {
    /// The number of the download.
    pub id: u64,
    /// The callers that wait, in the order in which they came.
    pub senders: Seq<R>,
}

/// A URL whose image is known.
pub struct KnownImage {
    url: String,
    hash: String,
}

/// The manager as contracts see it.
pub struct ImageManagerView<R> {
    /// The hash of each URL whose download ended well, by the URL's text.
    pub url_images: Map<Seq<char>, String>,
    /// The download in progress of each URL that has one, by the URL's
    /// text.
    pub in_progress: Map<Seq<char>, ManagedDownloadView<R>>,
    /// The number of the next download.
    pub next_download_id: u64,
}

/// The state of the manager.
pub struct ImageManager<R> {
    next_download_id: u64,
    url_images: Vec<KnownImage>,
    downloads: Vec<ManagedDownload<R>>,
}

/// Reads the URL's text of a known image.
pub closed spec fn known_url() -> spec_fn(KnownImage) -> Seq<char> {
    |k: KnownImage| k.url@
}

/// Reads the hash of a known image.
pub closed spec fn known_hash() -> spec_fn(KnownImage) -> String {
    |k: KnownImage| k.hash
}

/// Reads the URL's text of a download.
pub closed spec fn managed_url<R>() -> spec_fn(ManagedDownload<R>) -> Seq<char> {
    |d: ManagedDownload<R>| d.url@
}

/// Reads the view of a download.
pub closed spec fn managed_view<R>() -> spec_fn(ManagedDownload<R>) -> ManagedDownloadView<R> {
    |d: ManagedDownload<R>| ManagedDownloadView { id: d.id, senders: d.senders@ }
}

/// What is answered for a URL whose image is known: its hash, unless
/// another one is expected.
pub open spec fn known_answer(hash: String, expected: Option<String>) -> GetImageResult {
    if expected.is_some() && expected.unwrap()@ != hash@ {
        GetImageResult::InconsistentHash(hash)
    } else {
        GetImageResult::ImageCached(hash)
    }
}

/// What a request does to the manager, and what it asks of the caller. A
/// URL whose image is known is answered at once; a URL with a download in
/// progress takes the caller in; otherwise a download starts under the next
/// number.
pub open spec fn get_image_step<R>(
    state: ImageManagerView<R>,
    url: String,
    expected: Option<String>,
    response: R,
) -> (ImageManagerView<R>, Seq<ManagerEffect<R>>) {
    if state.url_images.dom().contains(url@) {
        (
            state,
            seq![
                ManagerEffect::Respond {
                    response,
                    result: known_answer(state.url_images[url@], expected),
                },
            ],
        )
    } else if state.in_progress.dom().contains(url@) {
        let d = state.in_progress[url@];
        (
            ImageManagerView {
                in_progress: state.in_progress.insert(
                    url@,
                    ManagedDownloadView { senders: d.senders.push(response), ..d },
                ),
                ..state
            },
            Seq::<ManagerEffect<R>>::empty(),
        )
    } else {
        (
            ImageManagerView {
                in_progress: state.in_progress.insert(
                    url@,
                    ManagedDownloadView { id: state.next_download_id, senders: seq![response] },
                ),
                next_download_id: (state.next_download_id + 1) as u64,
                ..state
            },
            seq![
                ManagerEffect::StartDownload {
                    download_id: state.next_download_id,
                    url,
                    expected_hash: expected,
                },
            ],
        )
    }
}

/// One answer with `result` for each caller, in their order.
pub open spec fn answers<R>(senders: Seq<R>, result: GetImageResult) -> Seq<ManagerEffect<R>> {
    Seq::new(senders.len(), |i: int| ManagerEffect::Respond { response: senders[i], result })
}

/// The end of the download's task: what the worker reports for the hash of
/// the body, and whether the file is published under that hash. A hash
/// that is not the expected one is reported and not published.
pub open spec fn finished(hash: String, expected: Option<String>) -> (GetImageResult, bool) {
    if expected.is_some() && expected.unwrap()@ != hash@ {
        (GetImageResult::InconsistentHash(hash), false)
    } else {
        (GetImageResult::ImageCached(hash), true)
    }
}

/// Some download in progress has the number.
pub open spec fn has_download<R>(state: ImageManagerView<R>, id: u64) -> bool {
    exists|url: Seq<char>| #[trigger]
        state.in_progress.dom().contains(url) && state.in_progress[url].id == id
}

/// The URL of the download in progress with the number.
pub open spec fn url_of<R>(state: ImageManagerView<R>, id: u64) -> Seq<char> {
    choose|url: Seq<char>| #[trigger]
        state.in_progress.dom().contains(url) && state.in_progress[url].id == id
}

/// What the end of a download does to the manager, and what it asks of the
/// caller: every caller that waits is answered with the result, the task is
/// awaited, and the download is no longer in progress; a hash that the
/// download gave is remembered for its URL. A number that no download has
/// is refused.
pub open spec fn complete_step<R>(
    state: ImageManagerView<R>,
    download_id: u64,
    result: GetImageResult,
) -> (ImageManagerView<R>, Result<Seq<ManagerEffect<R>>, ManagerError>) {
    if !has_download(state, download_id) {
        (state, Err(ManagerError::UnknownDownload))
    } else {
        let url = url_of(state, download_id);
        (
            ImageManagerView {
                in_progress: state.in_progress.remove(url),
                url_images: match result {
                    GetImageResult::ImageCached(hash) => state.url_images.insert(url, hash),
                    _ => state.url_images,
                },
                ..state
            },
            Ok(
                answers(state.in_progress[url].senders, result).push(
                    ManagerEffect::AwaitDownload { download_id },
                ),
            ),
        )
    }
}

/// The result of an exec function is the given list of effects, or the
/// given error.
pub open spec fn gives_effects<R>(
    r: Result<Vec<ManagerEffect<R>>, ManagerError>,
    wanted: Result<Seq<ManagerEffect<R>>, ManagerError>,
) -> bool {
    match wanted {
        Ok(effects) => r.is_ok() && r.unwrap()@ == effects,
        Err(e) => r == Err::<Vec<ManagerEffect<R>>, ManagerError>(e),
    }
}

/// What the worker reports for a status that is no success.
pub fn check_status(status: u16) -> (r: Option<GetImageResult>)
    ensures
        is_success(status) ==> r.is_none(),
        !is_success(status) ==> r == Some(GetImageResult::DownloadFailed(status)),
{
    if 200 <= status && status < 300 {
        None
    } else {
        Some(GetImageResult::DownloadFailed(status))
    }
}

/// What the worker reports when the body is complete, and whether it
/// publishes the file under the hash.
pub fn finish_download(hash: String, expected: Option<String>) -> (r: (GetImageResult, bool))
    ensures
        r == finished(hash, expected),
{
    let mismatch = match &expected {
        Some(e) => !same_text(e, &hash),
        None => false,
    };
    if mismatch {
        (GetImageResult::InconsistentHash(hash), false)
    } else {
        (GetImageResult::ImageCached(hash), true)
    }
}

impl<R> ImageManager<R> {
    /// The manager as contracts see it.
    pub closed spec fn view(&self) -> ImageManagerView<R> {
        ImageManagerView {
            url_images: assoc_map(self.url_images@, known_url(), known_hash()),
            in_progress: assoc_map(self.downloads@, managed_url::<R>(), managed_view::<R>()),
            next_download_id: self.next_download_id,
        }
    }

    /// The manager is consistent: no URL is known twice or downloaded
    /// twice, and every download has a number of its own that this manager
    /// gave out.
    pub closed spec fn wf(&self) -> bool {
        &&& distinct_keys(self.url_images@, known_url())
        &&& distinct_keys(self.downloads@, managed_url::<R>())
        &&& forall|i: int|
            0 <= i < self.downloads@.len() ==> (#[trigger] self.downloads@[i]).id
                < self.next_download_id
        &&& forall|i: int, j: int|
            0 <= i < self.downloads@.len() && 0 <= j < self.downloads@.len() && i != j ==> (
            #[trigger] self.downloads@[i]).id != (#[trigger] self.downloads@[j]).id
    }

    /// Some download in progress has the number.
    pub open spec fn has_download(&self, id: u64) -> bool {
        has_download(self@, id)
    }

    /// The URL of the download in progress with the number.
    pub open spec fn url_of(&self, id: u64) -> Seq<char> {
        url_of(self@, id)
    }

    /// A manager that knows no image and runs no download.
    pub fn new() -> (manager: ImageManager<R>)
        ensures
            manager.wf(),
            manager@.url_images == Map::<Seq<char>, String>::empty(),
            manager@.in_progress == Map::<Seq<char>, ManagedDownloadView<R>>::empty(),
            manager@.next_download_id == 0,
    {
        proof {
            lemma_assoc_empty(known_url(), known_hash());
            lemma_assoc_empty(managed_url::<R>(), managed_view::<R>());
        }
        ImageManager { next_download_id: 0, url_images: Vec::new(), downloads: Vec::new() }
    }

    /// Whether one more download can be numbered.
    pub fn has_room(&self) -> (room: bool)
        ensures
            room == (self@.next_download_id < u64::MAX),
    {
        self.next_download_id < u64::MAX
    }

    fn known_position(&self, url: &String) -> (at: Option<usize>)
        requires
            self.wf(),
        ensures
            at.is_some() == self@.url_images.dom().contains(url@),
            at.is_some() ==> at.unwrap() < self.url_images@.len() && self@.url_images[url@]
                == self.url_images@[at.unwrap() as int].hash
                && self.url_images@[at.unwrap() as int].url@ == url@,
    {
        let mut i: usize = 0;
        while i < self.url_images.len()
            invariant
                self.wf(),
                i <= self.url_images@.len(),
                forall|k: int| 0 <= k < i ==> (#[trigger] self.url_images@[k]).url@ != url@,
            decreases self.url_images@.len() - i,
        {
            if same_text(&self.url_images[i].url, url) {
                proof {
                    lemma_assoc_at(self.url_images@, known_url(), known_hash(), i as int);
                }
                return Some(i);
            }
            i = i + 1;
        }
        proof {
            lemma_assoc_absent(self.url_images@, known_url(), known_hash(), url@);
        }
        None
    }

    fn download_position(&self, url: &String) -> (at: Option<usize>)
        requires
            self.wf(),
        ensures
            at.is_some() == self@.in_progress.dom().contains(url@),
            at.is_some() ==> at.unwrap() < self.downloads@.len() && self.downloads@[at.unwrap() as int].url@
                == url@,
    {
        let mut i: usize = 0;
        while i < self.downloads.len()
            invariant
                self.wf(),
                i <= self.downloads@.len(),
                forall|k: int| 0 <= k < i ==> (#[trigger] self.downloads@[k]).url@ != url@,
            decreases self.downloads@.len() - i,
        {
            if same_text(&self.downloads[i].url, url) {
                proof {
                    lemma_assoc_at(
                        self.downloads@,
                        managed_url::<R>(),
                        managed_view::<R>(),
                        i as int,
                    );
                }
                return Some(i);
            }
            i = i + 1;
        }
        proof {
            lemma_assoc_absent(self.downloads@, managed_url::<R>(), managed_view::<R>(), url@);
        }
        None
    }

    fn numbered_position(&self, id: u64) -> (at: Option<usize>)
        requires
            self.wf(),
        ensures
            at.is_some() == self.has_download(id),
            at.is_some() ==> at.unwrap() < self.downloads@.len() && self.downloads@[at.unwrap() as int].id
                == id && self.downloads@[at.unwrap() as int].url@ == self.url_of(id),
    {
        let mut i: usize = 0;
        while i < self.downloads.len()
            invariant
                self.wf(),
                i <= self.downloads@.len(),
                forall|k: int| 0 <= k < i ==> (#[trigger] self.downloads@[k]).id != id,
            decreases self.downloads@.len() - i,
        {
            if self.downloads[i].id == id {
                proof {
                    lemma_assoc_at(
                        self.downloads@,
                        managed_url::<R>(),
                        managed_view::<R>(),
                        i as int,
                    );
                    let url = self.downloads@[i as int].url@;
                    assert(self@.in_progress.dom().contains(url) && self@.in_progress[url].id
                        == id);
                    let other = self.url_of(id);
                    assert(self@.in_progress.dom().contains(other) && self@.in_progress[other].id
                        == id);
                    let k = choose|k: int|
                        0 <= k < self.downloads@.len() && managed_url::<R>()(
                            #[trigger] self.downloads@[k],
                        ) == other;
                    lemma_assoc_at(self.downloads@, managed_url::<R>(), managed_view::<R>(), k);
                    assert(k == i);
                }
                return Some(i);
            }
            i = i + 1;
        }
        proof {
            if self.has_download(id) {
                let url = self.url_of(id);
                let k = choose|k: int|
                    0 <= k < self.downloads@.len() && managed_url::<R>()(
                        #[trigger] self.downloads@[k],
                    ) == url;
                lemma_assoc_at(self.downloads@, managed_url::<R>(), managed_view::<R>(), k);
            }
        }
        None
    }

    /// Handles a caller's request for the image behind `url`.
    pub fn get_image(&mut self, url: String, expected_hash: Option<String>, response: R) -> (effects:
        Vec<ManagerEffect<R>>)
        requires
            old(self).wf(),
            old(self)@.next_download_id < u64::MAX,
        ensures
            final(self).wf(),
            (final(self)@, effects@) == get_image_step(old(self)@, url, expected_hash, response),
    {
        let ghost before = self@;
        let mut effects: Vec<ManagerEffect<R>> = Vec::new();
        match self.known_position(&url) {
            Some(i) => {
                let hash = self.url_images[i].hash.clone();
                let mismatch = match &expected_hash {
                    Some(e) => !same_text(e, &hash),
                    None => false,
                };
                let result = if mismatch {
                    GetImageResult::InconsistentHash(hash)
                } else {
                    GetImageResult::ImageCached(hash)
                };
                effects.push(ManagerEffect::Respond { response, result });
                proof {
                    assert(effects@ =~= get_image_step(before, url, expected_hash, response).1);
                }
                return effects;
            },
            None => {},
        }
        match self.download_position(&url) {
            Some(i) => {
                proof {
                    lemma_assoc_at(
                        self.downloads@,
                        managed_url::<R>(),
                        managed_view::<R>(),
                        i as int,
                    );
                    lemma_assoc_remove(
                        self.downloads@,
                        managed_url::<R>(),
                        managed_view::<R>(),
                        i as int,
                    );
                }
                let ghost rest = self.downloads@.remove(i as int);
                let mut download = self.downloads.remove(i);
                download.senders.push(response);
                proof {
                    lemma_assoc_push(rest, managed_url::<R>(), managed_view::<R>(), download);
                    assert forall|a: int, b: int|
                        0 <= a < rest.push(download).len() && 0 <= b < rest.push(download).len()
                            && a != b implies (#[trigger] rest.push(download)[a]).id != (
                    #[trigger] rest.push(download)[b]).id by {
                        let a2 = if a == rest.len() {
                            i as int
                        } else if a < i {
                            a
                        } else {
                            a + 1
                        };
                        let b2 = if b == rest.len() {
                            i as int
                        } else if b < i {
                            b
                        } else {
                            b + 1
                        };
                        assert(rest.push(download)[a].id == old(self).downloads@[a2].id);
                        assert(rest.push(download)[b].id == old(self).downloads@[b2].id);
                    }
                    assert forall|a: int| 0 <= a < rest.push(download).len() implies (
                    #[trigger] rest.push(download)[a]).id < self.next_download_id by {
                        let a2 = if a == rest.len() {
                            i as int
                        } else if a < i {
                            a
                        } else {
                            a + 1
                        };
                        assert(rest.push(download)[a].id == old(self).downloads@[a2].id);
                    }
                }
                self.downloads.push(download);
                proof {
                    let after = get_image_step(before, url, expected_hash, response);
                    assert(self@.in_progress =~= after.0.in_progress);
                    assert(effects@ =~= after.1);
                }
                return effects;
            },
            None => {},
        }
        let download_id = self.next_download_id;
        self.next_download_id = self.next_download_id + 1;
        effects.push(
            ManagerEffect::StartDownload { download_id, url: url.clone(), expected_hash },
        );
        let mut senders: Vec<R> = Vec::new();
        senders.push(response);
        let download = ManagedDownload { id: download_id, url, senders };
        proof {
            lemma_assoc_push(self.downloads@, managed_url::<R>(), managed_view::<R>(), download);
        }
        self.downloads.push(download);
        proof {
            let after = get_image_step(before, url, expected_hash, response);
            assert(self@.in_progress =~= after.0.in_progress);
            assert(effects@ =~= after.1);
        }
        effects
    }

    /// Handles the end of the download with the number `download_id`.
    pub fn complete_download(&mut self, download_id: u64, result: GetImageResult) -> (r: Result<
        Vec<ManagerEffect<R>>,
        ManagerError,
    >)
        requires
            old(self).wf(),
        ensures
            final(self).wf(),
            final(self)@ == complete_step(old(self)@, download_id, result).0,
            gives_effects(r, complete_step(old(self)@, download_id, result).1),
    {
        let at = match self.numbered_position(download_id) {
            None => {
                return Err(ManagerError::UnknownDownload);
            },
            Some(at) => at,
        };
        proof {
            lemma_assoc_at(self.downloads@, managed_url::<R>(), managed_view::<R>(), at as int);
            lemma_assoc_remove(self.downloads@, managed_url::<R>(), managed_view::<R>(), at as int);
            let rest = self.downloads@.remove(at as int);
            assert forall|a: int, b: int|
                0 <= a < rest.len() && 0 <= b < rest.len() && a != b implies (#[trigger] rest[a]).id
                != (#[trigger] rest[b]).id by {
                let a2 = if a < at {
                    a
                } else {
                    a + 1
                };
                let b2 = if b < at {
                    b
                } else {
                    b + 1
                };
                assert(rest[a] == self.downloads@[a2] && rest[b] == self.downloads@[b2]);
            }
            assert forall|a: int| 0 <= a < rest.len() implies (#[trigger] rest[a]).id
                < self.next_download_id by {
                let a2 = if a < at {
                    a
                } else {
                    a + 1
                };
                assert(rest[a] == self.downloads@[a2]);
            }
        }
        let download = self.downloads.remove(at);
        let ManagedDownload { id, url, senders } = download;
        let mut waiting = senders;
        let ghost all = waiting@;
        let count: usize = waiting.len();
        let mut effects: Vec<ManagerEffect<R>> = Vec::new();
        let mut done: usize = 0;
        proof {
            assert(answers(all.subrange(0, 0), result) =~= Seq::<ManagerEffect<R>>::empty());
        }
        while done < count
            invariant
                done <= count,
                count == all.len(),
                waiting@ == all.subrange(done as int, count as int),
                effects@ == answers(all.subrange(0, done as int), result),
            decreases count - done,
        {
            let response = waiting.remove(0);
            effects.push(ManagerEffect::Respond { response, result: result.duplicate() });
            proof {
                assert(response == all[done as int]);
                assert(waiting@ =~= all.subrange(done + 1, count as int));
                assert(effects@ =~= answers(all.subrange(0, done + 1), result));
            }
            done = done + 1;
        }
        proof {
            assert(all.subrange(0, count as int) =~= all);
        }
        effects.push(ManagerEffect::AwaitDownload { download_id });
        match result {
            GetImageResult::ImageCached(hash) => {
                self.remember(url, hash);
            },
            _ => {},
        }
        Ok(effects)
    }

    /// Remembers the hash of a URL, in the place of an older one.
    fn remember(&mut self, url: String, hash: String)
        requires
            old(self).wf(),
        ensures
            final(self).wf(),
            final(self)@.url_images == old(self)@.url_images.insert(url@, hash),
            final(self).downloads == old(self).downloads,
            final(self).next_download_id == old(self).next_download_id,
    {
        match self.known_position(&url) {
            Some(i) => {
                proof {
                    lemma_assoc_at(self.url_images@, known_url(), known_hash(), i as int);
                    lemma_assoc_remove(self.url_images@, known_url(), known_hash(), i as int);
                }
                let _ = self.url_images.remove(i);
                proof {
                    assert(self@.url_images == old(self)@.url_images.remove(url@));
                }
            },
            None => {},
        }
        let ghost middle = self@.url_images;
        let known = KnownImage { url, hash };
        proof {
            assert(!middle.dom().contains(url@));
            assert(known_url()(known) == url@);
            assert(known_hash()(known) == hash);
            lemma_assoc_push(self.url_images@, known_url(), known_hash(), known);
        }
        self.url_images.push(known);
        proof {
            assert(self@.url_images == middle.insert(url@, hash));
            assert(middle.insert(url@, hash) =~= old(self)@.url_images.insert(url@, hash));
        }
    }

    /// One round of the manager's main loop: handles a message.
    pub fn run(&mut self, message: ImageManagerMessage<R>) -> (r: Result<
        Vec<ManagerEffect<R>>,
        ManagerError,
    >)
        requires
            old(self).wf(),
            old(self)@.next_download_id < u64::MAX,
        ensures
            final(self).wf(),
            match message {
                ImageManagerMessage::GetImage(url, expected_hash, response) => r.is_ok() && (
                final(self)@, r.unwrap()@) == get_image_step(
                    old(self)@,
                    url,
                    expected_hash,
                    response,
                ),
                ImageManagerMessage::DownloadCompleted(download_id, result) => {
                    &&& final(self)@ == complete_step(old(self)@, download_id, result).0
                    &&& gives_effects(r, complete_step(old(self)@, download_id, result).1)
                },
            },
    {
        match message {
            ImageManagerMessage::GetImage(url, expected_hash, response) => Ok(
                self.get_image(url, expected_hash, response),
            ),
            ImageManagerMessage::DownloadCompleted(download_id, result) => self.complete_download(
                download_id,
                result,
            ),
        }
    }
}

} // verus!
