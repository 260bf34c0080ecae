//! Progress events: what a worker reports about a transfer, and how the
//! router hands the reports on.

use crate::text::{decimal, decimal_string};
use vstd::prelude::*;
use vstd::string::*;

verus! {

/// A report about the transfer with the given identifier.
#[derive(Debug, Clone, PartialEq, Eq)]
pub enum ProgressMessage {
    /// The transfer begins; the total number of bytes, if it is known.
    Start(String, Option<u64>),
    /// So many more bytes have arrived.
    Update(String, u64),
    /// The transfer is complete.
    Finish(String),
}

/// A progress report as contracts see it.
pub enum ProgressMessageView {
    Start(Seq<char>, Option<u64>),
    Update(Seq<char>, u64),
    Finish(Seq<char>),
}

impl View for ProgressMessage {
    type V = ProgressMessageView;

    open spec fn view(&self) -> ProgressMessageView {
        match *self {
            ProgressMessage::Start(id, total) => ProgressMessageView::Start(id@, total),
            ProgressMessage::Update(id, delta) => ProgressMessageView::Update(id@, delta),
            ProgressMessage::Finish(id) => ProgressMessageView::Finish(id@),
        }
    }
}

impl ProgressMessageView {
    /// The identifier of the transfer that the report is about.
    pub open spec fn id(self) -> Seq<char> {
        match self {
            ProgressMessageView::Start(id, _) => id,
            ProgressMessageView::Update(id, _) => id,
            ProgressMessageView::Finish(id) => id,
        }
    }
}

/// The reports of one transfer come in order: a start first, then updates,
/// and a finish only as the last one; all carry the transfer's identifier.
pub open spec fn reports_in_order(trace: Seq<ProgressMessageView>, id: Seq<char>) -> bool {
    &&& forall|i: int| 0 <= i < trace.len() ==> (#[trigger] trace[i]).id() == id
    &&& forall|i: int|
        0 <= i < trace.len() ==> ((#[trigger] trace[i]) is Start <==> i == 0)
    &&& forall|i: int|
        0 <= i < trace.len() && (#[trigger] trace[i]) is Finish ==> i == trace.len() - 1
}

/// The identifier under which a download reports its progress.
pub open spec fn download_progress_id(download_id: u64) -> Seq<char> {
    "download/"@ + decimal(download_id as nat)
}

/// The identifier under which the download `download_id` reports its
/// progress: `download/` and the number.
pub fn progress_id(download_id: u64) -> (id: String)
    ensures
        id@ == download_progress_id(download_id),
{
    String::from_str("download/").concat(decimal_string(download_id).as_str())
}

/// What the router does with what it received.
#[derive(Debug, PartialEq, Eq)]
pub enum RouterStep {
    /// Hand the report to every subscriber; one that lags behind loses
    /// reports and is not waited for.
    Forward(ProgressMessage),
    /// The inbound channel is closed: the router ends.
    Stop,
}

/// The fan-out of progress reports from the workers to the subscribers.
#[derive(Debug, Clone, Copy)]
pub struct ProgressRouter {}

impl ProgressRouter {
    /// A router.
    pub fn new() -> (router: ProgressRouter) {
        ProgressRouter {  }
    }

    /// One round of the router: a received report is forwarded unchanged,
    /// and the end of the inbound channel ends the router.
    pub fn run(&self, received: Option<ProgressMessage>) -> (step: RouterStep)
        ensures
            match received {
                Some(message) => step == RouterStep::Forward(message),
                None => step == RouterStep::Stop,
            },
    {
        match received {
            Some(message) => RouterStep::Forward(message),
            None => RouterStep::Stop,
        }
    }
}

} // verus!
