//! The course of a fetch job. A job announces itself, waits, fetches once
//! and ends with one event; whoever runs it carries out each action and
//! asks for the next.

use vstd::prelude::*;
use crate::events::{Event, EventView};
use crate::fetcher::{
    accepted_body, favicon_address, favicon_finished, favicon_payload, favicon_started,
    favicon_url, page_finished, page_outcome, page_started, response_body, FetchOutcome,
    FetchOutcomeView,
};

verus! {

/// What a job fetches.
#[derive(Debug, Clone, Copy, PartialEq, Eq)]
pub enum JobKind {
    Favicon,
    Page,
}

/// How far a job has come.
#[derive(Debug, Clone, Copy, PartialEq, Eq)]
pub enum JobStage {
    /// Nothing was done yet.
    Created,
    /// The status line was sent.
    Announced,
    /// The delay is over.
    Delayed,
    /// The fetch was asked for; its outcome is awaited.
    Fetching,
    /// The last event was sent.
    Finished,
}

/// One fetch job of a session.
#[derive(Debug, PartialEq, Eq)]
pub struct FetchJob {
    pub kind: JobKind,
    pub tab_id: u128,
    pub url: String,
    pub stage: JobStage,
}

/// A `FetchJob` as plain values.
pub struct FetchJobView {
    pub kind: JobKind,
    pub tab_id: u128,
    pub url: Seq<char>,
    pub stage: JobStage,
}

impl View for FetchJob {
    type V = FetchJobView;

    open spec fn view(&self) -> FetchJobView {
        FetchJobView { kind: self.kind, tab_id: self.tab_id, url: self.url@, stage: self.stage }
    }
}

/// What the runner of a job is to do next.
#[derive(Debug, PartialEq, Eq)]
pub enum JobAction {
    /// Send the event to the presentation loop.
    Send(Event),
    /// Wait for so many seconds.
    Sleep(u64),
    /// Fetch the address, and hand the outcome to the next step.
    Fetch(String),
    /// Nothing: the job is over.
    Done,
}

/// A `JobAction` as plain values.
pub enum JobActionView {
    Send(EventView),
    Sleep(u64),
    Fetch(Seq<char>),
    Done,
}

impl View for JobAction {
    type V = JobActionView;

    open spec fn view(&self) -> JobActionView {
        match *self {
            JobAction::Send(event) => JobActionView::Send(event@),
            JobAction::Sleep(secs) => JobActionView::Sleep(secs),
            JobAction::Fetch(address) => JobActionView::Fetch(address@),
            JobAction::Done => JobActionView::Done,
        }
    }
}

/// The seconds that a job waits before it fetches.
pub open spec fn delay_secs(kind: JobKind) -> u64 {
    match kind {
        JobKind::Favicon => 2,
        JobKind::Page => 4,
    }
}

/// The status line with which a job announces itself.
pub open spec fn announcement(kind: JobKind, url: Seq<char>) -> EventView {
    match kind {
        JobKind::Favicon => EventView::LogMessage("Loading favicon, spinner=true"@),
        JobKind::Page => EventView::LogMessage("Loading URL: "@ + url),
    }
}

/// The address that a job fetches.
pub open spec fn fetch_address(kind: JobKind, url: Seq<char>) -> Seq<char> {
    match kind {
        JobKind::Favicon => favicon_address(url),
        JobKind::Page => url,
    }
}

/// The event that ends a job whose fetch ended with `outcome`.
pub open spec fn last_event(kind: JobKind, tab_id: u128, outcome: FetchOutcomeView) -> EventView {
    match kind {
        JobKind::Favicon => EventView::FaviconLoaded(
            tab_id,
            favicon_payload(accepted_body(outcome)),
        ),
        JobKind::Page => page_outcome(tab_id, accepted_body(outcome)),
    }
}

/// The stage after a stage; a finished job stays finished.
pub open spec fn next_stage(stage: JobStage) -> JobStage {
    match stage {
        JobStage::Created => JobStage::Announced,
        JobStage::Announced => JobStage::Delayed,
        JobStage::Delayed => JobStage::Fetching,
        JobStage::Fetching => JobStage::Finished,
        JobStage::Finished => JobStage::Finished,
    }
}

/// What a job at its stage asks for. `outcome` is how the fetch ended; only
/// a job that awaits its fetch looks at it.
pub open spec fn job_action(job: FetchJobView, outcome: FetchOutcomeView) -> JobActionView {
    match job.stage {
        JobStage::Created => JobActionView::Send(announcement(job.kind, job.url)),
        JobStage::Announced => JobActionView::Sleep(delay_secs(job.kind)),
        JobStage::Delayed => JobActionView::Fetch(fetch_address(job.kind, job.url)),
        JobStage::Fetching => JobActionView::Send(last_event(job.kind, job.tab_id, outcome)),
        JobStage::Finished => JobActionView::Done,
    }
}

/// The job one stage further.
pub open spec fn advanced(job: FetchJobView) -> FetchJobView {
    FetchJobView { stage: next_stage(job.stage), ..job }
}

impl FetchJob {
    /// A job of which nothing was done yet.
    pub fn new(kind: JobKind, tab_id: u128, url: String) -> (job: FetchJob)
        ensures
            job@ == (FetchJobView { kind, tab_id, url: url@, stage: JobStage::Created }),
    {
        FetchJob { kind, tab_id, url, stage: JobStage::Created }
    }

    /// Says what is to be done next and moves the job one stage on.
    /// `outcome` is how the fetch ended, for the step that follows it; any
    /// will do for the other steps.
    pub fn advance(&mut self, outcome: FetchOutcome) -> (action: JobAction)
        ensures
            action@ == job_action(old(self)@, outcome@),
            final(self)@ == advanced(old(self)@),
    {
        match self.stage {
            JobStage::Created => {
                self.stage = JobStage::Announced;
                match self.kind {
                    JobKind::Favicon => JobAction::Send(favicon_started()),
                    JobKind::Page => JobAction::Send(page_started(self.url.as_str())),
                }
            },
            JobStage::Announced => {
                self.stage = JobStage::Delayed;
                match self.kind {
                    JobKind::Favicon => JobAction::Sleep(2),
                    JobKind::Page => JobAction::Sleep(4),
                }
            },
            JobStage::Delayed => {
                self.stage = JobStage::Fetching;
                match self.kind {
                    JobKind::Favicon => JobAction::Fetch(favicon_url(self.url.as_str())),
                    JobKind::Page => JobAction::Fetch(self.url.clone()),
                }
            },
            JobStage::Fetching => {
                self.stage = JobStage::Finished;
                let body = response_body(outcome);
                match self.kind {
                    JobKind::Favicon => JobAction::Send(favicon_finished(self.tab_id, body)),
                    JobKind::Page => JobAction::Send(page_finished(self.tab_id, body)),
                }
            },
            JobStage::Finished => JobAction::Done,
        }
    }
}

/// A job runs in one order, whatever its fetch gives: it announces itself,
/// waits, fetches, sends the one event that ends it, and is over for good.
/// Only that last event depends on the outcome of the fetch.
pub proof fn lemma_job_announces_before_it_ends(
    job: FetchJobView,
    outcome: FetchOutcomeView,
    other: FetchOutcomeView,
)
    requires
        job.stage == JobStage::Created,
    ensures
        job_action(job, other) == JobActionView::Send(announcement(job.kind, job.url)),
        job_action(advanced(job), other) == JobActionView::Sleep(delay_secs(job.kind)),
        job_action(advanced(advanced(job)), other) == JobActionView::Fetch(
            fetch_address(job.kind, job.url),
        ),
        job_action(advanced(advanced(advanced(job))), outcome) == JobActionView::Send(
            last_event(job.kind, job.tab_id, outcome),
        ),
        job_action(advanced(advanced(advanced(advanced(job)))), other) == JobActionView::Done,
        advanced(advanced(advanced(advanced(advanced(job))))) == advanced(
            advanced(advanced(advanced(job))),
        ),
{
}

/// An icon job ends with the same event, one without bytes, whether no
/// response came, the response was refused, or its body was empty.
pub proof fn lemma_icon_job_hides_how_it_failed(tab_id: u128, status: u16, body: Seq<u8>)
    requires
        !(200 <= status <= 299) || body.len() == 0,
    ensures
        last_event(JobKind::Favicon, tab_id, FetchOutcomeView::Response { status, body })
            == last_event(JobKind::Favicon, tab_id, FetchOutcomeView::Failed),
        last_event(JobKind::Favicon, tab_id, FetchOutcomeView::Failed) == EventView::FaviconLoaded(
            tab_id,
            Seq::empty(),
        ),
{
    assert(favicon_payload(accepted_body(FetchOutcomeView::Response { status, body }))
        =~= Seq::<u8>::empty());
}

} // verus!
