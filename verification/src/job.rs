//! The job controller: owns the lifecycle of the single background
//! generation job, enforces single-flight, and exposes a non-blocking poll
//! that observes the job's one terminal result exactly once.

use vstd::prelude::*;
use vstd::string::StringExecFns;

use crate::codec::{
    decoded_height_of, decoded_rgb_of, decoded_width_of, encode_png, png_bytes_of, png_decodable,
    PixelImage,
};
use crate::request::GenerationRequest;
use crate::transport::{open_transport, transport_poll, transport_send, JobResult, TransportEvent};

verus! {

/// The abstract lifecycle state of a controller. There is no terminal state:
/// the moment a result is observed the controller is idle again.
pub enum Phase {
    Idle,
    Running { start_ms: u64 },
}

/// A submission is accepted exactly when no job is in flight.
pub open spec fn submit_accepts(p: Phase) -> bool {
    p is Idle
}

/// The phase a submission at monotonic time `now_ms` leaves behind: an
/// accepted one starts running from that instant, a rejected one changes
/// nothing.
pub open spec fn submit_next(p: Phase, now_ms: u64) -> Phase {
    if submit_accepts(p) {
        Phase::Running { start_ms: now_ms }
    } else {
        p
    }
}

/// Whether a poll emits an outcome, given whether the transport had anything
/// terminal to show (a message arrived, or the worker is gone).
pub open spec fn poll_emits(p: Phase, terminal: bool) -> bool {
    p is Running && terminal
}

/// The phase a poll leaves behind: idle again once an outcome is emitted,
/// unchanged otherwise.
pub open spec fn poll_next(p: Phase, terminal: bool) -> Phase {
    if poll_emits(p, terminal) {
        Phase::Idle
    } else {
        p
    }
}

/// Elapsed monotonic time from the spawn instant to the observation instant.
/// A monotonic clock never runs backwards; should the impossible reading
/// arrive anyway, the elapsed time saturates at zero rather than wrapping.
pub open spec fn elapsed_since(start_ms: u64, now_ms: u64) -> u64 {
    if now_ms >= start_ms {
        (now_ms - start_ms) as u64
    } else {
        0
    }
}

/// Computes the elapsed time a delivered outcome reports.
pub fn elapsed_ms(start_ms: u64, now_ms: u64) -> (e: u64)
    ensures
        e == elapsed_since(start_ms, now_ms),
{
    if now_ms >= start_ms {
        now_ms - start_ms
    } else {
        0
    }
}

/// Rejection of a submission while a job is in flight. The one guard against
/// concurrent jobs: there is no queueing.
#[derive(Clone, Copy, Debug, PartialEq, Eq, Structural)]
pub enum SubmitError {
    AlreadyRunning,
}

/// What one completed job delivered, and how long it ran, measured from the
/// submission that spawned the worker to the poll that observed the result.
#[derive(Clone, Debug, PartialEq)]
pub struct Outcome {
    pub result: JobResult,
    pub elapsed_ms: u64,
}

/// Everything an accepted submission hands to its worker: the request
/// snapshot, owned exclusively from here on, and the sending half of the
/// job's one-shot transport.
pub struct WorkerTask {
    pub request: GenerationRequest,
    tx: std::sync::mpsc::Sender<JobResult>,
}

impl WorkerTask {
    /// The snapshot the worker will consume.
    pub closed spec fn spec_request(&self) -> GenerationRequest {
        self.request
    }
}

struct RunningJob {
    start_ms: u64,
    rx: std::sync::mpsc::Receiver<JobResult>,
}

/// Owns the job lifecycle: at most one job runs at a time, and its one
/// terminal result is observed by at most one poll.
pub struct JobController {
    running: Option<RunningJob>,
}

impl JobController {
    /// The abstract state the contracts speak of.
    pub closed spec fn phase(&self) -> Phase {
        match self.running {
            Option::None => Phase::Idle,
            Option::Some(job) => Phase::Running { start_ms: job.start_ms },
        }
    }

    /// A fresh controller with no job in flight.
    pub fn new() -> (c: JobController)
        ensures
            c.phase() is Idle,
    {
        JobController { running: None }
    }

    /// True exactly while a job is in flight. Gates presentation affordances
    /// without touching the state.
    pub fn is_busy(&self) -> (b: bool)
        ensures
            b == (self.phase() is Running),
    {
        self.running.is_some()
    }

    /// Accepts the request snapshot unless a job is already in flight, in
    /// which case nothing changes and the rejection is reported. On
    /// acceptance the controller records the submission instant, keeps the
    /// receiving half of a fresh transport, and hands back the task the
    /// caller must give to a worker; the snapshot is passed through
    /// unmodified, never validated or adjusted.
    pub fn submit(&mut self, request: GenerationRequest, now_ms: u64) -> (r: Result<
        WorkerTask,
        SubmitError,
    >)
        ensures
            final(self).phase() == submit_next(old(self).phase(), now_ms),
            r is Ok <==> submit_accepts(old(self).phase()),
            r matches Ok(task) ==> task.spec_request() == request,
            r matches Err(e) ==> e == SubmitError::AlreadyRunning,
    {
        if self.running.is_some() {
            return Err(SubmitError::AlreadyRunning);
        }
        let (tx, rx) = open_transport();
        self.running = Some(RunningJob { start_ms: now_ms, rx });
        Ok(WorkerTask { request, tx })
    }

    /// One non-blocking poll. Idle: nothing. Running with nothing terminal on
    /// the transport: nothing, state unchanged. Running with the worker's
    /// message, or with the worker gone without a message: the one outcome,
    /// fixed by `event_outcome_matches` for whichever the transport showed —
    /// the delivered message passed on untouched, or the worker-lost failure —
    /// carrying the elapsed time from submission to this observation, and the
    /// controller is idle again.
    pub fn poll(&mut self, now_ms: u64) -> (r: Option<Outcome>)
        ensures
            exists|terminal: bool|
                final(self).phase() == #[trigger] poll_next(old(self).phase(), terminal) && (
                r is Some) == poll_emits(old(self).phase(), terminal),
            r is None ==> final(self).phase() == old(self).phase(),
            old(self).phase() is Idle ==> r is None,
            poll_reflects_event(old(self).phase(), now_ms, final(self).phase(), r),
            r matches Some(o) ==> (old(self).phase() matches Phase::Running { start_ms }
                && final(self).phase() is Idle && o.elapsed_ms == elapsed_since(start_ms, now_ms)),
    {
        let taken = self.running.take();
        match taken {
            None => {
                proof {
                    assert(old(self).phase() is Idle);
                    assert(self.phase() == poll_next(old(self).phase(), false));
                    assert(poll_reflects_event(
                        old(self).phase(),
                        now_ms,
                        self.phase(),
                        Option::<Outcome>::None,
                    ));
                }
                None
            },
            Some(job) => {
                let start_ms = job.start_ms;
                let ev = transport_poll(&job.rx);
                let ghost shown = ev;
                let r = outcome_of_event(ev, start_ms, now_ms);
                if r.is_none() {
                    self.running = Some(job);
                }
                proof {
                    assert(event_outcome_matches(shown, start_ms, now_ms, r));
                    if shown is Pending {
                        assert(self.phase() == poll_next(old(self).phase(), false));
                    } else {
                        assert(self.phase() == poll_next(old(self).phase(), true));
                    }
                    assert(poll_reflects_event(old(self).phase(), now_ms, self.phase(), r)) by {
                        let s = old(self).phase()->start_ms;
                        assert(s == start_ms);
                        assert(event_outcome_matches(shown, s, now_ms, r));
                        assert(self.phase() == poll_next(old(self).phase(), !(shown is Pending)));
                    };
                }
                r
            },
        }
    }
}

/// A running poll answers for some event the transport showed: the return
/// value is fixed by `event_outcome_matches` for that event, and the phase
/// moves on exactly when the event was terminal.
pub open spec fn poll_reflects_event(
    before: Phase,
    now_ms: u64,
    after: Phase,
    r: Option<Outcome>,
) -> bool {
    before matches Phase::Running { start_ms } ==> exists|ev: TransportEvent|
        #[trigger] event_outcome_matches(ev, start_ms, now_ms, r) && after == poll_next(
            before,
            !(ev is Pending),
        )
}

/// How a poll's return relates to what the transport showed: nothing while
/// the channel is still empty; the worker's message, passed on untouched,
/// together with the elapsed time, when one was delivered; the worker-lost
/// failure when the sending end is gone without a message.
pub open spec fn event_outcome_matches(
    ev: TransportEvent,
    start_ms: u64,
    now_ms: u64,
    r: Option<Outcome>,
) -> bool {
    match ev {
        TransportEvent::Pending => r is None,
        TransportEvent::Delivered(m) => r == Some(
            Outcome { result: m, elapsed_ms: elapsed_since(start_ms, now_ms) },
        ),
        TransportEvent::Closed => (r matches Some(o) && o.result matches JobResult::Failure {
            message,
        } && message@ == worker_lost_text() && o.elapsed_ms == elapsed_since(start_ms, now_ms)),
    }
}

/// Fixes, for every value the transport can show, what a poll returns for
/// it: this is where the observed event becomes the outcome.
pub fn outcome_of_event(ev: TransportEvent, start_ms: u64, now_ms: u64) -> (r: Option<Outcome>)
    ensures
        event_outcome_matches(ev, start_ms, now_ms, r),
        ev is Pending <==> r is None,
{
    match ev {
        TransportEvent::Pending => None,
        TransportEvent::Delivered(result) => Some(
            Outcome { result, elapsed_ms: elapsed_ms(start_ms, now_ms) },
        ),
        TransportEvent::Closed => Some(
            Outcome { result: worker_lost_failure(), elapsed_ms: elapsed_ms(start_ms, now_ms) },
        ),
    }
}

/// The text reported when a worker disappeared without sending a result.
pub open spec fn worker_lost_text() -> Seq<char> {
    "the worker stopped without reporting a result"@
}

/// The failure outcome standing in for a worker that disappeared without
/// sending a result.
pub fn worker_lost_failure() -> (r: JobResult)
    ensures
        r matches JobResult::Failure { message } && message@ == worker_lost_text(),
{
    JobResult::Failure {
        message: String::from_str("the worker stopped without reporting a result"),
    }
}

/// The text reported when the pipeline yielded an empty candidate set.
pub open spec fn no_candidate_text() -> Seq<char> {
    "the pipeline produced no image"@
}

/// The text reported when the pipeline yielded a buffer that is not three
/// bytes per pixel.
pub open spec fn bad_buffer_text() -> Seq<char> {
    "the pipeline produced a malformed pixel buffer"@
}

/// The text reported when the first candidate could not be encoded.
pub open spec fn encode_failed_text() -> Seq<char> {
    "the image could not be encoded"@
}

/// The terminal message a worker reports for a given pipeline answer: a
/// pipeline failure passes its description through; an empty candidate set
/// and a malformed buffer are failures of their own; otherwise the first
/// candidate — and only the first, further candidates are discarded — is
/// encoded as PNG, which succeeds exactly when the canvas has a pixel. A
/// successful report also carries the codec's losslessness: its stream
/// decodes back to exactly the candidate's dimensions and pixels.
pub open spec fn describes_outcome(answer: Result<Vec<PixelImage>, String>, r: JobResult) -> bool {
    match answer {
        Result::Err(m) => r == (JobResult::Failure { message: m }),
        Result::Ok(candidates) => {
            if candidates@.len() == 0 {
                r matches JobResult::Failure { message } && message@ == no_candidate_text()
            } else if !candidates@[0].wf() {
                r matches JobResult::Failure { message } && message@ == bad_buffer_text()
            } else if candidates@[0].width >= 1 && candidates@[0].height >= 1 {
                r matches JobResult::Success { png_bytes } && png_bytes@ == png_bytes_of(
                    candidates@[0].width,
                    candidates@[0].height,
                    candidates@[0].rgb@,
                ) && png_decodable(png_bytes@) && decoded_rgb_of(png_bytes@) == candidates@[0].rgb@
                    && decoded_width_of(png_bytes@) == candidates@[0].width && decoded_height_of(
                    png_bytes@,
                ) == candidates@[0].height
            } else {
                r matches JobResult::Failure { message } && message@ == encode_failed_text()
            }
        },
    }
}

/// Derives the terminal message from the pipeline's answer. Runs on the
/// worker, entirely off the control loop.
pub fn outcome_of_pipeline(answer: Result<Vec<PixelImage>, String>) -> (r: JobResult)
    ensures
        describes_outcome(answer, r),
{
    match answer {
        Err(m) => JobResult::Failure { message: m },
        Ok(mut candidates) => {
            if candidates.len() == 0 {
                JobResult::Failure { message: String::from_str("the pipeline produced no image") }
            } else {
                let first = candidates.remove(0);
                if !first.is_well_formed() {
                    JobResult::Failure {
                        message: String::from_str("the pipeline produced a malformed pixel buffer"),
                    }
                } else {
                    match encode_png(&first) {
                        Ok(png_bytes) => JobResult::Success { png_bytes },
                        Err(_) => JobResult::Failure {
                            message: String::from_str("the image could not be encoded"),
                        },
                    }
                }
            }
        },
    }
}

/// Runs one worker's reporting step: derives the terminal message from the
/// pipeline's answer and sends it through the job's one-shot transport. When
/// the controller is already gone the send fails and the message comes back;
/// that case is unobservable by the control loop, accepted by design, and
/// never retried.
pub fn run_worker(task: WorkerTask, answer: Result<Vec<PixelImage>, String>) -> (undelivered:
    Option<JobResult>)
    ensures
        undelivered matches Some(m) ==> describes_outcome(answer, m),
{
    let result = outcome_of_pipeline(answer);
    match transport_send(task.tx, result) {
        Ok(()) => None,
        Err(m) => Some(m),
    }
}

/// Law: single flight. An idle controller accepts a submission; immediately
/// afterwards the job is running from the submission instant, a second
/// submission is rejected, and the rejection leaves the running job exactly
/// as the first submission left it.
pub proof fn lemma_single_flight(p: Phase, first_ms: u64, second_ms: u64)
    requires
        submit_accepts(p),
    ensures
        submit_next(p, first_ms) == (Phase::Running { start_ms: first_ms }),
        !submit_accepts(submit_next(p, first_ms)),
        submit_next(submit_next(p, first_ms), second_ms) == submit_next(p, first_ms),
{
}

/// Law: an outcome is observed exactly once. A poll that emits an outcome
/// leaves the controller idle, an idle controller emits nothing, and so no
/// later poll emits again until a new submission.
pub proof fn lemma_outcome_exactly_once(p: Phase, first: bool, later: bool)
    ensures
        poll_emits(p, first) ==> poll_next(p, first) is Idle,
        p is Idle ==> !poll_emits(p, later) && poll_next(p, later) == p,
        poll_emits(p, first) ==> !poll_emits(poll_next(p, first), later),
{
}

/// Law: the busy flag tracks the lifecycle. The controller is busy
/// immediately after an accepted submission, and no longer busy immediately
/// after the poll that emitted the outcome.
pub proof fn lemma_busy_tracks_lifecycle(p: Phase, now_ms: u64, terminal: bool)
    ensures
        submit_accepts(p) ==> submit_next(p, now_ms) is Running,
        poll_emits(p, terminal) ==> !(poll_next(p, terminal) is Running),
{
}

/// Law: a success round-trips. A successful report exists only for a
/// non-empty candidate set, its stream is the fixed encoding of the first
/// candidate, and decoding that stream — now or after a save — recovers
/// exactly the candidate's dimensions and pixels.
pub proof fn lemma_success_round_trips(answer: Result<Vec<PixelImage>, String>, r: JobResult)
    requires
        describes_outcome(answer, r),
        r is Success,
    ensures
        answer matches Ok(candidates) && candidates@.len() > 0,
        answer matches Ok(candidates) ==> r matches JobResult::Success { png_bytes } && png_bytes@
            == png_bytes_of(candidates@[0].width, candidates@[0].height, candidates@[0].rgb@)
            && png_decodable(png_bytes@) && decoded_rgb_of(png_bytes@) == candidates@[0].rgb@
            && decoded_width_of(png_bytes@) == candidates@[0].width && decoded_height_of(png_bytes@)
            == candidates@[0].height,
{
}

/// Law: elapsed time is zero at the spawn instant, never decreases as the
/// observation instant grows, and dominates any delay the worker spent: a
/// result observed at or after `start_ms + delay_ms` reports at least
/// `delay_ms`.
pub proof fn lemma_elapsed_bounds(start_ms: u64, early_ms: u64, late_ms: u64, delay_ms: u64)
    ensures
        elapsed_since(start_ms, start_ms) == 0,
        early_ms <= late_ms ==> elapsed_since(start_ms, early_ms) <= elapsed_since(
            start_ms,
            late_ms,
        ),
        start_ms + delay_ms <= early_ms ==> elapsed_since(start_ms, early_ms) >= delay_ms,
{
}

} // verus!
