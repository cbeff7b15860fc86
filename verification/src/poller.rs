//! Poll-until-terminal state machine: a submitted job is polled at a fixed
//! interval until it reaches a terminal state, the whole wait bounded by a
//! deadline after which no further poll is issued.
use crate::error::Error;
use crate::error::InvalidKind;
use vstd::prelude::*;

verus! {

/// The remote job states the poller distinguishes. `Unknown` is the
/// non-terminal catch-all for states the remote side reports that the
/// client does not recognize; it is treated like `Running`.
#[derive(Clone, Copy, Debug, PartialEq, Eq, Structural)]
pub enum JobState {
    Queued,
    Running,
    Succeeded,
    Failed,
    Cancelled,
    Unknown,
}

/// The status a poll reports: the mapped state and the opaque diagnostic
/// payload that came with it.
pub struct JobStatus {
    pub state: JobState,
    pub diagnostic: String,
}

/// The job record a poll response carries, when it carries a status at all.
pub struct JobRecord {
    pub status: Option<JobStatus>,
}

/// One poll response: the job record, when the response named the job.
pub struct PollResponse {
    pub job: Option<JobRecord>,
}

/// What one poll response means: `Ok(true)` ends the wait successfully,
/// `Ok(false)` means poll again after a sleep, and a terminal failure,
/// cancellation or malformed response ends the wait with its error.
pub open spec fn classify_spec(response: PollResponse) -> Result<bool, Error> {
    match response.job {
        None => Err(Error::Invalid(InvalidKind::MissingJob)),
        Some(record) => match record.status {
            None => Err(Error::Invalid(InvalidKind::MissingStatus)),
            Some(status) => match status.state {
                JobState::Succeeded => Ok(true),
                JobState::Cancelled => Err(Error::Cancelled),
                JobState::Failed => Err(Error::Failed(status.diagnostic)),
                _ => Ok(false),
            },
        },
    }
}

/// Maps one poll response to what the poller does next; the diagnostic
/// payload of a failed job is carried in the error.
pub fn classify(response: &PollResponse) -> (r: Result<bool, Error>)
    ensures
        r == classify_spec(*response),
{
    match &response.job {
        None => Err(Error::Invalid(InvalidKind::MissingJob)),
        Some(record) => match &record.status {
            None => Err(Error::Invalid(InvalidKind::MissingStatus)),
            Some(status) => match status.state {
                JobState::Succeeded => Ok(true),
                JobState::Cancelled => Err(Error::Cancelled),
                JobState::Failed => Err(Error::Failed(status.diagnostic.clone())),
                JobState::Queued => Ok(false),
                JobState::Running => Ok(false),
                JobState::Unknown => Ok(false),
            },
        },
    }
}

/// The outcome of polling from position `i` on: poll `i` is issued at
/// elapsed time `i * interval`, and only while that is still inside the
/// deadline; the second component counts the polls issued in all. The
/// sequence records what each poll returned.
pub open spec fn wait_outcome(
    responses: Seq<Result<PollResponse, String>>,
    timeout: int,
    interval: int,
    i: int,
) -> (Result<(), Error>, int)
    decreases responses.len() - i,
{
    if i * interval >= timeout {
        (Err(Error::Timeout), i)
    } else if i < 0 || i >= responses.len() {
        (Err(Error::Timeout), i)
    } else {
        match responses[i] {
            Err(t) => (Err(Error::Transport(t)), i + 1),
            Ok(response) => match classify_spec(response) {
                Err(e) => (Err(e), i + 1),
                Ok(b) => if b {
                    (Ok(()), i + 1)
                } else {
                    wait_outcome(responses, timeout, interval, i + 1)
                },
            },
        }
    }
}

/// Drives a poll sequence to its outcome. The responses are what each poll
/// returned, in order; enough must be recorded to cover the deadline. The
/// result also says how many polls were issued: none at or past the
/// deadline.
pub fn wait_for_terminal(
    responses: &Vec<Result<PollResponse, String>>,
    timeout: u64,
    interval: u64,
) -> (r: (Result<(), Error>, usize))
    requires
        responses@.len() * interval >= timeout,
    ensures
        ({
            let (res, polls) = wait_outcome(responses@, timeout as int, interval as int, 0);
            r.0 == res && r.1 == polls
        }),
{
    let ghost target = wait_outcome(responses@, timeout as int, interval as int, 0);
    let n = responses.len();
    let mut i: usize = 0;
    let mut elapsed: u128 = 0;
    loop
        invariant
            i <= n,
            n == responses@.len(),
            elapsed == i as int * interval as int,
            responses@.len() * interval >= timeout,
            target == wait_outcome(responses@, timeout as int, interval as int, 0),
            target == wait_outcome(responses@, timeout as int, interval as int, i as int),
        decreases n - i,
    {
        if elapsed >= timeout as u128 {
            return (Err(Error::Timeout), i);
        }
        proof {
            assert(i < responses@.len()) by {
                if i >= responses@.len() {
                    assert(responses@.len() * interval <= i as int * interval as int)
                        by (nonlinear_arith)
                        requires
                            responses@.len() <= i as int,
                            interval >= 0,
                    ;
                }
            }
        }
        match &responses[i] {
            Err(t) => {
                return (Err(Error::Transport(t.clone())), i + 1);
            },
            Ok(response) => {
                match classify(response) {
                    Err(e) => {
                        return (Err(e), i + 1);
                    },
                    Ok(true) => {
                        return (Ok(()), i + 1);
                    },
                    Ok(false) => {},
                }
            },
        }
        proof {
            assert((i + 1) * interval as int == i as int * interval as int + interval as int)
                by (nonlinear_arith);
        }
        i = i + 1;
        elapsed = elapsed + interval as u128;
    }
}

/// The deadline is honored: however the poll sequence unfolds, the last
/// poll issued, if any, started strictly inside the deadline window.
pub proof fn lemma_no_poll_after_deadline(
    responses: Seq<Result<PollResponse, String>>,
    timeout: int,
    interval: int,
)
    ensures
        ({
            let (res, polls) = wait_outcome(responses, timeout, interval, 0);
            polls == 0 || (polls - 1) * interval < timeout
        }),
{
    lemma_no_poll_after_deadline_from(responses, timeout, interval, 0);
}

proof fn lemma_no_poll_after_deadline_from(
    responses: Seq<Result<PollResponse, String>>,
    timeout: int,
    interval: int,
    i: int,
)
    requires
        0 <= i,
    ensures
        ({
            let (res, polls) = wait_outcome(responses, timeout, interval, i);
            polls == i || (polls - 1) * interval < timeout
        }),
    decreases responses.len() - i,
{
    if i * interval >= timeout || i >= responses.len() {
    } else {
        match responses[i] {
            Err(_) => {},
            Ok(response) => match classify_spec(response) {
                Err(_) => {},
                Ok(b) => {
                    if !b {
                        lemma_no_poll_after_deadline_from(responses, timeout, interval, i + 1);
                    }
                },
            },
        }
    }
}

/// A poll sequence that never reaches a terminal state ends with a
/// timeout: every response that keeps the job non-terminal leaves only
/// the deadline to end the wait.
pub proof fn lemma_no_terminal_means_timeout(
    responses: Seq<Result<PollResponse, String>>,
    timeout: int,
    interval: int,
)
    requires
        forall|i: int|
            0 <= i < responses.len() ==> ((#[trigger] responses[i]) matches Ok(r)
                && classify_spec(r) == Ok::<bool, Error>(false)),
    ensures
        wait_outcome(responses, timeout, interval, 0).0 == Err::<(), Error>(Error::Timeout),
{
    lemma_no_terminal_means_timeout_from(responses, timeout, interval, 0);
}

proof fn lemma_no_terminal_means_timeout_from(
    responses: Seq<Result<PollResponse, String>>,
    timeout: int,
    interval: int,
    i: int,
)
    requires
        0 <= i,
        forall|k: int|
            0 <= k < responses.len() ==> ((#[trigger] responses[k]) matches Ok(r)
                && classify_spec(r) == Ok::<bool, Error>(false)),
    ensures
        wait_outcome(responses, timeout, interval, i).0 == Err::<(), Error>(Error::Timeout),
    decreases responses.len() - i,
{
    if i * interval >= timeout || i >= responses.len() {
    } else {
        lemma_no_terminal_means_timeout_from(responses, timeout, interval, i + 1);
    }
}

/// The outcome `submit_and_wait` owes: a failed submission is passed
/// through as a transport error, a submission accepted without a job id is
/// malformed, and otherwise the job id is returned exactly when the poll
/// sequence ends in success.
pub open spec fn submit_outcome(
    submission: Result<Option<String>, String>,
    responses: Seq<Result<PollResponse, String>>,
    timeout: int,
    interval: int,
) -> Result<String, Error> {
    match submission {
        Err(t) => Err(Error::Transport(t)),
        Ok(None) => Err(Error::Invalid(InvalidKind::MissingJobId)),
        Ok(Some(id)) => match wait_outcome(responses, timeout, interval, 0).0 {
            Ok(()) => Ok(id),
            Err(e) => Err(e),
        },
    }
}

/// Submits, then waits: `submission` is what the submission call returned
/// (the job id is assigned by the remote side), and `responses` what each
/// subsequent status poll returned. Exactly one submission is consumed and
/// polling starts immediately; on success the job id is handed back.
pub fn submit_and_wait(
    submission: Result<Option<String>, String>,
    responses: &Vec<Result<PollResponse, String>>,
    timeout: u64,
    interval: u64,
) -> (r: Result<String, Error>)
    requires
        submission matches Ok(Some(_)) ==> responses@.len() * interval >= timeout,
    ensures
        r == submit_outcome(submission, responses@, timeout as int, interval as int),
{
    match submission {
        Err(t) => Err(Error::Transport(t)),
        Ok(None) => Err(Error::Invalid(InvalidKind::MissingJobId)),
        Ok(Some(id)) => {
            let (res, _polls) = wait_for_terminal(responses, timeout, interval);
            match res {
                Ok(()) => Ok(id),
                Err(e) => Err(e),
            }
        },
    }
}

} // verus!
