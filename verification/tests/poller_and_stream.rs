use awskit::cursor::collect_all;
use awskit::cursor::drain_pages;
use awskit::cursor::Page;
use awskit::error::Error;
use awskit::error::InvalidKind;
use awskit::poller::classify;
use awskit::poller::submit_and_wait;
use awskit::poller::wait_for_terminal;
use awskit::poller::JobRecord;
use awskit::poller::JobState;
use awskit::poller::JobStatus;
use awskit::poller::PollResponse;
use awskit::results::collect_job_output;
use awskit::results::stream_job_results;

fn response(state: JobState, diagnostic: &str) -> PollResponse {
    PollResponse {
        job: Some(JobRecord {
            status: Some(JobStatus {
                state,
                diagnostic: diagnostic.to_string(),
            }),
        }),
    }
}

fn page(items: &[&str], next_token: Option<&str>) -> Page<String> {
    Page {
        items: Some(items.iter().map(|s| s.to_string()).collect()),
        next_token: next_token.map(|t| t.to_string()),
    }
}

#[test]
fn test_poller_succeeds_after_two_sleeps() {
    let responses = vec![
        Ok(response(JobState::Queued, "")),
        Ok(response(JobState::Running, "")),
        Ok(response(JobState::Succeeded, "")),
    ];
    // Three polls fit inside the deadline: polls at 0, 10 and 20, so the
    // poller slept exactly twice before the job was seen to succeed.
    let (result, polls) = wait_for_terminal(&responses, 25, 10);
    assert_eq!(result, Ok(()));
    assert_eq!(polls, 3);
}

#[test]
fn test_poller_failed_carries_payload() {
    let responses = vec![
        Ok(response(JobState::Queued, "")),
        Ok(response(JobState::Failed, "stage 3 exploded")),
    ];
    let (result, polls) = wait_for_terminal(&responses, 15, 10);
    assert_eq!(result, Err(Error::Failed("stage 3 exploded".to_string())));
    assert_eq!(polls, 2);
}

#[test]
fn test_poller_cancelled() {
    let responses = vec![Ok(response(JobState::Cancelled, ""))];
    let (result, polls) = wait_for_terminal(&responses, 5, 10);
    assert_eq!(result, Err(Error::Cancelled));
    assert_eq!(polls, 1);
}

#[test]
fn test_poller_timeout_stops_polling() {
    let responses = vec![
        Ok(response(JobState::Queued, "")),
        Ok(response(JobState::Running, "")),
        Ok(response(JobState::Unknown, "")),
    ];
    // Polls at 0, 10 and 20 never reach a terminal state; the next poll
    // would start at 30, past the 25-second deadline, and is not issued.
    let (result, polls) = wait_for_terminal(&responses, 25, 10);
    assert_eq!(result, Err(Error::Timeout));
    assert_eq!(polls, 3);
}

#[test]
fn test_poller_transport_error_passes_through() {
    let responses = vec![Err("connection reset".to_string())];
    let (result, polls) = wait_for_terminal(&responses, 5, 10);
    assert_eq!(result, Err(Error::Transport("connection reset".to_string())));
    assert_eq!(polls, 1);
}

#[test]
fn test_poller_malformed_responses_are_invalid() {
    let missing_job = vec![Ok(PollResponse { job: None })];
    let (result, _) = wait_for_terminal(&missing_job, 5, 10);
    assert_eq!(result, Err(Error::Invalid(InvalidKind::MissingJob)));

    let missing_status = vec![Ok(PollResponse { job: Some(JobRecord { status: None }) })];
    let (result, _) = wait_for_terminal(&missing_status, 5, 10);
    assert_eq!(result, Err(Error::Invalid(InvalidKind::MissingStatus)));
}

#[test]
fn test_classify_unknown_state_keeps_polling() {
    assert_eq!(classify(&response(JobState::Unknown, "")), Ok(false));
    assert_eq!(classify(&response(JobState::Queued, "")), Ok(false));
    assert_eq!(classify(&response(JobState::Running, "")), Ok(false));
    assert_eq!(classify(&response(JobState::Succeeded, "")), Ok(true));
}

#[test]
fn test_submit_and_wait_returns_job_id() {
    let responses = vec![Ok(response(JobState::Succeeded, ""))];
    let result = submit_and_wait(Ok(Some("job-17".to_string())), &responses, 5, 10);
    assert_eq!(result, Ok("job-17".to_string()));
}

#[test]
fn test_submit_and_wait_missing_id_is_invalid() {
    let result = submit_and_wait(Ok(None), &Vec::new(), 5, 10);
    assert_eq!(result, Err(Error::Invalid(InvalidKind::MissingJobId)));
}

#[test]
fn test_submit_and_wait_submission_failure() {
    let result = submit_and_wait(
        Err("dns failure".to_string()),
        &Vec::new(),
        5,
        10,
    );
    assert_eq!(result, Err(Error::Transport("dns failure".to_string())));
}

#[test]
fn test_stream_three_pages_concatenates() {
    let fetches = vec![
        Ok(page(&["a1", "a2"], Some("B"))),
        Ok(page(&["b1"], Some("C"))),
        Ok(page(&["c1", "c2"], None)),
        // Never reached: the third page exhausted the cursor.
        Ok(page(&["zz"], None)),
    ];
    let collected = collect_all(fetches).unwrap();
    assert_eq!(collected, vec!["a1", "a2", "b1", "c1", "c2"]);
}

#[test]
fn test_stream_pages_in_order_then_ends() {
    let fetches = vec![
        Ok(page(&["a1", "a2"], Some("B"))),
        Ok(page(&["b1"], Some("C"))),
        Ok(page(&["c1"], None)),
    ];
    let out = drain_pages(fetches);
    assert_eq!(out.len(), 3);
    assert_eq!(out[0], Ok(vec!["a1".to_string(), "a2".to_string()]));
    assert_eq!(out[1], Ok(vec!["b1".to_string()]));
    assert_eq!(out[2], Ok(vec!["c1".to_string()]));
}

#[test]
fn test_stream_empty_token_means_exhausted() {
    let fetches = vec![
        Ok(page(&["a1"], Some(""))),
        Ok(page(&["never"], None)),
    ];
    let out = drain_pages(fetches);
    assert_eq!(out.len(), 1);
    assert_eq!(out[0], Ok(vec!["a1".to_string()]));
}

#[test]
fn test_stream_malformed_page_yields_one_error_and_ends() {
    let fetches = vec![
        Ok(page(&["a1"], Some("B"))),
        Ok(Page::<String> { items: None, next_token: Some("C".to_string()) }),
        // Never reached: the malformed page exhausted the cursor.
        Ok(page(&["zz"], None)),
    ];
    let out = drain_pages(fetches);
    assert_eq!(out.len(), 2);
    assert_eq!(out[0], Ok(vec!["a1".to_string()]));
    assert_eq!(out[1], Err(Error::Invalid(InvalidKind::MissingResultSet)));
}

#[test]
fn test_stream_transport_error_aborts_collection() {
    let fetches: Vec<Result<Page<String>, String>> = vec![
        Ok(page(&["a1"], Some("B"))),
        Err("socket closed".to_string()),
    ];
    let result = collect_all(fetches);
    assert_eq!(result, Err(Error::Transport("socket closed".to_string())));
}

#[test]
fn test_result_streamer_error_is_sole_element() {
    let fetches = vec![Ok(page(&["a1"], None))];
    let out = stream_job_results(Err(Error::Timeout), fetches);
    assert_eq!(out.len(), 1);
    assert_eq!(out[0], Err(Error::Timeout));
}

#[test]
fn test_result_streamer_success_streams_pages() {
    let fetches = vec![
        Ok(page(&["r1"], Some("B"))),
        Ok(page(&["r2"], None)),
    ];
    let out = collect_job_output(Ok("job-1".to_string()), fetches);
    assert_eq!(out, Ok(vec!["r1".to_string(), "r2".to_string()]));
}
