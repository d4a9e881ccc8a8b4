use auto_commit::error::{AppError, ErrorKind};
use auto_commit::message::{
    Candidate, Content, GenerationRequest, GenerationResponse, HttpReply, Part, SYSTEM_INSTRUCTION,
};
use auto_commit::pipeline::{
    Action, CommandOutcome, CommitOutcome, Event, Phase, Pipeline, RawDiff, NO_CHANGES,
};

fn answer(text: &str) -> GenerationResponse {
    GenerationResponse {
        candidates: vec![Candidate {
            content: Content { parts: vec![Part { text: text.to_string() }] },
        }],
    }
}

fn one_modified_file() -> RawDiff {
    RawDiff {
        stat: b" a.txt | 2 +-\n 1 file changed, 1 insertion(+), 1 deletion(-)\n".to_vec(),
        body: b"diff --git a/a.txt b/a.txt\n-old\n+new\n".to_vec(),
    }
}

fn failure(kind: ErrorKind, message: &str) -> Action {
    Action::Finish(Err(AppError { kind, message: message.to_string() }))
}

/// Drives a run with `credential` up to the point where the request has been sent.
fn run_up_to_the_request(credential: &str) -> Pipeline {
    let (mut run, first) = Pipeline::begin(credential.to_string());
    assert_eq!(first, Action::Inspect);
    assert_eq!(run.step(Event::Inspected(Ok(1))), Action::StageAll);
    assert_eq!(run.step(Event::Staged(CommandOutcome::Exited(true))), Action::CollectDiff);
    match run.step(Event::DiffCollected(Ok(one_modified_file()))) {
        Action::Generate { .. } => {}
        other => panic!("expected a request, got {:?}", other),
    }
    run
}

/// Drives a run up to the point where a commit under `text`, cleaned, has been asked for.
fn run_up_to_the_commit(text: &str) -> Pipeline {
    let mut run = run_up_to_the_request("secret");
    let body = "{\"candidates\":[]}".to_string();
    assert_eq!(
        run.step(Event::Replied(HttpReply::Response { status: 200, body: body.clone() })),
        Action::Decode { body }
    );
    match run.step(Event::Decoded(Ok(answer(text)))) {
        Action::Commit { .. } => {}
        other => panic!("expected a commit, got {:?}", other),
    }
    run
}

#[test]
fn a_run_begins_by_inspecting_the_repository() {
    let (run, first) = Pipeline::begin("secret".to_string());
    assert_eq!(first, Action::Inspect);
    assert_eq!(run.phase(), Phase::Inspecting);
    assert!(!run.is_finished());
}

#[test]
fn a_full_run_commits_and_publishes_the_proposed_message() {
    let (mut run, first) = Pipeline::begin("secret".to_string());
    assert_eq!(first, Action::Inspect);
    assert_eq!(run.step(Event::Inspected(Ok(1))), Action::StageAll);
    assert_eq!(run.phase(), Phase::Staging);
    assert_eq!(run.step(Event::Staged(CommandOutcome::Exited(true))), Action::CollectDiff);
    assert_eq!(run.phase(), Phase::Collecting);
    let asked = run.step(Event::DiffCollected(Ok(one_modified_file())));
    let expected_request = GenerationRequest {
        contents: vec![Content {
            parts: vec![Part {
                text: "Analyze these git changes and generate a commit message:\n\n a.txt | 2 +-\n 1 file changed, 1 insertion(+), 1 deletion(-)\n\n\ndiff --git a/a.txt b/a.txt\n-old\n+new\n".to_string(),
            }],
        }],
        system_instruction: Content { parts: vec![Part { text: SYSTEM_INSTRUCTION.to_string() }] },
    };
    assert_eq!(
        asked,
        Action::Generate {
            url: "https://generativelanguage.googleapis.com/v1beta/models/gemini-2.0-flash-exp:generateContent?key=secret".to_string(),
            request: expected_request,
        }
    );
    assert_eq!(run.phase(), Phase::Generating);
    let body = "{\"candidates\":[{\"content\":{\"parts\":[{\"text\":\"feat(x): add y\"}]}}]}";
    assert_eq!(
        run.step(Event::Replied(HttpReply::Response { status: 200, body: body.to_string() })),
        Action::Decode { body: body.to_string() }
    );
    assert_eq!(run.phase(), Phase::Decoding);
    assert_eq!(
        run.step(Event::Decoded(Ok(answer("feat(x): add y")))),
        Action::Commit { message: "feat(x): add y".to_string() }
    );
    assert_eq!(run.phase(), Phase::Committing);
    assert_eq!(run.step(Event::Committed(CommandOutcome::Exited(true))), Action::Publish);
    assert_eq!(run.phase(), Phase::Publishing);
    assert_eq!(
        run.step(Event::Published(CommandOutcome::Exited(true))),
        Action::Finish(Ok(CommitOutcome::Committed("feat(x): add y".to_string())))
    );
    assert!(run.is_finished());
}

#[test]
fn a_refused_request_ends_the_run_after_staging() {
    let mut run = run_up_to_the_request("secret");
    assert_eq!(
        run.step(Event::Replied(HttpReply::Response {
            status: 403,
            body: "invalid key".to_string()
        })),
        failure(ErrorKind::Api, "Gemini API error: invalid key")
    );
    assert!(run.is_finished());
}

#[test]
fn every_status_that_is_no_success_refuses() {
    for status in [199u16, 300, 301, 400, 401, 404, 429, 500, 503] {
        let mut run = run_up_to_the_request("secret");
        assert_eq!(
            run.step(Event::Replied(HttpReply::Response { status, body: "no".to_string() })),
            failure(ErrorKind::Api, "Gemini API error: no")
        );
    }
}

#[test]
fn an_empty_credential_ends_the_run_before_staging() {
    let (mut run, _) = Pipeline::begin(String::new());
    assert_eq!(
        run.step(Event::Inspected(Ok(1))),
        failure(
            ErrorKind::Config,
            "Gemini API Key not configured. Please add your API key in settings."
        )
    );
    assert!(run.is_finished());
}

#[test]
fn no_pending_changes_end_the_run_as_a_noop() {
    let (mut run, _) = Pipeline::begin("secret".to_string());
    assert_eq!(run.step(Event::Inspected(Ok(0))), Action::Finish(Ok(CommitOutcome::NoChanges)));
    assert!(run.is_finished());
}

#[test]
fn no_pending_changes_are_a_noop_even_without_a_credential() {
    let (mut run, _) = Pipeline::begin(String::new());
    assert_eq!(run.step(Event::Inspected(Ok(0))), Action::Finish(Ok(CommitOutcome::NoChanges)));
    assert!(run.is_finished());
}

#[test]
fn a_repository_that_cannot_be_opened_ends_the_run() {
    let (mut run, _) = Pipeline::begin("secret".to_string());
    assert_eq!(
        run.step(Event::Inspected(Err("could not find repository at '/nowhere'".to_string()))),
        failure(ErrorKind::Git, "could not find repository at '/nowhere'")
    );
    assert!(run.is_finished());
}

#[test]
fn staging_that_could_not_be_run_ends_the_run() {
    let (mut run, _) = Pipeline::begin("secret".to_string());
    run.step(Event::Inspected(Ok(2)));
    assert_eq!(
        run.step(Event::Staged(CommandOutcome::NotRun("No such file or directory".to_string()))),
        failure(ErrorKind::Git, "No such file or directory")
    );
    assert!(run.is_finished());
}

#[test]
fn staging_that_reported_failure_ends_the_run() {
    let (mut run, _) = Pipeline::begin("secret".to_string());
    run.step(Event::Inspected(Ok(2)));
    assert_eq!(
        run.step(Event::Staged(CommandOutcome::Exited(false))),
        failure(ErrorKind::Git, "git add failed")
    );
    assert!(run.is_finished());
    assert!(!run.awaits(&Event::DiffCollected(Ok(one_modified_file()))));
}

#[test]
fn a_diff_that_could_not_be_read_ends_the_run() {
    let (mut run, _) = Pipeline::begin("secret".to_string());
    run.step(Event::Inspected(Ok(2)));
    run.step(Event::Staged(CommandOutcome::Exited(true)));
    assert_eq!(
        run.step(Event::DiffCollected(Err("Permission denied".to_string()))),
        failure(ErrorKind::Git, "Permission denied")
    );
    assert!(run.is_finished());
}

#[test]
fn a_long_diff_is_cut_in_the_request() {
    let (mut run, _) = Pipeline::begin("k".to_string());
    run.step(Event::Inspected(Ok(1)));
    run.step(Event::Staged(CommandOutcome::Exited(true)));
    let raw = RawDiff { stat: b"stat".to_vec(), body: vec![b'+'; 10001] };
    match run.step(Event::DiffCollected(Ok(raw))) {
        Action::Generate { url, request } => {
            assert!(url.ends_with("?key=k"));
            let expected = format!(
                "Analyze these git changes and generate a commit message:\n\nstat\n\n{}",
                "+".repeat(10000)
            );
            assert_eq!(request.contents[0].parts[0].text, expected);
        }
        other => panic!("expected a request, got {:?}", other),
    }
}

#[test]
fn a_diff_that_is_not_text_is_still_sent() {
    let (mut run, _) = Pipeline::begin("k".to_string());
    run.step(Event::Inspected(Ok(1)));
    run.step(Event::Staged(CommandOutcome::Exited(true)));
    let raw = RawDiff { stat: vec![0xff], body: vec![b'a', 0xc3] };
    match run.step(Event::DiffCollected(Ok(raw))) {
        Action::Generate { request, .. } => {
            assert_eq!(
                request.contents[0].parts[0].text,
                "Analyze these git changes and generate a commit message:\n\n\u{fffd}\n\na\u{fffd}"
            );
        }
        other => panic!("expected a request, got {:?}", other),
    }
}

#[test]
fn a_request_that_never_arrived_ends_the_run() {
    let mut run = run_up_to_the_request("secret");
    assert_eq!(
        run.step(Event::Replied(HttpReply::Unreachable("connection refused".to_string()))),
        failure(ErrorKind::Network, "Network error: connection refused")
    );
    assert!(run.is_finished());
}

#[test]
fn a_body_that_cannot_be_decoded_ends_the_run() {
    let mut run = run_up_to_the_request("secret");
    run.step(Event::Replied(HttpReply::Response { status: 200, body: "<html>".to_string() }));
    assert_eq!(
        run.step(Event::Decoded(Err("expected value at line 1 column 1".to_string()))),
        failure(ErrorKind::Parse, "Failed to parse response: expected value at line 1 column 1")
    );
    assert!(run.is_finished());
}

#[test]
fn an_answer_without_text_ends_the_run() {
    let mut run = run_up_to_the_request("secret");
    run.step(Event::Replied(HttpReply::Response { status: 200, body: "{}".to_string() }));
    assert_eq!(
        run.step(Event::Decoded(Ok(GenerationResponse { candidates: vec![] }))),
        failure(ErrorKind::NoCandidate, "No commit message generated")
    );
    assert!(run.is_finished());
}

#[test]
fn the_proposed_text_is_cleaned_before_it_is_committed() {
    let mut run = run_up_to_the_request("secret");
    run.step(Event::Replied(HttpReply::Response { status: 201, body: String::new() }));
    assert_eq!(
        run.step(Event::Decoded(Ok(answer("  \"fix(ui): align buttons\"\n")))),
        Action::Commit { message: "fix(ui): align buttons".to_string() }
    );
    run.step(Event::Committed(CommandOutcome::Exited(true)));
    assert_eq!(
        run.step(Event::Published(CommandOutcome::Exited(true))),
        Action::Finish(Ok(CommitOutcome::Committed("fix(ui): align buttons".to_string())))
    );
}

#[test]
fn a_commit_that_could_not_be_run_ends_the_run() {
    let mut run = run_up_to_the_commit("feat: x");
    assert_eq!(
        run.step(Event::Committed(CommandOutcome::NotRun("git not found".to_string()))),
        failure(ErrorKind::Git, "git not found")
    );
    assert!(run.is_finished());
}

#[test]
fn a_commit_that_reported_failure_ends_the_run() {
    let mut run = run_up_to_the_commit("feat: x");
    assert_eq!(
        run.step(Event::Committed(CommandOutcome::Exited(false))),
        failure(ErrorKind::Git, "git commit failed")
    );
    assert!(run.is_finished());
}

#[test]
fn a_publication_that_could_not_be_run_ends_the_run() {
    let mut run = run_up_to_the_commit("feat: x");
    run.step(Event::Committed(CommandOutcome::Exited(true)));
    assert_eq!(
        run.step(Event::Published(CommandOutcome::NotRun("git not found".to_string()))),
        failure(ErrorKind::Git, "git not found")
    );
    assert!(run.is_finished());
}

#[test]
fn a_publication_that_reported_failure_ends_the_run() {
    let mut run = run_up_to_the_commit("feat: x");
    run.step(Event::Committed(CommandOutcome::Exited(true)));
    assert_eq!(
        run.step(Event::Published(CommandOutcome::Exited(false))),
        failure(ErrorKind::Git, "git push failed")
    );
    assert!(run.is_finished());
}

#[test]
fn a_run_waits_for_one_kind_of_report_at_a_time() {
    let reports = || {
        vec![
            Event::Inspected(Ok(1)),
            Event::Staged(CommandOutcome::Exited(true)),
            Event::DiffCollected(Ok(one_modified_file())),
            Event::Replied(HttpReply::Response { status: 200, body: String::new() }),
            Event::Decoded(Ok(answer("feat: x"))),
            Event::Committed(CommandOutcome::Exited(true)),
            Event::Published(CommandOutcome::Exited(true)),
        ]
    };
    let (mut run, _) = Pipeline::begin("secret".to_string());
    for (stage, report) in reports().into_iter().enumerate() {
        for (other, candidate) in reports().iter().enumerate() {
            assert_eq!(run.awaits(candidate), other == stage, "stage {} report {}", stage, other);
        }
        run.step(report);
    }
    assert!(run.is_finished());
    for candidate in reports().iter() {
        assert!(!run.awaits(candidate));
    }
}

#[test]
fn an_outcome_is_shown_as_its_message_or_as_the_marker() {
    assert_eq!(NO_CHANGES, "No changes to commit");
    assert_eq!(CommitOutcome::NoChanges.describe(), "No changes to commit");
    assert_eq!(CommitOutcome::Committed("feat: x".to_string()).describe(), "feat: x");
}

#[test]
fn a_copy_of_an_outcome_equals_it() {
    let outcome = CommitOutcome::Committed("feat: x".to_string());
    assert_eq!(outcome.clone(), outcome);
    assert_eq!(CommitOutcome::NoChanges.clone(), CommitOutcome::NoChanges);
}

#[test]
fn a_successful_reply_that_could_not_be_read_ends_the_run() {
    let mut run = run_up_to_the_request("secret");
    assert_eq!(
        run.step(Event::Replied(HttpReply::Unread {
            status: 200,
            why: "error decoding response body".to_string()
        })),
        failure(ErrorKind::Parse, "Failed to parse response: error decoding response body")
    );
    assert!(run.is_finished());
}

#[test]
fn a_refused_reply_that_could_not_be_read_ends_the_run_with_an_empty_body() {
    let mut run = run_up_to_the_request("secret");
    assert_eq!(
        run.step(Event::Replied(HttpReply::Unread { status: 403, why: "reset".to_string() })),
        failure(ErrorKind::Api, "Gemini API error: ")
    );
    assert!(run.is_finished());
}
