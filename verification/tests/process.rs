use tealdrive::config::{RelativePath, RootId};
use tealdrive::errors::TealDriveError;
use tealdrive::helper::process::{helper_run_next, AnswerRead, ChildStatus, HelperRunAction, HelperRunEvent};
use tealdrive::helper::types::{
    HelperCommand, HelperLimits, HelperPolicyContext, HelperRequest, HelperResponse,
};
use tealdrive::protocol::frame::RequestId;

const TIMEOUT: u128 = 10_000_000_000;

fn request() -> HelperRequest {
    HelperRequest {
        request_id: RequestId::new(),
        username: "alice".to_owned(),
        uid: 1000,
        gid: 1000,
        command: HelperCommand::ListDirectory,
        root_id: RootId::new("home"),
        relative_path: RelativePath::new("docs"),
        target_relative_path: None,
        policy_context: HelperPolicyContext {
            read_only_root: false,
            is_web_root: false,
        },
        limits: HelperLimits {
            max_directory_page_size: 500,
            max_text_edit_size: 5 * 1024 * 1024,
            max_chunk_size: 256 * 1024,
            max_download_helper_bytes: 64 * 1024 * 1024,
        },
        list_options: None,
    }
}

fn finished_with(action: HelperRunAction) -> Result<HelperResponse, TealDriveError> {
    match action {
        HelperRunAction::Finish(outcome) => outcome,
        other => panic!("expected the run to finish, got {:?}", other),
    }
}

#[test]
fn run_goes_spawn_write_poll() {
    assert!(matches!(helper_run_next(HelperRunEvent::Encoded(Ok(())), TIMEOUT), HelperRunAction::Spawn));
    assert!(matches!(helper_run_next(HelperRunEvent::Spawned(true), TIMEOUT), HelperRunAction::WriteRequest));
    assert!(matches!(helper_run_next(HelperRunEvent::RequestWritten(true), TIMEOUT), HelperRunAction::Poll));
}

#[test]
fn encoding_error_ends_the_run() {
    let outcome = finished_with(helper_run_next(
        HelperRunEvent::Encoded(Err(TealDriveError::HelperRequestTooLarge)),
        TIMEOUT,
    ));
    assert_eq!(outcome.unwrap_err(), TealDriveError::HelperRequestTooLarge);
}

#[test]
fn start_and_write_failures_have_their_errors() {
    let spawn = finished_with(helper_run_next(HelperRunEvent::Spawned(false), TIMEOUT));
    assert_eq!(spawn.unwrap_err(), TealDriveError::HelperSpawnFailed);
    let stdin = finished_with(helper_run_next(HelperRunEvent::RequestWritten(false), TIMEOUT));
    assert_eq!(stdin.unwrap_err(), TealDriveError::HelperStdinFailed);
}

#[test]
fn failed_exit_or_poll_is_a_nonzero_exit() {
    let exit = finished_with(helper_run_next(
        HelperRunEvent::Polled(ChildStatus::Exited { success: false }),
        TIMEOUT,
    ));
    assert_eq!(exit.unwrap_err(), TealDriveError::HelperNonZeroExit);
    let poll = finished_with(helper_run_next(HelperRunEvent::Polled(ChildStatus::Unknown), TIMEOUT));
    assert_eq!(poll.unwrap_err(), TealDriveError::HelperNonZeroExit);
}

#[test]
fn successful_exit_reads_the_answer() {
    assert!(matches!(
        helper_run_next(HelperRunEvent::Polled(ChildStatus::Exited { success: true }), TIMEOUT),
        HelperRunAction::ReadAnswer
    ));
    let answer = HelperResponse::not_implemented(&request());
    let outcome = finished_with(helper_run_next(
        HelperRunEvent::AnswerRead(AnswerRead::Answer(answer.clone())),
        TIMEOUT,
    ));
    assert_eq!(outcome.unwrap(), answer);
}

#[test]
fn unreadable_answers_fail() {
    let missing = finished_with(helper_run_next(HelperRunEvent::AnswerRead(AnswerRead::NoOutput), TIMEOUT));
    assert_eq!(missing.unwrap_err(), TealDriveError::HelperStdoutFailed);
    let malformed = finished_with(helper_run_next(HelperRunEvent::AnswerRead(AnswerRead::Malformed), TIMEOUT));
    assert_eq!(malformed.unwrap_err(), TealDriveError::HelperMalformedResponse);
}

#[test]
fn running_child_waits_until_the_timeout_then_is_killed() {
    assert!(matches!(
        helper_run_next(HelperRunEvent::Polled(ChildStatus::Running { elapsed_nanos: TIMEOUT - 1 }), TIMEOUT),
        HelperRunAction::WaitThenPoll
    ));
    assert!(matches!(
        helper_run_next(HelperRunEvent::Polled(ChildStatus::Running { elapsed_nanos: TIMEOUT }), TIMEOUT),
        HelperRunAction::KillThenFail(TealDriveError::HelperTimeout)
    ));
}
