use std::io::{Error, ErrorKind};

use adb_sync::command::{AdbSettings, Invocation, Stream};
use adb_sync::outcome::{AdbError, ProcessOutcome};
use adb_sync::transfer::{pull_files_after_mod_date, Progress, Stage};

fn settings() -> AdbSettings {
    AdbSettings { verbose: false, device_name: String::from("R58M") }
}

fn ok(stdout: &str) -> ProcessOutcome {
    ProcessOutcome::Exited { code: Some(0), stdout: stdout.as_bytes().to_vec() }
}

fn exit(code: i32) -> ProcessOutcome {
    ProcessOutcome::Exited { code: Some(code), stdout: Vec::new() }
}

/// Performs the job as a caller would, answering each run with the next
/// outcome. Returns the runs that were asked for and how the job ended.
fn drive(
    source: &str,
    destination: &str,
    date: &str,
    outcomes: Vec<ProcessOutcome>,
) -> (Vec<Invocation>, Option<Result<(), AdbError>>) {
    let mut job = pull_files_after_mod_date(
        &String::from(source),
        &String::from(destination),
        &String::from(date),
        &settings(),
    );
    let mut asked = Vec::new();
    for outcome in outcomes {
        asked.push(job.command());
        match job.advance(outcome) {
            Progress::Next(next) => job = next,
            Progress::Done(result) => return (asked, Some(result)),
        }
    }
    asked.push(job.command());
    (asked, None)
}

fn pull_sources(asked: &[Invocation]) -> Vec<String> {
    asked[1..].iter().map(|inv| inv.args[3].clone()).collect()
}

#[test]
fn new_job_asks_for_the_query() {
    let job = pull_files_after_mod_date(
        &String::from("/dev/cam"),
        &String::from("out"),
        &String::from("2024-01-01"),
        &settings(),
    );
    assert!(matches!(job.stage, Stage::Query));
    assert_eq!(job.source_path, "/dev/cam");
    assert_eq!(job.destination_path, "out");
    assert_eq!(job.mod_date, "2024-01-01");
    assert_eq!(job.settings.device_name, "R58M");
    assert!(!job.settings.verbose);
    let inv = job.command();
    assert_eq!(inv.program, "adb");
    assert_eq!(
        inv.args,
        vec!["-s", "R58M", "shell", "find", "/dev/cam", "-type", "f", "-newermt", "2024-01-01"]
    );
    assert_eq!(inv.stdout, Stream::Piped);
    assert_eq!(inv.stderr, Stream::Null);
}

#[test]
fn two_listed_files_give_two_pulls_in_order() {
    let (asked, result) =
        drive("/dev/cam", "out", "2024-01-01", vec![ok("a.jpg\nb.jpg\n"), exit(0), exit(0)]);
    assert!(matches!(result, Some(Ok(()))));
    assert_eq!(asked.len(), 3);
    assert_eq!(asked[1].args, vec!["-s", "R58M", "pull", "/dev/cam/a.jpg", "out"]);
    assert_eq!(asked[2].args, vec!["-s", "R58M", "pull", "/dev/cam/b.jpg", "out"]);
    assert_eq!(asked[1].stdout, Stream::Null);
    assert_eq!(asked[1].stderr, Stream::Null);
}

#[test]
fn job_waits_while_pulls_are_outstanding() {
    let (asked, result) = drive("/dev/cam", "out", "2024-01-01", vec![ok("a.jpg\nb.jpg\n"), exit(0)]);
    assert!(result.is_none());
    assert_eq!(pull_sources(&asked), vec!["/dev/cam/a.jpg", "/dev/cam/b.jpg"]);
}

#[test]
fn empty_listing_pulls_nothing_and_succeeds() {
    let (asked, result) = drive("/dev/cam", "out", "2024-01-01", vec![ok(""), exit(1)]);
    assert!(matches!(result, Some(Ok(()))));
    assert_eq!(asked.len(), 1);
}

#[test]
fn blank_listing_pulls_nothing_and_succeeds() {
    let (asked, result) = drive("/dev/cam", "out", "2024-01-01", vec![ok(" \n\t \r\n"), exit(1)]);
    assert!(matches!(result, Some(Ok(()))));
    assert_eq!(asked.len(), 1);
}

#[test]
fn failed_query_pulls_nothing_and_hands_its_error_on() {
    let (asked, result) = drive("/dev/cam", "out", "2024-01-01", vec![exit(3), exit(0)]);
    assert!(matches!(result, Some(Err(AdbError::NonZeroExitCode(3)))));
    assert_eq!(asked.len(), 1);
    assert_eq!(asked[0].args[2], "shell");

    let not_started = ProcessOutcome::SpawnFailed(Error::new(ErrorKind::NotFound, "no adb"));
    let (asked, result) = drive("/dev/cam", "out", "2024-01-01", vec![not_started]);
    match result {
        Some(Err(AdbError::SpawnError(err))) => assert_eq!(err.kind(), ErrorKind::NotFound),
        other => panic!("got {other:?}"),
    }
    assert_eq!(asked.len(), 1);

    let killed = ProcessOutcome::Exited { code: None, stdout: b"a.jpg\n".to_vec() };
    let (asked, result) = drive("/dev/cam", "out", "2024-01-01", vec![killed, exit(0)]);
    assert!(matches!(result, Some(Err(AdbError::NoExitCode))));
    assert_eq!(asked.len(), 1);
}

#[test]
fn third_of_five_failing_stops_the_batch() {
    let (asked, result) = drive(
        "/dev/cam",
        "out",
        "2024-01-01",
        vec![ok("1.jpg 2.jpg 3.jpg 4.jpg 5.jpg"), exit(0), exit(0), exit(42), exit(0), exit(0)],
    );
    assert!(matches!(result, Some(Err(AdbError::NonZeroExitCode(42)))));
    assert_eq!(
        pull_sources(&asked),
        vec!["/dev/cam/1.jpg", "/dev/cam/2.jpg", "/dev/cam/3.jpg"]
    );
}

#[test]
fn first_pull_failing_stops_the_batch() {
    let failed = ProcessOutcome::WaitFailed(Error::new(ErrorKind::Other, "lost"));
    let (asked, result) =
        drive("/dev/cam", "out", "2024-01-01", vec![ok("1.jpg\n2.jpg\n"), failed, exit(0)]);
    match result {
        Some(Err(AdbError::WaitError(err))) => assert_eq!(err.to_string(), "lost"),
        other => panic!("got {other:?}"),
    }
    assert_eq!(pull_sources(&asked), vec!["/dev/cam/1.jpg"]);
}

#[test]
fn last_pull_failing_fails_the_job() {
    let (asked, result) =
        drive("/dev/cam", "out", "2024-01-01", vec![ok("1.jpg\n2.jpg\n"), exit(0), exit(-7)]);
    assert!(matches!(result, Some(Err(AdbError::NonZeroExitCode(-7)))));
    assert_eq!(pull_sources(&asked), vec!["/dev/cam/1.jpg", "/dev/cam/2.jpg"]);
}

#[test]
fn listed_paths_are_joined_onto_the_source_path() {
    let (asked, _) = drive("/dev/cam/", "out", "d", vec![ok("a.jpg sub/b.jpg"), exit(0)]);
    assert_eq!(pull_sources(&asked), vec!["/dev/cam/a.jpg", "/dev/cam/sub/b.jpg"]);
    let (asked, _) = drive("cam", "out", "d", vec![ok("./a.jpg")]);
    assert_eq!(pull_sources(&asked), vec!["cam/./a.jpg"]);
    let (asked, _) = drive("/dev/cam", "out", "d", vec![ok("/sdcard/a.jpg")]);
    assert_eq!(pull_sources(&asked), vec!["/sdcard/a.jpg"]);
}

#[test]
fn pull_stage_keeps_the_files_still_to_come() {
    let job = pull_files_after_mod_date(
        &String::from("/dev/cam"),
        &String::from("out"),
        &String::from("d"),
        &settings(),
    );
    let job = match job.advance(ok("x y z")) {
        Progress::Next(job) => job,
        Progress::Done(result) => panic!("ended with {result:?}"),
    };
    match &job.stage {
        Stage::Pull { current, rest } => {
            assert_eq!(current, "x");
            assert_eq!(rest, &vec!["y", "z"]);
        },
        Stage::Query => panic!("still querying"),
    }
    assert_eq!(job.destination_path, "out");
    let job = match job.advance(exit(0)) {
        Progress::Next(job) => job,
        Progress::Done(result) => panic!("ended with {result:?}"),
    };
    match &job.stage {
        Stage::Pull { current, rest } => {
            assert_eq!(current, "y");
            assert_eq!(rest, &vec!["z"]);
        },
        Stage::Query => panic!("still querying"),
    }
}
