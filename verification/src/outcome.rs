//! What a finished run reported, and the result it amounts to.

use vstd::prelude::*;
use vstd::utf8::{decode_utf8, valid_utf8};

verus! {

/// The operating system's error type, carried through untouched.
#[verifier::external_type_specification]
#[verifier::external_body]
pub struct ExIoError(std::io::Error);

/// Why a run of the device bridge did not succeed.
#[derive(Debug)]
pub enum AdbError {
    /// The process could not be started.
    SpawnError(std::io::Error),
    /// The process started, but waiting for it failed.
    WaitError(std::io::Error),
    /// The process ended with this exit code, which is not zero.
    NonZeroExitCode(i32),
    /// The process ended without an exit code, most likely killed by a signal.
    NoExitCode,
}

/// What the caller observed of one run.
#[derive(Debug)]
pub enum ProcessOutcome {
    /// Starting the process failed; nothing was waited for.
    SpawnFailed(std::io::Error),
    /// The process started, and waiting for it failed.
    WaitFailed(std::io::Error),
    /// The process ended. `code` is its exit code, if it has one; `stdout` is
    /// what was collected of its standard output (empty where none was).
    Exited { code: Option<i32>, stdout: Vec<u8> },
}

/// What an exit status amounts to: zero is success, any other code is
/// reported with the code, and a missing code is an error of its own.
pub open spec fn exit_result(code: Option<i32>) -> Result<(), AdbError> {
    match code {
        Some(c) => if c == 0 {
            Ok(())
        } else {
            Err(AdbError::NonZeroExitCode(c))
        },
        None => Err(AdbError::NoExitCode),
    }
}

/// The result of a run whose output was not read.
pub open spec fn execute_outcome(outcome: ProcessOutcome) -> Result<(), AdbError> {
    match outcome {
        ProcessOutcome::SpawnFailed(err) => Err(AdbError::SpawnError(err)),
        ProcessOutcome::WaitFailed(err) => Err(AdbError::WaitError(err)),
        ProcessOutcome::Exited { code, stdout } => exit_result(code),
    }
}

/// The text that `String::from_utf8_lossy` makes of `bytes`: the bytes
/// decoded as UTF-8, each invalid sequence replaced by U+FFFD.
pub uninterp spec fn lossy_text(bytes: Seq<u8>) -> Seq<char>;

/// Collected output as text: the text that the bytes encode where they are
/// valid UTF-8, and their lossy decoding where they are not.
pub open spec fn output_text(bytes: Seq<u8>) -> Seq<char> {
    if valid_utf8(bytes) {
        decode_utf8(bytes)
    } else {
        lossy_text(bytes)
    }
}

/// The result of a run whose standard output was collected: on success, the
/// output as text.
pub open spec fn query_outcome(outcome: ProcessOutcome) -> Result<Seq<char>, AdbError> {
    match outcome {
        ProcessOutcome::SpawnFailed(err) => Err(AdbError::SpawnError(err)),
        ProcessOutcome::WaitFailed(err) => Err(AdbError::WaitError(err)),
        ProcessOutcome::Exited { code, stdout } => match exit_result(code) {
            Ok(_) => Ok(output_text(stdout@)),
            Err(e) => Err(e),
        },
    }
}

/// Calls `String::from_utf8`. Trusted: it succeeds on valid UTF-8 and on
/// nothing else, with the text that the bytes encode; where it fails, the
/// error gives the bytes back unchanged.
#[verifier::external_body]
fn utf8_text(bytes: Vec<u8>) -> (r: Result<String, Vec<u8>>)
    ensures
        match r {
            Ok(text) => valid_utf8(bytes@) && text@ == decode_utf8(bytes@),
            Err(raw) => !valid_utf8(bytes@) && raw@ == bytes@,
        },
{
    String::from_utf8(bytes).map_err(|err| err.into_bytes())
}

/// Calls `String::from_utf8_lossy` and takes ownership of the text. Trusted:
/// the result is the lossy decoding of exactly these bytes.
#[verifier::external_body]
fn decode_lossy(bytes: &Vec<u8>) -> (text: String)
    ensures
        text@ == lossy_text(bytes@),
{
    String::from_utf8_lossy(bytes).into_owned()
}

/// Decodes collected output. Bytes that are not valid UTF-8 do not fail:
/// each invalid sequence is replaced.
pub fn decode_output(bytes: Vec<u8>) -> (text: String)
    ensures
        text@ == output_text(bytes@),
{
    match utf8_text(bytes) {
        Ok(text) => text,
        Err(raw) => decode_lossy(&raw),
    }
}

/// Classifies an exit status.
pub fn exit_status_result(code: Option<i32>) -> (r: Result<(), AdbError>)
    ensures
        r == exit_result(code),
{
    match code {
        Some(c) => {
            if c == 0 {
                Ok(())
            } else {
                Err(AdbError::NonZeroExitCode(c))
            }
        },
        None => Err(AdbError::NoExitCode),
    }
}

/// Classifies a run whose output was not read. A failure to start comes
/// before a failure to wait, and both before the exit status.
pub fn execute_result(outcome: ProcessOutcome) -> (r: Result<(), AdbError>)
    ensures
        r == execute_outcome(outcome),
{
    match outcome {
        ProcessOutcome::SpawnFailed(err) => Err(AdbError::SpawnError(err)),
        ProcessOutcome::WaitFailed(err) => Err(AdbError::WaitError(err)),
        ProcessOutcome::Exited { code, stdout } => exit_status_result(code),
    }
}

/// Classifies a run whose standard output was collected, and decodes the
/// output of a successful one. Bytes that are not valid UTF-8 do not fail
/// the run: they are replaced.
pub fn query_result(outcome: ProcessOutcome) -> (r: Result<String, AdbError>)
    ensures
        match query_outcome(outcome) {
            Ok(text) => r is Ok && r->Ok_0@ == text,
            Err(e) => r is Err && r->Err_0 == e,
        },
{
    match outcome {
        ProcessOutcome::SpawnFailed(err) => Err(AdbError::SpawnError(err)),
        ProcessOutcome::WaitFailed(err) => Err(AdbError::WaitError(err)),
        ProcessOutcome::Exited { code, stdout } => match exit_status_result(code) {
            Ok(_) => Ok(decode_output(stdout)),
            Err(e) => Err(e),
        },
    }
}

/// Exit code zero is success, whether the output was read or not.
pub proof fn zero_exit_is_success(stdout: Vec<u8>)
    ensures
        execute_outcome(ProcessOutcome::Exited { code: Some(0i32), stdout }) == Ok::<
            (),
            AdbError,
        >(()),
        query_outcome(ProcessOutcome::Exited { code: Some(0i32), stdout }) == Ok::<
            Seq<char>,
            AdbError,
        >(output_text(stdout@)),
{
}

/// No output is the empty text.
pub proof fn empty_output_is_empty_text(bytes: Seq<u8>)
    requires
        bytes.len() == 0,
    ensures
        output_text(bytes) == Seq::<char>::empty(),
{
    assert(valid_utf8(bytes));
    assert(decode_utf8(bytes) =~= Seq::<char>::empty());
}

/// Any other exit code is reported as such, with the code unchanged, whether
/// the output was read or not.
pub proof fn nonzero_exit_keeps_code(code: i32, stdout: Vec<u8>)
    requires
        code != 0,
    ensures
        execute_outcome(ProcessOutcome::Exited { code: Some(code), stdout }) == Err::<
            (),
            AdbError,
        >(AdbError::NonZeroExitCode(code)),
        query_outcome(ProcessOutcome::Exited { code: Some(code), stdout }) == Err::<
            Seq<char>,
            AdbError,
        >(AdbError::NonZeroExitCode(code)),
{
}

/// Every outcome is classified, and as exactly one thing: success, or one of
/// the four errors. A run that never started is a spawn error whatever else
/// is known; a missing exit code is never success.
pub proof fn classification_is_total(outcome: ProcessOutcome)
    ensures
        match outcome {
            ProcessOutcome::SpawnFailed(err) => execute_outcome(outcome) == Err::<(), AdbError>(
                AdbError::SpawnError(err),
            ),
            ProcessOutcome::WaitFailed(err) => execute_outcome(outcome) == Err::<(), AdbError>(
                AdbError::WaitError(err),
            ),
            ProcessOutcome::Exited { code: Some(c), stdout } => c == 0 <==> execute_outcome(
                outcome,
            ) is Ok,
            ProcessOutcome::Exited { code: None, stdout } => execute_outcome(outcome) == Err::<
                (),
                AdbError,
            >(AdbError::NoExitCode),
        },
        execute_outcome(outcome) is Ok <==> query_outcome(outcome) is Ok,
        execute_outcome(outcome) is Err ==> query_outcome(outcome) is Err && query_outcome(
            outcome,
        )->Err_0 == execute_outcome(outcome)->Err_0,
{
}

} // verus!
