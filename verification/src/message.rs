//! The line that tells the user why a run failed.

use vstd::prelude::*;
use vstd::string::*;

use crate::outcome::AdbError;

verus! {

/// The character of a decimal digit.
pub open spec fn digit(d: nat) -> char {
    if d == 0 {
        '0'
    } else if d == 1 {
        '1'
    } else if d == 2 {
        '2'
    } else if d == 3 {
        '3'
    } else if d == 4 {
        '4'
    } else if d == 5 {
        '5'
    } else if d == 6 {
        '6'
    } else if d == 7 {
        '7'
    } else if d == 8 {
        '8'
    } else {
        '9'
    }
}

/// A natural number in decimal, without leading zeros.
pub open spec fn digits(n: nat) -> Seq<char>
    decreases n,
{
    if n < 10 {
        seq![digit(n)]
    } else {
        digits(n / 10).push(digit(n % 10))
    }
}

/// An integer in decimal, with a minus sign before a negative one.
pub open spec fn decimal(n: int) -> Seq<char> {
    if n < 0 {
        seq!['-'] + digits((-n) as nat)
    } else {
        digits(n as nat)
    }
}

/// The message for `error`, where `detail` is the operating system's own
/// account of the error that `error` carries, if it carries one.
pub open spec fn message_text(error: AdbError, detail: Seq<char>) -> Seq<char> {
    match error {
        AdbError::SpawnError(_) => "Error spawning adb: "@ + detail,
        AdbError::WaitError(_) => "Error waiting on adb process: "@ + detail,
        AdbError::NonZeroExitCode(code) => "Error executing adb: Non zero exit code "@ + decimal(
            code as int,
        ),
        AdbError::NoExitCode =>
            "Error executing adb: No exit code (because adb was likely terminated by a signal)"@,
    }
}

fn digit_text(d: u32) -> (text: &'static str)
    requires
        d < 10,
    ensures
        text@ == seq![digit(d as nat)],
{
    proof {
        reveal_strlit("0");
        reveal_strlit("1");
        reveal_strlit("2");
        reveal_strlit("3");
        reveal_strlit("4");
        reveal_strlit("5");
        reveal_strlit("6");
        reveal_strlit("7");
        reveal_strlit("8");
        reveal_strlit("9");
    }
    let text = if d == 0 {
        "0"
    } else if d == 1 {
        "1"
    } else if d == 2 {
        "2"
    } else if d == 3 {
        "3"
    } else if d == 4 {
        "4"
    } else if d == 5 {
        "5"
    } else if d == 6 {
        "6"
    } else if d == 7 {
        "7"
    } else if d == 8 {
        "8"
    } else {
        "9"
    };
    assert(text@ =~= seq![digit(d as nat)]);
    text
}

fn digits_text(n: u32) -> (text: String)
    ensures
        text@ == digits(n as nat),
    decreases n,
{
    if n < 10 {
        String::from_str(digit_text(n))
    } else {
        let mut text = digits_text(n / 10);
        text.append(digit_text(n % 10));
        assert(text@ =~= digits(n as nat));
        text
    }
}

/// Writes an exit code in decimal.
pub fn decimal_text(code: i32) -> (text: String)
    ensures
        text@ == decimal(code as int),
{
    if code < 0 {
        let wide: i64 = code as i64;
        let magnitude: u32 = (0 - wide) as u32;
        proof {
            reveal_strlit("-");
        }
        let text = String::from_str("-").concat(digits_text(magnitude).as_str());
        assert(text@ =~= decimal(code as int));
        text
    } else {
        digits_text(code as u32)
    }
}

/// Calls the `Display` of `std::io::Error` through `to_string`. Trusted, and
/// nothing is claimed of the text: it is the operating system's.
#[verifier::external_body]
fn os_error_text(err: &std::io::Error) -> (text: String) {
    err.to_string()
}

impl AdbError {
    /// The message for this error, with `detail` as the operating system's
    /// account where the error carries one.
    pub fn message_with(&self, detail: &str) -> (text: String)
        ensures
            text@ == message_text(*self, detail@),
    {
        match self {
            AdbError::SpawnError(_) => String::from_str("Error spawning adb: ").concat(detail),
            AdbError::WaitError(_) => String::from_str("Error waiting on adb process: ").concat(
                detail,
            ),
            AdbError::NonZeroExitCode(code) => String::from_str(
                "Error executing adb: Non zero exit code ",
            ).concat(decimal_text(*code).as_str()),
            AdbError::NoExitCode => String::from_str(
                "Error executing adb: No exit code (because adb was likely terminated by a signal)",
            ),
        }
    }

    /// The message for this error. Where it carries an operating system
    /// error, that error's own text follows the colon.
    pub fn message(&self) -> (text: String)
        ensures
            exists|detail: Seq<char>| text@ == message_text(*self, detail),
            self is NonZeroExitCode || self is NoExitCode ==> text@ == message_text(
                *self,
                Seq::empty(),
            ),
    {
        let text = match self {
            AdbError::SpawnError(err) => self.message_with(os_error_text(err).as_str()),
            AdbError::WaitError(err) => self.message_with(os_error_text(err).as_str()),
            AdbError::NonZeroExitCode(_) => self.message_with(""),
            AdbError::NoExitCode => self.message_with(""),
        };
        text
    }
}

} // verus!
