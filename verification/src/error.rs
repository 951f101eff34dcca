//! The error taxonomy shared by the library and its callers.
//!
//! Every failure surfaces as one human-readable message; the kinds stay
//! distinguishable so that callers can dispatch by concern.

use vstd::prelude::*;

use crate::strutil::push_char;

verus! {

/// The remote operation that a session-token or role-assumption step
/// performs; used to label an empty-response failure.
#[derive(Clone, Copy, Debug, PartialEq, Eq, Structural)]
pub enum StsOperation {
    AssumeRole,
    GetSessionToken,
}

/// One failure kind per concern: configuration defaults, file reading,
/// credential lookup, region parsing, INI parsing, the remote service, and
/// the spawned child process.
#[derive(Debug, PartialEq, Eq)]
pub enum Error {
    /// Invocation parameters could not be resolved (no home directory).
    Config(String),
    /// A file could not be opened or read; raised by the caller that does
    /// the reading, carried here so every stage shares one error type.
    Io(String),
    /// A profile section or a required key is missing from the
    /// credentials file.
    Credentials(String),
    /// A region name is not in the fixed enumeration of valid regions;
    /// carries the offending string.
    Region(String),
    /// A configuration file is not valid INI text.
    Ini(String),
    /// A remote call succeeded but returned no credentials payload.
    EmptyResponse(StsOperation),
    /// A remote call failed in transport or was rejected by the service.
    Remote(String),
    /// The spawned child was terminated without reporting an exit code.
    ProcessKilled,
    /// The spawned child exited with the given nonzero code.
    ChildExited(i32),
}

/// The decimal digit characters.
pub open spec fn spec_digit_char(d: nat) -> char {
    if d == 0 {
        '0'
    } else if d == 1 {
        '1'
    } else if d == 2 {
        '2'
    } else if d == 3 {
        '3'
    } else if d == 4 {
        '4'
    } else if d == 5 {
        '5'
    } else if d == 6 {
        '6'
    } else if d == 7 {
        '7'
    } else if d == 8 {
        '8'
    } else {
        '9'
    }
}

/// The decimal rendering of a natural number, most significant digit first.
pub open spec fn spec_decimal(n: nat) -> Seq<char>
    decreases n,
{
    if n < 10 {
        seq![spec_digit_char(n)]
    } else {
        spec_decimal(n / 10) + seq![spec_digit_char(n % 10)]
    }
}

/// The decimal rendering of an integer, a leading minus sign where negative.
pub open spec fn spec_signed_decimal(n: int) -> Seq<char> {
    if n < 0 {
        seq!['-'] + spec_decimal((-n) as nat)
    } else {
        spec_decimal(n as nat)
    }
}

/// The digit character of one digit value.
fn digit_char(d: u64) -> (c: char)
    requires
        d < 10,
    ensures
        c == spec_digit_char(d as nat),
{
    if d == 0 {
        '0'
    } else if d == 1 {
        '1'
    } else if d == 2 {
        '2'
    } else if d == 3 {
        '3'
    } else if d == 4 {
        '4'
    } else if d == 5 {
        '5'
    } else if d == 6 {
        '6'
    } else if d == 7 {
        '7'
    } else if d == 8 {
        '8'
    } else {
        '9'
    }
}

/// Appends the decimal rendering of `n`.
fn push_decimal(out: &mut String, n: u64)
    ensures
        final(out)@ == old(out)@ + spec_decimal(n as nat),
    decreases n,
{
    if n < 10 {
        push_char(out, digit_char(n));
        proof {
            assert(final(out)@ =~= old(out)@ + spec_decimal(n as nat));
        }
    } else {
        push_decimal(out, n / 10);
        push_char(out, digit_char(n % 10));
        proof {
            assert(final(out)@ =~= old(out)@ + spec_decimal(n as nat));
        }
    }
}

/// The message of each failure kind.
pub open spec fn spec_message(e: Error) -> Seq<char> {
    match e {
        Error::Config(d) => "configuration error: "@ + d@,
        Error::Io(d) => "I/O error: "@ + d@,
        Error::Credentials(d) => "credentials error: "@ + d@,
        Error::Region(s) => "not a valid region name: "@ + s@,
        Error::Ini(d) => "configuration file error: "@ + d@,
        Error::EmptyResponse(op) => match op {
            StsOperation::AssumeRole => "STS AssumeRole did not return any credentials"@,
            StsOperation::GetSessionToken => "STS GetSessionToken did not return any credentials"@,
        },
        Error::Remote(d) => "remote service error: "@ + d@,
        Error::ProcessKilled => "process killed"@,
        Error::ChildExited(code) => "child exited: "@ + spec_signed_decimal(code as int),
    }
}

impl Error {
    /// The human-readable message of this failure.
    pub fn message(&self) -> (r: String)
        ensures
            r@ == spec_message(*self),
    {
        match self {
            Error::Config(d) => "configuration error: ".to_owned().concat(d.as_str()),
            Error::Io(d) => "I/O error: ".to_owned().concat(d.as_str()),
            Error::Credentials(d) => "credentials error: ".to_owned().concat(d.as_str()),
            Error::Region(s) => "not a valid region name: ".to_owned().concat(s.as_str()),
            Error::Ini(d) => "configuration file error: ".to_owned().concat(d.as_str()),
            Error::EmptyResponse(op) => match op {
                StsOperation::AssumeRole => "STS AssumeRole did not return any credentials"
                    .to_owned(),
                StsOperation::GetSessionToken => "STS GetSessionToken did not return any credentials"
                    .to_owned(),
            },
            Error::Remote(d) => "remote service error: ".to_owned().concat(d.as_str()),
            Error::ProcessKilled => "process killed".to_owned(),
            Error::ChildExited(code) => {
                let mut out: String = "child exited: ".to_owned();
                let wide: i64 = *code as i64;
                if wide < 0 {
                    push_char(&mut out, '-');
                    push_decimal(&mut out, (-wide) as u64);
                } else {
                    push_decimal(&mut out, wide as u64);
                }
                proof {
                    assert(out@ =~= spec_message(*self));
                }
                out
            },
        }
    }
}

} // verus!
