use vstd::prelude::*;
use crate::elevation::{ExecError, Mechanism};
use crate::outcome::ExecutionResult;

verus! {

/// The outcome class that an audit line records.
#[derive(Clone, Copy, Debug, PartialEq, Eq, Structural)]
pub enum AuditStatus {
    /// Refused by the validator; nothing was started.
    Rejected,
    /// A process ran to its end, whatever its exit status.
    Executed,
    /// The request could not be carried out.
    Failed,
}

/// The tag written for a status, as text.
pub open spec fn status_text(s: AuditStatus) -> Seq<char> {
    match s {
        AuditStatus::Rejected => "REJECTED"@,
        AuditStatus::Executed => "EXECUTED"@,
        AuditStatus::Failed => "FAILED"@,
    }
}

/// The tag written for a status.
pub fn status_label(s: AuditStatus) -> (r: String)
    ensures
        r@ == status_text(s),
{
    match s {
        AuditStatus::Rejected => String::from_str("REJECTED"),
        AuditStatus::Executed => String::from_str("EXECUTED"),
        AuditStatus::Failed => String::from_str("FAILED"),
    }
}

/// One line of the audit trail: the time, the status tag, the command and
/// the details, `-` when there are none.
pub open spec fn audit_text(
    timestamp: Seq<char>,
    status: Seq<char>,
    command: Seq<char>,
    details: Option<Seq<char>>,
) -> Seq<char> {
    "["@ + timestamp + "] ["@ + status + "] Command: \""@ + command + "\" | Details: "@
        + match details {
        Some(d) => d,
        None => "-"@,
    }
}

/// Formats one audit line, without its line break.
pub fn audit_line(timestamp: &str, status: &str, command: &str, details: Option<&str>) -> (r: String)
    ensures
        r@ == audit_text(timestamp@, status@, command@, match details {
            Some(d) => Some(d@),
            None => None,
        }),
{
    let mut r = String::from_str("[");
    r.append(timestamp);
    r.append("] [");
    r.append(status);
    r.append("] Command: \"");
    r.append(command);
    r.append("\" | Details: ");
    match details {
        Some(d) => r.append(d),
        None => r.append("-"),
    }
    r
}

/// The decimal digit `d`.
pub open spec fn digit_char(d: nat) -> char {
    if d == 0 { '0' } else if d == 1 { '1' } else if d == 2 { '2' } else if d == 3 { '3' }
    else if d == 4 { '4' } else if d == 5 { '5' } else if d == 6 { '6' } else if d == 7 { '7' }
    else if d == 8 { '8' } else { '9' }
}

/// The decimal writing of `n`, without leading zeros.
pub open spec fn decimal(n: nat) -> Seq<char>
    decreases n,
{
    if n < 10 {
        seq![digit_char(n)]
    } else {
        decimal(n / 10).push(digit_char(n % 10))
    }
}

/// The decimal writing of `n`, with a minus sign when it is negative.
pub open spec fn signed_decimal(n: int) -> Seq<char> {
    if n < 0 {
        seq!['-'] + decimal((-n) as nat)
    } else {
        decimal(n as nat)
    }
}

fn digit_text(d: u32) -> (r: &'static str)
    requires
        d < 10,
    ensures
        r@ == seq![digit_char(d as nat)],
{
    proof {
        reveal_strlit("0");
        reveal_strlit("1");
        reveal_strlit("2");
        reveal_strlit("3");
        reveal_strlit("4");
        reveal_strlit("5");
        reveal_strlit("6");
        reveal_strlit("7");
        reveal_strlit("8");
        reveal_strlit("9");
    }
    let r = if d == 0 { "0" } else if d == 1 { "1" } else if d == 2 { "2" } else if d == 3 { "3" }
    else if d == 4 { "4" } else if d == 5 { "5" } else if d == 6 { "6" } else if d == 7 { "7" }
    else if d == 8 { "8" } else { "9" };
    assert(r@ =~= seq![digit_char(d as nat)]);
    r
}

fn unsigned_text(n: u32) -> (r: String)
    ensures
        r@ == decimal(n as nat),
    decreases n,
{
    if n < 10 {
        String::from_str(digit_text(n))
    } else {
        let mut r = unsigned_text(n / 10);
        r.append(digit_text(n % 10));
        r
    }
}

/// The decimal writing of an exit code.
pub fn code_text(n: i32) -> (r: String)
    ensures
        r@ == signed_decimal(n as int),
{
    if n < 0 {
        let m: u32 = (-(n as i64)) as u32;
        let mut r = String::from_str("-");
        proof {
            reveal_strlit("-");
        }
        let t = unsigned_text(m);
        r.append(t.as_str());
        assert(r@ =~= seq!['-'] + decimal((-n) as nat));
        r
    } else {
        unsigned_text(n as u32)
    }
}

/// The message that explains an error, with what to install where a helper
/// is missing.
pub open spec fn error_text(e: ExecError) -> Seq<char> {
    match e {
        ExecError::NotAllowed => "the program is not on the allow-list"@,
        ExecError::UnsafeTarget => "a removal target is missing or outside the safe directories"@,
        ExecError::MechanismUnavailable(m) => match m {
            Mechanism::Sudo => "sudo is not available on this platform"@,
            Mechanism::PolicyKit => "PolicyKit (pkexec) is not installed; install the 'polkit' package to use interactive elevation"@,
            Mechanism::Uac => "User Account Control elevation is only available on Windows"@,
            Mechanism::CommandShell => "cmd.exe is only available on Windows"@,
        },
        ExecError::SpawnFailure(os) => "failed to start the process: "@ + os@,
    }
}

impl ExecError {
    /// The message for this error.
    pub fn message(&self) -> (r: String)
        ensures
            r@ == error_text(*self),
    {
        match self {
            ExecError::NotAllowed => String::from_str("the program is not on the allow-list"),
            ExecError::UnsafeTarget => String::from_str("a removal target is missing or outside the safe directories"),
            ExecError::MechanismUnavailable(m) => match m {
                Mechanism::Sudo => String::from_str("sudo is not available on this platform"),
                Mechanism::PolicyKit => String::from_str("PolicyKit (pkexec) is not installed; install the 'polkit' package to use interactive elevation"),
                Mechanism::Uac => String::from_str("User Account Control elevation is only available on Windows"),
                Mechanism::CommandShell => String::from_str("cmd.exe is only available on Windows"),
            },
            ExecError::SpawnFailure(os) => {
                let mut r = String::from_str("failed to start the process: ");
                r.append(os.as_str());
                r
            },
        }
    }
}

/// The status under which an outcome is recorded: refusals by the validator
/// as rejected, every other error as failed, a finished process as executed.
pub open spec fn status_of(outcome: Result<ExecutionResult, ExecError>) -> AuditStatus {
    match outcome {
        Ok(_) => AuditStatus::Executed,
        Err(ExecError::NotAllowed) => AuditStatus::Rejected,
        Err(ExecError::UnsafeTarget) => AuditStatus::Rejected,
        Err(_) => AuditStatus::Failed,
    }
}

/// The details recorded for an outcome: the exit code, or the error message.
pub open spec fn details_of(outcome: Result<ExecutionResult, ExecError>) -> Seq<char> {
    match outcome {
        Ok(r) => "exit code "@ + signed_decimal(r.exit_code as int),
        Err(e) => error_text(e),
    }
}

/// The audit line for one request, whatever became of it. The password of a
/// request never reaches it: `command` is the readable command line.
pub fn audit_record(timestamp: &str, command: &str, outcome: &Result<ExecutionResult, ExecError>) -> (r: String)
    ensures
        r@ == audit_text(timestamp@, status_text(status_of(*outcome)), command@, Some(details_of(*outcome))),
{
    let status = match outcome {
        Ok(_) => AuditStatus::Executed,
        Err(ExecError::NotAllowed) => AuditStatus::Rejected,
        Err(ExecError::UnsafeTarget) => AuditStatus::Rejected,
        Err(_) => AuditStatus::Failed,
    };
    let details = match outcome {
        Ok(res) => {
            let mut d = String::from_str("exit code ");
            let c = code_text(res.exit_code);
            d.append(c.as_str());
            d
        },
        Err(e) => e.message(),
    };
    let tag = status_label(status);
    audit_line(timestamp, tag.as_str(), command, Some(details.as_str()))
}

} // verus!
