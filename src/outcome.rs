use vstd::prelude::*;
use vstd::utf8::{decode_utf8, valid_utf8};

verus! {

/// The text that `String::from_utf8_lossy` makes of `b`.
pub uninterp spec fn lossy_text(b: Seq<u8>) -> Seq<char>;

/// Relies on `String::from_utf8_lossy`: it returns a text on every input,
/// replacing invalid sequences, and valid UTF-8 decodes unchanged.
#[verifier::external_body]
fn decode_lossy(b: &[u8]) -> (r: String)
    ensures
        r@ == lossy_text(b@),
        valid_utf8(b@) ==> r@ == decode_utf8(b@),
        b@.len() == 0 ==> r@.len() == 0,
{
    String::from_utf8_lossy(b).into_owned()
}

/// What a finished process handed back, as the operating system gave it.
pub struct RawOutcome {
    /// The exit status, or none when the process was ended by a signal.
    pub code: Option<i32>,
    pub stdout: Vec<u8>,
    pub stderr: Vec<u8>,
    /// The status counts as success.
    pub success: bool,
}

/// The uniform record of one execution.
#[derive(Debug, PartialEq, Eq)]
pub struct ExecutionResult {
    pub command: String,
    pub elevation_method: String,
    pub exit_code: i32,
    pub stdout: String,
    pub stderr: String,
    pub success: bool,
}

/// The exit code reported for a status: -1 where the platform gave none.
pub open spec fn reported_code(code: Option<i32>) -> int {
    match code {
        Some(c) => c as int,
        None => -1,
    }
}

/// Turns a raw outcome into the uniform record. Output that is not valid
/// text is decoded with replacements, never failing.
pub fn normalize(command: String, elevation_method: String, raw: &RawOutcome) -> (r: ExecutionResult)
    ensures
        r.command == command,
        r.elevation_method == elevation_method,
        r.exit_code == reported_code(raw.code),
        r.stdout@ == lossy_text(raw.stdout@),
        r.stderr@ == lossy_text(raw.stderr@),
        valid_utf8(raw.stdout@) ==> r.stdout@ == decode_utf8(raw.stdout@),
        valid_utf8(raw.stderr@) ==> r.stderr@ == decode_utf8(raw.stderr@),
        raw.stderr@.len() == 0 ==> r.stderr@.len() == 0,
        raw.stdout@.len() == 0 ==> r.stdout@.len() == 0,
        r.success == raw.success,
{
    let exit_code = match raw.code {
        Some(c) => c,
        None => -1,
    };
    ExecutionResult {
        command,
        elevation_method,
        exit_code,
        stdout: decode_lossy(raw.stdout.as_slice()),
        stderr: decode_lossy(raw.stderr.as_slice()),
        success: raw.success,
    }
}

} // verus!
