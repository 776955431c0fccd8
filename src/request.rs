use vstd::prelude::*;
use crate::cmdline::{args_view, build_command_line, command_line};
use crate::elevation::{
    arg_list, display_command, label_of, method_label, plan_invocation, planned, select,
    selection, shown, ElevationFlags, ElevationMethod, ExecError, Invocation, InvocationView,
    Mechanism, Platform,
};
use crate::guard::{validate, verdict_of, Rejection, Verdict};
use crate::outcome::{lossy_text, normalize, reported_code, ExecutionResult, RawOutcome};
use crate::policy::Config;
use crate::text::same_text;
use vstd::utf8::{decode_utf8, valid_utf8};

verus! {

/// A request to run a command, as the protocol layer decodes it.
#[derive(Debug)]
pub struct ExecuteCommandArgs {
    /// The program, by name or path.
    pub command: String,
    /// Its arguments, each passed as a token of its own.
    pub args: Option<Vec<String>>,
    /// Elevate through PolicyKit's consent dialog.
    pub use_polkit: Option<bool>,
    /// Elevate through User Account Control.
    pub use_elevation: Option<bool>,
    /// Elevate through `sudo`.
    pub use_sudo: Option<bool>,
    /// The password for `sudo`; without it, `sudo` must need none.
    pub sudo_password: Option<String>,
}

/// The view of a request's argument list.
pub open spec fn request_args(req: ExecuteCommandArgs) -> Option<Seq<Seq<char>>> {
    match req.args {
        Some(v) => Some(v.deep_view()),
        None => None,
    }
}

/// An optional flag that is set.
pub open spec fn is_set(flag: Option<bool>) -> bool {
    flag == Some(true)
}

/// The elevation flags of a request: either interactive switch asks for the
/// consent dialog.
pub open spec fn flags_of(req: ExecuteCommandArgs) -> ElevationFlags {
    ElevationFlags {
        interactive: is_set(req.use_polkit) || is_set(req.use_elevation),
        password: is_set(req.use_sudo),
        secret: req.sudo_password,
    }
}

fn flag_set(flag: Option<bool>) -> (r: bool)
    ensures
        r == is_set(flag),
{
    match flag {
        Some(b) => b,
        None => false,
    }
}

/// The elevation flags of a request.
pub fn elevation_flags(req: &ExecuteCommandArgs) -> (r: ElevationFlags)
    ensures
        r == flags_of(*req),
{
    ElevationFlags {
        interactive: flag_set(req.use_polkit) || flag_set(req.use_elevation),
        password: flag_set(req.use_sudo),
        secret: match &req.sudo_password {
            Some(s) => Some(s.clone()),
            None => None,
        },
    }
}

/// A request that passed validation and elevation selection: the process to
/// start, and the two texts its result is reported under.
pub struct Prepared {
    pub invocation: Invocation,
    pub display: String,
    pub label: String,
}

/// What `prepare` answers, as the process to start and the two texts.
pub open spec fn preparation(
    list: Seq<Seq<char>>,
    req: ExecuteCommandArgs,
    platform: Platform,
    already_elevated: bool,
    interactive_available: bool,
) -> Result<(InvocationView, Seq<char>, Seq<char>), ExecError> {
    let args = request_args(req);
    match verdict_of(list, req.command@, arg_list(args)) {
        Verdict::Rejected(Rejection::NotAllowed) => Err(ExecError::NotAllowed),
        Verdict::Rejected(Rejection::UnsafeTarget) => Err(ExecError::UnsafeTarget),
        Verdict::Admitted => match selection(flags_of(req), platform, already_elevated, interactive_available) {
            Ok(m) => Ok((planned(m, req.command@, args), shown(m, req.command@, args), label_of(m))),
            Err(e) => Err(e),
        },
    }
}

/// The view of what `prepare` returned.
pub open spec fn prepared_view(r: Result<Prepared, ExecError>) -> Result<(InvocationView, Seq<char>, Seq<char>), ExecError> {
    match r {
        Ok(p) => Ok((p.invocation@, p.display@, p.label@)),
        Err(e) => Err(e),
    }
}

/// Validates a request against the allow-list and picks its elevation path.
/// A refused request yields an error and no process to start.
/// `interactive_available` tells whether the platform's consent helper was
/// found on this host.
pub fn prepare(
    config: &Config,
    req: &ExecuteCommandArgs,
    platform: Platform,
    already_elevated: bool,
    interactive_available: bool,
) -> (r: Result<Prepared, ExecError>)
    ensures
        prepared_view(r) == preparation(
            config.allowed_commands.deep_view(),
            *req,
            platform,
            already_elevated,
            interactive_available,
        ),
{
    let empty: Vec<String> = Vec::new();
    let verdict = match &req.args {
        Some(v) => validate(&config.allowed_commands, req.command.as_str(), v),
        None => {
            assert(empty.deep_view() =~= Seq::<Seq<char>>::empty());
            validate(&config.allowed_commands, req.command.as_str(), &empty)
        },
    };
    match verdict {
        Verdict::Rejected(Rejection::NotAllowed) => Err(ExecError::NotAllowed),
        Verdict::Rejected(Rejection::UnsafeTarget) => Err(ExecError::UnsafeTarget),
        Verdict::Admitted => {
            let flags = elevation_flags(req);
            match select(&flags, platform, already_elevated, interactive_available) {
                Ok(m) => {
                    let args = req.args.as_ref();
                    assert(args_view(args) == request_args(*req));
                    Ok(Prepared {
                        invocation: plan_invocation(&m, req.command.as_str(), args),
                        display: display_command(&m, req.command.as_str(), args),
                        label: method_label(&m),
                    })
                },
                Err(e) => Err(e),
            }
        },
    }
}

/// The record of a prepared request whose process has finished.
pub fn finish(prepared: &Prepared, raw: &RawOutcome) -> (r: ExecutionResult)
    ensures
        r.command@ == prepared.display@,
        r.elevation_method@ == prepared.label@,
        r.exit_code == reported_code(raw.code),
        r.stdout@ == lossy_text(raw.stdout@),
        r.stderr@ == lossy_text(raw.stderr@),
        valid_utf8(raw.stdout@) ==> r.stdout@ == decode_utf8(raw.stdout@),
        valid_utf8(raw.stderr@) ==> r.stderr@ == decode_utf8(raw.stderr@),
        raw.stdout@.len() == 0 ==> r.stdout@.len() == 0,
        raw.stderr@.len() == 0 ==> r.stderr@.len() == 0,
        r.success == raw.success,
{
    normalize(prepared.display.clone(), prepared.label.clone(), raw)
}

/// What `execute_elevated` answers: on Windows, the process that runs the
/// command through User Account Control, or directly when this process is
/// already elevated; elsewhere, an error.
pub open spec fn elevated_plan(
    command: Seq<char>,
    args: Option<Seq<Seq<char>>>,
    platform: Platform,
    already_elevated: bool,
) -> Result<InvocationView, ExecError> {
    match platform {
        Platform::Windows => if already_elevated {
            Ok(planned(ElevationMethod::Unprivileged, command, args))
        } else {
            Ok(planned(ElevationMethod::UacElevated, command, args))
        },
        Platform::Posix => Err(ExecError::MechanismUnavailable(Mechanism::Uac)),
    }
}

/// The view of a planned invocation or its error.
pub open spec fn plan_view(r: Result<Invocation, ExecError>) -> Result<InvocationView, ExecError> {
    match r {
        Ok(i) => Ok(i@),
        Err(e) => Err(e),
    }
}

/// The process that runs `command` elevated through User Account Control.
pub fn execute_elevated(
    command: &str,
    args: Option<&Vec<String>>,
    platform: Platform,
    already_elevated: bool,
) -> (r: Result<Invocation, ExecError>)
    ensures
        plan_view(r) == elevated_plan(command@, args_view(args), platform, already_elevated),
{
    match platform {
        Platform::Windows => if already_elevated {
            Ok(plan_invocation(&ElevationMethod::Unprivileged, command, args))
        } else {
            Ok(plan_invocation(&ElevationMethod::UacElevated, command, args))
        },
        Platform::Posix => Err(ExecError::MechanismUnavailable(Mechanism::Uac)),
    }
}

/// What `execute_with_cmd` answers: on Windows, `cmd.exe /C` with the command
/// line; elsewhere, an error.
pub open spec fn shell_plan(command: Seq<char>, args: Option<Seq<Seq<char>>>, platform: Platform) -> Result<InvocationView, ExecError> {
    match platform {
        Platform::Windows => Ok(InvocationView {
            program: "cmd.exe"@,
            args: seq!["/C"@, command_line(command, args)],
            input: None,
            forward_env: Seq::empty(),
            hide_window: false,
        }),
        Platform::Posix => Err(ExecError::MechanismUnavailable(Mechanism::CommandShell)),
    }
}

/// The process that runs the command line through `cmd.exe`.
pub fn execute_with_cmd(command: &str, args: Option<&Vec<String>>, platform: Platform) -> (r: Result<Invocation, ExecError>)
    ensures
        plan_view(r) == shell_plan(command@, args_view(args), platform),
{
    match platform {
        Platform::Windows => {
            let line = build_command_line(command, args);
            let r = Invocation {
                program: String::from_str("cmd.exe"),
                args: vec![String::from_str("/C"), line],
                input: None,
                forward_env: Vec::new(),
                hide_window: false,
            };
            assert(r@.args =~= seq!["/C"@, command_line(command@, args_view(args))]);
            assert(r@.forward_env =~= Seq::<Seq<char>>::empty());
            Ok(r)
        },
        Platform::Posix => Err(ExecError::MechanismUnavailable(Mechanism::CommandShell)),
    }
}

/// The parts of the host description that a caller can ask for.
#[derive(Clone, Copy, Debug, PartialEq, Eq, Structural)]
pub enum InfoSection {
    Cpu,
    Memory,
    Disk,
    Os,
    All,
}

/// A request for host information.
#[derive(Debug)]
pub struct SystemInfoArgs {
    /// `cpu`, `memory`, `disk`, `os` or `all`; anything else, or nothing,
    /// asks for all.
    pub info_type: Option<String>,
}

/// The section that a request names.
pub open spec fn section_of(info_type: Option<Seq<char>>) -> InfoSection {
    match info_type {
        Some(t) => if t == "cpu"@ {
            InfoSection::Cpu
        } else if t == "memory"@ {
            InfoSection::Memory
        } else if t == "disk"@ {
            InfoSection::Disk
        } else if t == "os"@ {
            InfoSection::Os
        } else {
            InfoSection::All
        },
        None => InfoSection::All,
    }
}

impl SystemInfoArgs {
    /// The section this request asks for.
    pub fn section(&self) -> (r: InfoSection)
        ensures
            r == section_of(match self.info_type {
                Some(t) => Some(t@),
                None => None,
            }),
    {
        match &self.info_type {
            Some(t) => {
                let t = t.as_str();
                if same_text(t, "cpu") {
                    InfoSection::Cpu
                } else if same_text(t, "memory") {
                    InfoSection::Memory
                } else if same_text(t, "disk") {
                    InfoSection::Disk
                } else if same_text(t, "os") {
                    InfoSection::Os
                } else {
                    InfoSection::All
                }
            },
            None => InfoSection::All,
        }
    }
}

} // verus!
