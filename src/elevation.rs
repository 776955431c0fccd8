use vstd::prelude::*;
use crate::cmdline::{args_view, build_command_line, joined, escape_powershell_args, powershell_arg_list, quote_powershell, quoted};

verus! {

/// The platform families whose elevation mechanisms the library knows.
#[derive(Clone, Copy, Debug, PartialEq, Eq, Structural)]
pub enum Platform {
    Posix,
    Windows,
}

/// A helper through which a command can be run.
#[derive(Clone, Copy, Debug, PartialEq, Eq, Structural)]
pub enum Mechanism {
    /// `sudo`, with a password or with none configured.
    Sudo,
    /// PolicyKit's `pkexec` and its consent dialog.
    PolicyKit,
    /// Windows User Account Control.
    Uac,
    /// Windows `cmd.exe`.
    CommandShell,
}

/// A failure before any process is started, or the start itself failing.
#[derive(Debug, PartialEq, Eq)]
pub enum ExecError {
    /// The program is not on the allow-list.
    NotAllowed,
    /// A removal names no target or an unsafe one.
    UnsafeTarget,
    /// The helper that the request needs is missing on this host or platform.
    MechanismUnavailable(Mechanism),
    /// The operating system refused to start the process; its own message.
    SpawnFailure(String),
}

/// What the caller asked for, before the platform is taken into account.
#[derive(Debug)]
pub struct ElevationFlags {
    /// Elevate through the platform's consent dialog.
    pub interactive: bool,
    /// Elevate through `sudo`.
    pub password: bool,
    /// The password handed to `sudo`, if any.
    pub secret: Option<String>,
}

/// The elevation path that a command will take.
#[derive(Debug, PartialEq, Eq)]
pub enum ElevationMethod {
    Unprivileged,
    PasswordElevated { secret: Option<String> },
    PolicyElevated,
    UacElevated,
}

/// What `select` answers. A process that is already elevated is never
/// elevated again; the interactive flag wins over the password flag.
pub open spec fn selection(
    flags: ElevationFlags,
    platform: Platform,
    already_elevated: bool,
    interactive_available: bool,
) -> Result<ElevationMethod, ExecError> {
    if already_elevated {
        Ok(ElevationMethod::Unprivileged)
    } else if flags.interactive {
        match platform {
            Platform::Posix => if interactive_available {
                Ok(ElevationMethod::PolicyElevated)
            } else {
                Err(ExecError::MechanismUnavailable(Mechanism::PolicyKit))
            },
            Platform::Windows => if interactive_available {
                Ok(ElevationMethod::UacElevated)
            } else {
                Err(ExecError::MechanismUnavailable(Mechanism::Uac))
            },
        }
    } else if flags.password {
        match platform {
            Platform::Posix => Ok(ElevationMethod::PasswordElevated { secret: flags.secret }),
            Platform::Windows => Err(ExecError::MechanismUnavailable(Mechanism::Sudo)),
        }
    } else {
        Ok(ElevationMethod::Unprivileged)
    }
}

/// Picks the elevation path. `interactive_available` tells whether the
/// platform's consent helper was found on this host.
pub fn select(
    flags: &ElevationFlags,
    platform: Platform,
    already_elevated: bool,
    interactive_available: bool,
) -> (r: Result<ElevationMethod, ExecError>)
    ensures
        r == selection(*flags, platform, already_elevated, interactive_available),
{
    if already_elevated {
        Ok(ElevationMethod::Unprivileged)
    } else if flags.interactive {
        match platform {
            Platform::Posix => if interactive_available {
                Ok(ElevationMethod::PolicyElevated)
            } else {
                Err(ExecError::MechanismUnavailable(Mechanism::PolicyKit))
            },
            Platform::Windows => if interactive_available {
                Ok(ElevationMethod::UacElevated)
            } else {
                Err(ExecError::MechanismUnavailable(Mechanism::Uac))
            },
        }
    } else if flags.password {
        match platform {
            Platform::Posix => {
                let secret = match &flags.secret {
                    Some(s) => Some(s.clone()),
                    None => None,
                };
                Ok(ElevationMethod::PasswordElevated { secret })
            },
            Platform::Windows => Err(ExecError::MechanismUnavailable(Mechanism::Sudo)),
        }
    } else {
        Ok(ElevationMethod::Unprivileged)
    }
}

/// A process to start: the program, its argument vector, the text to write
/// to its input before closing it, the names of the environment variables to
/// pass on from this process, and whether its window is to be hidden.
pub struct Invocation {
    pub program: String,
    pub args: Vec<String>,
    pub input: Option<String>,
    pub forward_env: Vec<String>,
    pub hide_window: bool,
}

/// The mathematical value of an `Invocation`.
pub struct InvocationView {
    pub program: Seq<char>,
    pub args: Seq<Seq<char>>,
    pub input: Option<Seq<char>>,
    pub forward_env: Seq<Seq<char>>,
    pub hide_window: bool,
}

impl View for Invocation {
    type V = InvocationView;

    open spec fn view(&self) -> InvocationView {
        InvocationView {
            program: self.program@,
            args: self.args.deep_view(),
            input: match self.input {
                Some(s) => Some(s@),
                None => None,
            },
            forward_env: self.forward_env.deep_view(),
            hide_window: self.hide_window,
        }
    }
}

/// The arguments given, or none.
pub open spec fn arg_list(args: Option<Seq<Seq<char>>>) -> Seq<Seq<char>> {
    match args {
        Some(a) => a,
        None => Seq::empty(),
    }
}

/// The variables that describe the graphical session, which the consent
/// dialog needs in order to appear.
pub open spec fn session_env() -> Seq<Seq<char>> {
    seq!["DISPLAY"@, "XAUTHORITY"@, "WAYLAND_DISPLAY"@]
}

/// An argument list with no entries counts as none for `Start-Process`.
pub open spec fn nonempty_args(args: Option<Seq<Seq<char>>>) -> Option<Seq<Seq<char>>> {
    match args {
        Some(a) => if a.len() > 0 { Some(a) } else { None },
        None => None,
    }
}

/// The PowerShell script that asks User Account Control to run `command`
/// elevated, waits for it and keeps its window hidden.
pub open spec fn uac_script(command: Seq<char>, args: Option<Seq<Seq<char>>>) -> Seq<char> {
    "Start-Process -FilePath "@ + quoted(command) + " -ArgumentList "@
        + powershell_arg_list(nonempty_args(args)) + " -Verb RunAs -Wait -WindowStyle Hidden"@
}

/// A plain invocation with no input, no forwarded variables and a window.
pub open spec fn plain(program: Seq<char>, args: Seq<Seq<char>>) -> InvocationView {
    InvocationView { program, args, input: None, forward_env: Seq::empty(), hide_window: false }
}

/// The process that runs `command` with `args` along `method`.
pub open spec fn planned(method: ElevationMethod, command: Seq<char>, args: Option<Seq<Seq<char>>>) -> InvocationView {
    match method {
        ElevationMethod::Unprivileged => plain(command, arg_list(args)),
        ElevationMethod::PasswordElevated { secret } => match secret {
            Some(s) => InvocationView {
                input: Some(s@ + "\n"@),
                ..plain("sudo"@, seq!["-S"@, "--"@, command] + arg_list(args))
            },
            None => plain("sudo"@, seq!["-n"@, "--"@, command] + arg_list(args)),
        },
        ElevationMethod::PolicyElevated => InvocationView {
            forward_env: session_env(),
            ..plain("pkexec"@, seq![command] + arg_list(args))
        },
        ElevationMethod::UacElevated => InvocationView {
            hide_window: true,
            ..plain(
                "powershell.exe"@,
                seq!["-NoProfile"@, "-NonInteractive"@, "-Command"@, uac_script(command, args)],
            )
        },
    }
}

/// The readable form of the command that `method` runs: the program, a space
/// and its arguments separated by spaces, none when no list is given; `sudo `
/// or `pkexec ` in front where that helper runs it.
pub open spec fn shown(method: ElevationMethod, command: Seq<char>, args: Option<Seq<Seq<char>>>) -> Seq<char> {
    let line = command + " "@ + joined(arg_list(args), " "@);
    match method {
        ElevationMethod::PasswordElevated { .. } => "sudo "@ + line,
        ElevationMethod::PolicyElevated => "pkexec "@ + line,
        _ => line,
    }
}

/// The name of an elevation path in results and the audit trail.
pub open spec fn label_of(method: ElevationMethod) -> Seq<char> {
    match method {
        ElevationMethod::Unprivileged => "none"@,
        ElevationMethod::PasswordElevated { .. } => "sudo"@,
        ElevationMethod::PolicyElevated => "pkexec (PolicyKit)"@,
        ElevationMethod::UacElevated => "UAC (User Account Control)"@,
    }
}

/// `head` followed by the arguments given.
fn with_args(head: Vec<String>, args: Option<&Vec<String>>) -> (r: Vec<String>)
    ensures
        r.deep_view() == head.deep_view() + arg_list(args_view(args)),
{
    let mut r = head;
    let ghost h = r.deep_view();
    match args {
        Some(v) => {
            let mut i: usize = 0;
            while i < v.len()
                invariant
                    i <= v.len(),
                    r.deep_view() == h + v.deep_view().subrange(0, i as int),
                decreases v.len() - i,
            {
                let ghost r0 = r.deep_view();
                r.push(v[i].clone());
                assert(r.deep_view() =~= r0.push(v.deep_view()[i as int]));
                assert(v.deep_view().subrange(0, i + 1) =~= v.deep_view().subrange(0, i as int).push(v.deep_view()[i as int]));
                i = i + 1;
            }
            assert(v.deep_view().subrange(0, v.len() as int) =~= v.deep_view());
        },
        None => {
            assert(h + Seq::<Seq<char>>::empty() =~= h);
        },
    }
    r
}

/// The `Start-Process` script for `command` with `args`.
pub fn build_uac_script(command: &str, args: Option<&Vec<String>>) -> (r: String)
    ensures
        r@ == uac_script(command@, args_view(args)),
{
    let list = match args {
        Some(v) => if v.len() > 0 {
            escape_powershell_args(Some(v))
        } else {
            escape_powershell_args(None)
        },
        None => escape_powershell_args(None),
    };
    let mut r = String::from_str("Start-Process -FilePath ");
    let q = quote_powershell(command);
    r.append(q.as_str());
    r.append(" -ArgumentList ");
    r.append(list.as_str());
    r.append(" -Verb RunAs -Wait -WindowStyle Hidden");
    r
}

/// The process that runs `command` with `args` along `method`. Each argument
/// stays a token of its own on every path but User Account Control, whose
/// single script string quotes each one.
pub fn plan_invocation(method: &ElevationMethod, command: &str, args: Option<&Vec<String>>) -> (r: Invocation)
    ensures
        r@ == planned(*method, command@, args_view(args)),
{
    let r = match method {
        ElevationMethod::Unprivileged => Invocation {
            program: String::from_str(command),
            args: with_args(Vec::new(), args),
            input: None,
            forward_env: Vec::new(),
            hide_window: false,
        },
        ElevationMethod::PasswordElevated { secret } => match secret {
            Some(s) => {
                let mut input = s.clone();
                input.append("\n");
                Invocation {
                    program: String::from_str("sudo"),
                    args: with_args(vec![String::from_str("-S"), String::from_str("--"), String::from_str(command)], args),
                    input: Some(input),
                    forward_env: Vec::new(),
                    hide_window: false,
                }
            },
            None => Invocation {
                program: String::from_str("sudo"),
                args: with_args(vec![String::from_str("-n"), String::from_str("--"), String::from_str(command)], args),
                input: None,
                forward_env: Vec::new(),
                hide_window: false,
            },
        },
        ElevationMethod::PolicyElevated => Invocation {
            program: String::from_str("pkexec"),
            args: with_args(vec![String::from_str(command)], args),
            input: None,
            forward_env: vec![String::from_str("DISPLAY"), String::from_str("XAUTHORITY"), String::from_str("WAYLAND_DISPLAY")],
            hide_window: false,
        },
        ElevationMethod::UacElevated => Invocation {
            program: String::from_str("powershell.exe"),
            args: vec![
                String::from_str("-NoProfile"),
                String::from_str("-NonInteractive"),
                String::from_str("-Command"),
                build_uac_script(command, args),
            ],
            input: None,
            forward_env: Vec::new(),
            hide_window: true,
        },
    };
    assert(r@.args =~= planned(*method, command@, args_view(args)).args);
    assert(r@.forward_env =~= planned(*method, command@, args_view(args)).forward_env);
    r
}

/// The readable form of the command that `method` runs; it never holds the
/// password.
pub fn display_command(method: &ElevationMethod, command: &str, args: Option<&Vec<String>>) -> (r: String)
    ensures
        r@ == shown(*method, command@, args_view(args)),
{
    let empty: Vec<String> = Vec::new();
    let line = match args {
        Some(v) => build_command_line(command, Some(v)),
        None => {
            assert(empty.deep_view() =~= Seq::<Seq<char>>::empty());
            build_command_line(command, Some(&empty))
        },
    };
    match method {
        ElevationMethod::PasswordElevated { .. } => {
            let mut r = String::from_str("sudo ");
            r.append(line.as_str());
            r
        },
        ElevationMethod::PolicyElevated => {
            let mut r = String::from_str("pkexec ");
            r.append(line.as_str());
            r
        },
        _ => line,
    }
}

/// The name of an elevation path.
pub fn method_label(method: &ElevationMethod) -> (r: String)
    ensures
        r@ == label_of(*method),
{
    match method {
        ElevationMethod::Unprivileged => String::from_str("none"),
        ElevationMethod::PasswordElevated { .. } => String::from_str("sudo"),
        ElevationMethod::PolicyElevated => String::from_str("pkexec (PolicyKit)"),
        ElevationMethod::UacElevated => String::from_str("UAC (User Account Control)"),
    }
}

} // verus!
