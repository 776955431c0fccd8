use host_exec::audit::{audit_line, audit_record, code_text, status_label, AuditStatus};
use host_exec::cmdline::{build_command_line, escape_powershell_args, join, quote_powershell};
use host_exec::elevation::{
    display_command, method_label, plan_invocation, select, ElevationFlags, ElevationMethod,
    ExecError, Mechanism, Platform,
};
use host_exec::outcome::{normalize, RawOutcome};
use host_exec::policy::Config;
use host_exec::request::{
    execute_elevated, execute_with_cmd, finish, prepare, ExecuteCommandArgs, InfoSection,
    SystemInfoArgs,
};

fn strings(items: &[&str]) -> Vec<String> {
    items.iter().map(|s| s.to_string()).collect()
}

fn flags(interactive: bool, password: bool, secret: Option<&str>) -> ElevationFlags {
    ElevationFlags { interactive, password, secret: secret.map(|s| s.to_string()) }
}

fn request(command: &str, args: Option<&[&str]>) -> ExecuteCommandArgs {
    ExecuteCommandArgs {
        command: command.to_string(),
        args: args.map(strings),
        use_polkit: None,
        use_elevation: None,
        use_sudo: None,
        sudo_password: None,
    }
}

#[test]
fn test_build_command_line() {
    assert_eq!(build_command_line("echo", None), "echo");
    assert_eq!(
        build_command_line("echo", Some(&vec!["hello".to_string(), "world".to_string()])),
        "echo hello world"
    );
}

#[test]
fn test_escape_powershell_args() {
    assert_eq!(escape_powershell_args(None), "''");
    assert_eq!(escape_powershell_args(Some(&vec!["test".to_string()])), "'test'");
    assert_eq!(escape_powershell_args(Some(&vec!["test's".to_string()])), "'test''s'");
}

#[test]
fn escape_joins_several_arguments_with_commas() {
    assert_eq!(escape_powershell_args(Some(&strings(&["a", "b c", "''"]))), "'a','b c',''''''");
    assert_eq!(quote_powershell(""), "''");
    assert_eq!(join(&strings(&["x", "y", "z"]), ", "), "x, y, z");
    assert_eq!(join(&vec![], ","), "");
}

#[test]
fn already_elevated_process_runs_unprivileged() {
    for platform in [Platform::Posix, Platform::Windows] {
        for (i, p) in [(true, true), (true, false), (false, true), (false, false)] {
            for available in [true, false] {
                assert_eq!(
                    select(&flags(i, p, Some("pw")), platform, true, available),
                    Ok(ElevationMethod::Unprivileged)
                );
            }
        }
    }
}

#[test]
fn interactive_without_helper_is_unavailable() {
    assert_eq!(
        select(&flags(true, false, None), Platform::Posix, false, false),
        Err(ExecError::MechanismUnavailable(Mechanism::PolicyKit))
    );
    assert_eq!(
        select(&flags(true, false, None), Platform::Windows, false, false),
        Err(ExecError::MechanismUnavailable(Mechanism::Uac))
    );
}

#[test]
fn interactive_wins_over_password() {
    assert_eq!(
        select(&flags(true, true, Some("pw")), Platform::Posix, false, true),
        Ok(ElevationMethod::PolicyElevated)
    );
    assert_eq!(
        select(&flags(true, true, None), Platform::Windows, false, true),
        Ok(ElevationMethod::UacElevated)
    );
    assert_eq!(
        select(&flags(false, true, Some("pw")), Platform::Posix, false, true),
        Ok(ElevationMethod::PasswordElevated { secret: Some("pw".to_string()) })
    );
    assert_eq!(
        select(&flags(false, true, None), Platform::Windows, false, true),
        Err(ExecError::MechanismUnavailable(Mechanism::Sudo))
    );
    assert_eq!(
        select(&flags(false, false, None), Platform::Posix, false, false),
        Ok(ElevationMethod::Unprivileged)
    );
}

#[test]
fn plans_keep_arguments_as_tokens() {
    let args = strings(&["-la", "/tmp/a b"]);
    let direct = plan_invocation(&ElevationMethod::Unprivileged, "ls", Some(&args));
    assert_eq!(direct.program, "ls");
    assert_eq!(direct.args, args);
    assert!(direct.input.is_none());

    let sudo = plan_invocation(
        &ElevationMethod::PasswordElevated { secret: Some("s3".to_string()) },
        "ls",
        Some(&args),
    );
    assert_eq!(sudo.program, "sudo");
    assert_eq!(sudo.args, strings(&["-S", "--", "ls", "-la", "/tmp/a b"]));
    assert_eq!(sudo.input.as_deref(), Some("s3\n"));

    let nopass = plan_invocation(&ElevationMethod::PasswordElevated { secret: None }, "ls", None);
    assert_eq!(nopass.args, strings(&["-n", "--", "ls"]));
    assert!(nopass.input.is_none());

    let pk = plan_invocation(&ElevationMethod::PolicyElevated, "ls", Some(&args));
    assert_eq!(pk.program, "pkexec");
    assert_eq!(pk.args, strings(&["ls", "-la", "/tmp/a b"]));
    assert_eq!(pk.forward_env, strings(&["DISPLAY", "XAUTHORITY", "WAYLAND_DISPLAY"]));
}

#[test]
fn uac_plan_quotes_each_argument() {
    let uac = plan_invocation(&ElevationMethod::UacElevated, "net", Some(&strings(&["user", "o'neil"])));
    assert_eq!(uac.program, "powershell.exe");
    assert!(uac.hide_window);
    assert_eq!(
        uac.args,
        strings(&[
            "-NoProfile",
            "-NonInteractive",
            "-Command",
            "Start-Process -FilePath 'net' -ArgumentList 'user','o''neil' -Verb RunAs -Wait -WindowStyle Hidden",
        ])
    );
    let bare = plan_invocation(&ElevationMethod::UacElevated, "whoami", Some(&vec![]));
    assert_eq!(
        bare.args[3],
        "Start-Process -FilePath 'whoami' -ArgumentList '' -Verb RunAs -Wait -WindowStyle Hidden"
    );
}

#[test]
fn execute_elevated_by_platform() {
    assert_eq!(
        execute_elevated("whoami", None, Platform::Posix, false).err(),
        Some(ExecError::MechanismUnavailable(Mechanism::Uac))
    );
    let direct = execute_elevated("whoami", None, Platform::Windows, true).ok().unwrap();
    assert_eq!(direct.program, "whoami");
    assert!(direct.args.is_empty());
    let uac = execute_elevated("whoami", None, Platform::Windows, false).ok().unwrap();
    assert_eq!(uac.program, "powershell.exe");
}

#[test]
fn execute_with_cmd_by_platform() {
    assert_eq!(
        execute_with_cmd("dir", None, Platform::Posix).err(),
        Some(ExecError::MechanismUnavailable(Mechanism::CommandShell))
    );
    let shell = execute_with_cmd("dir", Some(&strings(&["/w"])), Platform::Windows).ok().unwrap();
    assert_eq!(shell.program, "cmd.exe");
    assert_eq!(shell.args, strings(&["/C", "dir /w"]));
}

#[test]
fn display_and_label_never_hold_the_password() {
    let m = ElevationMethod::PasswordElevated { secret: Some("hunter2".to_string()) };
    let shown = display_command(&m, "apt", Some(&strings(&["update"])));
    assert_eq!(shown, "sudo apt update");
    assert_eq!(method_label(&m), "sudo");
    assert_eq!(display_command(&ElevationMethod::PolicyElevated, "ls", None), "pkexec ls ");
    assert_eq!(display_command(&ElevationMethod::Unprivileged, "ls", None), "ls ");
    assert_eq!(display_command(&ElevationMethod::UacElevated, "ls", None), "ls ");
    assert_eq!(display_command(&ElevationMethod::Unprivileged, "ls", Some(&vec![])), "ls ");
    assert_eq!(display_command(&ElevationMethod::Unprivileged, "ls", Some(&strings(&["-l", "/tmp"]))), "ls -l /tmp");
    assert_eq!(method_label(&ElevationMethod::Unprivileged), "none");
    assert_eq!(method_label(&ElevationMethod::UacElevated), "UAC (User Account Control)");
}

#[test]
fn successful_unprivileged_run_is_reported() {
    let raw = RawOutcome { code: Some(0), stdout: b"total 0\n".to_vec(), stderr: vec![], success: true };
    let r = normalize("ls -la".to_string(), "none".to_string(), &raw);
    assert!(r.success);
    assert_eq!(r.exit_code, 0);
    assert_eq!(r.stderr, "");
    assert_eq!(r.stdout, "total 0\n");
}

#[test]
fn signal_exit_and_invalid_bytes_are_normalized() {
    let raw = RawOutcome { code: None, stdout: vec![0x66, 0xff, 0x6f], stderr: b"boom".to_vec(), success: false };
    let r = normalize("x".to_string(), "none".to_string(), &raw);
    assert_eq!(r.exit_code, -1);
    assert_eq!(r.stdout, "f\u{FFFD}o");
    assert_eq!(r.stderr, "boom");
    assert!(!r.success);
}

#[test]
fn prepare_refuses_before_any_process() {
    let config = Config::default();
    assert_eq!(
        prepare(&config, &request("python3", Some(&["script.py"])), Platform::Posix, false, true).err(),
        Some(ExecError::NotAllowed)
    );
    assert_eq!(
        prepare(&config, &request("rm", Some(&["/tmp/safe", "/etc/unsafe"])), Platform::Posix, false, true).err(),
        Some(ExecError::UnsafeTarget)
    );
    assert_eq!(
        prepare(&config, &request("rm", None), Platform::Posix, false, true).err(),
        Some(ExecError::UnsafeTarget)
    );
    let mut polkit = request("ls", None);
    polkit.use_polkit = Some(true);
    assert_eq!(
        prepare(&config, &polkit, Platform::Posix, false, false).err(),
        Some(ExecError::MechanismUnavailable(Mechanism::PolicyKit))
    );
}

#[test]
fn prepare_then_finish() {
    let config = Config::default();
    let mut req = request("ls", Some(&["-la"]));
    req.use_polkit = Some(true);
    let p = prepare(&config, &req, Platform::Posix, false, true).ok().unwrap();
    assert_eq!(p.invocation.program, "pkexec");
    assert_eq!(p.display, "pkexec ls -la");
    assert_eq!(p.label, "pkexec (PolicyKit)");
    let raw = RawOutcome { code: Some(2), stdout: vec![], stderr: b"denied".to_vec(), success: false };
    let r = finish(&p, &raw);
    assert_eq!(r.command, "pkexec ls -la");
    assert_eq!(r.elevation_method, "pkexec (PolicyKit)");
    assert_eq!(r.exit_code, 2);
    assert_eq!(r.stderr, "denied");
    assert!(!r.success);
}

#[test]
fn prepare_without_argument_list_shows_trailing_space() {
    let config = Config::default();
    let p = prepare(&config, &request("ls", None), Platform::Posix, false, false).ok().unwrap();
    assert_eq!(p.display, "ls ");
    assert_eq!(p.label, "none");
    assert!(p.invocation.args.is_empty());
}

#[test]
fn audit_lines() {
    assert_eq!(
        audit_line("2024-01-02 03:04:05", "REJECTED", "rm -rf /", None),
        "[2024-01-02 03:04:05] [REJECTED] Command: \"rm -rf /\" | Details: -"
    );
    assert_eq!(status_label(AuditStatus::Executed), "EXECUTED");
    assert_eq!(code_text(0), "0");
    assert_eq!(code_text(-1), "-1");
    assert_eq!(code_text(i32::MIN), "-2147483648");
    assert_eq!(code_text(1234), "1234");
    let ok = Ok(host_exec::outcome::ExecutionResult {
        command: "ls".to_string(),
        elevation_method: "none".to_string(),
        exit_code: 3,
        stdout: String::new(),
        stderr: String::new(),
        success: false,
    });
    assert_eq!(audit_record("T", "ls", &ok), "[T] [EXECUTED] Command: \"ls\" | Details: exit code 3");
    assert_eq!(
        audit_record("T", "rm /", &Err(ExecError::UnsafeTarget)),
        "[T] [REJECTED] Command: \"rm /\" | Details: a removal target is missing or outside the safe directories"
    );
    assert_eq!(
        audit_record("T", "x", &Err(ExecError::SpawnFailure("no such file".to_string()))),
        "[T] [FAILED] Command: \"x\" | Details: failed to start the process: no such file"
    );
}

#[test]
fn info_sections() {
    let s = |t: Option<&str>| SystemInfoArgs { info_type: t.map(|x| x.to_string()) }.section();
    assert_eq!(s(Some("cpu")), InfoSection::Cpu);
    assert_eq!(s(Some("memory")), InfoSection::Memory);
    assert_eq!(s(Some("disk")), InfoSection::Disk);
    assert_eq!(s(Some("os")), InfoSection::Os);
    assert_eq!(s(Some("all")), InfoSection::All);
    assert_eq!(s(Some("CPU")), InfoSection::All);
    assert_eq!(s(None), InfoSection::All);
}
