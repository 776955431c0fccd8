use host_exec::guard::{is_command_allowed, is_safe_path, is_safe_removal, validate, validate_line, Rejection, Verdict};
use host_exec::policy::{default_allowed_commands, is_permitted, Config};
use host_exec::text::{contains, last_segment, split_words, starts_with};

fn strings(items: &[&str]) -> Vec<String> {
    items.iter().map(|s| s.to_string()).collect()
}

#[test]
fn test_is_command_allowed() {
    // Allowed commands
    assert!(is_command_allowed("ls -la"));
    assert!(is_command_allowed("grep 'foo' bar.txt"));
    assert!(is_command_allowed("apt update"));
    assert!(is_command_allowed("/usr/bin/ls")); // Absolute path

    // Blocked commands
    assert!(!is_command_allowed("rm -rf /"));
    assert!(!is_command_allowed("chmod 777 file"));
    assert!(!is_command_allowed("./script.sh"));
    assert!(!is_command_allowed("python3 script.py"));
}

#[test]
fn removal_of_tmp_target_is_admitted() {
    let list = default_allowed_commands();
    assert_eq!(validate(&list, "rm", &strings(&["-rf", "/tmp/junk"])), Verdict::Admitted);
}

#[test]
fn removal_of_root_is_refused() {
    let list = default_allowed_commands();
    assert_eq!(
        validate(&list, "rm", &strings(&["-rf", "/"])),
        Verdict::Rejected(Rejection::UnsafeTarget)
    );
}

#[test]
fn one_unsafe_target_refuses_the_whole_removal() {
    let list = default_allowed_commands();
    assert_eq!(
        validate(&list, "rm", &strings(&["/tmp/safe", "/etc/unsafe"])),
        Verdict::Rejected(Rejection::UnsafeTarget)
    );
}

#[test]
fn unlisted_program_is_not_allowed() {
    let list = default_allowed_commands();
    assert!(!list.iter().any(|s| s == "python3"));
    assert_eq!(
        validate(&list, "python3", &strings(&["script.py"])),
        Verdict::Rejected(Rejection::NotAllowed)
    );
}

#[test]
fn removal_without_target_is_refused() {
    let list = default_allowed_commands();
    assert_eq!(validate(&list, "rm", &vec![]), Verdict::Rejected(Rejection::UnsafeTarget));
    assert_eq!(
        validate(&list, "rm", &strings(&["-rf"])),
        Verdict::Rejected(Rejection::UnsafeTarget)
    );
    assert!(!is_command_allowed("rm"));
    assert!(!is_command_allowed("rm -rf"));
}

#[test]
fn removal_under_each_safe_root_is_admitted() {
    assert!(is_command_allowed("rm /var/log/syslog.1"));
    assert!(is_command_allowed("rm -f /home/user/.cache/mozilla/firefox/cache2"));
    assert!(is_command_allowed("rm /home/user/.local/share/Trash/files/deleted.txt"));
    assert!(is_command_allowed("rm -rf /var/tmp/temp_dir"));
    assert!(is_command_allowed("/bin/rm /tmp/a /tmp/b"));
}

#[test]
fn removal_outside_safe_roots_is_refused() {
    assert!(!is_command_allowed("rm /etc/passwd"));
    assert!(!is_command_allowed("rm /home/user/Documents/secret.txt"));
    assert!(!is_command_allowed("rm -rf /tmp/../etc/passwd"));
    assert!(!is_command_allowed("rm /tmp"));
}

#[test]
fn validation_is_repeatable() {
    let list = default_allowed_commands();
    let args = strings(&["/tmp/safe", "/etc/unsafe"]);
    let first = validate(&list, "rm", &args);
    let second = validate(&list, "rm", &args);
    assert_eq!(first, second);
    assert_eq!(validate_line(&list, "ls -la"), validate_line(&list, "ls -la"));
}

#[test]
fn empty_line_names_no_program() {
    let list = default_allowed_commands();
    assert_eq!(validate_line(&list, ""), Verdict::Rejected(Rejection::NotAllowed));
    assert_eq!(validate_line(&list, " \t\n"), Verdict::Rejected(Rejection::NotAllowed));
}

#[test]
fn matching_is_case_sensitive_and_by_final_segment() {
    let list = strings(&["ls", "/opt/tool"]);
    assert!(is_permitted(&list, "ls"));
    assert!(is_permitted(&list, "/usr/bin/ls"));
    assert!(!is_permitted(&list, "LS"));
    assert!(is_permitted(&list, "/opt/tool"));
    assert!(!is_permitted(&list, "tool"));
    assert!(!is_permitted(&list, "./script.sh"));
}

#[test]
fn custom_allow_list_governs_validation() {
    let list = strings(&["python3"]);
    assert_eq!(validate(&list, "python3", &strings(&["script.py"])), Verdict::Admitted);
    assert_eq!(validate(&list, "ls", &vec![]), Verdict::Rejected(Rejection::NotAllowed));
}

#[test]
fn default_config_holds_default_list() {
    let c = Config::default();
    assert_eq!(c.allowed_commands, default_allowed_commands());
    assert_eq!(c.log_path, "audit.log");
    assert!(c.allowed_commands.iter().any(|s| s == "rm"));
    assert!(!c.allowed_commands.iter().any(|s| s == "chmod"));
}

#[test]
fn safe_path_rules() {
    assert!(is_safe_path("/tmp/x"));
    assert!(!is_safe_path("/tmp/a..b"));
    assert!(!is_safe_path("tmp/x"));
    assert!(is_safe_removal(&strings(&["-r", "/var/log/old"])));
    assert!(!is_safe_removal(&strings(&["-r"])));
}

#[test]
fn text_helpers() {
    assert_eq!(last_segment("/usr/bin/ls"), "ls");
    assert_eq!(last_segment("ls"), "ls");
    assert_eq!(last_segment("dir/"), "");
    assert!(starts_with("/tmp/x", "/tmp/"));
    assert!(!starts_with("/tm", "/tmp/"));
    assert!(contains("a/.cache/b", "/.cache/"));
    assert!(!contains("abc", "abd"));
    assert_eq!(split_words("  grep\t'foo'  bar.txt \n"), strings(&["grep", "'foo'", "bar.txt"]));
    assert_eq!(split_words("a\u{3000}b"), strings(&["a", "b"]));
    assert!(split_words("").is_empty());
}
