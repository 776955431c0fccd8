use host_exec::prompts::{prompt_kind, PromptKind};
use host_exec::resources::{head_lines, lines_of, resource_kind, resource_query, ResourceKind};

fn strings(items: &[&str]) -> Vec<String> {
    items.iter().map(|s| s.to_string()).collect()
}

#[test]
fn resource_uris_map_to_kinds() {
    assert_eq!(resource_kind("linux://logs/system"), Some(ResourceKind::SystemLogs));
    assert_eq!(resource_kind("linux://logs/auth"), Some(ResourceKind::AuthLogs));
    assert_eq!(resource_kind("linux://config/network"), Some(ResourceKind::NetworkConfig));
    assert_eq!(resource_kind("linux://processes/top"), Some(ResourceKind::TopProcesses));
    assert_eq!(resource_kind("linux://system/status"), Some(ResourceKind::SystemStatus));
    assert_eq!(resource_kind("linux://nothing"), None);
}

#[test]
fn resource_queries() {
    let logs = resource_query(ResourceKind::SystemLogs).unwrap();
    assert_eq!(logs.program, "journalctl");
    assert_eq!(logs.args, strings(&["-n", "100", "--no-pager"]));
    let auth = resource_query(ResourceKind::AuthLogs).unwrap();
    assert_eq!(auth.args, strings(&["-u", "ssh", "-n", "50", "--no-pager"]));
    let net = resource_query(ResourceKind::NetworkConfig).unwrap();
    assert_eq!(net.program, "ip");
    assert_eq!(net.args, strings(&["addr", "show"]));
    let top = resource_query(ResourceKind::TopProcesses).unwrap();
    assert_eq!(top.program, "ps");
    assert_eq!(top.args, strings(&["aux", "--sort=-%mem"]));
    assert!(resource_query(ResourceKind::SystemStatus).is_none());
}

#[test]
fn lines_follow_str_lines() {
    for text in ["", "a", "a\n", "a\n\nb", "foo\r\nbar\n\nbaz\r", "\n", "x\r\n", "\r\n\r\n"] {
        let expected: Vec<String> = text.lines().map(|l| l.to_string()).collect();
        assert_eq!(lines_of(text), expected, "{:?}", text);
    }
}

#[test]
fn head_keeps_first_lines_only_when_longer() {
    let text: String = (1..=15).map(|i| format!("line{}\n", i)).collect();
    let expected: Vec<String> = (1..=11).map(|i| format!("line{}", i)).collect();
    assert_eq!(head_lines(&text, 11), expected.join("\n"));
    let short = "a\nb\n";
    assert_eq!(head_lines(short, 11), short);
    let exact: String = (1..=11).map(|i| format!("{}\n", i)).collect();
    assert_eq!(head_lines(&exact, 11), exact);
}

#[test]
fn prompt_names_map_to_kinds() {
    for kind in [
        PromptKind::SystemTroubleshooting,
        PromptKind::SecurityAudit,
        PromptKind::ServiceManagement,
        PromptKind::LogAnalysis,
        PromptKind::DiskCleanup,
    ] {
        assert_eq!(prompt_kind(&kind.name()), Some(kind));
    }
    assert_eq!(PromptKind::DiskCleanup.name(), "disk_cleanup");
    assert_eq!(prompt_kind("unknown"), None);
}
