use vstd::prelude::*;
use crate::text::{final_segment, last_segment, same_text};

verus! {

/// The programs that a fresh configuration permits.
pub open spec fn default_allow_list() -> Seq<Seq<char>> {
    seq![
        "ls"@, "cat"@, "grep"@, "head"@, "tail"@, "find"@, "wc"@, "df"@, "du"@, "free"@,
        "ps"@, "top"@, "uptime"@, "uname"@, "whoami"@, "id"@, "hostname"@, "date"@,
        "echo"@, "pwd"@, "ip"@, "ss"@, "ping"@, "lsblk"@, "dmesg"@, "journalctl"@,
        "systemctl"@, "apt"@, "dnf"@, "pacman"@, "rm"@,
    ]
}

/// A command is permitted when the list holds its name as written, or the
/// final segment of its path (so `/usr/bin/ls` passes where `ls` is listed).
/// Matching is case-sensitive.
pub open spec fn permits(list: Seq<Seq<char>>, command: Seq<char>) -> bool {
    list.contains(command) || list.contains(final_segment(command))
}

/// The file used for the audit trail when the configuration names no other.
pub open spec fn default_log_path() -> Seq<char> {
    "audit.log"@
}

/// The persisted settings: the allow-list and the audit log's file name.
#[derive(Debug)]
pub struct Config {
    pub allowed_commands: Vec<String>,
    pub log_path: String,
}

/// The default allow-list, one `String` per permitted program.
pub fn default_allowed_commands() -> (r: Vec<String>)
    ensures
        r.deep_view() == default_allow_list(),
{
    let r = vec![
        String::from_str("ls"), String::from_str("cat"), String::from_str("grep"),
        String::from_str("head"), String::from_str("tail"), String::from_str("find"),
        String::from_str("wc"), String::from_str("df"), String::from_str("du"),
        String::from_str("free"), String::from_str("ps"), String::from_str("top"),
        String::from_str("uptime"), String::from_str("uname"), String::from_str("whoami"),
        String::from_str("id"), String::from_str("hostname"), String::from_str("date"),
        String::from_str("echo"), String::from_str("pwd"), String::from_str("ip"),
        String::from_str("ss"), String::from_str("ping"), String::from_str("lsblk"),
        String::from_str("dmesg"), String::from_str("journalctl"),
        String::from_str("systemctl"), String::from_str("apt"), String::from_str("dnf"),
        String::from_str("pacman"), String::from_str("rm"),
    ];
    assert(r.deep_view() =~= default_allow_list());
    r
}

impl Default for Config {
    fn default() -> (r: Config)
        ensures
            r.allowed_commands.deep_view() == default_allow_list(),
            r.log_path@ == default_log_path(),
    {
        Config { allowed_commands: default_allowed_commands(), log_path: String::from_str("audit.log") }
    }
}

/// Whether `list` holds an entry with exactly the characters of `name`.
pub fn is_listed(list: &Vec<String>, name: &str) -> (r: bool)
    ensures
        r == list.deep_view().contains(name@),
{
    let mut i: usize = 0;
    while i < list.len()
        invariant
            i <= list.len(),
            forall|j: int| 0 <= j < i ==> list.deep_view()[j] != name@,
        decreases list.len() - i,
    {
        if same_text(list[i].as_str(), name) {
            assert(list.deep_view()[i as int] == name@);
            return true;
        }
        i = i + 1;
    }
    false
}

/// Whether the allow-list permits `command`, by its full name or its final
/// path segment.
pub fn is_permitted(list: &Vec<String>, command: &str) -> (r: bool)
    ensures
        r == permits(list.deep_view(), command@),
{
    if is_listed(list, command) {
        return true;
    }
    let name = last_segment(command);
    is_listed(list, name.as_str())
}

} // verus!
