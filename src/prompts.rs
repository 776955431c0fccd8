use vstd::prelude::*;
use crate::text::same_text;

verus! {

/// The guided tasks that the server offers as prompts.
#[derive(Clone, Copy, Debug, PartialEq, Eq, Structural)]
pub enum PromptKind {
    SystemTroubleshooting,
    SecurityAudit,
    ServiceManagement,
    LogAnalysis,
    DiskCleanup,
}

/// The name under which a prompt is offered.
pub open spec fn prompt_name_of(kind: PromptKind) -> Seq<char> {
    match kind {
        PromptKind::SystemTroubleshooting => "system_troubleshooting"@,
        PromptKind::SecurityAudit => "security_audit"@,
        PromptKind::ServiceManagement => "service_management"@,
        PromptKind::LogAnalysis => "log_analysis"@,
        PromptKind::DiskCleanup => "disk_cleanup"@,
    }
}

/// The prompt that a name asks for.
pub open spec fn prompt_of(name: Seq<char>) -> Option<PromptKind> {
    if name == "system_troubleshooting"@ {
        Some(PromptKind::SystemTroubleshooting)
    } else if name == "security_audit"@ {
        Some(PromptKind::SecurityAudit)
    } else if name == "service_management"@ {
        Some(PromptKind::ServiceManagement)
    } else if name == "log_analysis"@ {
        Some(PromptKind::LogAnalysis)
    } else if name == "disk_cleanup"@ {
        Some(PromptKind::DiskCleanup)
    } else {
        None
    }
}

impl PromptKind {
    /// The name under which this prompt is offered.
    pub fn name(&self) -> (r: String)
        ensures
            r@ == prompt_name_of(*self),
    {
        match self {
            PromptKind::SystemTroubleshooting => String::from_str("system_troubleshooting"),
            PromptKind::SecurityAudit => String::from_str("security_audit"),
            PromptKind::ServiceManagement => String::from_str("service_management"),
            PromptKind::LogAnalysis => String::from_str("log_analysis"),
            PromptKind::DiskCleanup => String::from_str("disk_cleanup"),
        }
    }
}

/// The prompt that `name` asks for, if any.
pub fn prompt_kind(name: &str) -> (r: Option<PromptKind>)
    ensures
        r == prompt_of(name@),
{
    if same_text(name, "system_troubleshooting") {
        Some(PromptKind::SystemTroubleshooting)
    } else if same_text(name, "security_audit") {
        Some(PromptKind::SecurityAudit)
    } else if same_text(name, "service_management") {
        Some(PromptKind::ServiceManagement)
    } else if same_text(name, "log_analysis") {
        Some(PromptKind::LogAnalysis)
    } else if same_text(name, "disk_cleanup") {
        Some(PromptKind::DiskCleanup)
    } else {
        None
    }
}

} // verus!
