use vstd::prelude::*;
use crate::policy::{default_allow_list, default_allowed_commands, permits};
use crate::text::{contains, final_segment, has_infix, has_prefix, last_segment, split_words, starts_with, same_text, words};

verus! {

/// Why a command was refused.
#[derive(Clone, Copy, Debug, PartialEq, Eq, Structural)]
pub enum Rejection {
    /// The program is not on the allow-list.
    NotAllowed,
    /// A removal names no target, or a target outside the safe roots.
    UnsafeTarget,
}

/// The validator's answer on a command line.
#[derive(Clone, Copy, Debug, PartialEq, Eq, Structural)]
pub enum Verdict {
    Admitted,
    Rejected(Rejection),
}

/// An argument that begins with the flag marker `-`.
pub open spec fn is_flag(arg: Seq<char>) -> bool {
    arg.len() > 0 && arg[0] == '-'
}

/// A removal target lies under a temporary, log, cache or trash directory and
/// holds no `..`. The test is on the text alone; nothing is resolved.
pub open spec fn is_safe_target(t: Seq<char>) -> bool {
    !has_infix(t, ".."@) && (
        has_prefix(t, "/tmp/"@)
        || has_prefix(t, "/var/tmp/"@)
        || has_prefix(t, "/var/log/"@)
        || has_infix(t, "/.cache/"@)
        || has_infix(t, "/.local/share/Trash/"@)
    )
}

/// Some argument is a target, that is, not a flag.
pub open spec fn has_target(args: Seq<Seq<char>>) -> bool {
    exists|i: int| 0 <= i < args.len() && !is_flag(args[i])
}

/// Every target is safe.
pub open spec fn all_targets_safe(args: Seq<Seq<char>>) -> bool {
    forall|i: int| 0 <= i < args.len() && !is_flag(args[i]) ==> is_safe_target(args[i])
}

/// A removal may run: it names a target, and every target is safe.
pub open spec fn removal_is_safe(args: Seq<Seq<char>>) -> bool {
    has_target(args) && all_targets_safe(args)
}

/// The program removes files.
pub open spec fn is_removal(command: Seq<char>) -> bool {
    final_segment(command) == "rm"@
}

/// What `validate` answers.
pub open spec fn verdict_of(list: Seq<Seq<char>>, command: Seq<char>, args: Seq<Seq<char>>) -> Verdict {
    if !permits(list, command) {
        Verdict::Rejected(Rejection::NotAllowed)
    } else if is_removal(command) && !removal_is_safe(args) {
        Verdict::Rejected(Rejection::UnsafeTarget)
    } else {
        Verdict::Admitted
    }
}

/// Whether `arg` begins with `-`.
pub fn is_flag_arg(arg: &str) -> (r: bool)
    ensures
        r == is_flag(arg@),
{
    if arg.unicode_len() == 0 {
        false
    } else {
        arg.get_char(0) == '-'
    }
}

/// Whether a removal target is safe to delete.
pub fn is_safe_path(t: &str) -> (r: bool)
    ensures
        r == is_safe_target(t@),
{
    if contains(t, "..") {
        return false;
    }
    starts_with(t, "/tmp/")
        || starts_with(t, "/var/tmp/")
        || starts_with(t, "/var/log/")
        || contains(t, "/.cache/")
        || contains(t, "/.local/share/Trash/")
}

/// Whether a removal with these arguments names at least one target and only
/// safe ones. A single unsafe target refuses the whole call.
pub fn is_safe_removal(args: &Vec<String>) -> (r: bool)
    ensures
        r == removal_is_safe(args.deep_view()),
{
    let ghost a = args.deep_view();
    let mut seen: bool = false;
    let mut i: usize = 0;
    while i < args.len()
        invariant
            a == args.deep_view(),
            i <= args.len(),
            seen == exists|j: int| 0 <= j < i && !is_flag(a[j]),
            forall|j: int| 0 <= j < i && !is_flag(a[j]) ==> is_safe_target(a[j]),
        decreases args.len() - i,
    {
        let arg = args[i].as_str();
        assert(a[i as int] == arg@);
        if !is_flag_arg(arg) {
            if !is_safe_path(arg) {
                assert(!all_targets_safe(a));
                return false;
            }
            seen = true;
        }
        i = i + 1;
        assert(seen == exists|j: int| 0 <= j < i && !is_flag(a[j])) by {
            if seen && !is_flag(a[i - 1]) {
                assert(0 <= i - 1 < i && !is_flag(a[i - 1]));
            }
        }
    }
    seen
}

/// Decides whether `command` with `args` may run under the allow-list `list`.
/// It reads nothing but its arguments, so equal inputs give equal verdicts.
pub fn validate(list: &Vec<String>, command: &str, args: &Vec<String>) -> (r: Verdict)
    ensures
        r == verdict_of(list.deep_view(), command@, args.deep_view()),
{
    if !crate::policy::is_permitted(list, command) {
        return Verdict::Rejected(Rejection::NotAllowed);
    }
    let name = last_segment(command);
    if same_text(name.as_str(), "rm") && !is_safe_removal(args) {
        return Verdict::Rejected(Rejection::UnsafeTarget);
    }
    Verdict::Admitted
}

/// What `validate_line` answers: the first word is the program, the rest its
/// arguments; a line without words names no permitted program.
pub open spec fn line_verdict(list: Seq<Seq<char>>, line: Seq<char>) -> Verdict {
    let w = words(line);
    if w.len() == 0 {
        Verdict::Rejected(Rejection::NotAllowed)
    } else {
        verdict_of(list, w[0], w.drop_first())
    }
}

/// Validates a whole command line, split on white space.
pub fn validate_line(list: &Vec<String>, line: &str) -> (r: Verdict)
    ensures
        r == line_verdict(list.deep_view(), line@),
{
    let w = split_words(line);
    if w.len() == 0 {
        return Verdict::Rejected(Rejection::NotAllowed);
    }
    let ghost wv = w.deep_view();
    let mut rest: Vec<String> = Vec::new();
    let mut i: usize = 1;
    while i < w.len()
        invariant
            wv == w.deep_view(),
            1 <= i <= w.len(),
            rest.deep_view() == wv.subrange(1, i as int),
        decreases w.len() - i,
    {
        let ghost r0 = rest.deep_view();
        rest.push(w[i].clone());
        assert(rest.deep_view() =~= r0.push(wv[i as int]));
        assert(wv.subrange(1, i + 1) =~= wv.subrange(1, i as int).push(wv[i as int]));
        i = i + 1;
    }
    assert(wv.subrange(1, w.len() as int) =~= wv.drop_first());
    validate(list, w[0].as_str(), &rest)
}

/// Whether a command line passes the default allow-list and, for a removal,
/// the safe-target guard.
pub fn is_command_allowed(line: &str) -> (r: bool)
    ensures
        r == (line_verdict(default_allow_list(), line@) == Verdict::Admitted),
{
    let list = default_allowed_commands();
    validate_line(&list, line) == Verdict::Admitted
}

} // verus!
