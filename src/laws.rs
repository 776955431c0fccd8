use vstd::prelude::*;
use crate::elevation::{selection, ElevationFlags, ElevationMethod, ExecError, Platform};
use crate::guard::{
    all_targets_safe, has_target, is_flag, is_removal, is_safe_target, verdict_of, Rejection,
    Verdict,
};
use crate::policy::permits;
use crate::request::{preparation, ExecuteCommandArgs, request_args};
use crate::elevation::arg_list;

verus! {

/// A program that the allow-list does not permit is refused as not allowed,
/// and a request for it yields no process to start.
pub proof fn lemma_unlisted_is_refused(
    list: Seq<Seq<char>>,
    req: ExecuteCommandArgs,
    platform: Platform,
    already_elevated: bool,
    interactive_available: bool,
)
    requires
        !permits(list, req.command@),
    ensures
        verdict_of(list, req.command@, arg_list(request_args(req))) == Verdict::Rejected(Rejection::NotAllowed),
        preparation(list, req, platform, already_elevated, interactive_available) == Err::<
            (crate::elevation::InvocationView, Seq<char>, Seq<char>),
            ExecError,
        >(ExecError::NotAllowed),
{
}

/// A permitted removal that names no target, only flags or nothing at all,
/// is refused as unsafe.
pub proof fn lemma_removal_without_target_is_refused(
    list: Seq<Seq<char>>,
    command: Seq<char>,
    args: Seq<Seq<char>>,
)
    requires
        permits(list, command),
        is_removal(command),
        forall|i: int| 0 <= i < args.len() ==> is_flag(args[i]),
    ensures
        verdict_of(list, command, args) == Verdict::Rejected(Rejection::UnsafeTarget),
{
}

/// A permitted removal whose targets all lie under a safe root, without
/// `..`, is admitted.
pub proof fn lemma_safe_removal_is_admitted(
    list: Seq<Seq<char>>,
    command: Seq<char>,
    args: Seq<Seq<char>>,
)
    requires
        permits(list, command),
        is_removal(command),
        has_target(args),
        forall|i: int| 0 <= i < args.len() && !is_flag(args[i]) ==> is_safe_target(args[i]),
    ensures
        verdict_of(list, command, args) == Verdict::Admitted,
{
}

/// One unsafe target refuses the whole removal, whatever the other targets
/// are; where the program is permitted, the refusal is for the target.
pub proof fn lemma_one_unsafe_target_refuses_all(
    list: Seq<Seq<char>>,
    command: Seq<char>,
    args: Seq<Seq<char>>,
    k: int,
)
    requires
        is_removal(command),
        0 <= k < args.len(),
        !is_flag(args[k]),
        !is_safe_target(args[k]),
    ensures
        verdict_of(list, command, args) != Verdict::Admitted,
        permits(list, command) ==> verdict_of(list, command, args) == Verdict::Rejected(Rejection::UnsafeTarget),
{
    assert(!all_targets_safe(args));
}

/// Validation depends on its inputs alone: equal inputs give equal verdicts,
/// on any number of calls.
pub proof fn lemma_validation_is_repeatable(
    list: Seq<Seq<char>>,
    command: Seq<char>,
    args: Seq<Seq<char>>,
    list2: Seq<Seq<char>>,
    command2: Seq<char>,
    args2: Seq<Seq<char>>,
)
    requires
        list == list2,
        command == command2,
        args == args2,
    ensures
        verdict_of(list, command, args) == verdict_of(list2, command2, args2),
{
}

/// A process that is already elevated runs every command unprivileged,
/// whatever the request's flags, platform or helpers.
pub proof fn lemma_elevated_process_is_not_elevated_again(
    flags: ElevationFlags,
    platform: Platform,
    interactive_available: bool,
)
    ensures
        selection(flags, platform, true, interactive_available) == Ok::<ElevationMethod, ExecError>(
            ElevationMethod::Unprivileged,
        ),
{
}

} // verus!
