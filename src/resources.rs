use vstd::prelude::*;
use crate::cmdline::{join, joined};
use crate::elevation::{plain, Invocation, InvocationView};
use crate::text::{chars_of, same_text};

verus! {

/// The host descriptions that can be read by URI.
#[derive(Clone, Copy, Debug, PartialEq, Eq, Structural)]
pub enum ResourceKind {
    /// The latest system journal entries.
    SystemLogs,
    /// The latest entries of the SSH service.
    AuthLogs,
    /// The network interfaces and addresses.
    NetworkConfig,
    /// The processes that use the most memory.
    TopProcesses,
    /// Processor, memory and uptime figures.
    SystemStatus,
}

/// The resource that a URI names.
pub open spec fn kind_of(uri: Seq<char>) -> Option<ResourceKind> {
    if uri == "linux://logs/system"@ {
        Some(ResourceKind::SystemLogs)
    } else if uri == "linux://logs/auth"@ {
        Some(ResourceKind::AuthLogs)
    } else if uri == "linux://config/network"@ {
        Some(ResourceKind::NetworkConfig)
    } else if uri == "linux://processes/top"@ {
        Some(ResourceKind::TopProcesses)
    } else if uri == "linux://system/status"@ {
        Some(ResourceKind::SystemStatus)
    } else {
        None
    }
}

/// The resource that `uri` names, if any.
pub fn resource_kind(uri: &str) -> (r: Option<ResourceKind>)
    ensures
        r == kind_of(uri@),
{
    if same_text(uri, "linux://logs/system") {
        Some(ResourceKind::SystemLogs)
    } else if same_text(uri, "linux://logs/auth") {
        Some(ResourceKind::AuthLogs)
    } else if same_text(uri, "linux://config/network") {
        Some(ResourceKind::NetworkConfig)
    } else if same_text(uri, "linux://processes/top") {
        Some(ResourceKind::TopProcesses)
    } else if same_text(uri, "linux://system/status") {
        Some(ResourceKind::SystemStatus)
    } else {
        None
    }
}

/// The command whose output a resource shows; the status figures come from
/// the host's counters instead.
pub open spec fn query_of(kind: ResourceKind) -> Option<InvocationView> {
    match kind {
        ResourceKind::SystemLogs => Some(plain("journalctl"@, seq!["-n"@, "100"@, "--no-pager"@])),
        ResourceKind::AuthLogs => Some(plain("journalctl"@, seq!["-u"@, "ssh"@, "-n"@, "50"@, "--no-pager"@])),
        ResourceKind::NetworkConfig => Some(plain("ip"@, seq!["addr"@, "show"@])),
        ResourceKind::TopProcesses => Some(plain("ps"@, seq!["aux"@, "--sort=-%mem"@])),
        ResourceKind::SystemStatus => None,
    }
}

fn plain_invocation(program: &str, args: Vec<String>) -> (r: Invocation)
    ensures
        r@ == plain(program@, args.deep_view()),
{
    let r = Invocation { program: String::from_str(program), args, input: None, forward_env: Vec::new(), hide_window: false };
    assert(r@.forward_env =~= Seq::<Seq<char>>::empty());
    r
}

/// The process whose output a resource shows.
pub fn resource_query(kind: ResourceKind) -> (r: Option<Invocation>)
    ensures
        match r {
            Some(i) => query_of(kind) == Some(i@),
            None => query_of(kind) is None,
        },
{
    match kind {
        ResourceKind::SystemLogs => {
            let a = vec![String::from_str("-n"), String::from_str("100"), String::from_str("--no-pager")];
            assert(a.deep_view() =~= seq!["-n"@, "100"@, "--no-pager"@]);
            Some(plain_invocation("journalctl", a))
        },
        ResourceKind::AuthLogs => {
            let a = vec![
                String::from_str("-u"), String::from_str("ssh"), String::from_str("-n"),
                String::from_str("50"), String::from_str("--no-pager"),
            ];
            assert(a.deep_view() =~= seq!["-u"@, "ssh"@, "-n"@, "50"@, "--no-pager"@]);
            Some(plain_invocation("journalctl", a))
        },
        ResourceKind::NetworkConfig => {
            let a = vec![String::from_str("addr"), String::from_str("show")];
            assert(a.deep_view() =~= seq!["addr"@, "show"@]);
            Some(plain_invocation("ip", a))
        },
        ResourceKind::TopProcesses => {
            let a = vec![String::from_str("aux"), String::from_str("--sort=-%mem")];
            assert(a.deep_view() =~= seq!["aux"@, "--sort=-%mem"@]);
            Some(plain_invocation("ps", a))
        },
        ResourceKind::SystemStatus => None,
    }
}

/// The pieces of `s` between line feeds; one more than there are line feeds.
pub open spec fn pieces(s: Seq<char>) -> Seq<Seq<char>>
    decreases s.len(),
{
    if s.len() == 0 {
        seq![Seq::empty()]
    } else {
        let p = pieces(s.drop_last());
        if s.last() == '\n' {
            p.push(Seq::empty())
        } else {
            p.drop_last().push(p.last().push(s.last()))
        }
    }
}

/// A line without the carriage return that ended it.
pub open spec fn strip_cr(l: Seq<char>) -> Seq<char> {
    if l.len() > 0 && l.last() == '\r' {
        l.drop_last()
    } else {
        l
    }
}

/// The lines of `s`: each line ends at a line feed, or at `\r\n`, which is
/// not part of it; the last line needs no ending, and a text that ends with
/// a line feed has no empty line after it.
pub open spec fn text_lines(s: Seq<char>) -> Seq<Seq<char>> {
    let p = pieces(s);
    let ended = Seq::new((p.len() - 1) as nat, |i: int| strip_cr(p[i]));
    if p.last().len() == 0 {
        ended
    } else {
        ended.push(p.last())
    }
}

/// The first `n` lines of `s` joined by line feeds, when `s` has more than
/// `n` lines; `s` itself otherwise.
pub open spec fn first_lines(s: Seq<char>, n: nat) -> Seq<char> {
    let l = text_lines(s);
    if l.len() > n {
        joined(l.take(n as int), "\n"@)
    } else {
        s
    }
}

fn pieces_of(s: &str) -> (r: Vec<String>)
    ensures
        r.deep_view() == pieces(s@),
        r.len() >= 1,
{
    let x = chars_of(s);
    let mut done: Vec<String> = Vec::new();
    let mut start: usize = 0;
    let mut i: usize = 0;
    assert(s@.subrange(0, 0) =~= Seq::<char>::empty());
    assert(done.deep_view().push(s@.subrange(0, 0)) =~= seq![Seq::<char>::empty()]);
    while i < x.len()
        invariant
            x@ == s@,
            start <= i <= x.len(),
            pieces(s@.subrange(0, i as int)) == done.deep_view().push(s@.subrange(start as int, i as int)),
        decreases x.len() - i,
    {
        let ghost d0 = done.deep_view();
        assert(s@.subrange(0, i + 1).drop_last() =~= s@.subrange(0, i as int));
        if x[i] == '\n' {
            done.push(String::from_str(s.substring_char(start, i)));
            assert(done.deep_view() =~= d0.push(s@.subrange(start as int, i as int)));
            start = i + 1;
            assert(s@.subrange(start as int, i + 1) =~= Seq::<char>::empty());
        } else {
            assert(s@.subrange(start as int, i + 1) =~= s@.subrange(start as int, i as int).push(x@[i as int]));
            assert(d0.push(s@.subrange(start as int, i as int)).drop_last() =~= d0);
        }
        i = i + 1;
    }
    assert(s@.subrange(0, x.len() as int) =~= s@);
    let ghost d0 = done.deep_view();
    done.push(String::from_str(s.substring_char(start, x.len())));
    assert(done.deep_view() =~= d0.push(s@.subrange(start as int, x.len() as int)));
    done
}

fn without_cr(l: &str) -> (r: String)
    ensures
        r@ == strip_cr(l@),
{
    let n = l.unicode_len();
    if n > 0 && l.get_char(n - 1) == '\r' {
        String::from_str(l.substring_char(0, n - 1))
    } else {
        String::from_str(l)
    }
}

/// The lines of `s`, as `str::lines` gives them.
pub fn lines_of(s: &str) -> (r: Vec<String>)
    ensures
        r.deep_view() == text_lines(s@),
{
    let p = pieces_of(s);
    let ghost pv = p.deep_view();
    let last = p.len() - 1;
    let mut r: Vec<String> = Vec::new();
    let mut i: usize = 0;
    while i < last
        invariant
            pv == p.deep_view(),
            last == p.len() - 1,
            i <= last,
            r.deep_view() == Seq::new(i as nat, |j: int| strip_cr(pv[j])),
        decreases last - i,
    {
        let ghost r0 = r.deep_view();
        let item = without_cr(p[i].as_str());
        assert(item@ == strip_cr(pv[i as int]));
        r.push(item);
        assert(r.deep_view() =~= r0.push(item@));
        assert(r.deep_view() =~= Seq::new((i + 1) as nat, |j: int| strip_cr(pv[j])));
        i = i + 1;
    }
    if p[last].unicode_len() > 0 {
        let ghost r0 = r.deep_view();
        r.push(p[last].clone());
        assert(r.deep_view() =~= r0.push(pv.last()));
    }
    r
}

/// The first `n` lines of `s`, when it has more; all of `s` otherwise.
pub fn head_lines(s: &str, n: usize) -> (r: String)
    ensures
        r@ == first_lines(s@, n as nat),
{
    let l = lines_of(s);
    if l.len() > n {
        let ghost lv = l.deep_view();
        let mut kept: Vec<String> = Vec::new();
        let mut i: usize = 0;
        while i < n
            invariant
                lv == l.deep_view(),
                n < l.len(),
                i <= n,
                kept.deep_view() == lv.take(i as int),
            decreases n - i,
        {
            let ghost k0 = kept.deep_view();
            kept.push(l[i].clone());
            assert(kept.deep_view() =~= k0.push(lv[i as int]));
            assert(kept.deep_view() =~= lv.take(i + 1));
            i = i + 1;
        }
        join(&kept, "\n")
    } else {
        String::from_str(s)
    }
}

} // verus!
