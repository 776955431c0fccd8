use vstd::prelude::*;
use crate::text::chars_of;

verus! {

/// The texts of `ws` with `sep` between each two.
pub open spec fn joined(ws: Seq<Seq<char>>, sep: Seq<char>) -> Seq<char>
    decreases ws.len(),
{
    if ws.len() == 0 {
        Seq::empty()
    } else if ws.len() == 1 {
        ws[0]
    } else {
        joined(ws.drop_last(), sep) + sep + ws.last()
    }
}

/// The view of an optional argument list.
pub open spec fn args_view(args: Option<&Vec<String>>) -> Option<Seq<Seq<char>>> {
    match args {
        Some(v) => Some(v.deep_view()),
        None => None,
    }
}

/// The program followed by a space and its arguments separated by spaces;
/// the program alone when no argument list is given.
pub open spec fn command_line(command: Seq<char>, args: Option<Seq<Seq<char>>>) -> Seq<char> {
    match args {
        Some(a) => command + " "@ + joined(a, " "@),
        None => command,
    }
}

/// `s` with each single quote written twice.
pub open spec fn doubled_quotes(s: Seq<char>) -> Seq<char>
    decreases s.len(),
{
    if s.len() == 0 {
        Seq::empty()
    } else if s.last() == '\'' {
        doubled_quotes(s.drop_last()) + "''"@
    } else {
        doubled_quotes(s.drop_last()).push(s.last())
    }
}

/// `s` as a single-quoted PowerShell literal.
pub open spec fn quoted(s: Seq<char>) -> Seq<char> {
    "'"@ + doubled_quotes(s) + "'"@
}

/// Each text of `ws` quoted.
pub open spec fn all_quoted(ws: Seq<Seq<char>>) -> Seq<Seq<char>> {
    Seq::new(ws.len(), |i: int| quoted(ws[i]))
}

/// The PowerShell argument list for `args`: the quoted arguments separated by
/// commas, or an empty literal when no argument list is given.
pub open spec fn powershell_arg_list(args: Option<Seq<Seq<char>>>) -> Seq<char> {
    match args {
        Some(a) => joined(all_quoted(a), ","@),
        None => "''"@,
    }
}

/// Joins `parts` with `sep` between each two.
pub fn join(parts: &Vec<String>, sep: &str) -> (r: String)
    ensures
        r@ == joined(parts.deep_view(), sep@),
{
    let ghost ws = parts.deep_view();
    let mut r = String::new();
    let mut i: usize = 0;
    while i < parts.len()
        invariant
            ws == parts.deep_view(),
            i <= parts.len(),
            r@ == joined(ws.subrange(0, i as int), sep@),
        decreases parts.len() - i,
    {
        assert(ws.subrange(0, i + 1).drop_last() =~= ws.subrange(0, i as int));
        if i > 0 {
            r.append(sep);
        } else {
            assert(r@ =~= Seq::<char>::empty());
        }
        r.append(parts[i].as_str());
        i = i + 1;
        assert(r@ =~= joined(ws.subrange(0, i as int), sep@));
    }
    assert(ws.subrange(0, parts.len() as int) =~= ws);
    r
}

/// Rebuilds a readable command line from the program and its arguments.
pub fn build_command_line(command: &str, args: Option<&Vec<String>>) -> (r: String)
    ensures
        r@ == command_line(command@, args_view(args)),
{
    match args {
        Some(v) => {
            let mut r = String::from_str(command);
            r.append(" ");
            let tail = join(v, " ");
            r.append(tail.as_str());
            r
        },
        None => String::from_str(command),
    }
}

/// `s` as a single-quoted PowerShell literal, inner quotes doubled.
pub fn quote_powershell(s: &str) -> (r: String)
    ensures
        r@ == quoted(s@),
{
    let x = chars_of(s);
    let mut body = String::new();
    let mut i: usize = 0;
    while i < x.len()
        invariant
            x@ == s@,
            i <= x.len(),
            body@ == doubled_quotes(s@.subrange(0, i as int)),
        decreases x.len() - i,
    {
        assert(s@.subrange(0, i + 1).drop_last() =~= s@.subrange(0, i as int));
        if x[i] == '\'' {
            body.append("''");
        } else {
            let piece = s.substring_char(i, i + 1);
            assert(piece@ =~= seq![x@[i as int]]);
            body.append(piece);
        }
        i = i + 1;
        assert(body@ =~= doubled_quotes(s@.subrange(0, i as int)));
    }
    assert(s@.subrange(0, x.len() as int) =~= s@);
    let mut r = String::from_str("'");
    r.append(body.as_str());
    r.append("'");
    r
}

/// The argument list handed to PowerShell's `Start-Process`.
pub fn escape_powershell_args(args: Option<&Vec<String>>) -> (r: String)
    ensures
        r@ == powershell_arg_list(args_view(args)),
{
    match args {
        Some(v) => {
            let ghost a = v.deep_view();
            let mut q: Vec<String> = Vec::new();
            let mut i: usize = 0;
            while i < v.len()
                invariant
                    a == v.deep_view(),
                    i <= v.len(),
                    q.deep_view() == all_quoted(a.subrange(0, i as int)),
                decreases v.len() - i,
            {
                let ghost q0 = q.deep_view();
                let item = quote_powershell(v[i].as_str());
                assert(item@ == quoted(a[i as int]));
                q.push(item);
                assert(q.deep_view() =~= q0.push(item@));
                assert(all_quoted(a.subrange(0, i + 1)) =~= all_quoted(a.subrange(0, i as int)).push(quoted(a[i as int])));
                i = i + 1;
            }
            assert(a.subrange(0, v.len() as int) =~= a);
            join(&q, ",")
        },
        None => String::from_str("''"),
    }
}

} // verus!
