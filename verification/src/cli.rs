//! Reading algorithm flags from text, and sorting newline-separated text.
use vstd::prelude::*;
use crate::api::{is_natsorted, natsorted_alg};
use crate::ns::{Ns, default_ns, real_ns};
use crate::text::{chars_of, push_char, string_from_chars};

verus! {

/// Two texts are equal.
pub fn str_equal(a: &str, b: &str) -> (r: bool)
    ensures
        r == (a@ == b@),
{
    let x = chars_of(a);
    let y = chars_of(b);
    if x.len() != y.len() {
        return false;
    }
    let mut i: usize = 0;
    while i < x.len()
        invariant
            i <= x.len(),
            x.len() == y.len(),
            x@ == a@,
            y@ == b@,
            forall|j: int| 0 <= j < i ==> x@[j] == y@[j],
        decreases x.len() - i,
    {
        if x[i] != y[i] {
            return false;
        }
        i = i + 1;
    }
    assert(x@ =~= y@);
    true
}

/// The flags after reading one command-line argument: `--real` selects the
/// real algorithm afresh, the other known flags switch one flag on, and any
/// other argument changes nothing.
pub open spec fn with_arg(alg: Ns, a: Seq<char>) -> Ns {
    if a == "--real"@ {
        real_ns()
    } else if a == "--signed"@ {
        Ns { signed: true, ..alg }
    } else if a == "--float"@ {
        Ns { float: true, ..alg }
    } else if a == "--ignorecase"@ {
        Ns { ignorecase: true, ..alg }
    } else if a == "--lowercasefirst"@ {
        Ns { lowercasefirst: true, ..alg }
    } else if a == "--groupletters"@ {
        Ns { groupletters: true, ..alg }
    } else {
        alg
    }
}

/// The flags the arguments select, read from first to last.
pub open spec fn args_alg(args: Seq<Seq<char>>) -> Ns
    decreases args.len(),
{
    if args.len() == 0 {
        default_ns()
    } else {
        with_arg(args_alg(args.drop_last()), args.last())
    }
}

/// The flags after reading one comma-separated flag name.
pub open spec fn with_name(alg: Ns, a: Seq<char>) -> Ns {
    if a == "real"@ {
        real_ns()
    } else if a == "signed"@ {
        Ns { signed: true, ..alg }
    } else if a == "float"@ {
        Ns { float: true, ..alg }
    } else if a == "ignorecase"@ {
        Ns { ignorecase: true, ..alg }
    } else if a == "lowercasefirst"@ {
        Ns { lowercasefirst: true, ..alg }
    } else if a == "groupletters"@ {
        Ns { groupletters: true, ..alg }
    } else {
        alg
    }
}

/// The flags the names select, read from first to last.
pub open spec fn names_alg(names: Seq<Seq<char>>) -> Ns
    decreases names.len(),
{
    if names.len() == 0 {
        default_ns()
    } else {
        with_name(names_alg(names.drop_last()), names.last())
    }
}

/// The pieces of `s` between occurrences of `sep` (as `str::split`).
pub open spec fn split_on(s: Seq<char>, sep: char) -> Seq<Seq<char>>
    decreases s.len(),
{
    if s.len() == 0 {
        seq![Seq::empty()]
    } else {
        let rest = split_on(s.drop_last(), sep);
        if s.last() == sep {
            rest.push(Seq::empty())
        } else {
            rest.update(rest.len() - 1, rest.last().push(s.last()))
        }
    }
}

proof fn lemma_split_on_nonempty(s: Seq<char>, sep: char)
    ensures
        split_on(s, sep).len() >= 1,
    decreases s.len(),
{
    if s.len() > 0 {
        lemma_split_on_nonempty(s.drop_last(), sep);
    }
}

/// The flags a command-line argument list selects.
pub fn parse_alg(args: &[String]) -> (r: Ns)
    ensures
        r == args_alg(args@.map_values(|a: String| a@)),
{
    let mut alg = Ns::default();
    let mut i: usize = 0;
    while i < args.len()
        invariant
            i <= args.len(),
            alg == args_alg(args@.map_values(|a: String| a@).take(i as int)),
        decreases args.len() - i,
    {
        let a = args[i].as_str();
        let ghost before = alg;
        if str_equal(a, "--real") {
            alg = Ns::real_flags();
        } else if str_equal(a, "--signed") {
            alg.signed = true;
        } else if str_equal(a, "--float") {
            alg.float = true;
        } else if str_equal(a, "--ignorecase") {
            alg.ignorecase = true;
        } else if str_equal(a, "--lowercasefirst") {
            alg.lowercasefirst = true;
        } else if str_equal(a, "--groupletters") {
            alg.groupletters = true;
        }
        proof {
            let all = args@.map_values(|a: String| a@);
            assert(all.take(i + 1).drop_last() =~= all.take(i as int));
            assert(all.take(i + 1).last() == args@[i as int]@);
            assert(alg == with_arg(before, args@[i as int]@));
        }
        i = i + 1;
    }
    assert(args@.map_values(|a: String| a@).take(args.len() as int) =~= args@.map_values(|a: String| a@));
    alg
}

/// Applies one flag name.
fn apply_name(alg: Ns, name: &Vec<char>) -> (r: Ns)
    ensures
        r == with_name(alg, name@),
{
    let s = string_from_chars(name);
    let a = s.as_str();
    let mut out = alg;
    if str_equal(a, "real") {
        out = Ns::real_flags();
    } else if str_equal(a, "signed") {
        out.signed = true;
    } else if str_equal(a, "float") {
        out.float = true;
    } else if str_equal(a, "ignorecase") {
        out.ignorecase = true;
    } else if str_equal(a, "lowercasefirst") {
        out.lowercasefirst = true;
    } else if str_equal(a, "groupletters") {
        out.groupletters = true;
    }
    out
}

/// The flags a comma-separated list of flag names selects.
pub fn alg_from_spec(flags: &str) -> (r: Ns)
    ensures
        r == names_alg(split_on(flags@, ',')),
{
    let cs = chars_of(flags);
    let mut alg = Ns::default();
    let mut piece: Vec<char> = Vec::new();
    let ghost mut done: Seq<Seq<char>> = Seq::empty();
    let mut i: usize = 0;
    while i < cs.len()
        invariant
            i <= cs.len(),
            cs@ == flags@,
            split_on(cs@.take(i as int), ',') == done.push(piece@),
            alg == names_alg(done),
        decreases cs.len() - i,
    {
        let c = cs[i];
        proof {
            assert(cs@.take(i + 1).drop_last() =~= cs@.take(i as int));
            assert(cs@.take(i + 1).last() == c);
        }
        if c == ',' {
            alg = apply_name(alg, &piece);
            proof {
                assert(done.push(piece@).drop_last() =~= done);
                done = done.push(piece@);
            }
            piece = Vec::new();
        } else {
            let ghost op = piece@;
            piece.push(c);
            proof {
                assert(done.push(op).update(done.len() as int, op.push(c)) =~= done.push(piece@));
            }
        }
        i = i + 1;
    }
    alg = apply_name(alg, &piece);
    proof {
        assert(cs@.take(cs.len() as int) =~= cs@);
        assert(done.push(piece@).drop_last() =~= done);
    }
    alg
}

/// The algorithm a wasm caller names: one of `real`, `signed`, `float`,
/// `ignorecase`, `lowercasefirst`, `groupletters`, else the default.
pub open spec fn named_alg(name: Seq<char>) -> Ns {
    if name == "real"@ {
        real_ns()
    } else if name == "signed"@ {
        Ns { signed: true, ..default_ns() }
    } else if name == "float"@ {
        Ns { float: true, ..default_ns() }
    } else if name == "ignorecase"@ {
        Ns { ignorecase: true, ..default_ns() }
    } else if name == "lowercasefirst"@ {
        Ns { lowercasefirst: true, ..default_ns() }
    } else if name == "groupletters"@ {
        Ns { groupletters: true, ..default_ns() }
    } else {
        default_ns()
    }
}

/// The algorithm `name` names.
pub fn alg_from_str(name: &str) -> (r: Ns)
    ensures
        r == named_alg(name@),
{
    if str_equal(name, "real") {
        Ns::real_flags()
    } else if str_equal(name, "signed") {
        Ns { signed: true, ..Ns::default() }
    } else if str_equal(name, "float") {
        Ns { float: true, ..Ns::default() }
    } else if str_equal(name, "ignorecase") {
        Ns { ignorecase: true, ..Ns::default() }
    } else if str_equal(name, "lowercasefirst") {
        Ns { lowercasefirst: true, ..Ns::default() }
    } else if str_equal(name, "groupletters") {
        Ns { groupletters: true, ..Ns::default() }
    } else {
        Ns::default()
    }
}

/// A line without the carriage return that ends it, if any.
pub open spec fn strip_cr(l: Seq<char>) -> Seq<char> {
    if l.len() > 0 && l.last() == '\r' { l.drop_last() } else { l }
}

/// The lines of `s` (as `str::lines`): split at `\n`, a `\r` right before a
/// `\n` dropped, and no empty last line after a final `\n`.
pub open spec fn lines_of(s: Seq<char>) -> Seq<Seq<char>> {
    let p = split_on(s, '\n');
    let body = p.drop_last().map_values(|l: Seq<char>| strip_cr(l));
    if p.last().len() == 0 { body } else { body.push(p.last()) }
}

/// The lines joined with `\n` between them.
pub open spec fn join_lines(ls: Seq<Seq<char>>) -> Seq<char>
    decreases ls.len(),
{
    if ls.len() == 0 {
        Seq::empty()
    } else if ls.len() == 1 {
        ls[0]
    } else {
        join_lines(ls.drop_last()) + seq!['\n'] + ls.last()
    }
}

pub open spec fn views(ss: Seq<String>) -> Seq<Seq<char>> {
    ss.map_values(|x: String| x@)
}

/// The lines of `input`.
fn split_lines(input: &str) -> (r: Vec<String>)
    ensures
        views(r@) == lines_of(input@),
{
    let cs = chars_of(input);
    let mut lines: Vec<String> = Vec::new();
    let mut piece: Vec<char> = Vec::new();
    let mut i: usize = 0;
    proof {
        assert(cs@.take(0) =~= Seq::<char>::empty());
        assert(views(lines@) =~= split_on(cs@.take(0), '\n').drop_last().map_values(|l: Seq<char>| strip_cr(l)));
    }
    while i < cs.len()
        invariant
            i <= cs.len(),
            cs@ == input@,
            split_on(cs@.take(i as int), '\n').len() >= 1,
            views(lines@) == split_on(cs@.take(i as int), '\n').drop_last().map_values(|l: Seq<char>| strip_cr(l)),
            piece@ == split_on(cs@.take(i as int), '\n').last(),
        decreases cs.len() - i,
    {
        let c = cs[i];
        let ghost p0 = split_on(cs@.take(i as int), '\n');
        proof {
            assert(cs@.take(i + 1).drop_last() =~= cs@.take(i as int));
            assert(cs@.take(i + 1).last() == c);
        }
        if c == '\n' {
            let mut line = piece;
            if line.len() > 0 && line[line.len() - 1] == '\r' {
                line.pop();
            }
            assert(line@ == strip_cr(p0.last()));
            let ghost old_lines = lines@;
            lines.push(string_from_chars(&line));
            piece = Vec::new();
            proof {
                let p1 = split_on(cs@.take(i + 1), '\n');
                assert(p1 == p0.push(Seq::empty()));
                assert(p1.drop_last() =~= p0);
                assert(p0 =~= p0.drop_last().push(p0.last()));
                assert(views(lines@) =~= views(old_lines).push(line@));
                assert(p0.map_values(|l: Seq<char>| strip_cr(l)) =~= p0.drop_last().map_values(|l: Seq<char>| strip_cr(l)).push(strip_cr(p0.last())));
            }
        } else {
            piece.push(c);
            proof {
                let p1 = split_on(cs@.take(i + 1), '\n');
                assert(p1 == p0.update(p0.len() - 1, p0.last().push(c)));
                assert(p1.drop_last() =~= p0.drop_last());
            }
        }
        i = i + 1;
    }
    proof {
        assert(cs@.take(cs.len() as int) =~= cs@);
    }
    if piece.len() > 0 {
        let ghost old_lines = lines@;
        lines.push(string_from_chars(&piece));
        assert(views(lines@) =~= views(old_lines).push(piece@));
    }
    lines
}

/// `lines` joined with `\n` between them.
fn join_with_newlines(lines: &Vec<String>) -> (r: String)
    ensures
        r@ == join_lines(views(lines@)),
{
    let mut out = String::new();
    let mut k: usize = 0;
    while k < lines.len()
        invariant
            k <= lines.len(),
            out@ == join_lines(views(lines@).take(k as int)),
        decreases lines.len() - k,
    {
        let ghost before = out@;
        if k > 0 {
            push_char(&mut out, '\n');
        }
        let cs = chars_of(lines[k].as_str());
        let mut j: usize = 0;
        let ghost mid = out@;
        while j < cs.len()
            invariant
                j <= cs.len(),
                out@ == mid + cs@.take(j as int),
            decreases cs.len() - j,
        {
            push_char(&mut out, cs[j]);
            j = j + 1;
            assert(out@ =~= mid + cs@.take(j as int));
        }
        proof {
            assert(cs@.take(cs.len() as int) =~= cs@);
            let vs = views(lines@);
            assert(vs.take(k + 1).drop_last() =~= vs.take(k as int));
            assert(vs.take(k + 1).last() == lines@[k as int]@);
            if k == 0 {
                assert(vs.take(1) =~= seq![lines@[0]@]);
                assert(out@ =~= lines@[0]@);
            } else {
                assert(out@ =~= before + seq!['\n'] + lines@[k as int]@);
            }
        }
        k = k + 1;
    }
    assert(views(lines@).take(lines.len() as int) =~= views(lines@));
    out
}

/// Sorts the lines of `input` naturally under the algorithm `alg` names, and
/// joins them with `\n`.
pub fn sort_lines(input: &str, alg: &str) -> (r: String)
    ensures
        exists|items: Seq<String>, s: Seq<String>|
            views(items) == lines_of(input@) && is_natsorted(items, named_alg(alg@), s) && r@ == join_lines(views(s)),
{
    let items = split_lines(input);
    let sorted = natsorted_alg(items.as_slice(), alg_from_str(alg));
    let r = join_with_newlines(&sorted);
    assert(views(items@) == lines_of(input@) && is_natsorted(items@, named_alg(alg@), sorted@) && r@ == join_lines(views(sorted@)));
    r
}

} // verus!
