//! Argument-list building shared by the tool-invocation builders: repeated
//! flag/value pairs, conditional flags, optional flag/value pairs,
//! `prefix<key>=<value>` arguments, and comma-joining.

use vstd::prelude::*;

verus! {

/// `flag v` for each value in order: `flag v1 flag v2 …`.
pub open spec fn pair_args(flag: Seq<char>, ps: Seq<Seq<char>>) -> Seq<Seq<char>>
    decreases ps.len(),
{
    if ps.len() == 0 {
        Seq::empty()
    } else {
        pair_args(flag, ps.drop_last()).push(flag).push(ps.last())
    }
}

/// `flag` when the condition holds, nothing otherwise.
pub open spec fn flag_if(flag: Seq<char>, cond: bool) -> Seq<Seq<char>> {
    if cond {
        seq![flag]
    } else {
        Seq::empty()
    }
}

/// `flag value` when a value is present, nothing otherwise.
pub open spec fn opt_arg(flag: Seq<char>, o: Option<String>) -> Seq<Seq<char>> {
    match o {
        Some(v) => seq![flag, v@],
        None => Seq::empty(),
    }
}

/// One `prefix<key>=<value>` argument per pair, in order.
pub open spec fn kv_args(prefix: Seq<char>, ps: Seq<(String, String)>) -> Seq<Seq<char>>
    decreases ps.len(),
{
    if ps.len() == 0 {
        Seq::empty()
    } else {
        kv_args(prefix, ps.drop_last()).push(prefix + ps.last().0@ + "="@ + ps.last().1@)
    }
}

/// The values joined by the separator: empty for none, the single value
/// alone, otherwise each further value after one separator.
pub open spec fn join_with(ps: Seq<Seq<char>>, sep: char) -> Seq<char>
    decreases ps.len(),
{
    if ps.len() == 0 {
        Seq::empty()
    } else if ps.len() == 1 {
        ps[0]
    } else {
        join_with(ps.drop_last(), sep).push(sep) + ps.last()
    }
}

/// Append `flag v` for each value.
pub fn push_pair_args(args: &mut Vec<String>, flag: &str, ps: &Vec<String>)
    ensures
        final(args).deep_view() == old(args).deep_view() + pair_args(flag@, ps.deep_view()),
{
    let ghost base = args.deep_view();
    let n = ps.len();
    let mut i: usize = 0;
    proof {
        assert(ps.deep_view().take(0) =~= Seq::<Seq<char>>::empty());
        assert(args.deep_view() =~= base + pair_args(flag@, ps.deep_view().take(0)));
    }
    while i < n
        invariant
            n == ps@.len(),
            i <= n,
            args.deep_view() == base + pair_args(flag@, ps.deep_view().take(i as int)),
        decreases n - i,
    {
        let ghost pre = args.deep_view();
        args.push(String::from_str(flag));
        args.push(ps[i].clone());
        proof {
            assert(args.deep_view() =~= pre.push(flag@).push(ps@[i as int]@));
            assert(ps.deep_view().take(i + 1).drop_last() =~= ps.deep_view().take(i as int));
            assert(ps.deep_view().take(i + 1).last() == ps@[i as int]@);
            assert(args.deep_view() =~= base + pair_args(flag@, ps.deep_view().take(i + 1)));
        }
        i = i + 1;
    }
    proof {
        assert(ps.deep_view().take(n as int) =~= ps.deep_view());
    }
}

/// Append `flag` when the condition holds.
pub fn push_flag_if(args: &mut Vec<String>, flag: &str, cond: bool)
    ensures
        final(args).deep_view() == old(args).deep_view() + flag_if(flag@, cond),
{
    if cond {
        args.push(String::from_str(flag));
    }
    proof {
        assert(args.deep_view() =~= old(args).deep_view() + flag_if(flag@, cond));
    }
}

/// Append `flag value` when a value is present.
pub fn push_opt_arg(args: &mut Vec<String>, flag: &str, o: &Option<String>)
    ensures
        final(args).deep_view() == old(args).deep_view() + opt_arg(flag@, *o),
{
    if let Some(v) = o {
        args.push(String::from_str(flag));
        args.push(v.clone());
    }
    proof {
        assert(args.deep_view() =~= old(args).deep_view() + opt_arg(flag@, *o));
    }
}

/// Append one `prefix<key>=<value>` argument per pair.
pub fn push_kv_args(args: &mut Vec<String>, prefix: &str, ps: &Vec<(String, String)>)
    ensures
        final(args).deep_view() == old(args).deep_view() + kv_args(prefix@, ps@),
{
    let ghost base = args.deep_view();
    let n = ps.len();
    let mut i: usize = 0;
    proof {
        assert(ps@.take(0) =~= Seq::<(String, String)>::empty());
        assert(args.deep_view() =~= base + kv_args(prefix@, ps@.take(0)));
    }
    while i < n
        invariant
            n == ps@.len(),
            i <= n,
            args.deep_view() == base + kv_args(prefix@, ps@.take(i as int)),
        decreases n - i,
    {
        let mut a = String::from_str(prefix);
        a.append(ps[i].0.as_str());
        a.append("=");
        a.append(ps[i].1.as_str());
        let ghost pre = args.deep_view();
        args.push(a);
        proof {
            assert(args.deep_view() =~= pre.push(prefix@ + ps@[i as int].0@ + "="@ + ps@[i as int].1@));
            assert(ps@.take(i + 1).drop_last() =~= ps@.take(i as int));
            assert(args.deep_view() =~= base + kv_args(prefix@, ps@.take(i + 1)));
        }
        i = i + 1;
    }
    proof {
        assert(ps@.take(n as int) =~= ps@);
    }
}

/// Append every value as its own argument.
pub fn push_all(args: &mut Vec<String>, ps: &Vec<String>)
    ensures
        final(args).deep_view() == old(args).deep_view() + ps.deep_view(),
{
    let ghost base = args.deep_view();
    let n = ps.len();
    let mut i: usize = 0;
    while i < n
        invariant
            n == ps@.len(),
            i <= n,
            args.deep_view() == base + ps.deep_view().take(i as int),
        decreases n - i,
    {
        let ghost pre = args.deep_view();
        args.push(ps[i].clone());
        proof {
            assert(args.deep_view() =~= pre.push(ps@[i as int]@));
            assert(ps.deep_view().take(i + 1).drop_last() =~= ps.deep_view().take(i as int));
            assert(args.deep_view() =~= base + ps.deep_view().take(i + 1));
        }
        i = i + 1;
    }
    proof {
        assert(ps.deep_view().take(n as int) =~= ps.deep_view());
    }
}

/// Join the values with the separator between them.
pub fn join_with_char(ps: &Vec<String>, sep: char) -> (r: String)
    ensures
        r@ == join_with(ps.deep_view(), sep),
{
    let mut r = String::new();
    let n = ps.len();
    let mut i: usize = 0;
    while i < n
        invariant
            n == ps@.len(),
            i <= n,
            r@ == join_with(ps.deep_view().take(i as int), sep),
        decreases n - i,
    {
        if i > 0 {
            r.push(sep);
        }
        let p = &ps[i];
        r.append(p.as_str());
        proof {
            assert(ps.deep_view().take(i + 1).drop_last() =~= ps.deep_view().take(i as int));
            assert(ps.deep_view().take(i + 1).last() == ps@[i as int]@);
            if i == 0 {
                assert(r@ =~= join_with(ps.deep_view().take(i + 1), sep));
            } else {
                assert(r@ =~= join_with(ps.deep_view().take(i + 1), sep));
            }
        }
        i = i + 1;
    }
    proof {
        assert(ps.deep_view().take(n as int) =~= ps.deep_view());
    }
    r
}

} // verus!
