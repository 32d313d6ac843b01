//! Small verified text helpers: prefix/suffix tests, single-character
//! search and replacement, and appending one character to a `String`.

use vstd::prelude::*;

verus! {

/// Relies on `String::push` of std: it appends exactly the given character.
pub assume_specification[ String::push ](s: &mut String, ch: char)
    ensures
        final(s)@ == old(s)@.push(ch),
;

/// `s` begins with `pre`.
pub open spec fn seq_starts_with(s: Seq<char>, pre: Seq<char>) -> bool {
    s.len() >= pre.len() && s.subrange(0, pre.len() as int) == pre
}

/// `s` ends with `post`.
pub open spec fn seq_ends_with(s: Seq<char>, post: Seq<char>) -> bool {
    s.len() >= post.len() && s.subrange(s.len() - post.len(), s.len() as int) == post
}

/// Every occurrence of `from` in `s` replaced by `to`.
pub open spec fn replace_char_seq(s: Seq<char>, from: char, to: char) -> Seq<char> {
    s.map_values(|c: char| if c == from { to } else { c })
}

/// Whether `s` begins with `pre`, compared character by character.
pub fn starts_with_str(s: &str, pre: &str) -> (r: bool)
    ensures
        r == seq_starts_with(s@, pre@),
{
    let n: usize = s.unicode_len();
    let m: usize = pre.unicode_len();
    if m > n {
        return false;
    }
    let mut i: usize = 0;
    while i < m
        invariant
            n == s@.len(),
            m == pre@.len(),
            m <= n,
            i <= m,
            forall|j: int| 0 <= j < i ==> s@[j] == pre@[j],
        decreases m - i,
    {
        if s.get_char(i) != pre.get_char(i) {
            assert(s@.subrange(0, m as int)[i as int] != pre@[i as int]);
            return false;
        }
        i = i + 1;
    }
    proof {
        assert(s@.subrange(0, m as int) =~= pre@);
    }
    true
}

/// Whether `s` ends with `post`, compared character by character.
pub fn ends_with_str(s: &str, post: &str) -> (r: bool)
    ensures
        r == seq_ends_with(s@, post@),
{
    let n: usize = s.unicode_len();
    let m: usize = post.unicode_len();
    if m > n {
        return false;
    }
    let off: usize = n - m;
    let mut i: usize = 0;
    while i < m
        invariant
            n == s@.len(),
            m == post@.len(),
            m <= n,
            off == n - m,
            i <= m,
            forall|j: int| 0 <= j < i ==> s@[off + j] == post@[j],
        decreases m - i,
    {
        if s.get_char(off + i) != post.get_char(i) {
            assert(s@.subrange(n - m, n as int)[i as int] != post@[i as int]);
            return false;
        }
        i = i + 1;
    }
    proof {
        assert(s@.subrange(n - m, n as int) =~= post@);
    }
    true
}

/// The character for one decimal digit.
pub open spec fn digit_char(d: nat) -> char {
    if d == 0 {
        '0'
    } else if d == 1 {
        '1'
    } else if d == 2 {
        '2'
    } else if d == 3 {
        '3'
    } else if d == 4 {
        '4'
    } else if d == 5 {
        '5'
    } else if d == 6 {
        '6'
    } else if d == 7 {
        '7'
    } else if d == 8 {
        '8'
    } else {
        '9'
    }
}

/// The decimal digits of `n`, most significant first.
pub open spec fn dec_seq(n: nat) -> Seq<char>
    decreases n,
{
    if n < 10 {
        seq![digit_char(n)]
    } else {
        dec_seq(n / 10).push(digit_char(n % 10))
    }
}

/// The decimal text of `v`, with a leading minus sign when it is negative.
pub open spec fn int_dec_seq(v: int) -> Seq<char> {
    if v < 0 {
        seq!['-'] + dec_seq((-v) as nat)
    } else {
        dec_seq(v as nat)
    }
}

fn digit_char_of(d: u64) -> (c: char)
    requires
        d < 10,
    ensures
        c == digit_char(d as nat),
{
    if d == 0 {
        '0'
    } else if d == 1 {
        '1'
    } else if d == 2 {
        '2'
    } else if d == 3 {
        '3'
    } else if d == 4 {
        '4'
    } else if d == 5 {
        '5'
    } else if d == 6 {
        '6'
    } else if d == 7 {
        '7'
    } else if d == 8 {
        '8'
    } else {
        '9'
    }
}

fn push_dec(s: &mut String, n: u64)
    ensures
        final(s)@ == old(s)@ + dec_seq(n as nat),
    decreases n,
{
    if n < 10 {
        s.push(digit_char_of(n));
        proof {
            assert(s@ =~= old(s)@ + dec_seq(n as nat));
        }
    } else {
        push_dec(s, n / 10);
        s.push(digit_char_of(n % 10));
        proof {
            assert(s@ =~= old(s)@ + dec_seq(n as nat));
        }
    }
}

/// The decimal text of `v`.
pub fn i32_to_string(v: i32) -> (r: String)
    ensures
        r@ == int_dec_seq(v as int),
{
    let mut s = String::new();
    if v < 0 {
        s.push('-');
        let m: u64 = (-(v as i64)) as u64;
        push_dec(&mut s, m);
        proof {
            assert(s@ =~= int_dec_seq(v as int));
        }
    } else {
        push_dec(&mut s, v as u64);
    }
    s
}

/// Whether two string slices hold the same characters.
pub fn str_eq(a: &str, b: &str) -> (r: bool)
    ensures
        r == (a@ == b@),
{
    let n: usize = a.unicode_len();
    let m: usize = b.unicode_len();
    if n != m {
        return false;
    }
    let r = starts_with_str(a, b);
    proof {
        if r {
            assert(a@.subrange(0, m as int) =~= a@);
        } else {
            assert(seq_starts_with(a@, a@)) by {
                assert(a@.subrange(0, a@.len() as int) =~= a@);
            }
        }
    }
    r
}

/// The position of the first occurrence of `c` in `s`.
pub open spec fn first_index_of(s: Seq<char>, c: char) -> Option<int>
    decreases s.len(),
{
    if s.len() == 0 {
        None
    } else if s[0] == c {
        Some(0)
    } else {
        match first_index_of(s.drop_first(), c) {
            Some(i) => Some(i + 1),
            None => None,
        }
    }
}

/// What `first_index_of` finds: the position it reports holds `c` and no
/// earlier one does; it reports none exactly when `c` does not occur.
pub proof fn lemma_first_index_of(s: Seq<char>, c: char)
    ensures
        match first_index_of(s, c) {
            Some(i) => 0 <= i < s.len() && s[i] == c && forall|j: int| 0 <= j < i ==> s[j] != c,
            None => forall|j: int| 0 <= j < s.len() ==> s[j] != c,
        },
    decreases s.len(),
{
    if s.len() > 0 && s[0] != c {
        lemma_first_index_of(s.drop_first(), c);
        assert forall|j: int| 0 <= j < s.len() implies (s[j] == c <==> (j >= 1
            && s.drop_first()[j - 1] == c)) by {
            if j >= 1 {
                assert(s.drop_first()[j - 1] == s[j]);
            }
        }
    }
}

/// The text before and after the first occurrence of `c` in `s`, when `c`
/// occurs at all.
pub open spec fn split_at_first(s: Seq<char>, c: char) -> Option<(Seq<char>, Seq<char>)> {
    match first_index_of(s, c) {
        None => None,
        Some(i) => Some((s.take(i), s.skip(i + 1))),
    }
}

/// The first position of `c` in `s`, if any.
pub fn find_char(s: &str, c: char) -> (r: Option<usize>)
    ensures
        match r {
            Some(i) => i < s@.len() && s@[i as int] == c && (forall|j: int|
                0 <= j < i ==> s@[j] != c) && first_index_of(s@, c) == Some(i as int),
            None => (forall|j: int| 0 <= j < s@.len() ==> s@[j] != c) && first_index_of(s@, c)
                is None,
        },
{
    let n: usize = s.unicode_len();
    let mut i: usize = 0;
    while i < n
        invariant
            n == s@.len(),
            i <= n,
            forall|j: int| 0 <= j < i ==> s@[j] != c,
        decreases n - i,
    {
        if s.get_char(i) == c {
            proof {
                lemma_first_index_of(s@, c);
                let fi = first_index_of(s@, c);
                if fi is Some {
                    let k = fi->0;
                    assert(s@[k] == c);
                    assert(!(k < i));
                    assert(!(i < k)) by {
                        assert(s@[i as int] == c);
                    }
                } else {
                    assert(s@[i as int] == c);
                }
            }
            return Some(i);
        }
        i = i + 1;
    }
    proof {
        lemma_first_index_of(s@, c);
        let fi = first_index_of(s@, c);
        if fi is Some {
            let k = fi->0;
            assert(s@[k] == c);
        }
    }
    None
}

/// A copy of `s` with every occurrence of `from` replaced by `to`.
pub fn replace_char(s: &str, from: char, to: char) -> (r: String)
    ensures
        r@ == replace_char_seq(s@, from, to),
{
    let n: usize = s.unicode_len();
    let mut r = String::new();
    let mut i: usize = 0;
    while i < n
        invariant
            n == s@.len(),
            i <= n,
            r@ == replace_char_seq(s@.take(i as int), from, to),
        decreases n - i,
    {
        let c = s.get_char(i);
        if c == from {
            r.push(to);
        } else {
            r.push(c);
        }
        proof {
            assert(r@ =~= replace_char_seq(s@.take(i + 1), from, to));
        }
        i = i + 1;
    }
    proof {
        assert(s@.take(n as int) =~= s@);
    }
    r
}

} // verus!
