//! Character-level string helpers shared by the other modules.
use vstd::prelude::*;

verus! {

/// Whether `s` holds the character `c` anywhere.
pub fn has_char(s: &str, c: char) -> (r: bool)
    ensures
        r == s@.contains(c),
{
    let n = s.unicode_len();
    let mut i: usize = 0;
    while i < n
        invariant
            n == s@.len(),
            i <= n,
            forall|j: int| 0 <= j < i ==> s@[j] != c,
        decreases n - i,
    {
        if s.get_char(i) == c {
            return true;
        }
        i = i + 1;
    }
    false
}

/// Character-wise equality of two string slices.
pub fn str_eq(a: &str, b: &str) -> (r: bool)
    ensures
        r == (a@ == b@),
{
    let n = a.unicode_len();
    if n != b.unicode_len() {
        return false;
    }
    let mut i: usize = 0;
    while i < n
        invariant
            n == a@.len(),
            n == b@.len(),
            i <= n,
            forall|j: int| 0 <= j < i ==> a@[j] == b@[j],
        decreases n - i,
    {
        if a.get_char(i) != b.get_char(i) {
            return false;
        }
        i = i + 1;
    }
    assert(a@ =~= b@);
    true
}

} // verus!

verus! {

/// Position of the first line feed in `t`, or its length when there is none.
pub open spec fn newline_pos(t: Seq<char>) -> int
    decreases t.len(),
{
    if t.len() == 0 {
        0
    } else if t[0] == '\n' {
        0
    } else {
        1 + newline_pos(t.drop_first())
    }
}

/// The first line of `t` as `str::lines` yields it: the text before the first
/// line feed, without a carriage return just before that line feed; the whole
/// text when it holds no line feed.
pub open spec fn first_line(t: Seq<char>) -> Seq<char> {
    let k = newline_pos(t);
    if k < t.len() {
        let l = t.take(k);
        if l.len() > 0 && l.last() == '\r' {
            l.drop_last()
        } else {
            l
        }
    } else {
        t
    }
}

proof fn lemma_newline_pos(t: Seq<char>)
    ensures
        0 <= newline_pos(t) <= t.len(),
        forall|i: int| 0 <= i < newline_pos(t) ==> t[i] != '\n',
        newline_pos(t) < t.len() ==> t[newline_pos(t)] == '\n',
    decreases t.len(),
{
    if t.len() > 0 && t[0] != '\n' {
        lemma_newline_pos(t.drop_first());
        assert forall|i: int| 0 <= i < newline_pos(t) implies t[i] != '\n' by {
            if i > 0 {
                assert(t[i] == t.drop_first()[i - 1]);
            }
        }
        if newline_pos(t) < t.len() {
            assert(t[newline_pos(t)] == t.drop_first()[newline_pos(t) - 1]);
        }
    }
}

proof fn lemma_newline_pos_unique(t: Seq<char>, k: int)
    requires
        0 <= k <= t.len(),
        forall|i: int| 0 <= i < k ==> t[i] != '\n',
        k < t.len() ==> t[k] == '\n',
    ensures
        newline_pos(t) == k,
    decreases t.len(),
{
    if t.len() > 0 && k > 0 {
        assert forall|i: int| 0 <= i < k - 1 implies t.drop_first()[i] != '\n' by {
            assert(t.drop_first()[i] == t[i + 1]);
        }
        if k - 1 < t.len() - 1 {
            assert(t.drop_first()[k - 1] == t[k]);
        }
        lemma_newline_pos_unique(t.drop_first(), k - 1);
    }
}

/// The first line of `s` (see `first_line`).
pub fn first_line_of(s: &str) -> (r: &str)
    ensures
        r@ == first_line(s@),
{
    let n = s.unicode_len();
    let mut k: usize = 0;
    while k < n
        invariant
            n == s@.len(),
            k <= n,
            forall|i: int| 0 <= i < k ==> s@[i] != '\n',
        ensures
            k <= n,
            forall|i: int| 0 <= i < k ==> s@[i] != '\n',
            k < n ==> s@[k as int] == '\n',
        decreases n - k,
    {
        if s.get_char(k) == '\n' {
            break;
        }
        k = k + 1;
    }
    proof {
        lemma_newline_pos_unique(s@, k as int);
    }
    if k == n {
        return s;
    }
    if k > 0 && s.get_char(k - 1) == '\r' {
        s.substring_char(0, k - 1)
    } else {
        s.substring_char(0, k)
    }
}

/// At most the first `n` characters of `t`.
pub open spec fn take_chars(t: Seq<char>, n: nat) -> Seq<char> {
    if t.len() <= n {
        t
    } else {
        t.take(n as int)
    }
}

/// The first `n` characters of `s` (all of `s` when it is shorter).
pub fn take_chars_of(s: &str, n: usize) -> (r: &str)
    ensures
        r@ == take_chars(s@, n as nat),
{
    let len = s.unicode_len();
    if len <= n {
        s
    } else {
        s.substring_char(0, n)
    }
}

/// Decimal digit character of `d` (`0 <= d < 10`).
pub open spec fn digit_char(d: int) -> char {
    if d == 0 { '0' }
    else if d == 1 { '1' }
    else if d == 2 { '2' }
    else if d == 3 { '3' }
    else if d == 4 { '4' }
    else if d == 5 { '5' }
    else if d == 6 { '6' }
    else if d == 7 { '7' }
    else if d == 8 { '8' }
    else { '9' }
}

/// Decimal notation of a natural number, without leading zeros.
pub open spec fn decimal(n: nat) -> Seq<char>
    decreases n,
{
    if n < 10 {
        seq![digit_char(n as int)]
    } else {
        decimal(n / 10) + seq![digit_char((n % 10) as int)]
    }
}

/// Decimal notation of an integer, with a leading '-' when negative.
pub open spec fn signed_decimal(v: int) -> Seq<char> {
    if v < 0 {
        seq!['-'] + decimal((-v) as nat)
    } else {
        decimal(v as nat)
    }
}

fn digit_str(d: u64) -> (r: &'static str)
    requires
        d < 10,
    ensures
        r@ == seq![digit_char(d as int)],
{
    proof {
        reveal_strlit("0");
        reveal_strlit("1");
        reveal_strlit("2");
        reveal_strlit("3");
        reveal_strlit("4");
        reveal_strlit("5");
        reveal_strlit("6");
        reveal_strlit("7");
        reveal_strlit("8");
        reveal_strlit("9");
    }
    let r = match d {
        0 => "0",
        1 => "1",
        2 => "2",
        3 => "3",
        4 => "4",
        5 => "5",
        6 => "6",
        7 => "7",
        8 => "8",
        _ => "9",
    };
    assert(r@ =~= seq![digit_char(d as int)]);
    r
}

/// Appends the decimal notation of `n` to `out`.
pub fn push_decimal(out: &mut String, n: u64)
    ensures
        final(out)@ == old(out)@ + decimal(n as nat),
    decreases n,
{
    if n >= 10 {
        push_decimal(out, n / 10);
    }
    out.append(digit_str(n % 10));
    proof {
        if n >= 10 {
            assert(old(out)@ + decimal((n / 10) as nat) + seq![digit_char((n % 10) as int)]
                =~= old(out)@ + decimal(n as nat));
        } else {
            assert(n % 10 == n);
        }
    }
}

/// Appends the decimal notation of `v`, with a '-' when negative.
pub fn push_signed_decimal(out: &mut String, v: i64)
    ensures
        final(out)@ == old(out)@ + signed_decimal(v as int),
{
    proof {
        reveal_strlit("-");
    }
    if v < 0 {
        out.append("-");
        let m: u64 = (0 - (v as i128)) as u64;
        push_decimal(out, m);
        assert(old(out)@ + seq!['-'] + decimal(m as nat) =~= old(out)@ + signed_decimal(v as int));
    } else {
        push_decimal(out, v as u64);
    }
}

} // verus!

verus! {

/// Whether `needle` occurs in `hay` starting at position `i`.
pub open spec fn occurs_at(hay: Seq<char>, needle: Seq<char>, i: int) -> bool {
    0 <= i && i + needle.len() <= hay.len() && hay.subrange(i, i + needle.len()) == needle
}

/// Whether `needle` occurs anywhere in `hay`.
pub open spec fn contains_seq(hay: Seq<char>, needle: Seq<char>) -> bool {
    exists|i: int| occurs_at(hay, needle, i)
}

/// Substring test, as `str::contains` with a string pattern.
pub fn contains_str(hay: &str, needle: &str) -> (r: bool)
    ensures
        r == contains_seq(hay@, needle@),
{
    let n = hay.unicode_len();
    let m = needle.unicode_len();
    if m > n {
        assert(forall|i: int| !occurs_at(hay@, needle@, i));
        return false;
    }
    let mut i: usize = 0;
    while i <= n - m
        invariant
            n == hay@.len(),
            m == needle@.len(),
            m <= n,
            i <= n - m + 1,
            forall|k: int| 0 <= k < i ==> !occurs_at(hay@, needle@, k),
        decreases n - m + 1 - i,
    {
        let mut j: usize = 0;
        let mut ok = true;
        while j < m
            invariant
                n == hay@.len(),
                m == needle@.len(),
                i + m <= n,
                j <= m,
                ok ==> forall|q: int| 0 <= q < j ==> hay@[i + q] == needle@[q],
                !ok ==> exists|q: int| 0 <= q < m && hay@[i + q] != needle@[q],
            decreases m - j,
        {
            if hay.get_char(i + j) != needle.get_char(j) {
                ok = false;
            }
            j = j + 1;
        }
        if ok {
            assert(hay@.subrange(i as int, i + m) =~= needle@);
            assert(occurs_at(hay@, needle@, i as int));
            return true;
        }
        proof {
            let q = choose|q: int| 0 <= q < m && hay@[i + q] != needle@[q];
            if occurs_at(hay@, needle@, i as int) {
                assert(hay@.subrange(i as int, i + m)[q] == hay@[i + q]);
            }
        }
        i = i + 1;
    }
    proof {
        assert forall|k: int| !occurs_at(hay@, needle@, k) by {
            if 0 <= k < i {
            }
        }
    }
    false
}

/// Concatenation helper: `a` followed by `b`.
pub fn concat2(a: &str, b: &str) -> (r: String)
    ensures
        r@ == a@ + b@,
{
    let mut s = String::from_str(a);
    s.append(b);
    s
}

/// Whether `needle` occurs in `hay` at character position `i`.
pub fn occurs_at_pos(hay: &str, needle: &str, i: usize) -> (r: bool)
    ensures
        r == occurs_at(hay@, needle@, i as int),
{
    let n = hay.unicode_len();
    let m = needle.unicode_len();
    if i > n || m > n - i {
        return false;
    }
    let mut j: usize = 0;
    while j < m
        invariant
            n == hay@.len(),
            m == needle@.len(),
            i + m <= n,
            j <= m,
            forall|q: int| 0 <= q < j ==> hay@[i + q] == needle@[q],
        decreases m - j,
    {
        if hay.get_char(i + j) != needle.get_char(j) {
            proof {
                if occurs_at(hay@, needle@, i as int) {
                    assert(hay@.subrange(i as int, i + m)[j as int] == hay@[i + j]);
                }
            }
            return false;
        }
        j = j + 1;
    }
    assert(hay@.subrange(i as int, i + m) =~= needle@);
    true
}

/// `t` with every occurrence of `pat` replaced by `with`, scanning from the left
/// and resuming after each replaced occurrence, as `str::replace` does.
pub open spec fn replaced(t: Seq<char>, pat: Seq<char>, with: Seq<char>) -> Seq<char>
    decreases t.len(),
{
    if t.len() == 0 || pat.len() == 0 {
        t
    } else if pat.len() <= t.len() && t.take(pat.len() as int) == pat {
        with + replaced(t.skip(pat.len() as int), pat, with)
    } else {
        seq![t[0]] + replaced(t.drop_first(), pat, with)
    }
}

/// Replaces every occurrence of the non-empty pattern `pat` in `hay` by `with`.
pub fn replace_all(hay: &str, pat: &str, with: &str) -> (r: String)
    requires
        pat@.len() > 0,
    ensures
        r@ == replaced(hay@, pat@, with@),
{
    let n = hay.unicode_len();
    let m = pat.unicode_len();
    let mut out = String::new();
    let mut i: usize = 0;
    proof {
        assert(hay@.skip(0) =~= hay@);
        assert(out@ + replaced(hay@, pat@, with@) =~= replaced(hay@, pat@, with@));
    }
    while i < n
        invariant
            n == hay@.len(),
            m == pat@.len(),
            m > 0,
            i <= n,
            out@ + replaced(hay@.skip(i as int), pat@, with@) == replaced(hay@, pat@, with@),
        decreases n - i,
    {
        let ghost rest = hay@.skip(i as int);
        if occurs_at_pos(hay, pat, i) {
            proof {
                assert(rest.take(m as int) =~= hay@.subrange(i as int, i + m));
                assert(rest.skip(m as int) =~= hay@.skip(i + m));
            }
            out.append(with);
            i = i + m;
        } else {
            proof {
                if m <= rest.len() && rest.take(m as int) == pat@ {
                    assert(rest.take(m as int) =~= hay@.subrange(i as int, i + m));
                }
                assert(rest.drop_first() =~= hay@.skip(i + 1));
            }
            out.append(hay.substring_char(i, i + 1));
            proof {
                assert(hay@.subrange(i as int, i + 1) =~= seq![rest[0]]);
            }
            i = i + 1;
        }
        proof {
            assert(out@ + replaced(hay@.skip(i as int), pat@, with@) =~= replaced(hay@, pat@, with@));
        }
    }
    proof {
        assert(hay@.skip(n as int).len() == 0);
        assert(out@ + seq![] =~= out@);
    }
    out
}

} // verus!
