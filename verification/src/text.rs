//! Verified text helpers: substring search, cutting a string at a separator,
//! trimming whitespace, and stripping filesystem-unsafe characters.

use vstd::prelude::*;
use vstd::string::StrSliceExecFns;
use vstd::string::StringExecFns;

verus! {

/// `sub` occurs in `s` starting at position `i`.
pub open spec fn match_at(s: Seq<char>, sub: Seq<char>, i: int) -> bool {
    0 <= i && i + sub.len() <= s.len() && s.subrange(i, i + sub.len() as int) == sub
}

/// `sub` occurs somewhere in `s`.
pub open spec fn has_substring(s: Seq<char>, sub: Seq<char>) -> bool {
    exists|i: int| match_at(s, sub, i)
}

/// `sub` occurs at `i` and nowhere earlier.
pub open spec fn first_match_at(s: Seq<char>, sub: Seq<char>, i: int) -> bool {
    match_at(s, sub, i) && (forall|j: int| 0 <= j < i ==> !match_at(s, sub, j))
}

/// Whether `sub` occurs in `s` starting at position `i`.
pub fn matches_at(s: &str, sub: &str, i: usize) -> (r: bool)
    requires
        i + sub@.len() <= s@.len(),
        s@.len() <= usize::MAX,
    ensures
        r == match_at(s@, sub@, i as int),
{
    let m = sub.unicode_len();
    let mut j: usize = 0;
    while j < m
        invariant
            j <= m,
            m == sub@.len(),
            i + m <= s@.len() <= usize::MAX,
            forall|k: int| 0 <= k < j ==> s@[i + k] == sub@[k],
        decreases m - j,
    {
        if s.get_char(i + j) != sub.get_char(j) {
            proof {
                assert(s@.subrange(i as int, i + sub@.len()) != sub@) by {
                    assert(s@.subrange(i as int, i + sub@.len())[j as int] == s@[i + j]);
                }
            }
            return false;
        }
        j += 1;
    }
    proof {
        assert(s@.subrange(i as int, i + sub@.len()) =~= sub@);
    }
    true
}

/// The position of the first occurrence of `sub` in `s`, if any.
pub fn find_substring(s: &str, sub: &str) -> (r: Option<usize>)
    ensures
        match r {
            Some(i) => first_match_at(s@, sub@, i as int),
            None => !has_substring(s@, sub@),
        },
{
    let n = s.unicode_len();
    let m = sub.unicode_len();
    if m > n {
        return None;
    }
    if m == 0 {
        proof {
            assert(s@.subrange(0, 0) =~= sub@);
        }
        return Some(0);
    }
    let mut i: usize = 0;
    while i <= n - m
        invariant
            1 <= m <= n,
            n == s@.len(),
            m == sub@.len(),
            i <= n - m + 1,
            forall|j: int| 0 <= j < i ==> !match_at(s@, sub@, j),
        decreases n + 1 - i,
    {
        if matches_at(s, sub, i) {
            return Some(i);
        }
        i += 1;
    }
    None
}

/// Whether `sub` occurs in `s`.
pub fn contains_sub(s: &str, sub: &str) -> (r: bool)
    ensures
        r == has_substring(s@, sub@),
{
    find_substring(s, sub).is_some()
}

/// The prefix of `s` that comes before the first occurrence of `c`
/// (all of `s` when `c` does not occur).
pub open spec fn take_until(s: Seq<char>, c: char) -> Seq<char>
    decreases s.len(),
{
    if s.len() == 0 {
        Seq::<char>::empty()
    } else if s[0] == c {
        Seq::<char>::empty()
    } else {
        seq![s[0]] + take_until(s.drop_first(), c)
    }
}

proof fn lemma_take_until_step(s: Seq<char>, c: char, i: int)
    requires
        0 <= i < s.len(),
        s[i] != c,
        take_until(s, c) == s.subrange(0, i) + take_until(s.skip(i), c),
    ensures
        take_until(s, c) == s.subrange(0, i + 1) + take_until(s.skip(i + 1), c),
{
    let t = s.skip(i);
    assert(t[0] == s[i]);
    assert(t.drop_first() =~= s.skip(i + 1));
    assert(take_until(t, c) == seq![s[i]] + take_until(s.skip(i + 1), c));
    assert(s.subrange(0, i) + seq![s[i]] =~= s.subrange(0, i + 1));
    assert(s.subrange(0, i) + (seq![s[i]] + take_until(s.skip(i + 1), c)) =~= (s.subrange(
        0,
        i,
    ) + seq![s[i]]) + take_until(s.skip(i + 1), c));
}

/// Copy of the prefix of `s` that comes before the first occurrence of `c`.
pub fn take_until_char(s: &str, c: char) -> (r: String)
    ensures
        r@ == take_until(s@, c),
{
    let n = s.unicode_len();
    let mut i: usize = 0;
    proof {
        assert(s@.subrange(0, 0) + take_until(s@.skip(0), c) =~= take_until(s@.skip(0), c));
        assert(s@.skip(0) =~= s@);
    }
    while i < n && s.get_char(i) != c
        invariant
            i <= n,
            n == s@.len(),
            take_until(s@, c) == s@.subrange(0, i as int) + take_until(s@.skip(i as int), c),
        decreases n - i,
    {
        proof {
            lemma_take_until_step(s@, c, i as int);
        }
        i += 1;
    }
    proof {
        if i < n {
            assert(s@.skip(i as int)[0] == c);
            assert(take_until(s@.skip(i as int), c) == Seq::<char>::empty());
        } else {
            assert(s@.skip(i as int) =~= Seq::<char>::empty());
        }
        assert(take_until(s@, c) =~= s@.subrange(0, i as int));
    }
    s.substring_char(0, i).to_owned()
}

/// ASCII whitespace, as stripped from the edges of a title.
pub open spec fn is_space(c: char) -> bool {
    c == ' ' || c == '\t' || c == '\n' || c == '\r'
}

/// Exec mirror of [`is_space`].
pub fn is_space_char(c: char) -> (r: bool)
    ensures
        r == is_space(c),
{
    c == ' ' || c == '\t' || c == '\n' || c == '\r'
}

/// `s` without its leading whitespace.
pub open spec fn trim_start(s: Seq<char>) -> Seq<char>
    decreases s.len(),
{
    if s.len() > 0 && is_space(s[0]) {
        trim_start(s.drop_first())
    } else {
        s
    }
}

/// `s` without its trailing whitespace.
pub open spec fn trim_end(s: Seq<char>) -> Seq<char>
    decreases s.len(),
{
    if s.len() > 0 && is_space(s.last()) {
        trim_end(s.drop_last())
    } else {
        s
    }
}

/// `s` without leading and trailing whitespace.
pub open spec fn spec_trim(s: Seq<char>) -> Seq<char> {
    trim_end(trim_start(s))
}

/// Copy of `s` without leading and trailing ASCII whitespace.
pub fn trim(s: &str) -> (r: String)
    ensures
        r@ == spec_trim(s@),
{
    let n = s.unicode_len();
    let mut a: usize = 0;
    proof {
        assert(s@.skip(0) =~= s@);
    }
    while a < n && is_space_char(s.get_char(a))
        invariant
            a <= n,
            n == s@.len(),
            trim_start(s@) == trim_start(s@.skip(a as int)),
        decreases n - a,
    {
        proof {
            let t = s@.skip(a as int);
            assert(t[0] == s@[a as int]);
            assert(t.drop_first() =~= s@.skip(a + 1));
        }
        a += 1;
    }
    proof {
        if a < n {
            assert(s@.skip(a as int)[0] == s@[a as int]);
        } else {
            assert(s@.skip(a as int) =~= Seq::<char>::empty());
        }
        assert(trim_start(s@) == s@.skip(a as int));
    }
    let mut b: usize = n;
    proof {
        assert(s@.skip(a as int) =~= s@.subrange(a as int, b as int));
    }
    while b > a && is_space_char(s.get_char(b - 1))
        invariant
            a <= b <= n,
            n == s@.len(),
            trim_start(s@) == s@.skip(a as int),
            trim_end(s@.skip(a as int)) == trim_end(s@.subrange(a as int, b as int)),
        decreases b,
    {
        proof {
            let t = s@.subrange(a as int, b as int);
            assert(t.last() == s@[b - 1]);
            assert(t.drop_last() =~= s@.subrange(a as int, b - 1));
        }
        b -= 1;
    }
    proof {
        let t = s@.subrange(a as int, b as int);
        if b > a {
            assert(t.last() == s@[b - 1]);
        } else {
            assert(t =~= Seq::<char>::empty());
        }
        assert(trim_end(t) == t);
    }
    s.substring_char(a, b).to_owned()
}

/// Characters stripped from a title when building a file name.
pub open spec fn is_forbidden(c: char) -> bool {
    c == '|' || c == '\'' || c == '"' || c == ':' || c == '\\' || c == '/' || c == '?' || c == '*'
}

/// Exec mirror of [`is_forbidden`].
pub fn is_forbidden_char(c: char) -> (r: bool)
    ensures
        r == is_forbidden(c),
{
    c == '|' || c == '\'' || c == '"' || c == ':' || c == '\\' || c == '/' || c == '?' || c == '*'
}

/// `s` with every forbidden character removed.
pub open spec fn strip_forbidden(s: Seq<char>) -> Seq<char>
    decreases s.len(),
{
    if s.len() == 0 {
        Seq::<char>::empty()
    } else if is_forbidden(s[0]) {
        strip_forbidden(s.drop_first())
    } else {
        seq![s[0]] + strip_forbidden(s.drop_first())
    }
}

/// No forbidden character survives a strip.
pub proof fn lemma_strip_no_forbidden(s: Seq<char>)
    ensures
        forall|i: int|
            0 <= i < strip_forbidden(s).len() ==> !is_forbidden(#[trigger] strip_forbidden(s)[i]),
    decreases s.len(),
{
    if s.len() > 0 {
        lemma_strip_no_forbidden(s.drop_first());
        if !is_forbidden(s[0]) {
            assert forall|i: int|
                0 <= i < strip_forbidden(s).len() implies !is_forbidden(
                #[trigger] strip_forbidden(s)[i],
            ) by {
                if i > 0 {
                    assert(strip_forbidden(s)[i] == strip_forbidden(s.drop_first())[i - 1]);
                }
            }
        }
    }
}

/// Stripping a string that holds no forbidden character leaves it unchanged.
pub proof fn lemma_strip_identity(s: Seq<char>)
    requires
        forall|i: int| 0 <= i < s.len() ==> !is_forbidden(#[trigger] s[i]),
    ensures
        strip_forbidden(s) == s,
    decreases s.len(),
{
    if s.len() > 0 {
        assert(forall|i: int|
            0 <= i < s.drop_first().len() ==> s.drop_first()[i] == s[i + 1]);
        lemma_strip_identity(s.drop_first());
        assert(seq![s[0]] + s.drop_first() =~= s);
    } else {
        assert(strip_forbidden(s) =~= s);
    }
}

/// Copy of `s` with every forbidden character removed.
pub fn strip_forbidden_chars(s: &str) -> (r: String)
    ensures
        r@ == strip_forbidden(s@),
{
    let n = s.unicode_len();
    let mut out = String::new();
    let mut i: usize = 0;
    proof {
        assert(s@.skip(0) =~= s@);
        assert(out@ + strip_forbidden(s@) =~= strip_forbidden(s@));
    }
    while i < n
        invariant
            i <= n,
            n == s@.len(),
            out@ + strip_forbidden(s@.skip(i as int)) == strip_forbidden(s@),
        decreases n - i,
    {
        let ghost t = s@.skip(i as int);
        proof {
            assert(t[0] == s@[i as int]);
            assert(t.drop_first() =~= s@.skip(i + 1));
        }
        let c = s.get_char(i);
        if !is_forbidden_char(c) {
            let piece = s.substring_char(i, i + 1);
            proof {
                assert(piece@ =~= seq![s@[i as int]]);
            }
            out.append(piece);
            proof {
                assert(strip_forbidden(t) == seq![s@[i as int]] + strip_forbidden(s@.skip(i + 1)));
                assert(out@ + strip_forbidden(s@.skip(i + 1)) =~= strip_forbidden(s@));
            }
        } else {
            proof {
                assert(strip_forbidden(t) == strip_forbidden(s@.skip(i + 1)));
            }
        }
        i += 1;
    }
    proof {
        assert(s@.skip(n as int) =~= Seq::<char>::empty());
        assert(out@ =~= strip_forbidden(s@));
    }
    out
}

} // verus!
