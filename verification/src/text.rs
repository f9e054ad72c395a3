use vstd::prelude::*;
use vstd::string::*;

verus! {

/// `p` occurs in `s` starting at index `i`.
pub open spec fn occurs_at(s: Seq<char>, p: Seq<char>, i: int) -> bool {
    0 <= i && i + p.len() <= s.len() && s.subrange(i, i + p.len()) == p
}

/// `p` occurs somewhere in `s`.
pub open spec fn seq_contains(s: Seq<char>, p: Seq<char>) -> bool {
    exists|i: int| occurs_at(s, p, i)
}

/// `s` begins with `p`.
pub open spec fn seq_starts_with(s: Seq<char>, p: Seq<char>) -> bool {
    occurs_at(s, p, 0)
}

/// `i` is the first index at which `p` occurs in `s`.
pub open spec fn is_first_occurrence(s: Seq<char>, p: Seq<char>, i: int) -> bool {
    occurs_at(s, p, i) && forall|j: int| 0 <= j < i ==> !occurs_at(s, p, j)
}

/// The first index at which `p` occurs in `s`, if any.
pub open spec fn first_occurrence(s: Seq<char>, p: Seq<char>) -> Option<int> {
    if exists|i: int| is_first_occurrence(s, p, i) {
        Some(choose|i: int| is_first_occurrence(s, p, i))
    } else {
        None
    }
}

/// The part of `s` before the first occurrence of `p` (all of `s` without one).
pub open spec fn before_first(s: Seq<char>, p: Seq<char>) -> Seq<char> {
    match first_occurrence(s, p) {
        Some(i) => s.subrange(0, i),
        None => s,
    }
}

/// A first occurrence at `i` is the one `first_occurrence` names.
proof fn lemma_first_occurrence_is(s: Seq<char>, p: Seq<char>, i: int)
    requires
        is_first_occurrence(s, p, i),
    ensures
        first_occurrence(s, p) == Some(i),
{
    let k = choose|k: int| is_first_occurrence(s, p, k);
    assert(is_first_occurrence(s, p, k));
    if k < i {
        assert(!occurs_at(s, p, k));
    } else if i < k {
        assert(!occurs_at(s, p, i));
    }
}

/// Whether `p` occurs in `s` at character index `i`.
pub fn occurs_at_index(s: &str, p: &str, i: usize) -> (r: bool)
    ensures
        r == occurs_at(s@, p@, i as int),
{
    let n = s.unicode_len();
    let m = p.unicode_len();
    if i > n || m > n - i {
        return false;
    }
    let mut k: usize = 0;
    while k < m
        invariant
            n == s@.len(),
            m == p@.len(),
            i + m <= n,
            k <= m,
            forall|j: int| 0 <= j < k ==> s@[i + j] == p@[j],
        decreases m - k,
    {
        if s.get_char(i + k) != p.get_char(k) {
            proof {
                assert(s@.subrange(i as int, i + m)[k as int] != p@[k as int]);
            }
            return false;
        }
        k = k + 1;
    }
    proof {
        assert(s@.subrange(i as int, i + m) =~= p@);
    }
    true
}

/// The first character index at which `p` occurs in `s`.
pub fn find(s: &str, p: &str) -> (r: Option<usize>)
    ensures
        match r {
            Some(i) => first_occurrence(s@, p@) == Some(i as int),
            None => first_occurrence(s@, p@) is None && !seq_contains(s@, p@),
        },
{
    let n = s.unicode_len();
    let mut i: usize = 0;
    while i < n
        invariant
            n == s@.len(),
            i <= n,
            forall|j: int| 0 <= j < i ==> !occurs_at(s@, p@, j),
        decreases n - i,
    {
        if occurs_at_index(s, p, i) {
            proof {
                lemma_first_occurrence_is(s@, p@, i as int);
            }
            return Some(i);
        }
        i = i + 1;
    }
    if occurs_at_index(s, p, n) {
        proof {
            lemma_first_occurrence_is(s@, p@, n as int);
        }
        return Some(n);
    }
    proof {
        assert forall|j: int| !occurs_at(s@, p@, j) by {
            if 0 <= j && j < n {
                assert(!occurs_at(s@, p@, j));
            }
        }
    }
    None
}

/// Whether `p` occurs in `s`.
pub fn contains(s: &str, p: &str) -> (r: bool)
    ensures
        r == seq_contains(s@, p@),
{
    match find(s, p) {
        Some(i) => {
            proof {
                assert(occurs_at(s@, p@, i as int));
            }
            true
        },
        None => false,
    }
}

/// Whether `s` begins with `p`.
pub fn starts_with(s: &str, p: &str) -> (r: bool)
    ensures
        r == seq_starts_with(s@, p@),
{
    occurs_at_index(s, p, 0)
}

/// Whether `a` and `b` hold the same characters.
pub fn str_eq(a: &str, b: &str) -> (r: bool)
    ensures
        r == (a@ == b@),
{
    if a.unicode_len() != b.unicode_len() {
        return false;
    }
    let r = occurs_at_index(a, b, 0);
    proof {
        assert(a@.subrange(0, b@.len() as int) =~= a@);
    }
    r
}

/// A new string holding the characters of `a` followed by those of `b`.
pub fn concat_strs(a: &str, b: &str) -> (r: String)
    ensures
        r@ == a@ + b@,
{
    let mut r = String::from_str(a);
    r.append(b);
    r
}

/// A new string holding the characters of `s`.
pub fn owned(s: &str) -> (r: String)
    ensures
        r@ == s@,
{
    String::from_str(s)
}

} // verus!

verus! {

/// The character of the decimal digit `d`.
pub open spec fn digit_char(d: nat) -> char {
    (('0' as nat) + d) as char
}

/// The decimal digits of `n`, most significant first, without leading zeros.
pub open spec fn decimal(n: nat) -> Seq<char>
    decreases n,
{
    if n < 10 {
        seq![digit_char(n)]
    } else {
        decimal(n / 10).push(digit_char(n % 10))
    }
}

/// Appends the decimal digits of `n` to `s`.
pub fn push_decimal(s: &mut String, n: u32)
    ensures
        final(s)@ == old(s)@ + decimal(n as nat),
    decreases n,
{
    if n >= 10 {
        push_decimal(s, n / 10);
    }
    let digits = "0123456789";
    proof {
        reveal_strlit("0123456789");
    }
    let d = (n % 10) as usize;
    let one = digits.substring_char(d, d + 1);
    proof {
        assert(one@ =~= seq![digit_char(d as nat)]);
    }
    s.append(one);
    proof {
        if n >= 10 {
            assert(decimal(n as nat) == decimal((n / 10) as nat).push(digit_char((n % 10) as nat)));
        }
    }
}

/// The decimal rendering of `n`.
pub fn decimal_string(n: u32) -> (r: String)
    ensures
        r@ == decimal(n as nat),
{
    let mut s = String::new();
    push_decimal(&mut s, n);
    proof {
        assert(s@ =~= decimal(n as nat));
    }
    s
}

} // verus!

verus! {

/// `s` with every occurrence of `p` replaced by `r`, scanning left to right
/// without overlaps (as `str::replace` does for a non-empty pattern).
pub open spec fn replace_all(s: Seq<char>, p: Seq<char>, r: Seq<char>) -> Seq<char>
    decreases s.len(),
{
    if p.len() == 0 {
        s
    } else {
        match first_occurrence(s, p) {
            None => s,
            Some(i) => if 0 <= i && i + p.len() <= s.len() {
                s.subrange(0, i) + r + replace_all(s.subrange(i + p.len(), s.len() as int), p, r)
            } else {
                s
            },
        }
    }
}

/// `s` with every occurrence of the non-empty `p` replaced by `r`.
pub fn replace(s: &str, p: &str, r: &str) -> (out: String)
    requires
        p@.len() > 0,
    ensures
        out@ == replace_all(s@, p@, r@),
{
    let mut out = String::new();
    let mut rest = s;
    let m = p.unicode_len();
    while true
        invariant
            m == p@.len(),
            m > 0,
            out@ + replace_all(rest@, p@, r@) == replace_all(s@, p@, r@),
        decreases rest@.len(),
    {
        match find(rest, p) {
            None => {
                proof {
                    assert(replace_all(rest@, p@, r@) == rest@);
                }
                out.append(rest);
                return out;
            },
            Some(i) => {
                let n = rest.unicode_len();
                proof {
                    assert(occurs_at(rest@, p@, i as int));
                }
                let before = rest.substring_char(0, i);
                let after = rest.substring_char(i + m, n);
                proof {
                    assert(replace_all(rest@, p@, r@) == rest@.subrange(0, i as int) + r@ + replace_all(after@, p@, r@));
                }
                let ghost old_out = out@;
                out.append(before);
                out.append(r);
                proof {
                    assert(out@ == old_out + before@ + r@);
                    assert(out@ + replace_all(after@, p@, r@) =~= old_out + (before@ + r@ + replace_all(after@, p@, r@)));
                }
                rest = after;
            },
        }
    }
    out
}

} // verus!
