//! Character-level string operations with their contracts: equality, prefix
//! tests, lexicographic order, whitespace trimming and concatenation.

use vstd::prelude::*;

verus! {

/// Whether `c` has the Unicode `White_Space` property (PropList.txt): tab
/// to carriage return, space, next line, no-break space, ogham space mark,
/// en quad to hair space, line and paragraph separators, narrow no-break
/// space, medium mathematical space and ideographic space. This is what
/// `char::is_whitespace` tests.
pub open spec fn white_space(c: char) -> bool {
    let u = c as u32;
    (0x09 <= u <= 0x0d) || u == 0x20 || u == 0x85 || u == 0xa0 || u == 0x1680 || (0x2000 <= u
        <= 0x200a) || u == 0x2028 || u == 0x2029 || u == 0x202f || u == 0x205f || u == 0x3000
}

/// Whether `c` is whitespace in the sense of `char::is_whitespace`.
fn char_is_whitespace(c: char) -> (r: bool)
    ensures
        r == white_space(c),
{
    let u = c as u32;
    (0x09 <= u && u <= 0x0d) || u == 0x20 || u == 0x85 || u == 0xa0 || u == 0x1680 || (0x2000
        <= u && u <= 0x200a) || u == 0x2028 || u == 0x2029 || u == 0x202f || u == 0x205f || u
        == 0x3000
}

/// Whether `s` begins with `p`.
pub open spec fn seq_starts_with(s: Seq<char>, p: Seq<char>) -> bool {
    p.len() <= s.len() && s.subrange(0, p.len() as int) == p
}

/// Lexicographic order on character sequences, characters compared by code
/// point: `a` comes before `b` when, after their longest common prefix, `a`
/// ends while `b` goes on, or `a`'s next character is the smaller one. This
/// is the order of `str`'s `<`, since UTF-8 preserves code point order.
pub open spec fn seq_lt(a: Seq<char>, b: Seq<char>) -> bool {
    exists|k: int|
        #![trigger a.subrange(0, k)]
        0 <= k <= a.len() && k <= b.len() && a.subrange(0, k) == b.subrange(0, k) && (
        (k == a.len() && k < b.len()) || (k < a.len() && k < b.len() && (a[k] as u32) < (
        b[k] as u32)))
}

/// Index of the first character of `s` at or after `i` that is not
/// whitespace, or `s.len()` if there is none.
pub open spec fn first_non_ws_from(s: Seq<char>, i: int) -> int
    decreases s.len() - i,
{
    if i >= s.len() || i < 0 {
        s.len() as int
    } else if !white_space(s[i]) {
        i
    } else {
        first_non_ws_from(s, i + 1)
    }
}

/// One past the index of the last character of `s` before `j` that is not
/// whitespace, or 0 if there is none.
pub open spec fn last_non_ws_before(s: Seq<char>, j: int) -> int
    decreases j,
{
    if j <= 0 || j > s.len() {
        0
    } else if !white_space(s[j - 1]) {
        j
    } else {
        last_non_ws_before(s, j - 1)
    }
}

/// `s` with leading and trailing whitespace removed.
pub open spec fn trim_spec(s: Seq<char>) -> Seq<char> {
    let start = first_non_ws_from(s, 0);
    if start == s.len() {
        Seq::empty()
    } else {
        s.subrange(start, last_non_ws_before(s, s.len() as int))
    }
}

/// Whether two strings hold the same characters.
pub fn str_eq(a: &str, b: &str) -> (r: bool)
    ensures
        r == (a@ == b@),
{
    let la = a.unicode_len();
    let lb = b.unicode_len();
    if la != lb {
        return false;
    }
    let mut i: usize = 0;
    while i < la
        invariant
            la == a@.len(),
            lb == b@.len(),
            la == lb,
            i <= la,
            forall|j: int| 0 <= j < i ==> a@[j] == b@[j],
        decreases la - i,
    {
        if a.get_char(i) != b.get_char(i) {
            return false;
        }
        i = i + 1;
    }
    assert(a@ =~= b@);
    true
}

/// Whether `s` begins with `p`.
pub fn starts_with(s: &str, p: &str) -> (r: bool)
    ensures
        r == seq_starts_with(s@, p@),
{
    let ls = s.unicode_len();
    let lp = p.unicode_len();
    if lp > ls {
        return false;
    }
    let mut i: usize = 0;
    while i < lp
        invariant
            ls == s@.len(),
            lp == p@.len(),
            lp <= ls,
            i <= lp,
            forall|j: int| 0 <= j < i ==> s@[j] == p@[j],
        decreases lp - i,
    {
        if s.get_char(i) != p.get_char(i) {
            assert(s@.subrange(0, lp as int)[i as int] != p@[i as int]);
            return false;
        }
        i = i + 1;
    }
    assert(s@.subrange(0, lp as int) =~= p@);
    true
}

/// Whether `a` comes before `b` in lexicographic order (`a < b` on strings).
pub fn str_lt(a: &str, b: &str) -> (r: bool)
    ensures
        r == seq_lt(a@, b@),
{
    let la = a.unicode_len();
    let lb = b.unicode_len();
    let mut i: usize = 0;
    while i < la && i < lb
        invariant
            la == a@.len(),
            lb == b@.len(),
            i <= la,
            i <= lb,
            forall|j: int| 0 <= j < i ==> a@[j] == b@[j],
        decreases la - i,
    {
        let ca = a.get_char(i);
        let cb = b.get_char(i);
        if ca != cb {
            let r = (ca as u32) < (cb as u32);
            proof {
                let ii = i as int;
                assert(a@.subrange(0, ii) =~= b@.subrange(0, ii));
                if !r {
                    assert forall|k: int|
                        0 <= k <= a@.len() && k <= b@.len() && a@.subrange(0, k) == b@.subrange(
                            0,
                            k,
                        ) implies !((k == a@.len() && k < b@.len()) || (k < a@.len() && k
                        < b@.len() && (a@[k] as u32) < (b@[k] as u32))) by {
                        if k > ii {
                            assert(a@.subrange(0, k)[ii] == b@.subrange(0, k)[ii]);
                        } else if k < ii {
                            assert(a@[k] == b@[k]);
                        }
                    }
                }
            }
            return r;
        }
        i = i + 1;
    }
    let r = la < lb;
    proof {
        let ii = i as int;
        assert(a@.subrange(0, ii) =~= b@.subrange(0, ii));
        if !r {
            assert forall|k: int|
                0 <= k <= a@.len() && k <= b@.len() && a@.subrange(0, k) == b@.subrange(
                    0,
                    k,
                ) implies !((k == a@.len() && k < b@.len()) || (k < a@.len() && k < b@.len() && (
                a@[k] as u32) < (b@[k] as u32))) by {
                if k < ii {
                    assert(a@[k] == b@[k]);
                }
            }
        }
    }
    r
}

proof fn lemma_first_non_ws_bounds(s: Seq<char>, i: int)
    requires
        0 <= i <= s.len(),
    ensures
        i <= first_non_ws_from(s, i) <= s.len(),
        first_non_ws_from(s, i) < s.len() ==> !white_space(s[first_non_ws_from(s, i)]),
        forall|k: int| i <= k < first_non_ws_from(s, i) ==> white_space(#[trigger] s[k]),
    decreases s.len() - i,
{
    if i < s.len() && white_space(s[i]) {
        lemma_first_non_ws_bounds(s, i + 1);
    }
}

/// `s` with leading and trailing whitespace removed (`str::trim`).
pub fn trim(s: &str) -> (r: &str)
    ensures
        r@ == trim_spec(s@),
{
    let n = s.unicode_len();
    let mut start: usize = 0;
    while start < n && char_is_whitespace(s.get_char(start))
        invariant
            n == s@.len(),
            start <= n,
            first_non_ws_from(s@, 0) == first_non_ws_from(s@, start as int),
        decreases n - start,
    {
        start = start + 1;
    }
    if start == n {
        return s.substring_char(n, n);
    }
    let mut end: usize = n;
    proof {
        lemma_first_non_ws_bounds(s@, 0);
    }
    while end > start && char_is_whitespace(s.get_char(end - 1))
        invariant
            n == s@.len(),
            start < n,
            start < end <= n,
            first_non_ws_from(s@, 0) == start,
            !white_space(s@[start as int]),
            last_non_ws_before(s@, n as int) == last_non_ws_before(s@, end as int),
        decreases end,
    {
        end = end - 1;
    }
    assert(last_non_ws_before(s@, end as int) == end as int);
    s.substring_char(start, end)
}

/// Index of the last occurrence of `c` in `s` before position `j`, or -1.
pub open spec fn last_index_before(s: Seq<char>, c: char, j: int) -> int
    decreases j,
{
    if j <= 0 {
        -1
    } else if s[j - 1] == c {
        j - 1
    } else {
        last_index_before(s, c, j - 1)
    }
}

/// The part of `s` after its last `c`; all of `s` when it holds no `c`. This
/// is the first piece that `rsplit(c)` yields, and the last that `split(c)`
/// yields.
pub open spec fn after_last_spec(s: Seq<char>, c: char) -> Seq<char> {
    s.subrange(last_index_before(s, c, s.len() as int) + 1, s.len() as int)
}

proof fn lemma_last_index_bounds(s: Seq<char>, c: char, j: int)
    requires
        0 <= j <= s.len(),
    ensures
        -1 <= last_index_before(s, c, j) < j,
    decreases j,
{
    if j > 0 && s[j - 1] != c {
        lemma_last_index_bounds(s, c, j - 1);
    }
}

/// The part of `s` after its last `c`, or all of `s` when it holds no `c`.
pub fn after_last(s: &str, c: char) -> (r: &str)
    ensures
        r@ == after_last_spec(s@, c),
{
    let n = s.unicode_len();
    let mut j: usize = n;
    while j > 0 && s.get_char(j - 1) != c
        invariant
            n == s@.len(),
            j <= n,
            last_index_before(s@, c, n as int) == last_index_before(s@, c, j as int),
        decreases j,
    {
        j = j - 1;
    }
    proof {
        lemma_last_index_bounds(s@, c, n as int);
    }
    s.substring_char(j, n)
}

/// The concatenation of `a` and `b` as a new string.
pub fn concat(a: &str, b: &str) -> (r: String)
    ensures
        r@ == a@ + b@,
{
    let mut r = String::from_str(a);
    r.append(b);
    r
}

} // verus!
