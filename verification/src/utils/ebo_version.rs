//! Comparison of EBO versions such as `7.1.2.44`: dot-separated numbers,
//! compared number by number.

use vstd::prelude::*;

use crate::strings::{seq_lt, str_eq, str_lt};

verus! {

/// A decimal digit.
pub open spec fn is_digit(c: char) -> bool {
    '0' <= c <= '9'
}

/// Length of the run of digits that begins `s`.
pub open spec fn digit_run(s: Seq<char>) -> nat
    decreases s.len(),
{
    if s.len() > 0 && is_digit(s[0]) {
        1 + digit_run(s.drop_first())
    } else {
        0
    }
}

/// Number of zeros that begin `s`.
pub open spec fn zero_run(s: Seq<char>) -> nat
    decreases s.len(),
{
    if s.len() > 0 && s[0] == '0' {
        1 + zero_run(s.drop_first())
    } else {
        0
    }
}

/// The significant digits of a component: its leading run of digits without
/// the zeros in front (empty for zero, or when it has no leading digit).
pub open spec fn significant(c: Seq<char>) -> Seq<char> {
    let d = c.take(digit_run(c) as int);
    d.skip(zero_run(d) as int)
}

/// The numbers written by significant digits `x` and `y` compare as
/// `x < y`: fewer digits is smaller, and as many digits compare digit by
/// digit.
pub open spec fn number_lt(x: Seq<char>, y: Seq<char>) -> bool {
    x.len() < y.len() || (x.len() == y.len() && seq_lt(x, y))
}

/// Index of the first `.` in `s`, or its length.
pub open spec fn dot_index(s: Seq<char>) -> nat
    decreases s.len(),
{
    if s.len() == 0 || s[0] == '.' {
        0
    } else {
        1 + dot_index(s.drop_first())
    }
}

/// The dot-separated components of `s`.
pub open spec fn components(s: Seq<char>) -> Seq<Seq<char>>
    decreases s.len(),
{
    let i = dot_index(s);
    if i >= s.len() {
        seq![s]
    } else {
        seq![s.take(i as int)] + components(s.skip((i + 1) as int))
    }
}

/// The significant digits of the `k`-th component, those of zero past the
/// last one.
pub open spec fn component_at(s: Seq<char>, k: int) -> Seq<char> {
    if 0 <= k < components(s).len() {
        significant(components(s)[k])
    } else {
        Seq::empty()
    }
}

/// Version `a` is at least version `b`: at the first component where their
/// numbers differ, `a`'s is the larger (missing components count as zero,
/// the number of a component is that of its leading digits).
pub open spec fn version_ge(a: Seq<char>, b: Seq<char>) -> bool {
    forall|k: int|
        0 <= k && (forall|j: int| 0 <= j < k ==> component_at(a, j) == component_at(b, j))
            && #[trigger] component_at(a, k) != component_at(b, k) ==> number_lt(
            component_at(b, k),
            component_at(a, k),
        )
}

proof fn lemma_components_nonempty(s: Seq<char>)
    ensures
        components(s).len() >= 1,
{
}

proof fn lemma_dot_index(s: Seq<char>, j: int)
    requires
        0 <= j <= s.len(),
        forall|t: int| 0 <= t < j ==> s[t] != '.',
        j < s.len() ==> s[j] == '.',
    ensures
        dot_index(s) == j,
    decreases j,
{
    if j > 0 {
        assert forall|t: int| 0 <= t < j - 1 implies s.drop_first()[t] != '.' by {
            assert(s.drop_first()[t] == s[t + 1]);
        }
        lemma_dot_index(s.drop_first(), j - 1);
    }
}

proof fn lemma_digit_run(s: Seq<char>, j: int)
    requires
        0 <= j <= s.len(),
        forall|t: int| 0 <= t < j ==> is_digit(s[t]),
        j < s.len() ==> !is_digit(s[j]),
    ensures
        digit_run(s) == j,
    decreases j,
{
    if j > 0 {
        assert forall|t: int| 0 <= t < j - 1 implies is_digit(s.drop_first()[t]) by {
            assert(s.drop_first()[t] == s[t + 1]);
        }
        lemma_digit_run(s.drop_first(), j - 1);
    }
}

proof fn lemma_zero_run(s: Seq<char>, j: int)
    requires
        0 <= j <= s.len(),
        forall|t: int| 0 <= t < j ==> s[t] == '0',
        j < s.len() ==> s[j] != '0',
    ensures
        zero_run(s) == j,
    decreases j,
{
    if j > 0 {
        assert forall|t: int| 0 <= t < j - 1 implies s.drop_first()[t] == '0' by {
            assert(s.drop_first()[t] == s[t + 1]);
        }
        lemma_zero_run(s.drop_first(), j - 1);
    }
}

/// Index of the first `.` of `s`, or the length of `s`.
fn dot_position(s: &str) -> (j: usize)
    ensures
        j == dot_index(s@),
        j <= s@.len(),
{
    let n = s.unicode_len();
    let mut j: usize = 0;
    while j < n && s.get_char(j) != '.'
        invariant
            n == s@.len(),
            j <= n,
            forall|t: int| 0 <= t < j ==> s@[t] != '.',
        decreases n - j,
    {
        j = j + 1;
    }
    proof {
        lemma_dot_index(s@, j as int);
    }
    j
}

fn is_digit_char(ch: char) -> (r: bool)
    ensures
        r == is_digit(ch),
{
    '0' <= ch && ch <= '9'
}

/// The significant digits of a component.
fn significant_digits(c: &str) -> (r: &str)
    ensures
        r@ == significant(c@),
{
    let n = c.unicode_len();
    let mut end: usize = 0;
    while end < n && is_digit_char(c.get_char(end))
        invariant
            n == c@.len(),
            end <= n,
            forall|t: int| 0 <= t < end ==> is_digit(c@[t]),
        decreases n - end,
    {
        end = end + 1;
    }
    proof {
        lemma_digit_run(c@, end as int);
    }
    let mut start: usize = 0;
    while start < end && c.get_char(start) == '0'
        invariant
            n == c@.len(),
            end <= n,
            start <= end,
            forall|t: int| 0 <= t < start ==> c@[t] == '0',
        decreases end - start,
    {
        start = start + 1;
    }
    proof {
        let d = c@.take(end as int);
        assert forall|t: int| 0 <= t < start implies d[t] == '0' by {}
        lemma_zero_run(d, start as int);
        assert(d.skip(start as int) =~= c@.subrange(start as int, end as int));
    }
    c.substring_char(start, end)
}

/// Whether the number written by significant digits `x` is below that of
/// `y`.
fn number_below(x: &str, y: &str) -> (r: bool)
    ensures
        r == number_lt(x@, y@),
{
    let lx = x.unicode_len();
    let ly = y.unicode_len();
    lx < ly || (lx == ly && str_lt(x, y))
}

/// Whether version `a` is at least version `b`, comparing their
/// dot-separated numbers in order (see `version_ge`).
pub fn ebo_version_ge(a: &str, b: &str) -> (r: bool)
    ensures
        r == version_ge(a@, b@),
{
    let mut ra: &str = a;
    let mut rb: &str = b;
    let mut da = false;
    let mut db = false;
    let ghost mut k: int = 0;
    assert(components(a@).skip(0) =~= components(a@));
    assert(components(b@).skip(0) =~= components(b@));
    proof {
        lemma_components_nonempty(a@);
        lemma_components_nonempty(b@);
    }
    while !(da && db)
        invariant
            0 <= k,
            !da ==> k < components(a@).len() && components(a@).skip(k) == components(ra@),
            da ==> k >= components(a@).len(),
            !db ==> k < components(b@).len() && components(b@).skip(k) == components(rb@),
            db ==> k >= components(b@).len(),
            forall|j: int| 0 <= j < k ==> component_at(a@, j) == component_at(b@, j),
        decreases (if da {
            0
        } else {
            ra@.len() + 1
        }) + (if db {
            0
        } else {
            rb@.len() + 1
        }),
    {
        let ghost k0 = k;
        let ca: &str;
        if da {
            ca = "";
            proof {
                reveal_strlit("");
            }
            assert(component_at(a@, k0) == Seq::<char>::empty());
            assert(significant(ca@) =~= Seq::<char>::empty());
        } else {
            let n = ra.unicode_len();
            let i = dot_position(ra);
            ca = ra.substring_char(0, i);
            proof {
                assert(ca@ =~= ra@.take(i as int));
                if i < n {
                    assert(components(ra@) == seq![ra@.take(i as int)] + components(
                        ra@.skip(i + 1),
                    ));
                } else {
                    assert(components(ra@) == seq![ra@]);
                    assert(ra@.take(i as int) =~= ra@);
                }
                assert(components(ra@)[0] == ra@.take(i as int));
                assert(components(a@).skip(k0).len() == components(ra@).len());
                assert(components(a@).skip(k0)[0] == components(a@)[k0]);
            }
            if i < n {
                let next = ra.substring_char(i + 1, n);
                proof {
                    assert(next@ =~= ra@.skip(i + 1));
                    lemma_components_nonempty(next@);
                    assert(components(a@).skip(k0 + 1) =~= components(ra@).skip(1));
                    assert(components(ra@).skip(1) =~= components(next@));
                }
                ra = next;
            } else {
                da = true;
            }
        }
        let cb: &str;
        if db {
            cb = "";
            proof {
                reveal_strlit("");
            }
            assert(component_at(b@, k0) == Seq::<char>::empty());
            assert(significant(cb@) =~= Seq::<char>::empty());
        } else {
            let n = rb.unicode_len();
            let i = dot_position(rb);
            cb = rb.substring_char(0, i);
            proof {
                assert(cb@ =~= rb@.take(i as int));
                if i < n {
                    assert(components(rb@) == seq![rb@.take(i as int)] + components(
                        rb@.skip(i + 1),
                    ));
                } else {
                    assert(components(rb@) == seq![rb@]);
                    assert(rb@.take(i as int) =~= rb@);
                }
                assert(components(rb@)[0] == rb@.take(i as int));
                assert(components(b@).skip(k0).len() == components(rb@).len());
                assert(components(b@).skip(k0)[0] == components(b@)[k0]);
            }
            if i < n {
                let next = rb.substring_char(i + 1, n);
                proof {
                    assert(next@ =~= rb@.skip(i + 1));
                    lemma_components_nonempty(next@);
                    assert(components(b@).skip(k0 + 1) =~= components(rb@).skip(1));
                    assert(components(rb@).skip(1) =~= components(next@));
                }
                rb = next;
            } else {
                db = true;
            }
        }
        let sa = significant_digits(ca);
        let sb = significant_digits(cb);
        assert(sa@ == component_at(a@, k0));
        assert(sb@ == component_at(b@, k0));
        if !str_eq(sa, sb) {
            let r = number_below(sb, sa);
            proof {
                assert forall|kk: int|
                    0 <= kk && (forall|j: int|
                        0 <= j < kk ==> component_at(a@, j) == component_at(b@, j))
                        && #[trigger] component_at(a@, kk) != component_at(
                        b@,
                        kk,
                    ) implies number_lt(component_at(b@, kk), component_at(a@, kk)) == r by {
                    if kk > k0 {
                        assert(component_at(a@, k0) == component_at(b@, k0));
                    }
                }
            }
            return r;
        }
        proof {
            k = k0 + 1;
        }
    }
    proof {
        assert forall|kk: int|
            0 <= kk && (forall|j: int| 0 <= j < kk ==> component_at(a@, j) == component_at(b@, j))
                && #[trigger] component_at(a@, kk) != component_at(b@, kk) implies number_lt(
            component_at(b@, kk),
            component_at(a@, kk),
        ) by {
            if kk >= k {
                assert(component_at(a@, kk) == Seq::<char>::empty());
                assert(component_at(b@, kk) == Seq::<char>::empty());
            }
        }
    }
    true
}

} // verus!
