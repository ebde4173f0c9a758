//! Text normalisation and character-sequence reasoning.
//!
//! All operator input passes through [`normalize_str`] before it is compared
//! with catalog aliases: surrounding whitespace is removed and ASCII capitals
//! are folded to lower case.  The module also provides decidable
//! (index-recursive) equality and membership tests over `Seq<char>` together
//! with lemmas that relate them to ordinary sequence equality; the catalog
//! disjointness proofs are built on these.

use vstd::prelude::*;

verus! {

/// The whitespace characters that are trimmed from operator input.
pub open spec fn is_space(c: char) -> bool {
    c == ' ' || c == '\t' || c == '\n' || c == '\r'
}

/// ASCII case folding: capital letters map to lower case, all else unchanged.
pub open spec fn fold_char(c: char) -> char {
    if 'A' <= c && c <= 'Z' {
        ((c as u8) + 32) as char
    } else {
        c
    }
}

/// Case folding applied to every character.
pub open spec fn fold(s: Seq<char>) -> Seq<char> {
    s.map_values(|c: char| fold_char(c))
}

/// Leading whitespace removed.
pub open spec fn trim_front(s: Seq<char>) -> Seq<char>
    decreases s.len(),
{
    if s.len() > 0 && is_space(s[0]) {
        trim_front(s.drop_first())
    } else {
        s
    }
}

/// Trailing whitespace removed.
pub open spec fn trim_back(s: Seq<char>) -> Seq<char>
    decreases s.len(),
{
    if s.len() > 0 && is_space(s.last()) {
        trim_back(s.drop_last())
    } else {
        s
    }
}

/// The normal form in which all input reaches the matcher: trimmed at both
/// ends, then case-folded.
pub open spec fn normalize(s: Seq<char>) -> Seq<char> {
    fold(trim_back(trim_front(s)))
}

pub fn is_space_exec(c: char) -> (b: bool)
    ensures
        b == is_space(c),
{
    c == ' ' || c == '\t' || c == '\n' || c == '\r'
}

pub fn fold_char_exec(c: char) -> (r: char)
    ensures
        r == fold_char(c),
{
    if 'A' <= c && c <= 'Z' {
        ((c as u8) + 32) as char
    } else {
        c
    }
}

proof fn lemma_trim_front_is_skip(s: Seq<char>, k: int)
    requires
        0 <= k <= s.len(),
        forall|i: int| 0 <= i < k ==> is_space(s[i]),
        k < s.len() ==> !is_space(s[k]),
    ensures
        trim_front(s) == s.skip(k),
    decreases k,
{
    if k == 0 {
        assert(s.skip(0) =~= s);
    } else {
        assert(is_space(s[0]));
        lemma_trim_front_is_skip(s.drop_first(), k - 1);
        assert(s.drop_first().skip(k - 1) =~= s.skip(k));
    }
}

proof fn lemma_trim_back_is_take(s: Seq<char>, k: int)
    requires
        0 <= k <= s.len(),
        forall|i: int| k <= i < s.len() ==> is_space(s[i]),
        k > 0 ==> !is_space(s[k - 1]),
    ensures
        trim_back(s) == s.take(k),
    decreases s.len() - k,
{
    if k == s.len() {
        assert(s.take(k) =~= s);
    } else {
        assert(is_space(s.last()));
        lemma_trim_back_is_take(s.drop_last(), k);
        assert(s.drop_last().take(k) =~= s.take(k));
    }
}

/// Collects the characters of a string slice.
pub fn str_chars(s: &str) -> (r: Vec<char>)
    ensures
        r@ == s@,
{
    let n: usize = s.unicode_len();
    let mut r: Vec<char> = Vec::new();
    let mut i: usize = 0;
    while i < n
        invariant
            n == s@.len(),
            0 <= i <= n,
            r@ == s@.take(i as int),
        decreases n - i,
    {
        r.push(s.get_char(i));
        i = i + 1;
        assert(r@ =~= s@.take(i as int));
    }
    assert(s@.take(n as int) =~= s@);
    r
}

/// Trims and case-folds one fragment of operator input.
pub fn normalize_str(s: &str) -> (r: Vec<char>)
    ensures
        r@ == normalize(s@),
{
    let chars = str_chars(s);
    let n: usize = chars.len();
    let mut start: usize = 0;
    while start < n && is_space_exec(chars[start])
        invariant
            n == chars.len(),
            0 <= start <= n,
            forall|i: int| 0 <= i < start ==> is_space(chars@[i]),
        decreases n - start,
    {
        start = start + 1;
    }
    let mut end: usize = n;
    while end > start && is_space_exec(chars[end - 1])
        invariant
            n == chars.len(),
            start <= end <= n,
            forall|i: int| end <= i < n ==> is_space(chars@[i]),
        decreases end,
    {
        end = end - 1;
    }
    let ghost trimmed: Seq<char> = chars@.subrange(start as int, end as int);
    proof {
        if start == n {
            // the whole string is whitespace
            lemma_trim_front_is_skip(chars@, start as int);
            assert(chars@.skip(start as int) =~= trimmed);
            assert(trim_back(trimmed) =~= trimmed);
        } else {
            assert(!is_space(chars@[start as int]));
            lemma_trim_front_is_skip(chars@, start as int);
            assert(chars@.skip(start as int) =~= chars@.subrange(start as int, n as int));
            let tail = chars@.subrange(start as int, n as int);
            lemma_trim_back_is_take(tail, end - start);
            assert(tail.take(end - start) =~= trimmed);
        }
        assert(trim_back(trim_front(chars@)) == trimmed);
    }
    let mut r: Vec<char> = Vec::new();
    let mut i: usize = start;
    while i < end
        invariant
            n == chars.len(),
            start <= i <= end <= n,
            trimmed == chars@.subrange(start as int, end as int),
            r@ == fold(chars@.subrange(start as int, i as int)),
        decreases end - i,
    {
        r.push(fold_char_exec(chars[i]));
        i = i + 1;
        assert(r@ =~= fold(chars@.subrange(start as int, i as int)));
    }
    assert(chars@.subrange(start as int, end as int) =~= trimmed);
    r
}

/// Character-wise equality of a string slice and a character vector.
pub fn str_eq_chars(t: &str, s: &Vec<char>) -> (b: bool)
    ensures
        b == (t@ == s@),
{
    let n: usize = t.unicode_len();
    if n != s.len() {
        return false;
    }
    let mut i: usize = 0;
    while i < n
        invariant
            n == t@.len(),
            n == s@.len(),
            0 <= i <= n,
            forall|j: int| 0 <= j < i ==> t@[j] == s@[j],
        decreases n - i,
    {
        if t.get_char(i) != s[i] {
            return false;
        }
        i = i + 1;
    }
    proof {
        assert(t@ =~= s@);
    }
    true
}

/// Does the string slice start with the given characters?
pub fn str_starts_with_chars(t: &str, p: &Vec<char>) -> (b: bool)
    ensures
        b == p@.is_prefix_of(t@),
{
    let n: usize = t.unicode_len();
    if p.len() > n {
        assert(!p@.is_prefix_of(t@));
        return false;
    }
    let m: usize = p.len();
    let mut i: usize = 0;
    while i < m
        invariant
            n == t@.len(),
            m == p@.len(),
            m <= n,
            0 <= i <= m,
            forall|j: int| 0 <= j < i ==> t@[j] == p@[j],
        decreases m - i,
    {
        if t.get_char(i) != p[i] {
            assert(t@.subrange(0, m as int)[i as int] != p@[i as int]);
            return false;
        }
        i = i + 1;
    }
    proof {
        assert(p@ =~= t@.subrange(0, m as int));
    }
    true
}

/// Index-recursive equality on character sequences.  Unlike `==`, a proof can
/// evaluate this by unrolling, one known character at a time.
pub open spec fn seq_eq_from(a: Seq<char>, b: Seq<char>, i: int) -> bool
    decreases a.len() - i,
{
    if i < 0 || i >= a.len() || i >= b.len() {
        true
    } else {
        a[i] == b[i] && seq_eq_from(a, b, i + 1)
    }
}

/// Decidable form of `a == b` on character sequences.
pub open spec fn seq_eq(a: Seq<char>, b: Seq<char>) -> bool {
    a.len() == b.len() && seq_eq_from(a, b, 0)
}

proof fn lemma_seq_eq_from_pointwise(a: Seq<char>, b: Seq<char>, i: int)
    requires
        0 <= i,
        a.len() == b.len(),
        seq_eq_from(a, b, i),
    ensures
        forall|j: int| i <= j < a.len() ==> a[j] == b[j],
    decreases a.len() - i,
{
    if i < a.len() {
        lemma_seq_eq_from_pointwise(a, b, i + 1);
    }
}

proof fn lemma_seq_eq_from_refl(a: Seq<char>, i: int)
    requires
        0 <= i,
    ensures
        seq_eq_from(a, a, i),
    decreases a.len() - i,
{
    if i < a.len() {
        lemma_seq_eq_from_refl(a, i + 1);
    }
}

/// `seq_eq` coincides with sequence equality.
pub proof fn lemma_seq_eq(a: Seq<char>, b: Seq<char>)
    ensures
        seq_eq(a, b) <==> a == b,
{
    if seq_eq(a, b) {
        lemma_seq_eq_from_pointwise(a, b, 0);
        assert(a =~= b);
    }
    if a == b {
        lemma_seq_eq_from_refl(a, 0);
    }
}

/// Decidable membership of a character sequence in a list of alias strings.
pub open spec fn seq_has_from(xs: Seq<Seq<char>>, y: Seq<char>, i: int) -> bool
    decreases xs.len() - i,
{
    if i < 0 || i >= xs.len() {
        false
    } else {
        seq_eq(xs[i], y) || seq_has_from(xs, y, i + 1)
    }
}

/// `seq_has_from(xs, y, 0)` coincides with `exists` membership.
pub proof fn lemma_seq_has(xs: Seq<Seq<char>>, y: Seq<char>, i: int)
    requires
        0 <= i <= xs.len(),
    ensures
        seq_has_from(xs, y, i) <==> exists|k: int| i <= k < xs.len() && xs[k] == y,
    decreases xs.len() - i,
{
    if i < xs.len() {
        lemma_seq_eq(xs[i], y);
        lemma_seq_has(xs, y, i + 1);
        if seq_has_from(xs, y, i) {
            if seq_eq(xs[i], y) {
                assert(xs[i] == y);
            }
        }
        if exists|k: int| i <= k < xs.len() && xs[k] == y {
            let k = choose|k: int| i <= k < xs.len() && xs[k] == y;
            if k == i {
                assert(seq_eq(xs[i], y));
            } else {
                assert(i + 1 <= k < xs.len() && xs[k] == y);
            }
        }
    }
}

/// Decidable check that no alias of `xs` (from index `i` on) occurs in `ys`.
pub open spec fn no_common_from(xs: Seq<Seq<char>>, ys: Seq<Seq<char>>, i: int) -> bool
    decreases xs.len() - i,
{
    if i < 0 || i >= xs.len() {
        true
    } else {
        !seq_has_from(ys, xs[i], 0) && no_common_from(xs, ys, i + 1)
    }
}

/// Two alias lists with no string in common, in quantifier form.
pub open spec fn disjoint_names(xs: Seq<Seq<char>>, ys: Seq<Seq<char>>) -> bool {
    forall|a: int, b: int| 0 <= a < xs.len() && 0 <= b < ys.len() ==> xs[a] != ys[b]
}

/// `no_common_from(xs, ys, 0)` coincides with pairwise distinctness.
pub proof fn lemma_no_common(xs: Seq<Seq<char>>, ys: Seq<Seq<char>>, i: int)
    requires
        0 <= i <= xs.len(),
        no_common_from(xs, ys, i),
    ensures
        forall|a: int, b: int| i <= a < xs.len() && 0 <= b < ys.len() ==> xs[a] != ys[b],
    decreases xs.len() - i,
{
    if i < xs.len() {
        lemma_seq_has(ys, xs[i], 0);
        lemma_no_common(xs, ys, i + 1);
    }
}


proof fn lemma_fold_space(c: char)
    ensures
        is_space(fold_char(c)) == is_space(c),
{
}

proof fn lemma_fold_trim_front(s: Seq<char>)
    ensures
        trim_front(fold(s)) == fold(trim_front(s)),
    decreases s.len(),
{
    if s.len() > 0 {
        lemma_fold_space(s[0]);
        assert(fold(s)[0] == fold_char(s[0]));
        if is_space(s[0]) {
            assert(fold(s).drop_first() =~= fold(s.drop_first()));
            lemma_fold_trim_front(s.drop_first());
        } else {
            assert(trim_front(fold(s)) == fold(s));
        }
    } else {
        assert(fold(s).len() == 0);
    }
}

proof fn lemma_fold_trim_back(s: Seq<char>)
    ensures
        trim_back(fold(s)) == fold(trim_back(s)),
    decreases s.len(),
{
    if s.len() > 0 {
        lemma_fold_space(s.last());
        assert(fold(s).last() == fold_char(s.last()));
        if is_space(s.last()) {
            assert(fold(s).drop_last() =~= fold(s.drop_last()));
            lemma_fold_trim_back(s.drop_last());
        } else {
            assert(trim_back(fold(s)) == fold(s));
        }
    } else {
        assert(fold(s).len() == 0);
    }
}

/// Folding twice changes nothing more than folding once.
pub proof fn lemma_fold_idempotent(s: Seq<char>)
    ensures
        fold(fold(s)) == fold(s),
{
    assert forall|i: int| 0 <= i < s.len() implies fold(fold(s))[i] == fold(s)[i] by {
        assert(fold(s)[i] == fold_char(s[i]));
    }
    assert(fold(fold(s)) =~= fold(s));
}

/// Matching is case-insensitive: two inputs with the same case-folding
/// normalise identically, so the matcher treats them alike.
pub proof fn lemma_normalize_case_insensitive(x: Seq<char>, y: Seq<char>)
    requires
        fold(x) == fold(y),
    ensures
        normalize(x) == normalize(y),
{
    lemma_fold_trim_front(x);
    lemma_fold_trim_back(trim_front(x));
    lemma_fold_trim_front(y);
    lemma_fold_trim_back(trim_front(y));
    assert(normalize(x) == trim_back(trim_front(fold(x))));
    assert(normalize(y) == trim_back(trim_front(fold(y))));
}

} // verus!
