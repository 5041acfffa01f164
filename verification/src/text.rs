//! Character-level helpers over `str`, each proved against a `Seq<char>` model.
use vstd::prelude::*;

verus! {

/// `prefix` occurs at the very start of `s`.
pub open spec fn starts_with(s: Seq<char>, prefix: Seq<char>) -> bool {
    prefix.len() <= s.len() && s.subrange(0, prefix.len() as int) == prefix
}

/// `needle` occurs in `s` starting at position `i`.
pub open spec fn occurs_at(s: Seq<char>, needle: Seq<char>, i: int) -> bool {
    0 <= i && i + needle.len() <= s.len() && s.subrange(i, i + needle.len()) == needle
}

/// An ASCII decimal digit.
pub open spec fn is_digit(c: char) -> bool {
    '0' <= c && c <= '9'
}

/// Every character of `s` is an ASCII decimal digit.
pub open spec fn all_digits(s: Seq<char>) -> bool {
    forall|i: int| 0 <= i < s.len() ==> is_digit(#[trigger] s[i])
}

/// The part of `s` before the first `c`; all of `s` when `c` does not occur.
pub open spec fn before_first(s: Seq<char>, c: char) -> Seq<char>
    decreases s.len(),
{
    if s.len() == 0 {
        s
    } else if s[0] == c {
        Seq::empty()
    } else {
        seq![s[0]].add(before_first(s.drop_first(), c))
    }
}

/// The longest prefix of `s` that ends with `c`, if `c` occurs in `s`.
pub open spec fn through_last(s: Seq<char>, c: char) -> Option<Seq<char>>
    decreases s.len(),
{
    if s.len() == 0 {
        None
    } else if s.last() == c {
        Some(s)
    } else {
        through_last(s.drop_last(), c)
    }
}

/// `before_first` is the prefix that ends at the first `c`.
pub proof fn lemma_before_first(s: Seq<char>, c: char, k: int)
    requires
        0 <= k <= s.len(),
        forall|j: int| 0 <= j < k ==> s[j] != c,
        k < s.len() ==> s[k] == c,
    ensures
        before_first(s, c) == s.take(k),
    decreases s.len(),
{
    if s.len() == 0 {
        assert(s.take(k) =~= s);
    } else if s[0] == c {
        assert(s.take(k) =~= Seq::<char>::empty());
    } else {
        let t = s.drop_first();
        assert forall|j: int| 0 <= j < k - 1 implies t[j] != c by {
            assert(t[j] == s[j + 1]);
        }
        lemma_before_first(t, c, k - 1);
        assert(seq![s[0]].add(t.take(k - 1)) =~= s.take(k));
    }
}

/// `through_last` is the prefix that ends at the last `c`.
pub proof fn lemma_through_last(s: Seq<char>, c: char, i: int)
    requires
        0 <= i < s.len(),
        s[i] == c,
        forall|j: int| i < j < s.len() ==> s[j] != c,
    ensures
        through_last(s, c) == Some(s.take(i + 1)),
    decreases s.len(),
{
    if s.last() == c {
        assert(i == s.len() - 1);
        assert(s.take(i + 1) =~= s);
    } else {
        let t = s.drop_last();
        lemma_through_last(t, c, i);
        assert(t.take(i + 1) =~= s.take(i + 1));
    }
}

/// `c` does not occur in `s`, so `through_last` finds nothing.
pub proof fn lemma_through_last_none(s: Seq<char>, c: char)
    requires
        forall|j: int| 0 <= j < s.len() ==> s[j] != c,
    ensures
        through_last(s, c) is None,
    decreases s.len(),
{
    if s.len() > 0 {
        lemma_through_last_none(s.drop_last(), c);
    }
}

/// The characters of `s`, in order.
pub fn chars_of(s: &str) -> (v: Vec<char>)
    ensures
        v@ == s@,
{
    let mut v: Vec<char> = Vec::new();
    for c in it: s.chars()
        invariant
            v@ == it.seq().take(it.index() as int),
            it.seq() == s@,
    {
        v.push(c);
    }
    v
}

/// Whether `needle` occurs in `s` at position `i`.
pub fn occurs_at_exec(s: &Vec<char>, needle: &Vec<char>, i: usize) -> (r: bool)
    ensures
        r == occurs_at(s@, needle@, i as int),
{
    if i > s.len() || needle.len() > s.len() - i {
        return false;
    }
    let mut j: usize = 0;
    while j < needle.len()
        invariant
            i + needle.len() <= s.len(),
            j <= needle.len(),
            forall|k: int| 0 <= k < j ==> s@[i + k] == needle@[k],
        decreases needle.len() - j,
    {
        if s[i + j] != needle[j] {
            assert(s@.subrange(i as int, i + needle.len())[j as int] != needle@[j as int]);
            return false;
        }
        j = j + 1;
    }
    assert(s@.subrange(i as int, i + needle.len()) =~= needle@);
    true
}

/// Whether `s` begins with `prefix`.
pub fn starts_with_exec(s: &Vec<char>, prefix: &Vec<char>) -> (r: bool)
    ensures
        r == starts_with(s@, prefix@),
{
    occurs_at_exec(s, prefix, 0)
}

/// Whether every character of `s` is an ASCII decimal digit.
pub fn all_digits_exec(s: &Vec<char>) -> (r: bool)
    ensures
        r == all_digits(s@),
{
    let mut i: usize = 0;
    while i < s.len()
        invariant
            i <= s.len(),
            forall|k: int| 0 <= k < i ==> is_digit(#[trigger] s@[k]),
        decreases s.len() - i,
    {
        let c = s[i];
        if !('0' <= c && c <= '9') {
            return false;
        }
        i = i + 1;
    }
    true
}

/// The position of the first `c` in `s[from..to]`, or `to` when there is none.
pub fn first_index_in(s: &Vec<char>, c: char, from: usize, to: usize) -> (k: usize)
    requires
        from <= to <= s.len(),
    ensures
        from <= k <= to,
        forall|j: int| from <= j < k ==> s@[j] != c,
        k < to ==> s@[k as int] == c,
{
    let mut k = from;
    while k < to
        invariant
            from <= k <= to <= s.len(),
            forall|j: int| from <= j < k ==> s@[j] != c,
        decreases to - k,
    {
        if s[k] == c {
            return k;
        }
        k = k + 1;
    }
    k
}

/// Whether `s[from..to]` holds the same characters as `t`.
pub fn range_equals(s: &Vec<char>, from: usize, to: usize, t: &Vec<char>) -> (r: bool)
    requires
        from <= to <= s.len(),
    ensures
        r == (s@.subrange(from as int, to as int) == t@),
{
    if t.len() != to - from {
        return false;
    }
    occurs_at_exec(s, t, from)
}

/// The position of the last `c` in `s[from..to]`, if any.
pub fn last_index_in(s: &Vec<char>, c: char, from: usize, to: usize) -> (r: Option<usize>)
    requires
        from <= to <= s.len(),
    ensures
        match r {
            Some(i) => from <= i < to && s@[i as int] == c && forall|j: int|
                i < j < to ==> s@[j] != c,
            None => forall|j: int| from <= j < to ==> s@[j] != c,
        },
{
    let mut k = to;
    while k > from
        invariant
            from <= k <= to <= s.len(),
            forall|j: int| k <= j < to ==> s@[j] != c,
        decreases k - from,
    {
        if s[k - 1] == c {
            return Some(k - 1);
        }
        k = k - 1;
    }
    None
}

/// The position of the last `c` in `s`, if any.
pub fn last_index_of(s: &Vec<char>, c: char) -> (r: Option<usize>)
    ensures
        match r {
            Some(i) => i < s.len() && s@[i as int] == c && forall|j: int|
                i < j < s.len() ==> s@[j] != c,
            None => forall|j: int| 0 <= j < s.len() ==> s@[j] != c,
        },
{
    let mut k = s.len();
    while k > 0
        invariant
            k <= s.len(),
            forall|j: int| k <= j < s.len() ==> s@[j] != c,
        decreases k,
    {
        if s[k - 1] == c {
            return Some(k - 1);
        }
        k = k - 1;
    }
    None
}

} // verus!
