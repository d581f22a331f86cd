use vstd::prelude::*;
use vstd::string::*;

verus! {

/// The characters of `s` strictly before the first occurrence of `sep`
/// (all of `s` when `sep` does not occur).
pub open spec fn head_before(s: Seq<char>, sep: char) -> Seq<char>
    decreases s.len(),
{
    if s.len() == 0 {
        s
    } else if s[0] == sep {
        Seq::empty()
    } else {
        seq![s[0]] + head_before(s.subrange(1, s.len() as int), sep)
    }
}

/// The characters of `s` strictly after the first occurrence of `sep`
/// (empty when `sep` does not occur).
pub open spec fn tail_after(s: Seq<char>, sep: char) -> Seq<char>
    decreases s.len(),
{
    if s.len() == 0 {
        s
    } else if s[0] == sep {
        s.subrange(1, s.len() as int)
    } else {
        tail_after(s.subrange(1, s.len() as int), sep)
    }
}

/// When `sep` first occurs at index `i`, `head_before` is the prefix up to `i`
/// and `tail_after` is the suffix past `i`.
pub proof fn lemma_split_at_index(s: Seq<char>, sep: char, i: int)
    requires
        0 <= i < s.len(),
        s[i] == sep,
        forall|j: int| 0 <= j < i ==> s[j] != sep,
    ensures
        head_before(s, sep) == s.subrange(0, i),
        tail_after(s, sep) == s.subrange(i + 1, s.len() as int),
    decreases i,
{
    if i == 0 {
        assert(head_before(s, sep) =~= s.subrange(0, 0));
        assert(tail_after(s, sep) =~= s.subrange(1, s.len() as int));
    } else {
        let rest = s.subrange(1, s.len() as int);
        assert(rest[i - 1] == sep);
        assert(forall|j: int| 0 <= j < i - 1 ==> rest[j] == s[j + 1] && rest[j] != sep);
        lemma_split_at_index(rest, sep, i - 1);
        assert(head_before(s, sep) =~= s.subrange(0, i));
        assert(tail_after(s, sep) =~= s.subrange(i + 1, s.len() as int));
    }
}

/// When `sep` does not occur in `s`, `head_before` keeps all of `s`.
pub proof fn lemma_no_sep(s: Seq<char>, sep: char)
    requires
        !s.contains(sep),
    ensures
        head_before(s, sep) == s,
        tail_after(s, sep) == Seq::<char>::empty(),
    decreases s.len(),
{
    if s.len() == 0 {
        assert(tail_after(s, sep) =~= Seq::<char>::empty());
    } else {
        assert(s[0] != sep);
        let rest = s.subrange(1, s.len() as int);
        assert(forall|j: int| 0 <= j < rest.len() ==> rest[j] == s[j + 1]);
        assert(!rest.contains(sep));
        lemma_no_sep(rest, sep);
        assert(head_before(s, sep) =~= s);
    }
}

/// Joining two pieces around `sep` and splitting again at the first `sep`
/// returns exactly the pieces, provided the head piece is free of `sep`.
pub proof fn lemma_split_of_join(a: Seq<char>, b: Seq<char>, sep: char)
    requires
        !a.contains(sep),
    ensures
        (a + seq![sep] + b).contains(sep),
        head_before(a + seq![sep] + b, sep) == a,
        tail_after(a + seq![sep] + b, sep) == b,
{
    let joined = a + seq![sep] + b;
    let i = a.len() as int;
    assert(joined[i] == sep);
    assert(forall|j: int| 0 <= j < i ==> joined[j] == a[j] && joined[j] != sep);
    lemma_split_at_index(joined, sep, i);
    assert(joined.subrange(0, i) =~= a);
    assert(joined.subrange(i + 1, joined.len() as int) =~= b);
}

/// Character-for-character equality of two string slices.
pub fn str_eq(a: &str, b: &str) -> (r: bool)
    ensures
        r == (a@ == b@),
{
    let alen = a.unicode_len();
    let blen = b.unicode_len();
    if alen != blen {
        return false;
    }
    let mut i: usize = 0;
    while i < alen
        invariant
            alen == a@.len(),
            blen == b@.len(),
            alen == blen,
            i <= alen,
            forall|j: int| 0 <= j < i ==> a@[j] == b@[j],
        decreases alen - i,
    {
        if a.get_char(i) != b.get_char(i) {
            return false;
        }
        i += 1;
    }
    proof {
        assert(a@ =~= b@);
    }
    true
}

/// Index of the first occurrence of `sep` in `s`, if any.
pub fn find_first(s: &str, sep: char) -> (r: Option<usize>)
    ensures
        match r {
            Some(i) => i < s@.len() && s@[i as int] == sep
                && (forall|j: int| 0 <= j < i ==> s@[j] != sep),
            None => !s@.contains(sep),
        },
{
    let len = s.unicode_len();
    let mut i: usize = 0;
    while i < len
        invariant
            len == s@.len(),
            i <= len,
            forall|j: int| 0 <= j < i ==> s@[j] != sep,
        decreases len - i,
    {
        if s.get_char(i) == sep {
            return Some(i);
        }
        i += 1;
    }
    None
}

/// Splits `s` at the first occurrence of `sep`: the head holds the characters
/// before it, the tail everything after it. Returns `None` when `sep` does
/// not occur.
pub fn split_at_first(s: &str, sep: char) -> (r: Option<(String, String)>)
    ensures
        match r {
            Some(parts) => s@.contains(sep)
                && parts.0@ == head_before(s@, sep)
                && parts.1@ == tail_after(s@, sep)
                && !parts.0@.contains(sep)
                && s@ == parts.0@ + seq![sep] + parts.1@,
            None => !s@.contains(sep),
        },
{
    match find_first(s, sep) {
        None => None,
        Some(i) => {
            let len = s.unicode_len();
            let head = s.substring_char(0, i).to_owned();
            let tail = s.substring_char(i + 1, len).to_owned();
            proof {
                lemma_split_at_index(s@, sep, i as int);
                assert(forall|j: int| 0 <= j < head@.len() ==> head@[j] == s@[j] && head@[j] != sep);
                assert(s@ =~= head@ + seq![sep] + tail@);
            }
            Some((head, tail))
        }
    }
}

} // verus!
