//! Character-level text helpers: ASCII case folding, case-insensitive
//! substring search, and lexicographic ordering of character sequences.

use vstd::prelude::*;

verus! {

/// Code point of a character with ASCII upper case folded to lower case.
pub open spec fn fold_code(c: char) -> u32 {
    if 65 <= c as u32 && c as u32 <= 90 {
        (c as u32 + 32) as u32
    } else {
        c as u32
    }
}

/// Two characters are equal up to ASCII case.
pub open spec fn eq_ci(a: char, b: char) -> bool {
    fold_code(a) == fold_code(b)
}

/// The needle matches the haystack, character for character up to ASCII
/// case, starting at position `i`.
pub open spec fn match_at(hay: Seq<char>, needle: Seq<char>, i: int) -> bool {
    forall|j: int| 0 <= j < needle.len() ==> eq_ci(hay[i + j], needle[j])
}

/// Case-insensitive substring containment (ASCII case only).
pub open spec fn contains_ci(hay: Seq<char>, needle: Seq<char>) -> bool {
    exists|i: int| 0 <= i && i + needle.len() <= hay.len() && match_at(hay, needle, i)
}

/// Equality of two character sequences up to ASCII case.
pub open spec fn seq_eq_ci(a: Seq<char>, b: Seq<char>) -> bool {
    a.len() == b.len() && (forall|i: int| 0 <= i < a.len() ==> eq_ci(a[i], b[i]))
}

/// Whether two character vectors are equal up to ASCII case.
pub fn seq_eq_ci_exec(a: &Vec<char>, b: &Vec<char>) -> (r: bool)
    ensures
        r == seq_eq_ci(a@, b@),
{
    if a.len() != b.len() {
        return false;
    }
    let mut i: usize = 0;
    while i < a.len()
        invariant
            a@.len() == b@.len(),
            i <= a@.len(),
            forall|t: int| 0 <= t < i ==> eq_ci(a@[t], b@[t]),
        decreases a@.len() - i,
    {
        if fold_code_exec(a[i]) != fold_code_exec(b[i]) {
            assert(!eq_ci(a@[i as int], b@[i as int]));
            return false;
        }
        i += 1;
    }
    true
}

/// The needle matches the haystack exactly, starting at position `i`.
pub open spec fn match_exact_at(hay: Seq<char>, needle: Seq<char>, i: int) -> bool {
    forall|j: int| 0 <= j < needle.len() ==> hay[i + j] == needle[j]
}

/// Case-sensitive substring containment.
pub open spec fn contains_sub(hay: Seq<char>, needle: Seq<char>) -> bool {
    exists|i: int| 0 <= i && i + needle.len() <= hay.len() && match_exact_at(hay, needle, i)
}

/// Whether the needle occurs in the haystack, character for character.
pub fn contains_sub_exec(hay: &Vec<char>, needle: &Vec<char>) -> (b: bool)
    ensures
        b == contains_sub(hay@, needle@),
{
    if needle.len() > hay.len() {
        assert(!contains_sub(hay@, needle@));
        return false;
    }
    let end = hay.len() - needle.len();
    let mut i: usize = 0;
    loop
        invariant
            needle@.len() <= hay@.len(),
            hay@.len() <= usize::MAX,
            end == hay@.len() - needle@.len(),
            i <= end,
            forall|k: int| 0 <= k < i ==> !match_exact_at(hay@, needle@, k),
        ensures
            forall|k: int| 0 <= k <= end ==> !match_exact_at(hay@, needle@, k),
        decreases end - i,
    {
        let mut j: usize = 0;
        let mut ok = true;
        while j < needle.len()
            invariant
                hay@.len() <= usize::MAX,
                i + needle@.len() <= hay@.len(),
                j <= needle@.len(),
                ok <==> (forall|t: int| 0 <= t < j ==> hay@[i + t] == needle@[t]),
            decreases needle@.len() - j,
        {
            if hay[i + j] != needle[j] {
                ok = false;
                assert(hay@[i + j] != needle@[j as int]);
            }
            j += 1;
        }
        if ok {
            assert(match_exact_at(hay@, needle@, i as int));
            return true;
        }
        if i == end {
            break;
        }
        i += 1;
    }
    assert(forall|k: int|
        0 <= k && k + needle@.len() <= hay@.len() ==> !match_exact_at(hay@, needle@, k));
    false
}

/// Strict lexicographic order on character sequences by code point,
/// which coincides with the byte order of their UTF-8 encodings.
pub open spec fn lex_lt(a: Seq<char>, b: Seq<char>) -> bool
    decreases a.len(),
{
    if b.len() == 0 {
        false
    } else if a.len() == 0 {
        true
    } else if a[0] as u32 != b[0] as u32 {
        (a[0] as u32) < (b[0] as u32)
    } else {
        lex_lt(a.drop_first(), b.drop_first())
    }
}

/// The characters of a string, in order.
pub fn chars_of(s: &str) -> (v: Vec<char>)
    ensures
        v@ == s@,
{
    let mut v: Vec<char> = Vec::new();
    for c in it: s.chars()
        invariant
            it.seq() == s@,
            v@ == it.seq().take(it.index()),
    {
        v.push(c);
    }
    assert(v@ =~= s@);
    v
}

/// Folded code point of a character, as executable code.
pub fn fold_code_exec(c: char) -> (r: u32)
    ensures
        r == fold_code(c),
{
    let u = c as u32;
    if 65 <= u && u <= 90 {
        u + 32
    } else {
        u
    }
}

/// Whether the needle occurs in the haystack up to ASCII case.
pub fn contains_ci_exec(hay: &Vec<char>, needle: &Vec<char>) -> (b: bool)
    ensures
        b == contains_ci(hay@, needle@),
{
    if needle.len() > hay.len() {
        assert(!contains_ci(hay@, needle@));
        return false;
    }
    let end = hay.len() - needle.len();
    let mut i: usize = 0;
    loop
        invariant
            needle@.len() <= hay@.len(),
            hay@.len() <= usize::MAX,
            end == hay@.len() - needle@.len(),
            i <= end,
            forall|k: int| 0 <= k < i ==> !match_at(hay@, needle@, k),
        ensures
            forall|k: int| 0 <= k <= end ==> !match_at(hay@, needle@, k),
        decreases end - i,
    {
        let mut j: usize = 0;
        let mut ok = true;
        while j < needle.len()
            invariant
                hay@.len() <= usize::MAX,
                i + needle@.len() <= hay@.len(),
                j <= needle@.len(),
                ok <==> (forall|t: int| 0 <= t < j ==> eq_ci(hay@[i + t], needle@[t])),
            decreases needle@.len() - j,
        {
            if fold_code_exec(hay[i + j]) != fold_code_exec(needle[j]) {
                ok = false;
                assert(!eq_ci(hay@[i + j], needle@[j as int]));
            }
            j += 1;
        }
        if ok {
            assert(match_at(hay@, needle@, i as int));
            return true;
        }
        if i == end {
            break;
        }
        i += 1;
    }
    assert(forall|k: int| 0 <= k && k + needle@.len() <= hay@.len() ==> !match_at(hay@, needle@, k));
    false
}

/// Dropping equal heads preserves the lexicographic comparison.
proof fn lemma_lex_lt_skip(a: Seq<char>, b: Seq<char>, i: int)
    requires
        0 <= i <= a.len(),
        i <= b.len(),
        forall|k: int| 0 <= k < i ==> (a[k] as u32) == (b[k] as u32),
    ensures
        lex_lt(a, b) == lex_lt(a.skip(i), b.skip(i)),
    decreases i,
{
    if i > 0 {
        assert(a.len() > 0 && b.len() > 0);
        assert((a[0] as u32) == (b[0] as u32));
        assert(lex_lt(a, b) == lex_lt(a.drop_first(), b.drop_first()));
        lemma_lex_lt_skip(a.drop_first(), b.drop_first(), i - 1);
        assert(a.drop_first().skip(i - 1) =~= a.skip(i));
        assert(b.drop_first().skip(i - 1) =~= b.skip(i));
    } else {
        assert(a.skip(0) =~= a);
        assert(b.skip(0) =~= b);
    }
}

/// Strict lexicographic comparison of two character vectors.
pub fn lex_lt_exec(a: &Vec<char>, b: &Vec<char>) -> (r: bool)
    ensures
        r == lex_lt(a@, b@),
{
    let mut i: usize = 0;
    loop
        invariant
            i <= a@.len(),
            i <= b@.len(),
            forall|k: int| 0 <= k < i ==> (a@[k] as u32) == (b@[k] as u32),
        ensures
            i <= a@.len(),
            i <= b@.len(),
            forall|k: int| 0 <= k < i ==> (a@[k] as u32) == (b@[k] as u32),
            (i == a@.len() || i == b@.len())
                || (i < a@.len() && i < b@.len() && (a@[i as int] as u32) != (b@[i as int] as u32)),
        decreases a@.len() - i,
    {
        if i == a.len() || i == b.len() {
            break;
        }
        let ca = a[i] as u32;
        let cb = b[i] as u32;
        if ca != cb {
            break;
        }
        i += 1;
    }
    proof {
        lemma_lex_lt_skip(a@, b@, i as int);
    }
    if i == a.len() {
        // a is a prefix of b; a < b exactly when b is longer
        assert(a@.skip(i as int).len() == 0);
        i < b.len()
    } else if i == b.len() {
        assert(b@.skip(i as int).len() == 0);
        false
    } else {
        let ca = a[i] as u32;
        let cb = b[i] as u32;
        assert(a@.skip(i as int)[0] == a@[i as int]);
        assert(b@.skip(i as int)[0] == b@[i as int]);
        ca < cb
    }
}

/// A copy of the string shortened to at most `max_len` characters, the
/// last three replaced by an ellipsis when it had to be cut.
pub fn truncate_string(s: &str, max_len: usize) -> (r: String)
    requires
        max_len >= 3,
    ensures
        s@.len() <= max_len ==> r@ == s@,
        s@.len() > max_len ==> r@ == s@.subrange(0, max_len - 3) + "..."@,
{
    let n = s.unicode_len();
    if n > max_len {
        let head = s.substring_char(0, max_len - 3);
        let owned: String = head.to_owned();
        owned.concat("...")
    } else {
        s.to_owned()
    }
}

} // verus!
