use vstd::prelude::*;
use vstd::string::*;

verus! {

/// `pattern` occurs in `text` as a contiguous run of characters.
pub open spec fn occurs_in(pattern: Seq<char>, text: Seq<char>) -> bool {
    exists|i: int|
        0 <= i && i + pattern.len() <= text.len() && #[trigger] text.subrange(i, i + pattern.len())
            == pattern
}

/// The characters of a string slice, in order.
pub fn chars_of(s: &str) -> (v: Vec<char>)
    ensures
        v@ == s@,
{
    let n = s.unicode_len();
    let mut v: Vec<char> = Vec::new();
    let mut i: usize = 0;
    while i < n
        invariant
            n == s@.len(),
            0 <= i <= n,
            v@ == s@.subrange(0, i as int),
        decreases n - i,
    {
        v.push(s.get_char(i));
        i = i + 1;
    }
    v
}

/// Character-wise equality of two string slices.
pub fn str_eq(a: &str, b: &str) -> (r: bool)
    ensures
        r == (a@ == b@),
{
    let n = a.unicode_len();
    if n != b.unicode_len() {
        return false;
    }
    let mut i: usize = 0;
    while i < n
        invariant
            n == a@.len(),
            n == b@.len(),
            0 <= i <= n,
            a@.subrange(0, i as int) == b@.subrange(0, i as int),
        decreases n - i,
    {
        if a.get_char(i) != b.get_char(i) {
            assert(a@[i as int] != b@[i as int]);
            return false;
        }
        assert(a@.subrange(0, i + 1) == a@.subrange(0, i as int).push(a@[i as int]));
        assert(b@.subrange(0, i + 1) == b@.subrange(0, i as int).push(b@[i as int]));
        i = i + 1;
    }
    assert(a@ == a@.subrange(0, n as int));
    assert(b@ == b@.subrange(0, n as int));
    true
}

/// Whether `pattern` occurs in `text` (the empty pattern occurs in every text).
pub fn str_contains(text: &str, pattern: &str) -> (r: bool)
    ensures
        r == occurs_in(pattern@, text@),
{
    let t = chars_of(text);
    let p = chars_of(pattern);
    let tn = t.len();
    let pn = p.len();
    if pn > tn {
        assert(!occurs_in(pattern@, text@)) by {
            assert forall|i: int|
                0 <= i && i + pattern@.len() <= text@.len() implies #[trigger] text@.subrange(
                i,
                i + pattern@.len(),
            ) != pattern@ by {}
        }
        return false;
    }
    let mut start: usize = 0;
    while start <= tn - pn
        invariant
            t@ == text@,
            p@ == pattern@,
            tn == t@.len(),
            pn == p@.len(),
            pn <= tn,
            0 <= start <= tn - pn + 1,
            forall|i: int|
                0 <= i < start ==> #[trigger] text@.subrange(i, i + pattern@.len()) != pattern@,
        decreases tn - start,
    {
        let mut k: usize = 0;
        let mut same = true;
        while k < pn
            invariant
                t@ == text@,
                p@ == pattern@,
                tn == t@.len(),
                pn == p@.len(),
                start + pn <= tn,
                0 <= k <= pn,
                same ==> forall|j: int| 0 <= j < k ==> t@[start + j] == p@[j],
                !same ==> exists|j: int| 0 <= j < pn && t@[start + j] != p@[j],
            decreases pn - k,
        {
            if t[start + k] != p[k] {
                same = false;
            }
            k = k + 1;
        }
        if same {
            assert(text@.subrange(start as int, start + pattern@.len()) == pattern@);
            return true;
        }
        assert(text@.subrange(start as int, start + pattern@.len()) != pattern@) by {
            let j = choose|j: int| 0 <= j < pn && t@[start + j] != p@[j];
            assert(text@.subrange(start as int, start + pattern@.len())[j] != pattern@[j]);
        }
        start = start + 1;
    }
    assert forall|i: int|
        0 <= i && i + pattern@.len() <= text@.len() implies #[trigger] text@.subrange(
        i,
        i + pattern@.len(),
    ) != pattern@ by {
        assert(i < start);
    }
    false
}

/// Character-wise equality of a string and a string slice.
pub fn string_is(s: &String, lit: &str) -> (r: bool)
    ensures
        r == (s@ == lit@),
{
    str_eq(s.as_str(), lit)
}

/// Whether a list of strings holds `s`.
pub fn contains_string(v: &Vec<String>, s: &String) -> (r: bool)
    ensures
        r == v.deep_view().contains(s@),
{
    let mut i: usize = 0;
    while i < v.len()
        invariant
            0 <= i <= v@.len(),
            forall|j: int| 0 <= j < i ==> v@[j]@ != s@,
        decreases v@.len() - i,
    {
        if v[i] == *s {
            assert(v.deep_view()[i as int] == s@);
            return true;
        }
        i = i + 1;
    }
    assert forall|j: int| 0 <= j < v.deep_view().len() implies v.deep_view()[j] != s@ by {
        assert(v.deep_view()[j] == v@[j]@);
    }
    false
}

} // verus!

verus! {

/// A result with its error message read as characters.
pub open spec fn view_err<T>(r: Result<T, String>) -> Result<T, Seq<char>> {
    match r {
        Ok(v) => Ok(v),
        Err(e) => Err(e@),
    }
}

} // verus!
