//! Text operations that the protocol's rules use: whitespace trimming,
//! substring search, prefixes and upper-casing.
use vstd::prelude::*;
use vstd::string::StringExecFns;
use vstd::string::StrSliceExecFns;

verus! {

/// Whether `c` has the Unicode `White_Space` property.
pub open spec fn is_unicode_whitespace(c: char) -> bool {
    let n = c as u32;
    ||| 0x09 <= n <= 0x0d
    ||| n == 0x20
    ||| n == 0x85
    ||| n == 0xa0
    ||| n == 0x1680
    ||| 0x2000 <= n <= 0x200a
    ||| n == 0x2028
    ||| n == 0x2029
    ||| n == 0x202f
    ||| n == 0x205f
    ||| n == 0x3000
}

/// `s` without its leading whitespace.
pub open spec fn trim_start_spec(s: Seq<char>) -> Seq<char>
    decreases s.len(),
{
    if s.len() > 0 && is_unicode_whitespace(s[0]) {
        trim_start_spec(s.drop_first())
    } else {
        s
    }
}

/// `s` without its trailing whitespace.
pub open spec fn trim_end_spec(s: Seq<char>) -> Seq<char>
    decreases s.len(),
{
    if s.len() > 0 && is_unicode_whitespace(s.last()) {
        trim_end_spec(s.drop_last())
    } else {
        s
    }
}

/// `s` without its leading and trailing whitespace.
pub open spec fn trim_spec(s: Seq<char>) -> Seq<char> {
    trim_end_spec(trim_start_spec(s))
}

/// Whether `s` is empty once its leading and trailing whitespace is removed.
pub open spec fn is_blank(s: Seq<char>) -> bool {
    trim_spec(s).len() == 0
}

/// `s` with every character upper-cased as `str::to_uppercase` does it.
pub uninterp spec fn to_uppercase_spec(s: Seq<char>) -> Seq<char>;

/// Whether `needle` occurs in `s`.
pub open spec fn contains_spec(s: Seq<char>, needle: Seq<char>) -> bool {
    exists|i: int| 0 <= i <= s.len() - needle.len() && #[trigger] s.subrange(i, i + needle.len()) == needle
}

/// Whether `s` begins with `prefix`.
pub open spec fn starts_with_spec(s: Seq<char>, prefix: Seq<char>) -> bool {
    prefix.len() <= s.len() && s.subrange(0, prefix.len() as int) == prefix
}

/// Whether `c` has the Unicode `White_Space` property.
fn is_whitespace(c: char) -> (res: bool)
    ensures
        res == is_unicode_whitespace(c),
{
    let n = c as u32;
    (0x09 <= n && n <= 0x0d) || n == 0x20 || n == 0x85 || n == 0xa0 || n == 0x1680 || (0x2000 <= n && n
        <= 0x200a) || n == 0x2028 || n == 0x2029 || n == 0x202f || n == 0x205f || n == 0x3000
}

/// The slice of `s` without leading and trailing characters that have the
/// Unicode `White_Space` property, as `str::trim` gives it.
pub(crate) fn trim(s: &str) -> (res: &str)
    ensures
        res@ == trim_spec(s@),
{
    let n = s.unicode_len();
    let mut i: usize = 0;
    assert(s@.subrange(0, n as int) =~= s@);
    loop
        invariant
            n == s@.len(),
            i <= n,
            trim_start_spec(s@) == trim_start_spec(s@.subrange(i as int, n as int)),
        ensures
            i <= n,
            trim_start_spec(s@) == s@.subrange(i as int, n as int),
        decreases n - i,
    {
        if i == n {
            break;
        }
        let c = s.get_char(i);
        if !is_whitespace(c) {
            break;
        }
        assert(s@.subrange(i as int, n as int).drop_first() =~= s@.subrange(i + 1, n as int));
        i = i + 1;
    }
    let mut j: usize = n;
    assert(s@.subrange(i as int, n as int) =~= s@.subrange(i as int, j as int));
    loop
        invariant
            n == s@.len(),
            i <= j <= n,
            trim_start_spec(s@) == s@.subrange(i as int, n as int),
            trim_end_spec(s@.subrange(i as int, n as int)) == trim_end_spec(s@.subrange(i as int, j as int)),
        ensures
            i <= j <= n,
            trim_spec(s@) == s@.subrange(i as int, j as int),
        decreases j - i,
    {
        if j == i {
            break;
        }
        let c = s.get_char(j - 1);
        if !is_whitespace(c) {
            break;
        }
        assert(s@.subrange(i as int, j as int).drop_last() =~= s@.subrange(i as int, j - 1));
        j = j - 1;
    }
    s.substring_char(i, j)
}

/// `str::to_uppercase`: the upper-case form of `s`. What it returns is named,
/// not stated: it follows Unicode's case tables.
#[verifier::external_body]
pub(crate) fn to_uppercase(s: &str) -> (res: String)
    ensures
        res@ == to_uppercase_spec(s@),
{
    s.to_uppercase()
}

/// `String::push`: appends one character.
#[verifier::external_body]
pub(crate) fn push_char(s: &mut String, c: char)
    ensures
        final(s)@ == old(s)@.push(c),
{
    s.push(c)
}

/// A new string holding `a` followed by `b`.
pub fn concat(a: &str, b: &str) -> (res: String)
    ensures
        res@ == a@ + b@,
{
    let mut res = String::from_str(a);
    res.append(b);
    res
}

/// Whether `s` begins with `prefix`.
pub fn starts_with(s: &str, prefix: &str) -> (res: bool)
    ensures
        res == starts_with_spec(s@, prefix@),
{
    let n = s.unicode_len();
    let m = prefix.unicode_len();
    if m > n {
        return false;
    }
    let mut i: usize = 0;
    while i < m
        invariant
            n == s@.len(),
            m == prefix@.len(),
            m <= n,
            i <= m,
            forall|k: int| 0 <= k < i ==> s@[k] == prefix@[k],
        decreases m - i,
    {
        if s.get_char(i) != prefix.get_char(i) {
            assert(s@.subrange(0, m as int)[i as int] != prefix@[i as int]);
            return false;
        }
        i = i + 1;
    }
    assert(s@.subrange(0, m as int) =~= prefix@);
    true
}

/// Whether `needle` occurs in `s`.
pub fn contains(s: &str, needle: &str) -> (res: bool)
    ensures
        res == contains_spec(s@, needle@),
{
    let n = s.unicode_len();
    let m = needle.unicode_len();
    if m > n {
        return false;
    }
    let mut i: usize = 0;
    while i <= n - m
        invariant
            n == s@.len(),
            m == needle@.len(),
            m <= n,
            i <= n - m + 1,
            forall|k: int| 0 <= k < i ==> #[trigger] s@.subrange(k, k + m) != needle@,
        decreases n - m + 1 - i,
    {
        let mut j: usize = 0;
        let mut same = true;
        while j < m
            invariant
                n == s@.len(),
                m == needle@.len(),
                m <= n,
                i <= n - m,
                j <= m,
                same == (forall|k: int| 0 <= k < j ==> s@[i + k] == needle@[k]),
            decreases m - j,
        {
            if s.get_char(i + j) != needle.get_char(j) {
                same = false;
            }
            j = j + 1;
        }
        if same {
            assert(s@.subrange(i as int, i + m) =~= needle@);
            return true;
        } else {
            let ghost w = choose|k: int| 0 <= k < m && s@[i + k] != needle@[k];
            assert(s@.subrange(i as int, i + m)[w] != needle@[w]);
        }
        i = i + 1;
    }
    assert forall|k: int| 0 <= k <= n - m implies #[trigger] s@.subrange(k, k + m) != needle@ by {}
    false
}

/// What is left after trimming starts and ends with a character that is
/// not whitespace, and trimming it again changes nothing.
pub proof fn lemma_trim_ends(s: Seq<char>)
    ensures
        trim_spec(s).len() > 0 ==> !is_unicode_whitespace(trim_spec(s)[0]) && !is_unicode_whitespace(
            trim_spec(s).last(),
        ),
        trim_spec(s).len() <= s.len(),
{
    lemma_trim_start_shape(s);
    lemma_trim_end_shape(trim_start_spec(s));
}

proof fn lemma_trim_start_shape(s: Seq<char>)
    ensures
        trim_start_spec(s).len() <= s.len(),
        trim_start_spec(s).len() > 0 ==> !is_unicode_whitespace(trim_start_spec(s)[0]),
    decreases s.len(),
{
    if s.len() > 0 && is_unicode_whitespace(s[0]) {
        lemma_trim_start_shape(s.drop_first());
    }
}

proof fn lemma_trim_end_shape(s: Seq<char>)
    ensures
        trim_end_spec(s).len() <= s.len(),
        trim_end_spec(s).len() > 0 ==> !is_unicode_whitespace(trim_end_spec(s).last()),
        trim_end_spec(s).len() > 0 ==> trim_end_spec(s)[0] == s[0],
    decreases s.len(),
{
    if s.len() > 0 && is_unicode_whitespace(s.last()) {
        lemma_trim_end_shape(s.drop_last());
    }
}

} // verus!
