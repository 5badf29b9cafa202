//! Text helpers: Unicode whitespace trimming, trailing-character stripping and
//! lowercasing.

use vstd::prelude::*;
use vstd::string::*;

verus! {

/// Characters with the Unicode `White_Space` property (what `char::is_whitespace` accepts).
pub open spec fn is_white_space(c: char) -> bool {
    let u = c as u32;
    ||| 0x9 <= u <= 0xd
    ||| u == 0x20
    ||| u == 0x85
    ||| u == 0xa0
    ||| u == 0x1680
    ||| 0x2000 <= u <= 0x200a
    ||| u == 0x2028
    ||| u == 0x2029
    ||| u == 0x202f
    ||| u == 0x205f
    ||| u == 0x3000
}

/// The number of leading characters of `s` that satisfy `p`.
pub open spec fn leading_run(s: Seq<char>, p: spec_fn(char) -> bool) -> nat
    decreases s.len(),
{
    if s.len() > 0 && p(s[0]) {
        1 + leading_run(s.drop_first(), p)
    } else {
        0
    }
}

/// The number of trailing characters of `s` that satisfy `p`.
pub open spec fn trailing_run(s: Seq<char>, p: spec_fn(char) -> bool) -> nat
    decreases s.len(),
{
    if s.len() > 0 && p(s.last()) {
        1 + trailing_run(s.drop_last(), p)
    } else {
        0
    }
}

/// `s` without its trailing characters that satisfy `p`.
pub open spec fn strip_end(s: Seq<char>, p: spec_fn(char) -> bool) -> Seq<char> {
    s.take(s.len() - trailing_run(s, p))
}

/// `s` without its leading and trailing whitespace (what `str::trim` returns).
pub open spec fn trim_spec(s: Seq<char>) -> Seq<char> {
    let ws = |c: char| is_white_space(c);
    strip_end(s.skip(leading_run(s, ws) as int), ws)
}

/// `s` without its trailing `/` characters.
pub open spec fn strip_trailing_slashes(s: Seq<char>) -> Seq<char> {
    strip_end(s, |c: char| c == '/')
}

pub proof fn lemma_leading_run(s: Seq<char>, p: spec_fn(char) -> bool, i: int)
    requires
        0 <= i <= s.len(),
        forall|k: int| 0 <= k < i ==> p(#[trigger] s[k]),
        i == s.len() || !p(s[i]),
    ensures
        leading_run(s, p) == i,
    decreases i,
{
    if i > 0 {
        let t = s.drop_first();
        assert forall|k: int| 0 <= k < i - 1 implies p(#[trigger] t[k]) by {
            assert(t[k] == s[k + 1]);
        }
        if i - 1 < t.len() {
            assert(t[i - 1] == s[i]);
        }
        lemma_leading_run(t, p, i - 1);
        assert(p(s[0]));
    }
}

pub proof fn lemma_trailing_run(s: Seq<char>, p: spec_fn(char) -> bool, m: int)
    requires
        0 <= m <= s.len(),
        forall|k: int| m <= k < s.len() ==> p(#[trigger] s[k]),
        m == 0 || !p(s[m - 1]),
    ensures
        trailing_run(s, p) == s.len() - m,
    decreases s.len() - m,
{
    if m < s.len() {
        let t = s.drop_last();
        assert forall|k: int| m <= k < t.len() implies p(#[trigger] t[k]) by {
            assert(t[k] == s[k]);
        }
        if m > 0 {
            assert(t[m - 1] == s[m - 1]);
        }
        lemma_trailing_run(t, p, m);
        assert(p(s[s.len() - 1]));
    } else {
        if s.len() > 0 {
            assert(!p(s.last()));
        }
    }
}

/// `char::is_whitespace`, written out over the Unicode `White_Space` list.
pub fn is_white_space_char(c: char) -> (r: bool)
    ensures
        r == is_white_space(c),
{
    let u: u32 = c as u32;
    (0x9 <= u && u <= 0xd) || u == 0x20 || u == 0x85 || u == 0xa0 || u == 0x1680 || (0x2000 <= u
        && u <= 0x200a) || u == 0x2028 || u == 0x2029 || u == 0x202f || u == 0x205f || u == 0x3000
}

/// Removes leading and trailing whitespace, as `str::trim` does.
pub fn trim(s: &str) -> (r: String)
    ensures
        r@ == trim_spec(s@),
{
    let ghost ws = |c: char| is_white_space(c);
    let n: usize = s.unicode_len();
    let mut i: usize = 0;
    while i < n && is_white_space_char(s.get_char(i))
        invariant
            n == s@.len(),
            i <= n,
            forall|k: int| 0 <= k < i ==> is_white_space(#[trigger] s@[k]),
        decreases n - i,
    {
        i = i + 1;
    }
    let mut j: usize = n;
    while j > i && is_white_space_char(s.get_char(j - 1))
        invariant
            n == s@.len(),
            i <= j <= n,
            forall|k: int| j <= k < n ==> is_white_space(#[trigger] s@[k]),
        decreases j,
    {
        j = j - 1;
    }
    proof {
        assert forall|k: int| 0 <= k < i implies ws(#[trigger] s@[k]) by {}
        lemma_leading_run(s@, ws, i as int);
        let t = s@.skip(i as int);
        assert forall|k: int| j - i <= k < t.len() implies ws(#[trigger] t[k]) by {
            assert(t[k] == s@[k + i]);
        }
        if j > i {
            assert(t[j - i - 1] == s@[j - 1]);
        }
        lemma_trailing_run(t, ws, j - i);
        assert(trim_spec(s@) =~= s@.subrange(i as int, j as int));
    }
    String::from_str(s.substring_char(i, j))
}

/// Removes trailing `/` characters, as `str::trim_end_matches('/')` does.
pub fn trim_trailing_slashes(s: &str) -> (r: String)
    ensures
        r@ == strip_trailing_slashes(s@),
{
    let ghost slash = |c: char| c == '/';
    let n: usize = s.unicode_len();
    let mut j: usize = n;
    while j > 0 && s.get_char(j - 1) == '/'
        invariant
            n == s@.len(),
            j <= n,
            forall|k: int| j <= k < n ==> #[trigger] s@[k] == '/',
        decreases j,
    {
        j = j - 1;
    }
    proof {
        assert forall|k: int| j <= k < n implies slash(#[trigger] s@[k]) by {}
        lemma_trailing_run(s@, slash, j as int);
        assert(strip_trailing_slashes(s@) =~= s@.subrange(0, j as int));
    }
    String::from_str(s.substring_char(0, j))
}

/// What `str::to_lowercase` gives on a text (Unicode lowercase mapping).
pub uninterp spec fn unicode_lowercase(s: Seq<char>) -> Seq<char>;

/// `str::to_lowercase` (std). Trusted: the result is `unicode_lowercase` of
/// the text, and it is empty exactly when the text is (std documents that
/// each character lowercases to one or more characters).
#[verifier::external_body]
pub(crate) fn to_lowercase(s: &str) -> (r: String)
    ensures
        r@ == unicode_lowercase(s@),
        r@.len() == 0 <==> s@.len() == 0,
{
    s.to_lowercase()
}

/// The number of characters of a text (`s.chars().count()`).
pub fn char_count(s: &str) -> (r: usize)
    ensures
        r == s@.len(),
{
    s.unicode_len()
}

/// The leading run of `p` is a prefix of characters satisfying `p`, followed
/// by the end or a character that does not.
pub proof fn lemma_leading_run_shape(s: Seq<char>, p: spec_fn(char) -> bool)
    ensures
        leading_run(s, p) <= s.len(),
        forall|k: int| 0 <= k < leading_run(s, p) ==> p(#[trigger] s[k]),
        leading_run(s, p) == s.len() || !p(s[leading_run(s, p) as int]),
    decreases s.len(),
{
    if s.len() > 0 && p(s[0]) {
        let t = s.drop_first();
        lemma_leading_run_shape(t, p);
        assert forall|k: int| 0 <= k < leading_run(s, p) implies p(#[trigger] s[k]) by {
            if k > 0 {
                assert(s[k] == t[k - 1]);
            }
        }
        if leading_run(s, p) < s.len() {
            assert(s[leading_run(s, p) as int] == t[leading_run(t, p) as int]);
        }
    }
}

/// The trailing run of `p` is a suffix of characters satisfying `p`, preceded
/// by the start or a character that does not.
pub proof fn lemma_trailing_run_shape(s: Seq<char>, p: spec_fn(char) -> bool)
    ensures
        trailing_run(s, p) <= s.len(),
        forall|k: int| s.len() - trailing_run(s, p) <= k < s.len() ==> p(#[trigger] s[k]),
        trailing_run(s, p) == s.len() || !p(s[s.len() - trailing_run(s, p) - 1]),
    decreases s.len(),
{
    if s.len() > 0 && p(s.last()) {
        let t = s.drop_last();
        lemma_trailing_run_shape(t, p);
        assert forall|k: int| s.len() - trailing_run(s, p) <= k < s.len() implies p(#[trigger] s[k]) by {
            if k < s.len() - 1 {
                assert(s[k] == t[k]);
            }
        }
        if trailing_run(s, p) < s.len() {
            assert(s[s.len() - trailing_run(s, p) - 1] == t[t.len() - trailing_run(t, p) - 1]);
        }
    }
}

/// Trimming keeps a contiguous part of the text and removes only whitespace
/// around it: all that is cut before and after is whitespace, and what is kept
/// is empty or starts and ends with a character that is not whitespace.
pub proof fn law_trim(s: Seq<char>)
    ensures
        exists|i: int, j: int|
            0 <= i <= j <= s.len() && trim_spec(s) == s.subrange(i, j) && (forall|k: int|
                0 <= k < i ==> is_white_space(#[trigger] s[k])) && (forall|k: int|
                j <= k < s.len() ==> is_white_space(#[trigger] s[k])) && (i < j ==> !is_white_space(s[i])
                && !is_white_space(s[j - 1])),
{
    let ws = |c: char| is_white_space(c);
    lemma_leading_run_shape(s, ws);
    let i = leading_run(s, ws) as int;
    let t = s.skip(i);
    lemma_trailing_run_shape(t, ws);
    let m = trailing_run(t, ws) as int;
    let j = s.len() - m;
    assert(trim_spec(s) =~= s.subrange(i, j));
    assert forall|k: int| j <= k < s.len() implies is_white_space(#[trigger] s[k]) by {
        assert(s[k] == t[k - i]);
        assert(ws(t[k - i]));
    }
    assert forall|k: int| 0 <= k < i implies is_white_space(#[trigger] s[k]) by {
        assert(ws(s[k]));
    }
    if i < j {
        assert(!ws(s[i])) by {
            assert(i < s.len());
        }
        assert(s[j - 1] == t[t.len() - m - 1]);
        assert(!ws(t[t.len() - m - 1]));
    }
}

/// Stripping trailing slashes keeps a prefix and removes only slashes: all
/// that is cut is `/`, and what is kept is empty or does not end with `/`.
pub proof fn law_strip_trailing_slashes(s: Seq<char>)
    ensures
        exists|j: int|
            0 <= j <= s.len() && strip_trailing_slashes(s) == s.take(j) && (forall|k: int|
                j <= k < s.len() ==> #[trigger] s[k] == '/') && (j > 0 ==> s[j - 1] != '/'),
{
    let slash = |c: char| c == '/';
    lemma_trailing_run_shape(s, slash);
    let j = s.len() - trailing_run(s, slash);
    assert forall|k: int| j <= k < s.len() implies #[trigger] s[k] == '/' by {
        assert(slash(s[k]));
    }
    if j > 0 {
        assert(!slash(s[j - 1]));
    }
}

} // verus!
