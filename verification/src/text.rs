//! Verified text utilities: character-level equality, whitespace trimming,
//! substring search, and whitespace tokenization over `&str` views.

use vstd::prelude::*;

verus! {

/// The whitespace characters that this library trims and splits on: the
/// Unicode White_Space set, the same characters that `str::trim` removes
/// and `str::split_whitespace` separates on.
pub open spec fn is_space_char(c: char) -> bool {
    c == '\u{0009}' || c == '\u{000A}' || c == '\u{000B}' || c == '\u{000C}'
        || c == '\u{000D}' || c == '\u{0020}' || c == '\u{0085}' || c == '\u{00A0}'
        || c == '\u{1680}' || c == '\u{2000}' || c == '\u{2001}' || c == '\u{2002}'
        || c == '\u{2003}' || c == '\u{2004}' || c == '\u{2005}' || c == '\u{2006}'
        || c == '\u{2007}' || c == '\u{2008}' || c == '\u{2009}' || c == '\u{200A}'
        || c == '\u{2028}' || c == '\u{2029}' || c == '\u{202F}' || c == '\u{205F}'
        || c == '\u{3000}'
}

/// Executable test for [`is_space_char`].
pub fn is_space(c: char) -> (r: bool)
    ensures
        r == is_space_char(c),
{
    c == '\u{0009}' || c == '\u{000A}' || c == '\u{000B}' || c == '\u{000C}'
        || c == '\u{000D}' || c == '\u{0020}' || c == '\u{0085}' || c == '\u{00A0}'
        || c == '\u{1680}' || c == '\u{2000}' || c == '\u{2001}' || c == '\u{2002}'
        || c == '\u{2003}' || c == '\u{2004}' || c == '\u{2005}' || c == '\u{2006}'
        || c == '\u{2007}' || c == '\u{2008}' || c == '\u{2009}' || c == '\u{200A}'
        || c == '\u{2028}' || c == '\u{2029}' || c == '\u{202F}' || c == '\u{205F}'
        || c == '\u{3000}'
}

/// Character-for-character string equality.
pub fn str_eq(a: &str, b: &str) -> (r: bool)
    ensures
        r == (a@ == b@),
{
    let la = a.unicode_len();
    let lb = b.unicode_len();
    if la != lb {
        return false;
    }
    let mut i: usize = 0;
    while i < la
        invariant
            la == a@.len(),
            la == b@.len(),
            i <= la,
            forall|j: int| 0 <= j < i ==> a@[j] == b@[j],
        decreases la - i,
    {
        if a.get_char(i) != b.get_char(i) {
            return false;
        }
        i += 1;
    }
    proof {
        assert(a@ =~= b@);
    }
    true
}

/// `needle` occurs as a contiguous run of characters inside `haystack`.
pub open spec fn spec_contains(haystack: Seq<char>, needle: Seq<char>) -> bool {
    exists|i: int|
        0 <= i && i + needle.len() <= haystack.len() && #[trigger] haystack.subrange(
            i,
            i + needle.len(),
        ) == needle
}

/// Substring search: does `haystack` contain `needle`?
///
/// The mode applier uses this to recognize the controller's
/// "not running" report in captured command output.
pub fn contains_str(haystack: &str, needle: &str) -> (r: bool)
    ensures
        r == spec_contains(haystack@, needle@),
{
    let lh = haystack.unicode_len();
    let ln = needle.unicode_len();
    if ln > lh {
        return false;
    }
    if ln == 0 {
        proof {
            assert(haystack@.subrange(0, 0 + needle@.len() as int) =~= needle@);
        }
        return true;
    }
    let mut i: usize = 0;
    while i <= lh - ln
        invariant
            lh == haystack@.len(),
            ln == needle@.len(),
            1 <= ln <= lh,
            i <= lh - ln + 1,
            forall|k: int|
                0 <= k < i ==> #[trigger] haystack@.subrange(k, k + needle@.len())
                    != needle@,
        decreases lh - i,
    {
        if match_at(haystack, needle, i) {
            return true;
        }
        i += 1;
    }
    false
}

/// Does `needle` occur in `haystack` starting exactly at position `i`?
fn match_at(haystack: &str, needle: &str, i: usize) -> (r: bool)
    requires
        i + needle@.len() <= haystack@.len(),
    ensures
        r == (haystack@.subrange(i as int, i + needle@.len()) == needle@),
{
    let lh = haystack.unicode_len();
    let ln = needle.unicode_len();
    let mut j: usize = 0;
    while j < ln
        invariant
            lh == haystack@.len(),
            ln == needle@.len(),
            i + ln <= lh,
            j <= ln,
            forall|m: int| 0 <= m < j ==> haystack@[i + m] == needle@[m],
        decreases ln - j,
    {
        if haystack.get_char(i + j) != needle.get_char(j) {
            proof {
                assert(haystack@.subrange(i as int, i + needle@.len())[j as int]
                    != needle@[j as int]);
            }
            return false;
        }
        j += 1;
    }
    proof {
        assert(haystack@.subrange(i as int, i + needle@.len()) =~= needle@);
    }
    true
}

/// The characters of `s` with leading whitespace removed.
pub open spec fn drop_leading_spaces(s: Seq<char>) -> Seq<char>
    decreases s.len(),
{
    if s.len() > 0 && is_space_char(s[0]) {
        drop_leading_spaces(s.drop_first())
    } else {
        s
    }
}

/// The characters of `s` with trailing whitespace removed.
pub open spec fn drop_trailing_spaces(s: Seq<char>) -> Seq<char>
    decreases s.len(),
{
    if s.len() > 0 && is_space_char(s.last()) {
        drop_trailing_spaces(s.drop_last())
    } else {
        s
    }
}

/// The characters of `s` with both leading and trailing whitespace removed.
pub open spec fn spec_trim(s: Seq<char>) -> Seq<char> {
    drop_trailing_spaces(drop_leading_spaces(s))
}

/// When the first `k` characters are whitespace and the character at `k`
/// (if any) is not, dropping leading whitespace is exactly skipping `k`.
proof fn lemma_drop_leading_spaces_skip(s: Seq<char>, k: int)
    requires
        0 <= k <= s.len(),
        forall|j: int| 0 <= j < k ==> is_space_char(s[j]),
        k == s.len() || !is_space_char(s[k]),
    ensures
        drop_leading_spaces(s) == s.skip(k),
    decreases k,
{
    if k == 0 {
        assert(s.skip(0) =~= s);
    } else {
        lemma_drop_leading_spaces_skip(s.drop_first(), k - 1);
        assert(s.drop_first().skip(k - 1) =~= s.skip(k));
    }
}

/// When the characters from `m` on are whitespace and the character at
/// `m - 1` (if any) is not, dropping trailing whitespace is taking `m`.
proof fn lemma_drop_trailing_spaces_take(s: Seq<char>, m: int)
    requires
        0 <= m <= s.len(),
        forall|j: int| m <= j < s.len() ==> is_space_char(s[j]),
        m == 0 || !is_space_char(s[m - 1]),
    ensures
        drop_trailing_spaces(s) == s.take(m),
    decreases s.len(),
{
    if s.len() > m {
        lemma_drop_trailing_spaces_take(s.drop_last(), m);
        assert(s.drop_last().take(m) =~= s.take(m));
    } else {
        assert(s.take(m) =~= s);
    }
}

/// A string free of whitespace at both ends trims to itself.
///
/// Together with an exact save (the state file holds the mode name and
/// nothing else) this gives the save-then-load round trip: loading trims,
/// and trimming such a name returns it unchanged.
pub proof fn lemma_trim_untouched(s: Seq<char>)
    requires
        s.len() > 0 ==> !is_space_char(s[0]),
        s.len() > 0 ==> !is_space_char(s[s.len() - 1]),
    ensures
        spec_trim(s) == s,
{
    lemma_drop_leading_spaces_skip(s, 0);
    assert(s.skip(0) =~= s);
    lemma_drop_trailing_spaces_take(s, s.len() as int);
    assert(s.take(s.len() as int) =~= s);
}

/// Removes leading and trailing whitespace, as the state loader does to
/// the raw file contents.
pub fn trim_str(s: &str) -> (r: String)
    ensures
        r@ == spec_trim(s@),
{
    let n = s.unicode_len();
    let mut start: usize = 0;
    while start < n && is_space(s.get_char(start))
        invariant
            n == s@.len(),
            start <= n,
            forall|j: int| 0 <= j < start ==> is_space_char(s@[j]),
        decreases n - start,
    {
        start += 1;
    }
    let mut end: usize = n;
    while end > start && is_space(s.get_char(end - 1))
        invariant
            n == s@.len(),
            start <= end <= n,
            forall|j: int| end <= j < n ==> is_space_char(s@[j]),
        decreases end,
    {
        end -= 1;
    }
    proof {
        lemma_drop_leading_spaces_skip(s@, start as int);
        lemma_drop_trailing_spaces_take(s@.skip(start as int), end - start);
        assert(s@.skip(start as int).take(end - start) =~= s@.subrange(
            start as int,
            end as int,
        ));
    }
    String::from_str(s.substring_char(start, end))
}

/// The first position at or after `i` that holds a whitespace character
/// (or the end of `s`): the end of the token that starts at `i`.
pub open spec fn token_end(s: Seq<char>, i: int) -> int
    decreases s.len() - i,
{
    if i < 0 || i >= s.len() || is_space_char(s[i]) {
        i
    } else {
        token_end(s, i + 1)
    }
}

/// A token's end never lies before its start nor past the end of `s`.
pub proof fn lemma_token_end_bounds(s: Seq<char>, i: int)
    requires
        0 <= i <= s.len(),
    ensures
        i <= token_end(s, i) <= s.len(),
    decreases s.len() - i,
{
    if i < s.len() && !is_space_char(s[i]) {
        lemma_token_end_bounds(s, i + 1);
    }
}

/// When the characters in `[i, j)` are not whitespace and `j` is the end
/// of `s` or a whitespace position, the token starting at `i` ends at `j`.
pub proof fn lemma_token_end_at(s: Seq<char>, i: int, j: int)
    requires
        0 <= i <= j <= s.len(),
        forall|k: int| i <= k < j ==> !is_space_char(s[k]),
        j == s.len() || is_space_char(s[j]),
    ensures
        token_end(s, i) == j,
    decreases j - i,
{
    if i < j {
        lemma_token_end_at(s, i + 1, j);
    }
}

/// The whitespace-separated tokens of `s` from position `i` on, in order.
pub open spec fn spec_tokens_from(s: Seq<char>, i: int) -> Seq<Seq<char>>
    decreases s.len() - i,
{
    if i < 0 || i >= s.len() {
        Seq::empty()
    } else if is_space_char(s[i]) {
        spec_tokens_from(s, i + 1)
    } else {
        proof {
            lemma_token_end_bounds(s, i + 1);
        }
        seq![s.subrange(i, token_end(s, i))] + spec_tokens_from(s, token_end(s, i))
    }
}

/// The whitespace-separated tokens of `s`, in order.
pub open spec fn spec_tokens(s: Seq<char>) -> Seq<Seq<char>> {
    spec_tokens_from(s, 0)
}

/// Splits on whitespace, as the command runners split a command line
/// into the program name and its arguments.
pub fn split_whitespace_tokens(s: &str) -> (tokens: Vec<String>)
    ensures
        tokens@.map_values(|t: String| t@) == spec_tokens(s@),
{
    let n = s.unicode_len();
    let mut tokens: Vec<String> = Vec::new();
    let mut i: usize = 0;
    proof {
        assert(tokens@.map_values(|t: String| t@) + spec_tokens_from(s@, 0) =~= spec_tokens(
            s@,
        ));
    }
    while i < n
        invariant
            n == s@.len(),
            i <= n,
            tokens@.map_values(|t: String| t@) + spec_tokens_from(s@, i as int)
                == spec_tokens(s@),
        decreases n - i,
    {
        if is_space(s.get_char(i)) {
            i += 1;
        } else {
            let mut j: usize = i + 1;
            while j < n && !is_space(s.get_char(j))
                invariant
                    n == s@.len(),
                    i < j <= n,
                    forall|k: int| i <= k < j ==> !is_space_char(s@[k]),
                decreases n - j,
            {
                j += 1;
            }
            let ghost prev = tokens@.map_values(|t: String| t@);
            let ghost tok = s@.subrange(i as int, j as int);
            tokens.push(String::from_str(s.substring_char(i, j)));
            proof {
                lemma_token_end_at(s@, i as int, j as int);
                assert(tokens@.map_values(|t: String| t@) =~= prev.push(tok));
                assert(prev.push(tok) + spec_tokens_from(s@, j as int) =~= prev + (seq![tok]
                    + spec_tokens_from(s@, j as int)));
            }
            i = j;
        }
    }
    proof {
        assert(tokens@.map_values(|t: String| t@) + spec_tokens_from(s@, i as int)
            =~= tokens@.map_values(|t: String| t@));
    }
    tokens
}

} // verus!
