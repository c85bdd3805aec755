//! Text operations the game rules are phrased in: decimal rendering of numbers,
//! substring search, ASCII case-insensitive comparison and lowercasing.

use vstd::prelude::*;
use vstd::string::*;

verus! {

/// The character of the decimal digit `d` (for `d < 10`).
pub open spec fn digit_char(d: nat) -> char {
    (48 + d) as char
}

/// The decimal digits of `n`, most significant first, without leading zeros.
pub open spec fn decimal(n: nat) -> Seq<char>
    decreases n,
{
    if n < 10 {
        seq![digit_char(n)]
    } else {
        decimal(n / 10).push(digit_char(n % 10))
    }
}

/// How `{}` renders a signed integer: a minus sign before the digits of a negative one.
pub open spec fn signed_decimal(i: int) -> Seq<char> {
    if i < 0 {
        seq!['-'].add(decimal((-i) as nat))
    } else {
        decimal(i as nat)
    }
}

/// `pattern` occurs in `s` as a contiguous run of characters.
pub open spec fn has_substring(s: Seq<char>, pattern: Seq<char>) -> bool {
    exists|i: int| 0 <= i && i + pattern.len() <= s.len() && #[trigger] s.subrange(i, i + pattern.len()) == pattern
}

/// The code of `c` after ASCII uppercase letters are mapped to lowercase.
pub open spec fn ascii_fold(c: char) -> u32 {
    if 65 <= (c as u32) <= 90 {
        ((c as u32) + 32) as u32
    } else {
        c as u32
    }
}

/// The two texts are equal once ASCII letters are compared without regard to case.
pub open spec fn eq_ignore_ascii_case(a: Seq<char>, b: Seq<char>) -> bool {
    a.len() == b.len() && forall|i: int| 0 <= i < a.len() ==> #[trigger] ascii_fold(a[i]) == ascii_fold(b[i])
}

/// Every character of the text is ASCII.
pub open spec fn is_ascii_text(s: Seq<char>) -> bool {
    forall|i: int| 0 <= i < s.len() ==> (#[trigger] s[i] as u32) < 128
}

/// The character has no ASCII uppercase letter form (it is left alone by ASCII lowercasing).
pub open spec fn not_ascii_upper(c: char) -> bool {
    !(65 <= (c as u32) <= 90)
}

/// `lower` is `s` with every ASCII uppercase letter replaced by its lowercase
/// letter, character for character.
pub open spec fn is_ascii_lowercase_of(lower: Seq<char>, s: Seq<char>) -> bool {
    &&& lower.len() == s.len()
    &&& forall|i: int| 0 <= i < s.len() ==> (#[trigger] lower[i] as u32) == ascii_fold(s[i])
}

/// `pattern` occurs in `s` when ASCII letters are compared without regard to case.
pub open spec fn has_substring_any_case(s: Seq<char>, pattern: Seq<char>) -> bool {
    exists|i: int| 0 <= i && i + pattern.len() <= s.len() && eq_ignore_ascii_case(#[trigger] s.subrange(i, i + pattern.len()), pattern)
}

proof fn lemma_char_code_injective(a: char, b: char)
    requires
        a as u32 == b as u32,
    ensures
        a == b,
{
}

/// Searching the ASCII-lowercased form of a text for a pattern without ASCII
/// uppercase letters finds it exactly where it occurs in the text in any
/// ASCII case.
pub proof fn law_lowercase_search_ignores_ascii_case(s: Seq<char>, lower: Seq<char>, pattern: Seq<char>)
    requires
        is_ascii_lowercase_of(lower, s),
        forall|k: int| 0 <= k < pattern.len() ==> not_ascii_upper(#[trigger] pattern[k]),
    ensures
        has_substring(lower, pattern) <==> has_substring_any_case(s, pattern),
{
    let m = pattern.len() as int;
    if has_substring(lower, pattern) {
        let i = choose|i: int| 0 <= i && i + m <= lower.len() && #[trigger] lower.subrange(i, i + m) == pattern;
        let sub = s.subrange(i, i + m);
        assert forall|k: int| 0 <= k < sub.len() implies #[trigger] ascii_fold(sub[k]) == ascii_fold(pattern[k]) by {
            assert(lower.subrange(i, i + m)[k] == lower[i + k]);
            assert(lower[i + k] as u32 == ascii_fold(s[i + k]));
            assert(not_ascii_upper(pattern[k]));
        }
        assert(eq_ignore_ascii_case(s.subrange(i, i + m), pattern));
    }
    if has_substring_any_case(s, pattern) {
        let i = choose|i: int| 0 <= i && i + m <= s.len() && eq_ignore_ascii_case(#[trigger] s.subrange(i, i + m), pattern);
        let sub = s.subrange(i, i + m);
        assert forall|k: int| 0 <= k < m implies #[trigger] lower.subrange(i, i + m)[k] == pattern[k] by {
            assert(sub[k] == s[i + k]);
            assert(ascii_fold(sub[k]) == ascii_fold(pattern[k]));
            assert(not_ascii_upper(pattern[k]));
            assert(lower[i + k] as u32 == ascii_fold(s[i + k]));
            assert(ascii_fold(pattern[k]) == pattern[k] as u32);
            assert(lower[i + k] as u32 == pattern[k] as u32);
            lemma_char_code_injective(lower[i + k], pattern[k]);
            assert(lower.subrange(i, i + m)[k] == lower[i + k]);
        }
        assert(lower.subrange(i, i + m) =~= pattern);
    }
}

/// The Unicode lowercase mapping of a text, as `str::to_lowercase` computes it.
pub uninterp spec fn lowercase_of(s: Seq<char>) -> Seq<char>;

fn digit_text(d: u64) -> (r: &'static str)
    requires
        d < 10,
    ensures
        r@ == seq![digit_char(d as nat)],
{
    match d {
        0 => { proof { reveal_strlit("0"); } "0" },
        1 => { proof { reveal_strlit("1"); } "1" },
        2 => { proof { reveal_strlit("2"); } "2" },
        3 => { proof { reveal_strlit("3"); } "3" },
        4 => { proof { reveal_strlit("4"); } "4" },
        5 => { proof { reveal_strlit("5"); } "5" },
        6 => { proof { reveal_strlit("6"); } "6" },
        7 => { proof { reveal_strlit("7"); } "7" },
        8 => { proof { reveal_strlit("8"); } "8" },
        _ => { proof { reveal_strlit("9"); } "9" },
    }
}

/// Renders `n` in decimal.
pub fn decimal_text(n: u64) -> (r: String)
    ensures
        r@ == decimal(n as nat),
    decreases n,
{
    if n < 10 {
        String::from_str(digit_text(n))
    } else {
        let mut r = decimal_text(n / 10);
        r.append(digit_text(n % 10));
        r
    }
}

/// Renders `i` the way `{}` formats an `i32`.
pub fn signed_decimal_text(i: i32) -> (r: String)
    ensures
        r@ == signed_decimal(i as int),
{
    if i < 0 {
        let magnitude: i64 = -(i as i64);
        let digits = decimal_text(magnitude as u64);
        proof { reveal_strlit("-"); }
        String::from_str("-").concat(digits.as_str())
    } else {
        decimal_text(i as u64)
    }
}

/// Whether `pattern` occurs in `s`, as `str::contains` with a string pattern answers.
pub fn contains_text(s: &str, pattern: &str) -> (r: bool)
    ensures
        r == has_substring(s@, pattern@),
{
    let n = s.unicode_len();
    let m = pattern.unicode_len();
    if m > n {
        assert forall|i: int| 0 <= i && i + m <= n implies #[trigger] s@.subrange(i, i + pattern@.len()) != pattern@ by {}
        return false;
    }
    let mut i: usize = 0;
    while i <= n - m
        invariant
            n == s@.len(),
            m == pattern@.len(),
            m <= n,
            i <= n - m + 1,
            forall|k: int| 0 <= k < i ==> #[trigger] s@.subrange(k, k + pattern@.len()) != pattern@,
        decreases n - i,
    {
        let mut j: usize = 0;
        let mut same = true;
        while j < m
            invariant
                n == s@.len(),
                m == pattern@.len(),
                i + m <= n,
                j <= m,
                same == forall|t: int| 0 <= t < j ==> s@[i + t] == pattern@[t],
            decreases m - j,
        {
            if s.get_char(i + j) != pattern.get_char(j) {
                same = false;
            }
            j = j + 1;
        }
        if same {
            assert(s@.subrange(i as int, i + pattern@.len()) =~= pattern@);
            return true;
        }
        assert(s@.subrange(i as int, i + pattern@.len()) != pattern@) by {
            let t = choose|t: int| 0 <= t < m && s@[i + t] != pattern@[t];
            assert(s@.subrange(i as int, i + pattern@.len())[t] == s@[i + t]);
        }
        i = i + 1;
    }
    false
}

fn ascii_fold_char(c: char) -> (r: u32)
    ensures
        r == ascii_fold(c),
{
    let code = c as u32;
    if 65 <= code && code <= 90 {
        code + 32
    } else {
        code
    }
}

/// Compares two texts ignoring the case of ASCII letters, as `str::eq_ignore_ascii_case` does.
pub fn eq_ignore_ascii_case_text(a: &str, b: &str) -> (r: bool)
    ensures
        r == eq_ignore_ascii_case(a@, b@),
{
    let n = a.unicode_len();
    if n != b.unicode_len() {
        return false;
    }
    let mut i: usize = 0;
    while i < n
        invariant
            n == a@.len(),
            n == b@.len(),
            i <= n,
            forall|k: int| 0 <= k < i ==> #[trigger] ascii_fold(a@[k]) == ascii_fold(b@[k]),
        decreases n - i,
    {
        if ascii_fold_char(a.get_char(i)) != ascii_fold_char(b.get_char(i)) {
            assert(ascii_fold(a@[i as int]) != ascii_fold(b@[i as int]));
            return false;
        }
        i = i + 1;
    }
    true
}

/// The Unicode lowercase form of `s`.
///
/// Calls `str::to_lowercase`. Its result is given the name `lowercase_of`.
/// Of that mapping it is claimed that it is a function of the text and that on
/// an ASCII text it lowercases every ASCII letter in place, wherever it stands
/// (the Unicode lowercase of an ASCII letter is its ASCII lowercase, and other
/// ASCII characters are left alone). What it does to other characters (which
/// may expand into several) is not stated.
#[verifier::external_body]
pub(crate) fn lowercase_text(s: &str) -> (r: String)
    ensures
        r@ == lowercase_of(s@),
        is_ascii_text(s@) ==> is_ascii_lowercase_of(r@, s@),
{
    s.to_lowercase()
}

} // verus!
