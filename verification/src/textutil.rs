//! Small text utilities: string equality, ASCII case folding with
//! case-insensitive substring search, HTML tag stripping, and the URL
//! percent-encoding that the feed endpoints need.

use vstd::prelude::*;

verus! {

/// Equality of two string slices, decided character by character.
pub fn str_eq(a: &str, b: &str) -> (r: bool)
    ensures
        r == (a@ == b@),
{
    let na = a.unicode_len();
    let nb = b.unicode_len();
    if na != nb {
        return false;
    }
    let mut i: usize = 0;
    while i < na
        invariant
            na == a@.len(),
            nb == b@.len(),
            na == nb,
            i <= na,
            forall|k: int| 0 <= k < i ==> a@[k] == b@[k],
        decreases na - i,
    {
        if a.get_char(i) != b.get_char(i) {
            return false;
        }
        i = i + 1;
    }
    assert(a@ =~= b@);
    true
}

/// ASCII lower-casing of a single character; anything outside 'A'..'Z'
/// is left alone.
pub open spec fn spec_lower_char(c: char) -> char {
    if 'A' <= c && c <= 'Z' {
        (((c as u8) + 32) as char)
    } else {
        c
    }
}

/// Folds one character to lowercase, ASCII only.
pub fn lower_char(c: char) -> (r: char)
    ensures
        r == spec_lower_char(c),
{
    if 'A' <= c && c <= 'Z' {
        ((c as u8) + 32) as char
    } else {
        c
    }
}

/// The pattern occurs in the text at position `i`, compared with ASCII
/// case folding.
pub open spec fn spec_matches_at(text: Seq<char>, pat: Seq<char>, i: int) -> bool {
    &&& 0 <= i
    &&& i + pat.len() <= text.len()
    &&& forall|j: int|
        0 <= j < pat.len() ==> spec_lower_char(text[i + j]) == #[trigger] spec_lower_char(pat[j])
}

/// The pattern occurs somewhere in the text, ASCII-case-insensitively.
pub open spec fn spec_contains_ci(text: Seq<char>, pat: Seq<char>) -> bool {
    exists|i: int| spec_matches_at(text, pat, i)
}

/// Case-insensitive (ASCII folding) substring search.
pub fn contains_ci(text: &str, pat: &str) -> (r: bool)
    ensures
        r == spec_contains_ci(text@, pat@),
{
    let n = text.unicode_len();
    let m = pat.unicode_len();
    if m > n {
        return false;
    }
    let mut i: usize = 0;
    while i <= n - m
        invariant
            n == text@.len(),
            m == pat@.len(),
            m <= n,
            i <= n - m + 1,
            forall|k: int| 0 <= k < i ==> !spec_matches_at(text@, pat@, k),
        decreases n - m + 1 - i,
    {
        let mut j: usize = 0;
        let mut all_match = true;
        while j < m
            invariant
                n == text@.len(),
                m == pat@.len(),
                m <= n,
                i <= n - m,
                j <= m,
                all_match == forall|l: int|
                    0 <= l < j ==> spec_lower_char(text@[i + l]) == #[trigger] spec_lower_char(
                        pat@[l],
                    ),
            decreases m - j,
        {
            if lower_char(text.get_char(i + j)) != lower_char(pat.get_char(j)) {
                all_match = false;
                j = m;
            } else {
                j = j + 1;
            }
        }
        if all_match {
            assert(spec_matches_at(text@, pat@, i as int));
            return true;
        }
        i = i + 1;
    }
    assert(forall|k: int| !spec_matches_at(text@, pat@, k)) by {
        assert forall|k: int| #[trigger] spec_matches_at(text@, pat@, k) implies false by {
            assert(0 <= k <= n - m);
        }
    }
    false
}

/// The pattern occurs in the text at position `i`, compared exactly.
pub open spec fn spec_matches_at_exact(text: Seq<char>, pat: Seq<char>, i: int) -> bool {
    &&& 0 <= i
    &&& i + pat.len() <= text.len()
    &&& forall|j: int| 0 <= j < pat.len() ==> text[i + j] == #[trigger] pat[j]
}

/// The pattern occurs somewhere in the text, compared exactly.
pub open spec fn spec_contains_exact(text: Seq<char>, pat: Seq<char>) -> bool {
    exists|i: int| spec_matches_at_exact(text, pat, i)
}

/// Case-sensitive substring search.
pub fn contains_str(text: &str, pat: &str) -> (r: bool)
    ensures
        r == spec_contains_exact(text@, pat@),
{
    let n = text.unicode_len();
    let m = pat.unicode_len();
    if m > n {
        return false;
    }
    let mut i: usize = 0;
    while i <= n - m
        invariant
            n == text@.len(),
            m == pat@.len(),
            m <= n,
            i <= n - m + 1,
            forall|k: int| 0 <= k < i ==> !spec_matches_at_exact(text@, pat@, k),
        decreases n - m + 1 - i,
    {
        let mut j: usize = 0;
        let mut all_match = true;
        while j < m
            invariant
                n == text@.len(),
                m == pat@.len(),
                m <= n,
                i <= n - m,
                j <= m,
                all_match == forall|l: int| 0 <= l < j ==> text@[i + l] == #[trigger] pat@[l],
            decreases m - j,
        {
            if text.get_char(i + j) != pat.get_char(j) {
                all_match = false;
                j = m;
            } else {
                j = j + 1;
            }
        }
        if all_match {
            assert(spec_matches_at_exact(text@, pat@, i as int));
            return true;
        }
        i = i + 1;
    }
    assert(forall|k: int| !spec_matches_at_exact(text@, pat@, k)) by {
        assert forall|k: int| #[trigger] spec_matches_at_exact(text@, pat@, k) implies false by {
            assert(0 <= k <= n - m);
        }
    }
    false
}

/// The text ends with the pattern.
pub open spec fn spec_ends_with(text: Seq<char>, pat: Seq<char>) -> bool {
    pat.len() <= text.len() && spec_matches_at_exact(text, pat, text.len() - pat.len())
}

/// Suffix test, character by character.
pub fn ends_with(text: &str, pat: &str) -> (r: bool)
    ensures
        r == spec_ends_with(text@, pat@),
{
    let n = text.unicode_len();
    let m = pat.unicode_len();
    if m > n {
        return false;
    }
    let base = n - m;
    let mut j: usize = 0;
    while j < m
        invariant
            n == text@.len(),
            m == pat@.len(),
            m <= n,
            base == n - m,
            j <= m,
            forall|l: int| 0 <= l < j ==> text@[base + l] == #[trigger] pat@[l],
        decreases m - j,
    {
        if text.get_char(base + j) != pat.get_char(j) {
            return false;
        }
        j = j + 1;
    }
    true
}

/// Relies on std's FromIterator for String: collects the characters,
/// in order, into a fresh string.
#[verifier::external_body]
pub(crate) fn chars_to_string(v: &Vec<char>) -> (r: String)
    ensures
        r@ == v@,
{
    v.iter().collect()
}

/// What tag stripping leaves: every character outside angle brackets,
/// where `in_tag` says whether the walk starts inside a bracket pair.
pub open spec fn spec_strip_html(s: Seq<char>, in_tag: bool) -> Seq<char>
    decreases s.len(),
{
    if s.len() == 0 {
        seq![]
    } else if s.first() == '<' {
        spec_strip_html(s.drop_first(), true)
    } else if s.first() == '>' {
        spec_strip_html(s.drop_first(), false)
    } else if in_tag {
        spec_strip_html(s.drop_first(), true)
    } else {
        seq![s.first()] + spec_strip_html(s.drop_first(), false)
    }
}

/// Removes angle-bracketed tags from markup, keeping only the text
/// between them.
pub fn strip_html(s: &str) -> (r: String)
    ensures
        r@ == spec_strip_html(s@, false),
{
    let n = s.unicode_len();
    let mut out: Vec<char> = Vec::new();
    let mut in_tag = false;
    let mut i: usize = 0;
    proof {
        assert(s@.skip(0) =~= s@);
    }
    while i < n
        invariant
            n == s@.len(),
            i <= n,
            spec_strip_html(s@, false) == out@ + spec_strip_html(s@.skip(i as int), in_tag),
        decreases n - i,
    {
        let c = s.get_char(i);
        let ghost prev = out@;
        proof {
            assert(s@.skip(i as int).first() == s@[i as int]);
            assert(s@.skip(i as int).drop_first() =~= s@.skip(i as int + 1));
        }
        if c == '<' {
            in_tag = true;
        } else if c == '>' {
            in_tag = false;
        } else if !in_tag {
            out.push(c);
            proof {
                assert(out@ =~= prev + seq![c]);
            }
        }
        i = i + 1;
    }
    proof {
        assert(s@.skip(n as int) =~= Seq::<char>::empty());
        assert(spec_strip_html(s@, false) =~= out@);
    }
    chars_to_string(&out)
}

/// Percent-escaping of one character, for the handful of URL delimiters
/// the feed endpoints require; everything else passes through.
pub open spec fn spec_urlencode_char(c: char) -> Seq<char> {
    if c == ':' {
        seq!['%', '3', 'A']
    } else if c == '/' {
        seq!['%', '2', 'F']
    } else if c == '?' {
        seq!['%', '3', 'F']
    } else if c == '=' {
        seq!['%', '3', 'D']
    } else if c == '&' {
        seq!['%', '2', '6']
    } else {
        seq![c]
    }
}

/// Percent-escaping of a whole string.
pub open spec fn spec_urlencoded(s: Seq<char>) -> Seq<char>
    decreases s.len(),
{
    if s.len() == 0 {
        seq![]
    } else {
        spec_urlencode_char(s.first()) + spec_urlencoded(s.drop_first())
    }
}

/// Escapes the URL delimiters `:/?=&` so a URL can ride inside a query
/// parameter.
pub fn urlencoded(s: &str) -> (r: String)
    ensures
        r@ == spec_urlencoded(s@),
{
    let n = s.unicode_len();
    let mut out: Vec<char> = Vec::new();
    let mut i: usize = 0;
    proof {
        assert(s@.skip(0) =~= s@);
    }
    while i < n
        invariant
            n == s@.len(),
            i <= n,
            spec_urlencoded(s@) == out@ + spec_urlencoded(s@.skip(i as int)),
        decreases n - i,
    {
        let c = s.get_char(i);
        let ghost prev = out@;
        proof {
            assert(s@.skip(i as int).first() == s@[i as int]);
            assert(s@.skip(i as int).drop_first() =~= s@.skip(i as int + 1));
        }
        if c == ':' {
            out.push('%');
            out.push('3');
            out.push('A');
        } else if c == '/' {
            out.push('%');
            out.push('2');
            out.push('F');
        } else if c == '?' {
            out.push('%');
            out.push('3');
            out.push('F');
        } else if c == '=' {
            out.push('%');
            out.push('3');
            out.push('D');
        } else if c == '&' {
            out.push('%');
            out.push('2');
            out.push('6');
        } else {
            out.push(c);
        }
        proof {
            assert(out@ =~= prev + spec_urlencode_char(c));
        }
        i = i + 1;
    }
    proof {
        assert(s@.skip(n as int) =~= Seq::<char>::empty());
        assert(spec_urlencoded(s@) =~= out@);
    }
    chars_to_string(&out)
}

} // verus!
