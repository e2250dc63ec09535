//! Character and substring utilities shared by the log parser and the
//! metadata extractor: ASCII-case-insensitive matching, first-occurrence
//! search, trimming, and digit runs.

use vstd::prelude::*;

verus! {

/// Code point of `c` with ASCII upper-case letters folded to lower case.
pub open spec fn lower_code(c: char) -> int {
    if 'A' as int <= c as int && c as int <= 'Z' as int {
        c as int + 32
    } else {
        c as int
    }
}

/// Whether two characters are equal up to ASCII case.
pub open spec fn eq_ci(a: char, b: char) -> bool {
    lower_code(a) == lower_code(b)
}

pub fn chars_eq_ci(a: char, b: char) -> (r: bool)
    ensures
        r == eq_ci(a, b),
{
    let au = a as u32;
    let bu = b as u32;
    let al: u32 = if 65 <= au && au <= 90 { au + 32 } else { au };
    let bl: u32 = if 65 <= bu && bu <= 90 { bu + 32 } else { bu };
    al == bl
}

/// `pat` occurs at offset `i` of `s`, up to ASCII case.
pub open spec fn matches_ci_at(s: Seq<char>, pat: Seq<char>, i: int) -> bool {
    &&& 0 <= i
    &&& i + pat.len() <= s.len()
    &&& forall|j: int| 0 <= j < pat.len() ==> eq_ci(s[i + j], pat[j])
}

/// `pat` occurs at offset `i` of `s`, exactly.
pub open spec fn matches_at(s: Seq<char>, pat: Seq<char>, i: int) -> bool {
    &&& 0 <= i
    &&& i + pat.len() <= s.len()
    &&& forall|j: int| 0 <= j < pat.len() ==> s[i + j] == pat[j]
}

/// Offset of the first case-insensitive occurrence of `pat` in `s` at or
/// after `k`, if any.
pub open spec fn find_ci_from(s: Seq<char>, pat: Seq<char>, k: int) -> Option<int>
    decreases s.len() - k,
{
    if k < 0 || k + pat.len() > s.len() {
        None
    } else if matches_ci_at(s, pat, k) {
        Some(k)
    } else {
        find_ci_from(s, pat, k + 1)
    }
}

/// Offset of the first exact occurrence of `pat` in `s` at or after `k`.
pub open spec fn find_from(s: Seq<char>, pat: Seq<char>, k: int) -> Option<int>
    decreases s.len() - k,
{
    if k < 0 || k + pat.len() > s.len() {
        None
    } else if matches_at(s, pat, k) {
        Some(k)
    } else {
        find_from(s, pat, k + 1)
    }
}

pub open spec fn contains_ci(s: Seq<char>, pat: Seq<char>) -> bool {
    find_ci_from(s, pat, 0) is Some
}

/// First case-insensitive occurrence of `pat` in `s`.
pub fn find_ci(s: &str, pat: &str) -> (r: Option<usize>)
    ensures
        (match r {
            Some(i) => find_ci_from(s@, pat@, 0) == Some(i as int) && matches_ci_at(
                s@,
                pat@,
                i as int,
            ),
            None => find_ci_from(s@, pat@, 0) is None,
        }),
{
    let n = s.unicode_len();
    let m = pat.unicode_len();
    if m > n {
        return None;
    }
    let mut i: usize = 0;
    loop
        invariant
            n == s@.len(),
            m == pat@.len(),
            m <= n,
            0 <= i <= n - m + 1,
            find_ci_from(s@, pat@, 0) == find_ci_from(s@, pat@, i as int),
        decreases n - m + 1 - i,
    {
        if i > n - m {
            return None;
        }
        let mut j: usize = 0;
        let mut ok = true;
        while ok && j < m
            invariant
                n == s@.len(),
                m == pat@.len(),
                i + m <= n,
                0 <= j <= m,
                ok ==> forall|q: int| 0 <= q < j ==> eq_ci(s@[i + q], pat@[q]),
                !ok ==> !matches_ci_at(s@, pat@, i as int),
            decreases m - j + (if ok { 1int } else { 0int }),
        {
            if chars_eq_ci(s.get_char(i + j), pat.get_char(j)) {
                j = j + 1;
            } else {
                ok = false;
            }
        }
        if ok {
            assert(matches_ci_at(s@, pat@, i as int));
            return Some(i);
        }
        i = i + 1;
    }
}

/// First exact occurrence of `pat` in `s`.
pub fn find_exact(s: &str, pat: &str) -> (r: Option<usize>)
    ensures
        (match r {
            Some(i) => find_from(s@, pat@, 0) == Some(i as int) && matches_at(
                s@,
                pat@,
                i as int,
            ),
            None => find_from(s@, pat@, 0) is None,
        }),
{
    let n = s.unicode_len();
    let m = pat.unicode_len();
    if m > n {
        return None;
    }
    let mut i: usize = 0;
    loop
        invariant
            n == s@.len(),
            m == pat@.len(),
            m <= n,
            0 <= i <= n - m + 1,
            find_from(s@, pat@, 0) == find_from(s@, pat@, i as int),
        decreases n - m + 1 - i,
    {
        if i > n - m {
            return None;
        }
        let mut j: usize = 0;
        let mut ok = true;
        while ok && j < m
            invariant
                n == s@.len(),
                m == pat@.len(),
                i + m <= n,
                0 <= j <= m,
                ok ==> forall|q: int| 0 <= q < j ==> s@[i + q] == pat@[q],
                !ok ==> !matches_at(s@, pat@, i as int),
            decreases m - j + (if ok { 1int } else { 0int }),
        {
            if s.get_char(i + j) == pat.get_char(j) {
                j = j + 1;
            } else {
                ok = false;
            }
        }
        if ok {
            assert(matches_at(s@, pat@, i as int));
            return Some(i);
        }
        i = i + 1;
    }
}

/// Whether `pat` occurs at offset `i` of `s`, up to ASCII case.
pub fn matches_ci_here(s: &str, i: usize, pat: &str) -> (r: bool)
    requires
        i <= s@.len(),
    ensures
        r == matches_ci_at(s@, pat@, i as int),
{
    let n = s.unicode_len();
    let m = pat.unicode_len();
    if m > n - i {
        return false;
    }
    let mut j: usize = 0;
    while j < m
        invariant
            n == s@.len(),
            m == pat@.len(),
            i + m <= n,
            0 <= j <= m,
            forall|q: int| 0 <= q < j ==> eq_ci(s@[i + q], pat@[q]),
        decreases m - j,
    {
        if !chars_eq_ci(s.get_char(i + j), pat.get_char(j)) {
            return false;
        }
        j = j + 1;
    }
    true
}

/// Whether `s` contains `pat` up to ASCII case.
pub fn has_ci(s: &str, pat: &str) -> (r: bool)
    ensures
        r == contains_ci(s@, pat@),
{
    find_ci(s, pat).is_some()
}

/// Whether the views of two string slices are equal.
pub fn str_eq(a: &str, b: &str) -> (r: bool)
    ensures
        r == (a@ == b@),
{
    let n = a.unicode_len();
    if n != b.unicode_len() {
        return false;
    }
    let mut i: usize = 0;
    while i < n
        invariant
            n == a@.len(),
            n == b@.len(),
            0 <= i <= n,
            forall|q: int| 0 <= q < i ==> a@[q] == b@[q],
        decreases n - i,
    {
        if a.get_char(i) != b.get_char(i) {
            return false;
        }
        i = i + 1;
    }
    assert(a@ =~= b@);
    true
}

// --- whitespace and trimming ---

/// ASCII whitespace, the set relevant to the log formats handled here.
pub open spec fn is_ws(c: char) -> bool {
    c == ' ' || c == '\t' || c == '\n' || c == '\r' || c == '\u{b}' || c == '\u{c}'
}

pub fn char_is_ws(c: char) -> (r: bool)
    ensures
        r == is_ws(c),
{
    c == ' ' || c == '\t' || c == '\n' || c == '\r' || c == '\u{b}' || c == '\u{c}'
}

/// `s` with leading and trailing whitespace removed.
pub open spec fn trim_spec(s: Seq<char>) -> Seq<char>
    decreases s.len(),
{
    if s.len() == 0 {
        s
    } else if is_ws(s[0]) {
        trim_spec(s.drop_first())
    } else if is_ws(s.last()) {
        trim_spec(s.drop_last())
    } else {
        s
    }
}

proof fn lemma_trim_subrange(s: Seq<char>, a: int, b: int)
    requires
        0 <= a <= b <= s.len(),
        forall|i: int| 0 <= i < a ==> is_ws(s[i]),
        forall|i: int| b <= i < s.len() ==> is_ws(s[i]),
        a < b ==> !is_ws(s[a]) && !is_ws(s[b - 1]),
        a == b ==> a == 0 && b == 0,
    ensures
        trim_spec(s) == s.subrange(a, b),
    decreases s.len(),
{
    if s.len() == 0 {
        assert(trim_spec(s) =~= s.subrange(a, b));
    } else if a == b {
        // b == 0, so every index lies at or past b and the string is all
        // whitespace; trimming it yields the empty sequence.
        assert(is_ws(s[0]));
        lemma_trim_all_ws(s);
        assert(trim_spec(s) =~= s.subrange(a, b));
    } else if is_ws(s[0]) {
        assert(a >= 1) by {
            if a == 0 {
                assert(!is_ws(s[a]));
            }
        }
        let t = s.drop_first();
        assert(forall|i: int| 0 <= i < a - 1 ==> is_ws(#[trigger] t[i]));
        assert(forall|i: int| b - 1 <= i < t.len() ==> is_ws(#[trigger] t[i]));
        lemma_trim_subrange(t, a - 1, b - 1);
        assert(t.subrange(a - 1, b - 1) =~= s.subrange(a, b));
    } else {
        // a == 0: a non-whitespace head cannot sit below the trimmed start.
        assert(a == 0) by {
            if a > 0 {
                assert(is_ws(s[0]));
            }
        }
        if is_ws(s.last()) {
            assert(b < s.len()) by {
                if b == s.len() {
                    assert(!is_ws(s[b - 1]));
                }
            }
            let t = s.drop_last();
            assert(forall|i: int| b <= i < t.len() ==> is_ws(#[trigger] t[i]));
            lemma_trim_subrange(t, a, b);
            assert(t.subrange(a, b) =~= s.subrange(a, b));
        } else {
            assert(b == s.len()) by {
                if b < s.len() {
                    assert(is_ws(s[s.len() - 1]));
                }
            }
            assert(trim_spec(s) == s);
            assert(s.subrange(0, s.len() as int) =~= s);
        }
    }
}

proof fn lemma_trim_all_ws(s: Seq<char>)
    requires
        forall|i: int| 0 <= i < s.len() ==> is_ws(s[i]),
    ensures
        trim_spec(s) == Seq::<char>::empty(),
    decreases s.len(),
{
    if s.len() == 0 {
        assert(trim_spec(s) =~= Seq::<char>::empty());
    } else {
        let t = s.drop_first();
        assert(forall|i: int| 0 <= i < t.len() ==> is_ws(#[trigger] t[i]));
        lemma_trim_all_ws(t);
    }
}

/// `s` with leading and trailing whitespace removed.
pub fn trim_str<'a>(s: &'a str) -> (r: &'a str)
    ensures
        r@ == trim_spec(s@),
{
    let n = s.unicode_len();
    let mut a: usize = 0;
    while a < n && char_is_ws(s.get_char(a))
        invariant
            n == s@.len(),
            0 <= a <= n,
            forall|i: int| 0 <= i < a ==> is_ws(s@[i]),
        decreases n - a,
    {
        a = a + 1;
    }
    let mut b: usize = n;
    while b > a && char_is_ws(s.get_char(b - 1))
        invariant
            n == s@.len(),
            a <= b <= n,
            forall|i: int| b <= i < n ==> is_ws(s@[i]),
        decreases b,
    {
        b = b - 1;
    }
    proof {
        if a == b {
            // Only an all-whitespace string ends with an empty window, and
            // then the head scan consumed everything: a == n and b == n, but
            // the tail scan starts at n and stops only at a. Re-express the
            // window at the origin.
            assert(forall|i: int| 0 <= i < s@.len() ==> is_ws(s@[i]));
            lemma_trim_all_ws(s@);
        } else {
            lemma_trim_subrange(s@, a as int, b as int);
        }
    }
    let r = s.substring_char(a, b);
    proof {
        if a == b {
            assert(r@ =~= Seq::<char>::empty());
        }
    }
    r
}

// --- character classes and runs ---

pub open spec fn is_digit(c: char) -> bool {
    '0' as int <= c as int && c as int <= '9' as int
}

pub open spec fn digit_val(c: char) -> int {
    c as int - '0' as int
}

pub open spec fn is_hex_digit(c: char) -> bool {
    is_digit(c) || ('a' as int <= c as int && c as int <= 'f' as int) || ('A' as int <= c as int
        && c as int <= 'F' as int)
}

pub open spec fn hex_digit_val(c: char) -> int {
    if is_digit(c) {
        c as int - '0' as int
    } else if 'a' as int <= c as int && c as int <= 'f' as int {
        c as int - 'a' as int + 10
    } else {
        c as int - 'A' as int + 10
    }
}

/// The classes of characters over which the parsers take maximal runs.
#[derive(Clone, Copy, Debug)]
pub enum CharClass {
    /// An ASCII decimal digit.
    Digit,
    /// A separator accepted between a keyword and a captured value:
    /// space, `=` or `:`.
    Sep,
    /// Whitespace.
    Ws,
    /// A decimal digit or `.`, the shape of a fractional number.
    NumDot,
    /// A character whose lower-case form is a hex digit or `x`, the shape of
    /// a (possibly `0x`-prefixed) block hash.
    HexX,
}

pub open spec fn in_class(cl: CharClass, c: char) -> bool {
    match cl {
        CharClass::Digit => is_digit(c),
        CharClass::Sep => c == ' ' || c == '=' || c == ':',
        CharClass::Ws => is_ws(c),
        CharClass::NumDot => is_digit(c) || c == '.',
        CharClass::HexX => is_digit(c) || ('a' as int <= lower_code(c) && lower_code(c)
            <= 'f' as int) || lower_code(c) == 'x' as int,
    }
}

pub fn char_in_class(cl: CharClass, c: char) -> (r: bool)
    ensures
        r == in_class(cl, c),
{
    let u = c as u32;
    match cl {
        CharClass::Digit => 48 <= u && u <= 57,
        CharClass::Sep => c == ' ' || c == '=' || c == ':',
        CharClass::Ws => char_is_ws(c),
        CharClass::NumDot => (48 <= u && u <= 57) || c == '.',
        CharClass::HexX => {
            let l: u32 = if 65 <= u && u <= 90 { u + 32 } else { u };
            (48 <= u && u <= 57) || (97 <= l && l <= 102) || l == 120
        },
    }
}

/// End of the maximal run of `cl` characters beginning at `k`.
pub open spec fn run_end(s: Seq<char>, k: int, cl: CharClass) -> int
    decreases s.len() - k,
{
    if 0 <= k < s.len() && in_class(cl, s[k]) {
        run_end(s, k + 1, cl)
    } else {
        k
    }
}

/// Scans the maximal run of `cl` characters beginning at `from`.
pub fn scan_run(s: &str, from: usize, cl: CharClass) -> (r: usize)
    requires
        from <= s@.len(),
    ensures
        r as int == run_end(s@, from as int, cl),
        from <= r <= s@.len(),
{
    let n = s.unicode_len();
    let mut i: usize = from;
    while i < n && char_in_class(cl, s.get_char(i))
        invariant
            n == s@.len(),
            from <= i <= n,
            run_end(s@, from as int, cl) == run_end(s@, i as int, cl),
        decreases n - i,
    {
        i = i + 1;
    }
    i
}

// --- numeric values of digit sequences ---

/// Value of `t` read as a decimal numeral, ignoring any `.` characters
/// (so `425` and `42.5` share the mantissa 425).
pub open spec fn mantissa_of(t: Seq<char>) -> int
    decreases t.len(),
{
    if t.len() == 0 {
        0
    } else if t.last() == '.' {
        mantissa_of(t.drop_last())
    } else {
        mantissa_of(t.drop_last()) * 10 + digit_val(t.last())
    }
}

/// Value of `t` read as a hexadecimal numeral.
pub open spec fn hex_val(t: Seq<char>) -> int
    decreases t.len(),
{
    if t.len() == 0 {
        0
    } else {
        hex_val(t.drop_last()) * 16 + hex_digit_val(t.last())
    }
}

pub open spec fn all_digits(t: Seq<char>) -> bool {
    forall|i: int| 0 <= i < t.len() ==> is_digit(t[i])
}

pub open spec fn all_hex(t: Seq<char>) -> bool {
    forall|i: int| 0 <= i < t.len() ==> is_hex_digit(t[i])
}

pub open spec fn has_dot(t: Seq<char>) -> bool {
    exists|i: int| 0 <= i < t.len() && t[i] == '.'
}

pub open spec fn dot_count(t: Seq<char>) -> int
    decreases t.len(),
{
    if t.len() == 0 {
        0
    } else {
        dot_count(t.drop_last()) + if t.last() == '.' {
            1int
        } else {
            0int
        }
    }
}

pub open spec fn digit_count(t: Seq<char>) -> int
    decreases t.len(),
{
    if t.len() == 0 {
        0
    } else {
        digit_count(t.drop_last()) + if is_digit(t.last()) {
            1int
        } else {
            0int
        }
    }
}

/// Number of digits after the (single) dot of `t`; 0 when there is no dot.
pub open spec fn scale_of(t: Seq<char>) -> int
    decreases t.len(),
{
    if t.len() == 0 {
        0
    } else if t.last() == '.' {
        0
    } else if has_dot(t.drop_last()) {
        scale_of(t.drop_last()) + 1
    } else {
        0
    }
}

pub proof fn lemma_mantissa_nonneg(t: Seq<char>)
    requires
        forall|i: int| 0 <= i < t.len() ==> is_digit(t[i]) || t[i] == '.',
    ensures
        mantissa_of(t) >= 0,
    decreases t.len(),
{
    if t.len() > 0 {
        lemma_mantissa_nonneg(t.drop_last());
    }
}

pub proof fn lemma_mantissa_prefix_le(t: Seq<char>, j: int)
    requires
        forall|i: int| 0 <= i < t.len() ==> is_digit(t[i]) || t[i] == '.',
        0 <= j <= t.len(),
    ensures
        mantissa_of(t.take(j)) <= mantissa_of(t),
    decreases t.len() - j,
{
    if j < t.len() {
        let u = t.take(j + 1);
        assert(u.drop_last() =~= t.take(j));
        lemma_mantissa_nonneg(t.take(j));
        lemma_mantissa_prefix_le(t, j + 1);
    } else {
        assert(t.take(j) =~= t);
    }
}

pub proof fn lemma_hex_nonneg(t: Seq<char>)
    requires
        all_hex(t),
    ensures
        hex_val(t) >= 0,
    decreases t.len(),
{
    if t.len() > 0 {
        assert(all_hex(t.drop_last()));
        lemma_hex_nonneg(t.drop_last());
    }
}

pub proof fn lemma_hex_prefix_le(t: Seq<char>, j: int)
    requires
        all_hex(t),
        0 <= j <= t.len(),
    ensures
        hex_val(t.take(j)) <= hex_val(t),
    decreases t.len() - j,
{
    if j < t.len() {
        let u = t.take(j + 1);
        assert(u.drop_last() =~= t.take(j));
        assert(all_hex(t.take(j)));
        lemma_hex_nonneg(t.take(j));
        lemma_hex_prefix_le(t, j + 1);
    } else {
        assert(t.take(j) =~= t);
    }
}

/// The value of an all-digit, non-empty numeral, when it fits in a `u64`.
pub open spec fn spec_parse_u64(t: Seq<char>) -> Option<u64> {
    if t.len() > 0 && all_digits(t) && mantissa_of(t) <= u64::MAX {
        Some(mantissa_of(t) as u64)
    } else {
        None
    }
}

/// The value of an all-hex-digit, non-empty numeral, when it fits in a `u64`.
pub open spec fn spec_parse_u64_hex(t: Seq<char>) -> Option<u64> {
    if t.len() > 0 && all_hex(t) && hex_val(t) <= u64::MAX {
        Some(hex_val(t) as u64)
    } else {
        None
    }
}

/// Parses a non-empty, all-digit decimal numeral; `None` on any other
/// input, including one whose value does not fit in a `u64`.
pub fn parse_u64_digits(s: &str) -> (r: Option<u64>)
    ensures
        r == spec_parse_u64(s@),
{
    let n = s.unicode_len();
    if n == 0 {
        return None;
    }
    let mut acc: u64 = 0;
    let mut i: usize = 0;
    while i < n
        invariant
            n == s@.len(),
            0 <= i <= n,
            all_digits(s@.take(i as int)),
            acc == mantissa_of(s@.take(i as int)),
        decreases n - i,
    {
        let c = s.get_char(i);
        if !char_in_class(CharClass::Digit, c) {
            assert(!all_digits(s@));
            return None;
        }
        let d: u64 = (c as u32 - 48) as u64;
        proof {
            assert(s@.take(i + 1).drop_last() =~= s@.take(i as int));
        }
        let shifted = match acc.checked_mul(10) {
            Some(v) => v,
            None => {
                proof {
                    assert(mantissa_of(s@.take(i + 1)) > u64::MAX);
                    if all_digits(s@) {
                        lemma_mantissa_prefix_le(s@, i + 1);
                    }
                }
                return None;
            },
        };
        acc = match shifted.checked_add(d) {
            Some(v) => v,
            None => {
                proof {
                    assert(mantissa_of(s@.take(i + 1)) > u64::MAX);
                    if all_digits(s@) {
                        lemma_mantissa_prefix_le(s@, i + 1);
                    }
                }
                return None;
            },
        };
        i = i + 1;
    }
    proof {
        assert(s@.take(n as int) =~= s@);
    }
    Some(acc)
}

/// Parses a non-empty, all-hex-digit numeral; `None` on any other input,
/// including one whose value does not fit in a `u64`.
pub fn parse_u64_hex(s: &str) -> (r: Option<u64>)
    ensures
        r == spec_parse_u64_hex(s@),
{
    let n = s.unicode_len();
    if n == 0 {
        return None;
    }
    let mut acc: u64 = 0;
    let mut i: usize = 0;
    while i < n
        invariant
            n == s@.len(),
            0 <= i <= n,
            all_hex(s@.take(i as int)),
            acc == hex_val(s@.take(i as int)),
        decreases n - i,
    {
        let c = s.get_char(i);
        let u = c as u32;
        let d: u32 = if 48 <= u && u <= 57 {
            u - 48
        } else if 97 <= u && u <= 102 {
            u - 97 + 10
        } else if 65 <= u && u <= 70 {
            u - 65 + 10
        } else {
            assert(!is_hex_digit(c));
            assert(!all_hex(s@));
            return None;
        };
        assert(d as int == hex_digit_val(c));
        proof {
            assert(s@.take(i + 1).drop_last() =~= s@.take(i as int));
        }
        let shifted = match acc.checked_mul(16) {
            Some(v) => v,
            None => {
                proof {
                    assert(all_hex(s@.take(i + 1)));
                    assert(hex_val(s@.take(i + 1)) > u64::MAX);
                    if all_hex(s@) {
                        lemma_hex_prefix_le(s@, i + 1);
                    }
                }
                return None;
            },
        };
        acc = match shifted.checked_add(d as u64) {
            Some(v) => v,
            None => {
                proof {
                    assert(all_hex(s@.take(i + 1)));
                    assert(hex_val(s@.take(i + 1)) > u64::MAX);
                    if all_hex(s@) {
                        lemma_hex_prefix_le(s@, i + 1);
                    }
                }
                return None;
            },
        };
        i = i + 1;
    }
    proof {
        assert(s@.take(n as int) =~= s@);
    }
    Some(acc)
}

/// A `u64` read from text that is either a decimal numeral or a
/// `0x`-prefixed hexadecimal one, with surrounding whitespace ignored.
pub open spec fn norm_u64_of(s: Seq<char>) -> Option<u64> {
    let t = trim_spec(s);
    if t.len() >= 2 && t[0] == '0' && t[1] == 'x' {
        spec_parse_u64_hex(t.skip(2))
    } else {
        spec_parse_u64(t)
    }
}

/// Normalizes the two on-the-wire encodings of a block number: a decimal
/// numeral, or a `0x`-prefixed hexadecimal one.
pub fn parse_u64_norm(s: &str) -> (r: Option<u64>)
    ensures
        r == norm_u64_of(s@),
{
    let t = trim_str(s);
    let n = t.unicode_len();
    if n >= 2 && t.get_char(0) == '0' && t.get_char(1) == 'x' {
        let rest = t.substring_char(2, n);
        proof {
            assert(rest@ =~= trim_spec(s@).skip(2));
        }
        parse_u64_hex(rest)
    } else {
        parse_u64_digits(t)
    }
}

} // verus!
