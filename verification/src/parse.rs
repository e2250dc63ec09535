//! Log line parser: maps one line of process output to zero or one
//! structured [`MinerEvent`], by case-insensitive matching against a fixed,
//! ordered rule set. First matching rule wins; a line matching no rule is
//! not an error. The classification is deliberately best-effort: the
//! upstream tool's log wording is not a stable contract.

use vstd::prelude::*;

use crate::text::{
    chars_eq_ci, contains_ci, eq_ci, has_ci, in_class, is_digit, matches_ci_at, matches_ci_here,
    run_end, scan_run, spec_parse_u64, trim_spec, trim_str, CharClass,
};

verus! {

/// A non-negative decimal number `mantissa / 10^scale`, the crate's
/// float-free representation of a reported hash rate (`42.5` is
/// `mantissa == 425, scale == 1`).
#[derive(Clone, Copy, Debug, PartialEq, Eq, Structural)]
pub struct Decimal {
    pub mantissa: u64,
    pub scale: usize,
}

/// A structured event derived from a single log line.
#[derive(Clone, Debug)]
pub enum MinerEvent {
    Connected,
    Hashrate { hps: Decimal },
    ShareAccepted,
    FoundBlock { height: Option<u64>, hash: Option<String> },
    Error { message: String },
}

/// The mathematical shape of a [`MinerEvent`].
pub enum EventView {
    Connected,
    Hashrate { hps: Decimal },
    ShareAccepted,
    FoundBlock { height: Option<u64>, hash: Option<Seq<char>> },
    Error { message: Seq<char> },
}

impl View for MinerEvent {
    type V = EventView;

    open spec fn view(&self) -> EventView {
        match self {
            MinerEvent::Connected => EventView::Connected,
            MinerEvent::Hashrate { hps } => EventView::Hashrate { hps: *hps },
            MinerEvent::ShareAccepted => EventView::ShareAccepted,
            MinerEvent::FoundBlock { height, hash } => EventView::FoundBlock {
                height: *height,
                hash: match hash {
                    Some(h) => Some(h@),
                    None => None,
                },
            },
            MinerEvent::Error { message } => EventView::Error { message: message@ },
        }
    }
}

// --- fractional numbers ---

/// `t` has the shape of a fractional decimal number: non-empty, only digits
/// and at most one dot, and at least one digit.
pub open spec fn valid_decimal(t: Seq<char>) -> bool {
    &&& t.len() > 0
    &&& forall|i: int| 0 <= i < t.len() ==> is_digit(t[i]) || t[i] == '.'
    &&& crate::text::dot_count(t) <= 1
    &&& crate::text::digit_count(t) >= 1
}

/// The value of a fractional numeral, when its digits fit in a `u64`.
pub open spec fn spec_parse_decimal(t: Seq<char>) -> Option<Decimal> {
    if valid_decimal(t) && crate::text::mantissa_of(t) <= u64::MAX && crate::text::scale_of(t)
        <= usize::MAX {
        Some(
            Decimal {
                mantissa: crate::text::mantissa_of(t) as u64,
                scale: crate::text::scale_of(t) as usize,
            },
        )
    } else {
        None
    }
}

/// Parses a fractional decimal numeral such as `42.5`, `1234` or `.5`;
/// `None` when the text has another shape or its digits overflow a `u64`.
pub fn parse_decimal(s: &str) -> (r: Option<Decimal>)
    ensures
        r == spec_parse_decimal(s@),
{
    let n = s.unicode_len();
    if n == 0 {
        return None;
    }
    let mut acc: u64 = 0;
    let mut dots: usize = 0;
    let mut digits: usize = 0;
    let mut frac: usize = 0;
    let mut seen_dot = false;
    let mut i: usize = 0;
    while i < n
        invariant
            n == s@.len(),
            0 <= i <= n,
            forall|q: int| 0 <= q < i ==> is_digit(s@[q]) || s@[q] == '.',
            acc == crate::text::mantissa_of(s@.take(i as int)),
            dots == crate::text::dot_count(s@.take(i as int)),
            digits == crate::text::digit_count(s@.take(i as int)),
            frac == crate::text::scale_of(s@.take(i as int)),
            seen_dot == crate::text::has_dot(s@.take(i as int)),
            dots <= i,
            digits <= i,
            frac <= i,
        decreases n - i,
    {
        let c = s.get_char(i);
        proof {
            assert(s@.take(i + 1).drop_last() =~= s@.take(i as int));
        }
        if c == '.' {
            dots = dots + 1;
            frac = 0;
            seen_dot = true;
            proof {
                assert(crate::text::has_dot(s@.take(i + 1))) by {
                    assert(s@.take(i + 1)[i as int] == '.');
                }
            }
        } else if char_is_digit(c) {
            let d: u64 = (c as u32 - 48) as u64;
            let shifted = match acc.checked_mul(10) {
                Some(v) => v,
                None => {
                    proof {
                        overflow_means_invalid(s@, i as int);
                    }
                    return None;
                },
            };
            acc = match shifted.checked_add(d) {
                Some(v) => v,
                None => {
                    proof {
                        overflow_means_invalid(s@, i as int);
                    }
                    return None;
                },
            };
            digits = digits + 1;
            if seen_dot {
                frac = frac + 1;
            }
            proof {
                assert(crate::text::has_dot(s@.take(i + 1)) == crate::text::has_dot(
                    s@.take(i as int),
                )) by {
                    let t = s@.take(i + 1);
                    if crate::text::has_dot(t) {
                        let k = choose|k: int| 0 <= k < t.len() && t[k] == '.';
                        if k < i {
                            assert(s@.take(i as int)[k] == '.');
                        }
                    }
                    if crate::text::has_dot(s@.take(i as int)) {
                        let k = choose|k: int|
                            0 <= k < i && #[trigger] s@.take(i as int)[k] == '.';
                        assert(t[k] == '.');
                    }
                }
            }
        } else {
            assert(!valid_decimal(s@)) by {
                assert(!(is_digit(s@[i as int]) || s@[i as int] == '.'));
            }
            return None;
        }
        i = i + 1;
    }
    proof {
        assert(s@.take(n as int) =~= s@);
    }
    if dots > 1 || digits == 0 {
        return None;
    }
    Some(Decimal { mantissa: acc, scale: frac })
}

fn char_is_digit(c: char) -> (r: bool)
    ensures
        r == is_digit(c),
{
    let u = c as u32;
    48 <= u && u <= 57
}

proof fn overflow_means_invalid(s: Seq<char>, i: int)
    requires
        0 <= i < s.len(),
        forall|q: int| 0 <= q <= i ==> is_digit(s[q]) || s[q] == '.',
        crate::text::mantissa_of(s.take(i + 1)) > u64::MAX,
    ensures
        spec_parse_decimal(s) is None,
{
    if valid_decimal(s) {
        crate::text::lemma_mantissa_prefix_le(s, i + 1);
    }
}

// --- the hash-rate patterns ---

/// `h`, an optional `/`, then `s`, starting at offset `w` (the unit marker
/// `H/s` or `hs`).
pub open spec fn hs_at(s: Seq<char>, w: int) -> bool {
    &&& 0 <= w < s.len()
    &&& eq_ci(s[w], 'h')
    &&& if w + 1 < s.len() && s[w + 1] == '/' {
        w + 2 < s.len() && eq_ci(s[w + 2], 's')
    } else {
        w + 1 < s.len() && eq_ci(s[w + 1], 's')
    }
}

/// Offset just past the unit marker beginning at `w`.
pub open spec fn hs_end(s: Seq<char>, w: int) -> int {
    if w + 1 < s.len() && s[w + 1] == '/' {
        w + 3
    } else {
        w + 2
    }
}

/// The keyword pattern `hashrate[:=] <number> <unit>` at offset `i`.
pub open spec fn hr_kw_at(s: Seq<char>, i: int) -> bool {
    &&& matches_ci_at(s, "hashrate"@, i)
    &&& i + 8 < s.len()
    &&& (s[i + 8] == ':' || s[i + 8] == '=')
    &&& {
        let d0 = run_end(s, i + 9, CharClass::Ws);
        let d1 = run_end(s, d0, CharClass::NumDot);
        &&& d1 > d0
        &&& hs_at(s, run_end(s, d1, CharClass::Ws))
    }
}

/// The captured numeral of a keyword match at `i`.
pub open spec fn hr_kw_cap(s: Seq<char>, i: int) -> Seq<char> {
    let d0 = run_end(s, i + 9, CharClass::Ws);
    s.subrange(d0, run_end(s, d0, CharClass::NumDot))
}

/// The unit-first pattern `<unit> =? <number>` at offset `i`.
pub open spec fn hr_unit_at(s: Seq<char>, i: int) -> bool {
    &&& hs_at(s, i)
    &&& {
        let a = run_end(s, hs_end(s, i), CharClass::Ws);
        let b = if a < s.len() && s[a] == '=' {
            a + 1
        } else {
            a
        };
        let c = run_end(s, b, CharClass::Ws);
        run_end(s, c, CharClass::NumDot) > c
    }
}

/// The captured numeral of a unit-first match at `i`.
pub open spec fn hr_unit_cap(s: Seq<char>, i: int) -> Seq<char> {
    let a = run_end(s, hs_end(s, i), CharClass::Ws);
    let b = if a < s.len() && s[a] == '=' {
        a + 1
    } else {
        a
    };
    let c = run_end(s, b, CharClass::Ws);
    s.subrange(c, run_end(s, c, CharClass::NumDot))
}

pub open spec fn first_hr_kw_from(s: Seq<char>, k: int) -> Option<int>
    decreases s.len() - k,
{
    if !(0 <= k < s.len()) {
        None
    } else if hr_kw_at(s, k) {
        Some(k)
    } else {
        first_hr_kw_from(s, k + 1)
    }
}

pub open spec fn first_hr_unit_from(s: Seq<char>, k: int) -> Option<int>
    decreases s.len() - k,
{
    if !(0 <= k < s.len()) {
        None
    } else if hr_unit_at(s, k) {
        Some(k)
    } else {
        first_hr_unit_from(s, k + 1)
    }
}

/// The numeral captured by the first hash-rate pattern that matches:
/// the keyword pattern takes precedence over the unit-first one.
pub open spec fn hashrate_capture(s: Seq<char>) -> Option<Seq<char>> {
    match first_hr_kw_from(s, 0) {
        Some(i) => Some(hr_kw_cap(s, i)),
        None => match first_hr_unit_from(s, 0) {
            Some(i) => Some(hr_unit_cap(s, i)),
            None => None,
        },
    }
}

/// The hash rate reported by `s`, if a pattern matches and its captured
/// numeral is well-formed.
pub open spec fn spec_parse_hashrate(s: Seq<char>) -> Option<Decimal> {
    match hashrate_capture(s) {
        Some(t) => spec_parse_decimal(t),
        None => None,
    }
}

fn hs_match(s: &str, w: usize) -> (r: bool)
    requires
        w <= s@.len(),
    ensures
        r == hs_at(s@, w as int),
{
    let n = s.unicode_len();
    if w >= n {
        return false;
    }
    if !chars_eq_ci(s.get_char(w), 'h') {
        return false;
    }
    if n - w >= 2 && s.get_char(w + 1) == '/' {
        n - w >= 3 && chars_eq_ci(s.get_char(w + 2), 's')
    } else {
        n - w >= 2 && chars_eq_ci(s.get_char(w + 1), 's')
    }
}

fn hr_kw_match(s: &str, i: usize) -> (r: bool)
    requires
        i < s@.len(),
    ensures
        r == hr_kw_at(s@, i as int),
{
    proof {
        reveal_strlit("hashrate");
    }
    let n = s.unicode_len();
    if !matches_ci_here(s, i, "hashrate") {
        return false;
    }
    if n - i <= 8 {
        return false;
    }
    let c = s.get_char(i + 8);
    if !(c == ':' || c == '=') {
        return false;
    }
    let d0 = scan_run(s, i + 9, CharClass::Ws);
    let d1 = scan_run(s, d0, CharClass::NumDot);
    if d1 == d0 {
        return false;
    }
    let w = scan_run(s, d1, CharClass::Ws);
    hs_match(s, w)
}

fn hr_unit_match(s: &str, i: usize) -> (r: bool)
    requires
        i < s@.len(),
    ensures
        r == hr_unit_at(s@, i as int),
{
    let n = s.unicode_len();
    if !hs_match(s, i) {
        return false;
    }
    let e = if i + 1 < n && s.get_char(i + 1) == '/' {
        i + 3
    } else {
        i + 2
    };
    let a = scan_run(s, e, CharClass::Ws);
    let b = if a < n && s.get_char(a) == '=' {
        a + 1
    } else {
        a
    };
    let c = scan_run(s, b, CharClass::Ws);
    let d = scan_run(s, c, CharClass::NumDot);
    d > c
}

/// Extracts a reported hash rate from `line`, trying the keyword pattern
/// (`hashrate: 42.5 H/s`) first and the unit-first pattern (`H/s=42.5`)
/// second.
pub fn parse_hashrate(line: &str) -> (r: Option<Decimal>)
    ensures
        r == spec_parse_hashrate(line@),
{
    let n = line.unicode_len();
    let mut i: usize = 0;
    while i < n
        invariant
            n == line@.len(),
            0 <= i <= n,
            first_hr_kw_from(line@, 0) == first_hr_kw_from(line@, i as int),
        decreases n - i,
    {
        if hr_kw_match(line, i) {
            proof {
                reveal_strlit("hashrate");
            }
            let d0 = scan_run(line, i + 9, CharClass::Ws);
            let d1 = scan_run(line, d0, CharClass::NumDot);
            let cap = line.substring_char(d0, d1);
            return parse_decimal(cap);
        }
        i = i + 1;
    }
    let mut i: usize = 0;
    while i < n
        invariant
            n == line@.len(),
            0 <= i <= n,
            first_hr_kw_from(line@, 0) is None,
            first_hr_unit_from(line@, 0) == first_hr_unit_from(line@, i as int),
        decreases n - i,
    {
        if hr_unit_match(line, i) {
            let e = if i + 1 < n && line.get_char(i + 1) == '/' {
                i + 3
            } else {
                i + 2
            };
            let a = scan_run(line, e, CharClass::Ws);
            let b = if a < n && line.get_char(a) == '=' {
                a + 1
            } else {
                a
            };
            let c = scan_run(line, b, CharClass::Ws);
            let d = scan_run(line, c, CharClass::NumDot);
            let cap = line.substring_char(c, d);
            return parse_decimal(cap);
        }
        i = i + 1;
    }
    None
}

// --- block-height and hash captures ---

/// `height`, one or more separators, then a digit, at offset `i`.
pub open spec fn height_at(s: Seq<char>, i: int) -> bool {
    &&& matches_ci_at(s, "height"@, i)
    &&& {
        let a = run_end(s, i + 6, CharClass::Sep);
        &&& a > i + 6
        &&& a < s.len()
        &&& is_digit(s[a])
    }
}

pub open spec fn first_height_from(s: Seq<char>, k: int) -> Option<int>
    decreases s.len() - k,
{
    if !(0 <= k < s.len()) {
        None
    } else if height_at(s, k) {
        Some(k)
    } else {
        first_height_from(s, k + 1)
    }
}

/// The block height captured from `s`: the digit run after the first
/// `height` keyword, when it parses as a `u64`.
pub open spec fn spec_capture_height(s: Seq<char>) -> Option<u64> {
    match first_height_from(s, 0) {
        Some(i) => {
            let a = run_end(s, i + 6, CharClass::Sep);
            spec_parse_u64(s.subrange(a, run_end(s, a, CharClass::Digit)))
        },
        None => None,
    }
}

/// Separators then a hash-shaped character, starting at offset `e`.
pub open spec fn hash_tail_ok(s: Seq<char>, e: int) -> bool {
    let a = run_end(s, e, CharClass::Sep);
    &&& a > e
    &&& a < s.len()
    &&& in_class(CharClass::HexX, s[a])
}

/// `hash` or `block`, one or more separators, then hex-or-`x` text, at
/// offset `i`.
pub open spec fn hash_at(s: Seq<char>, i: int) -> bool {
    ||| (matches_ci_at(s, "hash"@, i) && hash_tail_ok(s, i + 4))
    ||| (matches_ci_at(s, "block"@, i) && hash_tail_ok(s, i + 5))
}

/// Start of the captured hash text for a match at `i`.
pub open spec fn hash_cap_start(s: Seq<char>, i: int) -> int {
    if matches_ci_at(s, "hash"@, i) && hash_tail_ok(s, i + 4) {
        run_end(s, i + 4, CharClass::Sep)
    } else {
        run_end(s, i + 5, CharClass::Sep)
    }
}

pub open spec fn first_hash_from(s: Seq<char>, k: int) -> Option<int>
    decreases s.len() - k,
{
    if !(0 <= k < s.len()) {
        None
    } else if hash_at(s, k) {
        Some(k)
    } else {
        first_hash_from(s, k + 1)
    }
}

/// The hash text captured from `s`: the hex-or-`x` run after the first
/// `hash` or `block` keyword, as it appears in the line.
pub open spec fn spec_capture_hash(s: Seq<char>) -> Option<Seq<char>> {
    match first_hash_from(s, 0) {
        Some(i) => {
            let a = hash_cap_start(s, i);
            Some(s.subrange(a, run_end(s, a, CharClass::HexX)))
        },
        None => None,
    }
}

fn height_match(s: &str, i: usize) -> (r: bool)
    requires
        i < s@.len(),
    ensures
        r == height_at(s@, i as int),
{
    proof {
        reveal_strlit("height");
    }
    let n = s.unicode_len();
    if !matches_ci_here(s, i, "height") {
        return false;
    }
    let a = scan_run(s, i + 6, CharClass::Sep);
    a > i + 6 && a < n && char_is_digit(s.get_char(a))
}

/// Best-effort extraction of a block height named next to a `height`
/// keyword.
pub fn capture_height(line: &str) -> (r: Option<u64>)
    ensures
        r == spec_capture_height(line@),
{
    let n = line.unicode_len();
    let mut i: usize = 0;
    while i < n
        invariant
            n == line@.len(),
            0 <= i <= n,
            first_height_from(line@, 0) == first_height_from(line@, i as int),
        decreases n - i,
    {
        if height_match(line, i) {
            proof {
                reveal_strlit("height");
            }
            let a = scan_run(line, i + 6, CharClass::Sep);
            let d = scan_run(line, a, CharClass::Digit);
            let cap = line.substring_char(a, d);
            return crate::text::parse_u64_digits(cap);
        }
        i = i + 1;
    }
    None
}

fn hash_tail_match(s: &str, e: usize) -> (r: bool)
    requires
        e <= s@.len(),
    ensures
        r == hash_tail_ok(s@, e as int),
{
    let n = s.unicode_len();
    let a = scan_run(s, e, CharClass::Sep);
    a > e && a < n && crate::text::char_in_class(CharClass::HexX, s.get_char(a))
}

fn hash_match(s: &str, i: usize) -> (r: bool)
    requires
        i < s@.len(),
    ensures
        r == hash_at(s@, i as int),
{
    proof {
        reveal_strlit("hash");
        reveal_strlit("block");
    }
    let n = s.unicode_len();
    if matches_ci_here(s, i, "hash") && n - i >= 4 && hash_tail_match(s, i + 4) {
        return true;
    }
    matches_ci_here(s, i, "block") && n - i >= 5 && hash_tail_match(s, i + 5)
}

/// Best-effort extraction of a block hash named next to a `hash` or
/// `block` keyword.
pub fn capture_hash(line: &str) -> (r: Option<String>)
    ensures
        (match r {
            Some(h) => spec_capture_hash(line@) == Some(h@),
            None => spec_capture_hash(line@) is None,
        }),
{
    let n = line.unicode_len();
    let mut i: usize = 0;
    while i < n
        invariant
            n == line@.len(),
            0 <= i <= n,
            first_hash_from(line@, 0) == first_hash_from(line@, i as int),
        decreases n - i,
    {
        if hash_match(line, i) {
            proof {
                reveal_strlit("hash");
                reveal_strlit("block");
            }
            let a = if matches_ci_here(line, i, "hash") && n - i >= 4 && hash_tail_match(
                line,
                i + 4,
            ) {
                scan_run(line, i + 4, CharClass::Sep)
            } else {
                scan_run(line, i + 5, CharClass::Sep)
            };
            let d = scan_run(line, a, CharClass::HexX);
            let cap = line.substring_char(a, d);
            return Some(cap.to_owned());
        }
        i = i + 1;
    }
    None
}

// --- the full rule cascade ---

/// The event derived from one log line: connectivity phrases, then a hash
/// rate, then share acceptance, then a found block (with best-effort height
/// and hash captures), then generic error wording carrying the trimmed
/// line. All matching ignores ASCII case.
pub open spec fn spec_parse_event(s: Seq<char>) -> Option<EventView> {
    if contains_ci(s, "connected to"@) || contains_ci(s, "syncing"@) {
        Some(EventView::Connected)
    } else if spec_parse_hashrate(s) is Some {
        Some(EventView::Hashrate { hps: spec_parse_hashrate(s)->Some_0 })
    } else if contains_ci(s, "share accepted"@) || contains_ci(s, "accepted share"@) {
        Some(EventView::ShareAccepted)
    } else if contains_ci(s, "found block"@) || contains_ci(s, "contributed block"@)
        || contains_ci(s, "mined block"@) {
        Some(
            EventView::FoundBlock {
                height: spec_capture_height(s),
                hash: spec_capture_hash(s),
            },
        )
    } else if contains_ci(s, "error"@) || contains_ci(s, "failed"@) {
        Some(EventView::Error { message: trim_spec(s) })
    } else {
        None
    }
}

/// Classifies one log line, first matching rule wins; a line matching no
/// rule yields `None`.
pub fn parse_event(line: &str) -> (r: Option<MinerEvent>)
    ensures
        (match r {
            Some(ev) => spec_parse_event(line@) == Some(ev@),
            None => spec_parse_event(line@) is None,
        }),
{
    if has_ci(line, "connected to") || has_ci(line, "syncing") {
        return Some(MinerEvent::Connected);
    }
    if let Some(hps) = parse_hashrate(line) {
        return Some(MinerEvent::Hashrate { hps });
    }
    if has_ci(line, "share accepted") || has_ci(line, "accepted share") {
        return Some(MinerEvent::ShareAccepted);
    }
    if has_ci(line, "found block") || has_ci(line, "contributed block") || has_ci(
        line,
        "mined block",
    ) {
        let height = capture_height(line);
        let hash = capture_hash(line);
        return Some(MinerEvent::FoundBlock { height, hash });
    }
    if has_ci(line, "error") || has_ci(line, "failed") {
        let message = trim_str(line).to_owned();
        return Some(MinerEvent::Error { message });
    }
    None
}

} // verus!
