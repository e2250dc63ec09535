//! Safe-mode state machine. From the observed chain height it decides
//! whether the process should run with the restrictive
//! `--max-blocks-per-request 1` flag: a request to enable is recorded when
//! the height is at or past the start of a configured troublesome range,
//! a request to disable once it is strictly past the end of every range.
//! Requests are recorded in a single-slot mailbox (`pending`) and executed
//! elsewhere; executing one rewrites the extra argument list.

use vstd::prelude::*;

use crate::text::str_eq;

verus! {

/// The flag-and-value pair that safe mode appends: flag name first, then
/// the value `"1"`.
pub open spec fn safe_flag() -> Seq<char> {
    "--max-blocks-per-request"@
}

/// A token that looks like a flag: it starts with `--`.
pub open spec fn flag_like(t: Seq<char>) -> bool {
    t.len() >= 2 && t[0] == '-' && t[1] == '-'
}

pub open spec fn contains_flag(s: Seq<Seq<char>>) -> bool {
    exists|i: int| 0 <= i < s.len() && s[i] == safe_flag()
}

/// Number of occurrences of the safe-mode flag in `s`.
pub open spec fn flag_count(s: Seq<Seq<char>>) -> int
    decreases s.len(),
{
    if s.len() == 0 {
        0
    } else {
        (if s[0] == safe_flag() {
            1int
        } else {
            0int
        }) + flag_count(s.skip(1))
    }
}

/// The argument list after enabling safe mode: unchanged when the flag is
/// already present, else with the flag-and-value pair appended.
pub open spec fn spec_enable_args(s: Seq<Seq<char>>) -> Seq<Seq<char>> {
    if contains_flag(s) {
        s
    } else {
        s + seq![safe_flag(), "1"@]
    }
}

/// The argument list after disabling safe mode: every occurrence of the
/// flag is removed, together with the token following it (its value)
/// unless that token itself looks like another flag.
pub open spec fn spec_remove_args(s: Seq<Seq<char>>) -> Seq<Seq<char>>
    decreases s.len(),
{
    if s.len() == 0 {
        s
    } else if s[0] == safe_flag() {
        if s.len() >= 2 && !flag_like(s[1]) {
            spec_remove_args(s.skip(2))
        } else {
            spec_remove_args(s.skip(1))
        }
    } else {
        seq![s[0]] + spec_remove_args(s.skip(1))
    }
}

/// Whether the restrictive flag is present in `args`.
pub fn has_max_blocks_arg(args: &Vec<String>) -> (r: bool)
    ensures
        r == contains_flag(args.deep_view()),
{
    let n = args.len();
    let mut i: usize = 0;
    while i < n
        invariant
            n == args.len(),
            0 <= i <= n,
            forall|q: int| 0 <= q < i ==> args.deep_view()[q] != safe_flag(),
        decreases n - i,
    {
        proof {
            assert(args.deep_view()[i as int] == args@[i as int]@);
        }
        if str_eq(args[i].as_str(), "--max-blocks-per-request") {
            return true;
        }
        i = i + 1;
    }
    false
}

fn is_flag_like(s: &str) -> (r: bool)
    ensures
        r == flag_like(s@),
{
    let n = s.unicode_len();
    n >= 2 && s.get_char(0) == '-' && s.get_char(1) == '-'
}

/// Appends the flag-and-value pair unless the flag is already present.
pub fn add_max_blocks_arg(args: &mut Vec<String>)
    ensures
        final(args).deep_view() == spec_enable_args(old(args).deep_view()),
{
    if !has_max_blocks_arg(args) {
        args.push("--max-blocks-per-request".to_owned());
        args.push("1".to_owned());
        proof {
            assert(args.deep_view() =~= spec_enable_args(old(args).deep_view()));
        }
    }
}

/// Removes every occurrence of the flag and, best-effort, the value token
/// following each, unless that token itself looks like another flag.
pub fn remove_max_blocks_arg(args: &mut Vec<String>)
    ensures
        final(args).deep_view() == spec_remove_args(old(args).deep_view()),
{
    let ghost dv = args.deep_view();
    let n = args.len();
    let mut out: Vec<String> = Vec::new();
    let mut i: usize = 0;
    proof {
        assert(out.deep_view() =~= Seq::<Seq<char>>::empty());
        assert(dv.skip(0) =~= dv);
        assert(out.deep_view() + spec_remove_args(dv) =~= spec_remove_args(dv));
    }
    while i < n
        invariant
            *args == *old(args),
            dv == args.deep_view(),
            n == args.len(),
            0 <= i <= n,
            spec_remove_args(dv) == out.deep_view() + spec_remove_args(dv.skip(i as int)),
        decreases n - i,
    {
        if str_eq(args[i].as_str(), "--max-blocks-per-request") {
            if i + 1 < n && !is_flag_like(args[i + 1].as_str()) {
                proof {
                    assert(dv.skip(i as int)[0] == safe_flag());
                    assert(dv.skip(i as int)[1] == dv[i + 1]);
                    assert(dv.skip(i as int).skip(2) =~= dv.skip(i + 2));
                }
                i = i + 2;
            } else {
                proof {
                    assert(dv.skip(i as int)[0] == safe_flag());
                    assert(dv.skip(i as int).skip(1) =~= dv.skip(i + 1));
                    if i + 1 < n {
                        assert(dv.skip(i as int)[1] == dv[i + 1]);
                    }
                }
                i = i + 1;
            }
        } else {
            proof {
                assert(dv.skip(i as int)[0] == dv[i as int]);
                assert(dv.skip(i as int).skip(1) =~= dv.skip(i + 1));
            }
            let ghost out0 = out.deep_view();
            out.push(args[i].clone());
            proof {
                assert(out.deep_view() =~= out0.push(dv[i as int]));
                assert(out.deep_view() + spec_remove_args(dv.skip(i + 1)) =~= out0 + (seq![
                    dv[i as int],
                ] + spec_remove_args(dv.skip(i + 1))));
            }
            i = i + 1;
        }
    }
    proof {
        assert(dv.skip(n as int) =~= Seq::<Seq<char>>::empty());
        assert(spec_remove_args(dv) =~= out.deep_view());
    }
    *args = out;
}

// --- the laws of the argument rewrite ---

/// Law: enabling safe mode and then disabling it restores the argument
/// list to its original content, order and values included, provided the
/// restrictive flag was not already present (an argument list that already
/// carries the flag loses it in the round trip).
pub proof fn lemma_safe_mode_round_trip(args: Seq<Seq<char>>)
    requires
        !contains_flag(args),
    ensures
        spec_remove_args(spec_enable_args(args)) == args,
    decreases args.len(),
{
    reveal_strlit("1");
    let pair = seq![safe_flag(), "1"@];
    if args.len() == 0 {
        let s = args + pair;
        assert(s.len() == 2);
        assert(s[0] == safe_flag());
        assert(s[1] == "1"@);
        assert(!flag_like(s[1]));
        assert(s.skip(2) =~= Seq::<Seq<char>>::empty());
        assert(spec_remove_args(s.skip(2)) == Seq::<Seq<char>>::empty());
        assert(spec_remove_args(args + pair) =~= args);
    } else {
        let rest = args.skip(1);
        assert(!contains_flag(rest)) by {
            if contains_flag(rest) {
                let k = choose|k: int| 0 <= k < rest.len() && rest[k] == safe_flag();
                assert(args[k + 1] == safe_flag());
            }
        }
        lemma_safe_mode_round_trip(rest);
        let s = args + pair;
        assert(args[0] != safe_flag());
        assert(s[0] == args[0]);
        assert(s.skip(1) =~= rest + pair);
        assert(spec_remove_args(s) == seq![args[0]] + spec_remove_args(rest + pair));
        assert(!contains_flag(args) ==> spec_enable_args(args) == s);
        assert(seq![args[0]] + rest =~= args);
    }
}

/// Law: disabling safe mode removes the flag entirely, however often it
/// occurred.
pub proof fn lemma_remove_args_removes_flag(args: Seq<Seq<char>>)
    ensures
        !contains_flag(spec_remove_args(args)),
    decreases args.len(),
{
    if args.len() == 0 {
    } else if args[0] == safe_flag() {
        if args.len() >= 2 && !flag_like(args[1]) {
            lemma_remove_args_removes_flag(args.skip(2));
        } else {
            lemma_remove_args_removes_flag(args.skip(1));
        }
    } else {
        let rest = args.skip(1);
        lemma_remove_args_removes_flag(rest);
        let r = spec_remove_args(args);
        assert(r == seq![args[0]] + spec_remove_args(rest));
        if contains_flag(r) {
            let k = choose|k: int| 0 <= k < r.len() && r[k] == safe_flag();
            if k == 0 {
                assert(r[0] == args[0]);
            } else {
                assert(spec_remove_args(rest)[k - 1] == safe_flag());
            }
        }
    }
}

/// Law: enabling safe mode on a list without the flag yields a list that
/// carries the flag exactly once; observing further in-range blocks leaves
/// it unchanged, because enabling is idempotent.
pub proof fn lemma_enable_args_once(args: Seq<Seq<char>>)
    requires
        !contains_flag(args),
    ensures
        flag_count(spec_enable_args(args)) == 1,
        spec_enable_args(spec_enable_args(args)) == spec_enable_args(args),
{
    let s = spec_enable_args(args);
    assert(s[args.len() as int] == safe_flag());
    assert(contains_flag(s));
    lemma_no_flag_count_zero(args);
    lemma_count_append_pair(args);
}

proof fn lemma_no_flag_count_zero(s: Seq<Seq<char>>)
    requires
        !contains_flag(s),
    ensures
        flag_count(s) == 0,
    decreases s.len(),
{
    if s.len() > 0 {
        assert(s[0] != safe_flag());
        let rest = s.skip(1);
        assert(!contains_flag(rest)) by {
            if contains_flag(rest) {
                let k = choose|k: int| 0 <= k < rest.len() && rest[k] == safe_flag();
                assert(s[k + 1] == safe_flag());
            }
        }
        lemma_no_flag_count_zero(rest);
    }
}

proof fn lemma_count_append_pair(s: Seq<Seq<char>>)
    ensures
        flag_count(s + seq![safe_flag(), "1"@]) == flag_count(s) + 1,
    decreases s.len(),
{
    reveal_strlit("1");
    reveal_strlit("--max-blocks-per-request");
    assert("1"@.len() == 1);
    assert("--max-blocks-per-request"@.len() == 24);
    let pair = seq![safe_flag(), "1"@];
    if s.len() == 0 {
        let t = s + pair;
        assert(t.len() == 2);
        assert(t[0] == safe_flag());
        assert(t.skip(1) =~= seq!["1"@]);
        assert(seq!["1"@].skip(1) =~= Seq::<Seq<char>>::empty());
        assert(!("1"@ == safe_flag()));
        assert(flag_count(Seq::<Seq<char>>::empty()) == 0);
        assert(flag_count(seq!["1"@]) == (if "1"@ == safe_flag() { 1int } else { 0int })
            + flag_count(seq!["1"@].skip(1)));
        assert(flag_count(seq!["1"@]) == 0);
        assert(flag_count(t) == 1);
        assert(flag_count(s) == 0);
    } else {
        lemma_count_append_pair(s.skip(1));
        let t = s + pair;
        assert(t[0] == s[0]);
        assert(t.skip(1) =~= s.skip(1) + pair);
    }
}

// --- the state machine itself ---

/// Two-state safe-mode model plus the single-slot pending-toggle mailbox.
/// A new request overwrites an undrained one (last writer wins).
#[derive(Clone, Copy, Debug)]
pub struct SafeModeState {
    /// Whether the process currently runs with the restrictive flag.
    pub active: bool,
    /// A recorded but not yet executed request to enable (`Some(true)`)
    /// or disable (`Some(false)`) safe mode.
    pub pending: Option<bool>,
}

impl SafeModeState {
    /// The state a fresh supervisor session starts from.
    pub fn new() -> (s: SafeModeState)
        ensures
            s.active == false,
            s.pending is None,
    {
        SafeModeState { active: false, pending: None }
    }

    /// Takes the pending request, leaving the mailbox empty.
    pub fn drain(&mut self) -> (r: Option<bool>)
        ensures
            r == old(self).pending,
            final(self).pending is None,
            final(self).active == old(self).active,
    {
        let r = self.pending;
        self.pending = None;
        r
    }
}

/// The height lies inside some configured range.
pub open spec fn in_any_range(ranges: Seq<(u64, u64)>, b: u64) -> bool {
    exists|i: int| 0 <= i < ranges.len() && ranges[i].0 <= b && b <= ranges[i].1
}

/// The height is at or past the start of some configured range.
pub open spec fn approaching_any(ranges: Seq<(u64, u64)>, b: u64) -> bool {
    exists|i: int| 0 <= i < ranges.len() && ranges[i].0 <= b
}

/// The height is strictly past the end of every configured range.
pub open spec fn past_all_ranges(ranges: Seq<(u64, u64)>, b: u64) -> bool {
    forall|i: int| 0 <= i < ranges.len() ==> ranges[i].1 < b
}

fn any_in_range(ranges: &Vec<(u64, u64)>, b: u64) -> (r: bool)
    ensures
        r == in_any_range(ranges@, b),
{
    let n = ranges.len();
    let mut i: usize = 0;
    while i < n
        invariant
            n == ranges@.len(),
            0 <= i <= n,
            forall|q: int| 0 <= q < i ==> !(ranges@[q].0 <= b && b <= ranges@[q].1),
        decreases n - i,
    {
        let (s, e) = ranges[i];
        if s <= b && b <= e {
            return true;
        }
        i = i + 1;
    }
    false
}

fn any_started(ranges: &Vec<(u64, u64)>, b: u64) -> (r: bool)
    ensures
        r == approaching_any(ranges@, b),
{
    let n = ranges.len();
    let mut i: usize = 0;
    while i < n
        invariant
            n == ranges@.len(),
            0 <= i <= n,
            forall|q: int| 0 <= q < i ==> !(ranges@[q].0 <= b),
        decreases n - i,
    {
        if ranges[i].0 <= b {
            return true;
        }
        i = i + 1;
    }
    false
}

fn all_past(ranges: &Vec<(u64, u64)>, b: u64) -> (r: bool)
    ensures
        r == past_all_ranges(ranges@, b),
{
    let n = ranges.len();
    let mut i: usize = 0;
    while i < n
        invariant
            n == ranges@.len(),
            0 <= i <= n,
            forall|q: int| 0 <= q < i ==> ranges@[q].1 < b,
        decreases n - i,
    {
        if ranges[i].1 >= b {
            return false;
        }
        i = i + 1;
    }
    true
}

impl SafeModeState {
    /// Folds one observed block height into the mailbox: schedules an
    /// enable when the height is inside or approaching a troublesome range
    /// and safe mode is not active, a disable once it is past every range
    /// and safe mode is active; otherwise leaves the state alone.
    pub fn observe_block(&mut self, current: u64, ranges: &Vec<(u64, u64)>) -> (scheduled: Option<
        bool,
    >)
        ensures
            final(self).active == old(self).active,
            !old(self).active && (in_any_range(ranges@, current) || approaching_any(
                ranges@,
                current,
            )) ==> final(self).pending == Some(true) && scheduled == Some(true),
            old(self).active && past_all_ranges(ranges@, current) ==> final(self).pending == Some(
                false,
            ) && scheduled == Some(false),
            !(!old(self).active && (in_any_range(ranges@, current) || approaching_any(
                ranges@,
                current,
            ))) && !(old(self).active && past_all_ranges(ranges@, current)) ==> *final(self)
                == *old(self) && scheduled is None,
    {
        let in_range = any_in_range(ranges, current);
        let started = any_started(ranges, current);
        let past = all_past(ranges, current);
        if !self.active && (in_range || started) {
            self.pending = Some(true);
            Some(true)
        } else if self.active && past {
            self.pending = Some(false);
            Some(false)
        } else {
            None
        }
    }
}

/// The static table of troublesome block ranges for a chain: heavy spans
/// known to be unusually expensive to import.
pub fn troublesome_ranges(chain: &str) -> (r: Vec<(u64, u64)>)
    ensures
        chain@ == "resonance"@ ==> r@ == seq![(13311u64, 13360u64)],
        chain@ != "resonance"@ ==> r@ == Seq::<(u64, u64)>::empty(),
{
    let mut v: Vec<(u64, u64)> = Vec::new();
    if str_eq(chain, "resonance") {
        v.push((13311, 13360));
        proof {
            assert(v@ =~= seq![(13311u64, 13360u64)]);
        }
    } else {
        proof {
            assert(v@ =~= Seq::<(u64, u64)>::empty());
        }
    }
    v
}

} // verus!
