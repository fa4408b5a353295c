//! The blocking-read coordinator: "give me the freshest possible value for
//! a key, waiting up to T seconds for an update if one is imminent."
//!
//! Only the decisions live here. The caller owns the clock and the
//! notification primitive: it captures a baseline with [`wait_start`],
//! sleeps on a per-key signal, and computes the answer with
//! [`wait_resume`] once woken or timed out.

use vstd::prelude::*;
use crate::cache::CacheableJson;

verus! {

/// Whether a blocking read resumed because the value changed (`Fresh`) or
/// because its window elapsed with no change (`Stale`).
#[derive(Clone, Copy, PartialEq, Eq, Structural, Debug)]
pub enum Freshness {
    Fresh,
    Stale,
}

/// What a resumed waiter reports: the value served, its version, and
/// whether the wait saw a change.
pub struct WaitOutcome {
    pub content: Vec<u8>,
    pub version: u64,
    pub freshness: Freshness,
}

/// How a blocking read begins: answered at once, or suspended with the
/// baseline version it must see advance.
pub enum WaitStart {
    Done(WaitOutcome),
    Pending(u64),
}

/// Fresh exactly when the entry's version has advanced beyond the baseline
/// captured when the wait began.
pub open spec fn freshness_spec(version_now: u64, baseline: u64) -> Freshness {
    if version_now > baseline {
        Freshness::Fresh
    } else {
        Freshness::Stale
    }
}

/// Begin a wait of `timeout_s` seconds on one entry. A zero timeout is an
/// immediate read: the current value with freshness `Fresh`, no waiting
/// semantics at all. A positive timeout captures the current version as
/// the baseline — before any sleep, so no update can slip between the
/// check and the registration.
pub fn wait_start(entry: &CacheableJson, timeout_s: u64) -> (r: WaitStart)
    ensures
        timeout_s == 0 ==> (r matches WaitStart::Done(o)
            && o.content@ == entry.content@
            && o.version == entry.version
            && o.freshness == Freshness::Fresh),
        timeout_s > 0 ==> r == WaitStart::Pending(entry.version),
{
    if timeout_s == 0 {
        let (content, version) = entry.snapshot();
        WaitStart::Done(WaitOutcome { content, version, freshness: Freshness::Fresh })
    } else {
        WaitStart::Pending(entry.version)
    }
}

/// Resume a wait: serve whatever the entry holds now — coalescing any
/// number of rapid updates into the latest value — with freshness `Fresh`
/// exactly when the version advanced beyond the baseline, `Stale` when the
/// window elapsed with no change.
pub fn wait_resume(entry: &CacheableJson, baseline: u64) -> (r: WaitOutcome)
    ensures
        r.content@ == entry.content@,
        r.version == entry.version,
        r.freshness == freshness_spec(entry.version, baseline),
{
    let (content, version) = entry.snapshot();
    let freshness = if version > baseline {
        Freshness::Fresh
    } else {
        Freshness::Stale
    };
    WaitOutcome { content, version, freshness }
}

/// One accepted update during a wait is enough for every waiter: each
/// waiter whose baseline was captured no later than the update resumes
/// with freshness `Fresh` and sees exactly the updated entry — however
/// many waiters registered on the key.
pub proof fn lemma_update_wakes_waiters(
    pre: CacheableJson,
    post: CacheableJson,
    baseline: u64,
)
    requires
        pre.version < u64::MAX,
        post.version == pre.version + 1,
        baseline <= pre.version,
    ensures
        freshness_spec(post.version, baseline) == Freshness::Fresh,
{
}

/// A wait whose window elapses with no update in between resumes with the
/// unchanged value and freshness `Stale`, not an error.
pub proof fn lemma_timeout_without_update_is_stale(entry: CacheableJson, baseline: u64)
    requires
        baseline == entry.version,
    ensures
        freshness_spec(entry.version, baseline) == Freshness::Stale,
{
}

/// Whether a character is a decimal digit.
pub open spec fn is_digit(c: char) -> bool {
    48 <= c as u32 <= 57
}

/// The value of one decimal digit; zero for any other character.
pub open spec fn digit_val(c: char) -> nat {
    if is_digit(c) {
        (c as u32 - 48) as nat
    } else {
        0
    }
}

/// Whether every character of `s` is a decimal digit.
pub open spec fn all_digits(s: Seq<char>) -> bool {
    forall|i: int| 0 <= i < s.len() ==> is_digit(#[trigger] s[i])
}

/// The number that a sequence of decimal digits denotes.
pub open spec fn digits_val(s: Seq<char>) -> nat
    decreases s.len(),
{
    if s.len() == 0 {
        0
    } else {
        digits_val(s.drop_last()) * 10 + digit_val(s.last())
    }
}

/// The timeout that a raw path segment denotes: its decimal value when the
/// segment is a plain number that a `u64` can hold, and zero — an
/// immediate read, not an error — when the segment is empty, malformed or
/// out of range.
pub open spec fn timeout_spec(s: Seq<char>) -> u64 {
    if s.len() > 0 && all_digits(s) && digits_val(s) <= u64::MAX {
        digits_val(s) as u64
    } else {
        0
    }
}

/// A longer digit prefix never denotes a smaller number.
proof fn lemma_digits_val_prefix(s: Seq<char>, i: int)
    requires
        0 <= i <= s.len(),
    ensures
        digits_val(s.take(i)) <= digits_val(s),
    decreases s.len() - i,
{
    if i < s.len() {
        assert(s.take(i + 1).drop_last() =~= s.take(i));
        assert(s.take(i + 1).last() == s[i]);
        lemma_digits_val_prefix(s, i + 1);
    } else {
        assert(s.take(i) =~= s);
    }
}

/// Normalize a raw timeout segment to a number of seconds, as
/// [`timeout_spec`] says.
pub fn parse_timeout(s: &str) -> (r: u64)
    ensures
        r == timeout_spec(s@),
{
    let n = s.unicode_len();
    if n == 0 {
        return 0;
    }
    let mut acc: u64 = 0;
    let mut i: usize = 0;
    while i < n
        invariant
            n == s@.len(),
            0 <= i <= n,
            forall|j: int| 0 <= j < i ==> is_digit(#[trigger] s@[j]),
            acc as nat == digits_val(s@.take(i as int)),
        decreases n - i,
    {
        let c = s.get_char(i);
        let cv = c as u32;
        if cv < 48 || cv > 57 {
            assert(!is_digit(s@[i as int]));
            assert(!all_digits(s@));
            return 0;
        }
        let d: u64 = (cv - 48) as u64;
        let wide: u128 = acc as u128 * 10 + d as u128;
        proof {
            assert(s@.take(i + 1).drop_last() =~= s@.take(i as int));
            assert(s@.take(i + 1).last() == s@[i as int]);
            assert(digits_val(s@.take(i + 1)) == digits_val(s@.take(i as int)) * 10 + digit_val(
                s@[i as int],
            ));
        }
        if wide > u64::MAX as u128 {
            proof {
                lemma_digits_val_prefix(s@, i + 1);
                assert(digits_val(s@) > u64::MAX);
            }
            return 0;
        }
        acc = wide as u64;
        i = i + 1;
    }
    proof {
        assert(s@.take(n as int) =~= s@);
    }
    acc
}

} // verus!
