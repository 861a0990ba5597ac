//! The submission policy: which endpoint failures are worth another attempt,
//! how many attempts there are, and how long to wait between them.

use vstd::prelude::*;
use vstd::string::*;
use vstd::utf8::encode_utf8;

verus! {

/// Most submissions of one transaction, the first one included.
pub const MAX_SUBMIT_ATTEMPTS: u32 = 5;

/// Seconds to wait before the second submission. Each later wait is twice the
/// one before.
pub const FIRST_RETRY_DELAY_SECONDS: u64 = 2;

/// Whether `needle` stands in `haystack` at the given place.
pub open spec fn occurs_at(haystack: Seq<u8>, needle: Seq<u8>, at: int) -> bool {
    0 <= at && at + needle.len() <= haystack.len() && haystack.subrange(
        at,
        at + needle.len(),
    ) == needle
}

/// Whether `needle` stands somewhere in `haystack`.
pub open spec fn contains_bytes(haystack: Seq<u8>, needle: Seq<u8>) -> bool {
    exists|at: int| occurs_at(haystack, needle, at)
}

/// Whether an endpoint's message reports rate limiting, the one failure that
/// is worth another attempt: its bytes hold those of `rate limit`.
pub open spec fn is_rate_limited(message: Seq<char>) -> bool {
    contains_bytes(encode_utf8(message), encode_utf8("rate limit"@))
}

/// The wait after the given one: twice as long, as far as the machine counts.
pub open spec fn doubled(delay_seconds: u64) -> u64 {
    if delay_seconds <= u64::MAX / 2 {
        (delay_seconds * 2) as u64
    } else {
        u64::MAX
    }
}

/// Whether `needle` stands in `haystack` at `at`.
fn matches_at(haystack: &[u8], needle: &[u8], at: usize) -> (found: bool)
    requires
        at + needle@.len() <= haystack@.len(),
    ensures
        found == occurs_at(haystack@, needle@, at as int),
{
    let length: usize = haystack.len();
    let mut i: usize = 0;
    while i < needle.len()
        invariant
            i <= needle@.len(),
            length == haystack@.len(),
            at + needle@.len() <= haystack@.len(),
            forall|j: int| 0 <= j < i ==> haystack@[at + j] == needle@[j],
        decreases needle.len() - i,
    {
        if haystack[at + i] != needle[i] {
            proof {
                assert(haystack@.subrange(at as int, at + needle@.len())[i as int] != needle@[i as int]);
            }
            return false;
        }
        i += 1;
    }
    proof {
        assert(haystack@.subrange(at as int, at + needle@.len()) =~= needle@);
    }
    true
}

/// Whether `needle` stands somewhere in `haystack`.
pub fn find_bytes(haystack: &[u8], needle: &[u8]) -> (found: bool)
    ensures
        found == contains_bytes(haystack@, needle@),
{
    if needle.len() > haystack.len() {
        return false;
    }
    let last: usize = haystack.len() - needle.len();
    let mut at: usize = 0;
    while at < last
        invariant
            at <= last,
            last == haystack@.len() - needle@.len(),
            forall|k: int| 0 <= k < at ==> !occurs_at(haystack@, needle@, k),
        decreases last - at,
    {
        if matches_at(haystack, needle, at) {
            return true;
        }
        at += 1;
    }
    matches_at(haystack, needle, last)
}

/// Whether an endpoint's message reports rate limiting.
pub fn reports_rate_limit(message: &str) -> (limited: bool)
    ensures
        limited == is_rate_limited(message@),
{
    find_bytes(message.as_bytes(), "rate limit".as_bytes())
}

/// The wait after the given one.
pub fn next_delay(delay_seconds: u64) -> (next: u64)
    ensures
        next == doubled(delay_seconds),
{
    if delay_seconds <= u64::MAX / 2 {
        delay_seconds * 2
    } else {
        u64::MAX
    }
}

} // verus!
