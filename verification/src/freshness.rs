//! Protection against old policies that are sent again.
//!
//! The client keeps the newest time stamp of a policy that it has accepted. A
//! policy with an older stamp is refused whatever the clock says, and one that is
//! far from the client's own clock is refused too, so that a captured policy does
//! not stay good for ever.
use crate::text::{
    all_digits, decimal, decimal_text, digits_value, is_digit, is_white_space, joined,
    law_blank_text_is_white_space, law_decimal_is_positional, law_digits_are_read,
    law_other_texts_are_not_read, law_trim_keeps_the_rest, law_trim_takes_white_space_off,
    parse_u64, parsed_u64, trim, trimmed, trimmed_end, trimmed_start,
};
use vstd::prelude::*;

verus! {

/// How old a policy may be, in seconds.
pub const POLICY_MAX_AGE_SECS: u64 = 600;

/// How far in the future a policy may be stamped, in seconds.
pub const POLICY_MAX_FUTURE_SECS: u64 = 600;

/// Whether a policy is acceptable by its time stamp. Zero means that the server
/// puts no stamps on its policies.
pub open spec fn is_fresh(issued_ts: u64, high_water: u64, now: u64) -> bool {
    issued_ts == 0 || {
        &&& issued_ts >= high_water
        &&& now - issued_ts <= POLICY_MAX_AGE_SECS
        &&& issued_ts - now <= POLICY_MAX_FUTURE_SECS
    }
}

/// Why a policy is not acceptable; the first of the tests that it fails decides.
pub open spec fn freshness_refusal(issued_ts: u64, high_water: u64, now: u64) -> Seq<char> {
    let stamp = "policy issued_ts "@ + decimal(issued_ts as nat);
    if issued_ts < high_water {
        stamp + " is older than last-applied "@ + decimal(high_water as nat)
            + " (rollback/replay refused)"@
    } else if now - issued_ts > POLICY_MAX_AGE_SECS {
        stamp + " is stale (> "@ + decimal(POLICY_MAX_AGE_SECS as nat) + "s old; replay refused)"@
    } else {
        stamp + " is too far in the future (> "@ + decimal(POLICY_MAX_FUTURE_SECS as nat)
            + "s; refused)"@
    }
}

/// The newest accepted time stamp that the stored text stands for: zero if the
/// text is no number.
pub open spec fn high_water_of(stored: Seq<char>) -> u64 {
    match parsed_u64(trimmed(stored)) {
        Some(ts) => ts,
        None => 0,
    }
}

/// The newest accepted time stamp, from the text that the options hold.
pub fn policy_issued_ts_high_water(stored: &str) -> (r: u64)
    ensures
        r == high_water_of(stored@),
{
    match parse_u64(trim(stored)) {
        Some(ts) => ts,
        None => 0,
    }
}

fn sentence(stamp: &str, middle: &str, number: u64, end: &str) -> (r: String)
    ensures
        r@ == stamp@ + middle@ + decimal(number as nat) + end@,
{
    let a = joined(stamp, middle);
    let b = joined(a.as_str(), decimal_text(number).as_str());
    joined(b.as_str(), end)
}

/// Decides by its time stamp whether a policy is accepted. `high_water` is the
/// newest stamp accepted so far and `now` the client's clock, all in seconds since
/// the epoch. A refusal comes with its reason.
pub fn check_policy_freshness(issued_ts: u64, high_water: u64, now: u64) -> (r: Result<(), String>)
    ensures
        r is Ok <==> is_fresh(issued_ts, high_water, now),
        r matches Err(reason) ==> reason@ == freshness_refusal(issued_ts, high_water, now),
{
    if issued_ts == 0 {
        return Ok(());
    }
    if issued_ts < high_water {
        let stamp = joined("policy issued_ts ", decimal_text(issued_ts).as_str());
        return Err(
            sentence(
                stamp.as_str(),
                " is older than last-applied ",
                high_water,
                " (rollback/replay refused)",
            ),
        );
    }
    if now.saturating_sub(issued_ts) > POLICY_MAX_AGE_SECS {
        let stamp = joined("policy issued_ts ", decimal_text(issued_ts).as_str());
        return Err(
            sentence(
                stamp.as_str(),
                " is stale (> ",
                POLICY_MAX_AGE_SECS,
                "s old; replay refused)",
            ),
        );
    }
    if issued_ts.saturating_sub(now) > POLICY_MAX_FUTURE_SECS {
        let stamp = joined("policy issued_ts ", decimal_text(issued_ts).as_str());
        return Err(
            sentence(
                stamp.as_str(),
                " is too far in the future (> ",
                POLICY_MAX_FUTURE_SECS,
                "s; refused)",
            ),
        );
    }
    Ok(())
}

/// What the stored text is after a policy was accepted: a newer stamp replaces it.
pub open spec fn stored_after(stored: Seq<char>, issued_ts: u64) -> Seq<char> {
    if issued_ts > high_water_of(stored) {
        decimal(issued_ts as nat)
    } else {
        stored
    }
}

/// What the stored text is after policies with these stamps were accepted.
pub open spec fn stored_after_all(stored: Seq<char>, stamps: Seq<u64>) -> Seq<char>
    decreases stamps.len(),
{
    if stamps.len() == 0 {
        stored
    } else {
        stored_after(stored_after_all(stored, stamps.drop_last()), stamps.last())
    }
}

proof fn lemma_decimal_digits(n: nat)
    ensures
        decimal(n).len() > 0,
        all_digits(decimal(n)),
        digits_value(decimal(n)) == n,
    decreases n,
{
    if n < 10 {
        let s = decimal(n);
        assert(s.drop_last() =~= Seq::empty());
        assert(digits_value(s.drop_last()) == 0);
    } else {
        lemma_decimal_digits(n / 10);
        let s = decimal(n);
        assert(s.drop_last() =~= decimal(n / 10));
        assert forall|i: int| 0 <= i < s.len() implies is_digit(#[trigger] s[i]) by {
            if i < decimal(n / 10).len() {
                assert(s[i] == decimal(n / 10)[i]);
            }
        }
    }
}

/// A time stamp that was stored is read back as it was, so that the protection
/// outlives a restart.
pub proof fn law_stored_stamp_is_read_back(issued_ts: u64)
    ensures
        high_water_of(decimal(issued_ts as nat)) == issued_ts,
{
    let s = decimal(issued_ts as nat);
    lemma_decimal_digits(issued_ts as nat);
    assert(is_digit(s[0]));
    assert(is_digit(s[s.len() - 1]));
    assert(trimmed_start(s) == s);
    assert(trimmed_end(s) == s);
}

/// To accept a policy never lowers the stored time stamp, and raises it to the
/// stamp of the policy at least.
pub proof fn law_high_water_never_falls(stored: Seq<char>, issued_ts: u64)
    ensures
        high_water_of(stored_after(stored, issued_ts)) >= high_water_of(stored),
        high_water_of(stored_after(stored, issued_ts)) >= issued_ts,
{
    law_stored_stamp_is_read_back(issued_ts);
}

/// Once a policy is accepted, an older one with a stamp is refused for good,
/// whatever the clock says and however many policies were accepted in between.
pub proof fn law_no_rollback(
    stored: Seq<char>,
    accepted: u64,
    later: Seq<u64>,
    older: u64,
    now: u64,
)
    requires
        0 < older < accepted,
    ensures
        !is_fresh(
            older,
            high_water_of(stored_after_all(stored_after(stored, accepted), later)),
            now,
        ),
{
    law_high_water_never_falls(stored, accepted);
    lemma_high_water_of_many(stored_after(stored, accepted), later);
}

proof fn lemma_high_water_of_many(stored: Seq<char>, stamps: Seq<u64>)
    ensures
        high_water_of(stored_after_all(stored, stamps)) >= high_water_of(stored),
    decreases stamps.len(),
{
    if stamps.len() > 0 {
        lemma_high_water_of_many(stored, stamps.drop_last());
        law_high_water_never_falls(stored_after_all(stored, stamps.drop_last()), stamps.last());
    }
}

/// A policy that is sent again and again ages out: once its stamp is older than
/// the window, it is refused.
pub proof fn law_replay_ages_out(issued_ts: u64, high_water: u64, now: u64)
    requires
        issued_ts > 0,
        now > issued_ts + POLICY_MAX_AGE_SECS,
    ensures
        !is_fresh(issued_ts, high_water, now),
{
}

/// A policy that was just made is accepted on a clock that is off by less than the
/// window, unless a newer one was accepted before.
pub proof fn law_genuine_policy_is_accepted(issued_ts: u64, high_water: u64, now: u64)
    requires
        issued_ts >= high_water,
        now <= issued_ts + POLICY_MAX_AGE_SECS,
        issued_ts <= now + POLICY_MAX_FUTURE_SECS,
    ensures
        is_fresh(issued_ts, high_water, now),
{
}

/// A policy is acceptable if it has no stamp, or if its stamp is not older than the
/// newest one accepted and at most ten minutes away from the clock. There is no other
/// ground for a refusal.
pub proof fn law_freshness_in_full(issued_ts: u64, high_water: u64, now: u64)
    ensures
        is_fresh(issued_ts, high_water, now) <==> (issued_ts == 0 || (high_water <= issued_ts && now
            <= issued_ts + 600 && issued_ts <= now + 600)),
{
}

/// A refusal says which of the tests failed, and on which stamp.
pub proof fn law_refusal_names_the_test(issued_ts: u64, high_water: u64, now: u64)
    ensures
        issued_ts < high_water ==> freshness_refusal(issued_ts, high_water, now)
            == "policy issued_ts "@ + decimal(issued_ts as nat) + " is older than last-applied "@
            + decimal(high_water as nat) + " (rollback/replay refused)"@,
        issued_ts >= high_water && now > issued_ts + 600 ==> freshness_refusal(
            issued_ts,
            high_water,
            now,
        ) == "policy issued_ts "@ + decimal(issued_ts as nat)
            + " is stale (> 600s old; replay refused)"@,
        issued_ts >= high_water && issued_ts > now + 600 ==> freshness_refusal(
            issued_ts,
            high_water,
            now,
        ) == "policy issued_ts "@ + decimal(issued_ts as nat)
            + " is too far in the future (> 600s; refused)"@,
{
    reveal_strlit(" is stale (> ");
    reveal_strlit("s old; replay refused)");
    reveal_strlit(" is stale (> 600s old; replay refused)");
    reveal_strlit(" is too far in the future (> ");
    reveal_strlit("s; refused)");
    reveal_strlit(" is too far in the future (> 600s; refused)");
    law_decimal_is_positional(60, 0);
    law_decimal_is_positional(6, 0);
    law_decimal_is_positional(0, 6);
    reveal_strlit("0123456789");
    assert(decimal(600) =~= seq!['6', '0', '0']);
    let stamp = "policy issued_ts "@ + decimal(issued_ts as nat);
    assert(stamp + " is stale (> "@ + decimal(600) + "s old; replay refused)"@ =~= stamp
        + " is stale (> 600s old; replay refused)"@);
    assert(stamp + " is too far in the future (> "@ + decimal(600) + "s; refused)"@ =~= stamp
        + " is too far in the future (> 600s; refused)"@);
}

/// A stored number is read whatever white space stands around it.
pub proof fn law_stored_number_is_read(before: Seq<char>, digits: Seq<char>, after: Seq<char>)
    requires
        digits.len() > 0,
        forall|i: int| 0 <= i < digits.len() ==> '0' <= #[trigger] digits[i] <= '9',
        digits_value(digits) <= u64::MAX,
        forall|i: int| 0 <= i < before.len() ==> is_white_space(#[trigger] before[i]),
        forall|i: int| 0 <= i < after.len() ==> is_white_space(#[trigger] after[i]),
    ensures
        high_water_of(before + digits + after) == digits_value(digits),
{
    assert('0' <= digits[0] && '0' <= digits[digits.len() - 1]);
    law_trim_takes_white_space_off(before, digits, after);
    law_digits_are_read(digits);
}

/// A stored text that is blank, or holds a character that has no place in a number,
/// counts as zero.
pub proof fn law_unreadable_stamp_counts_as_zero(stored: Seq<char>, i: int)
    requires
        (forall|j: int| 0 <= j < stored.len() ==> is_white_space(#[trigger] stored[j])) || (0 <= i
            < stored.len() && !is_white_space(stored[i]) && !('0' <= stored[i] <= '9') && stored[i]
            != '+'),
    ensures
        high_water_of(stored) == 0,
{
    let s = trimmed(stored);
    law_blank_text_is_white_space(stored);
    if s.len() > 0 {
        law_trim_keeps_the_rest(stored, stored[i]);
        let j = choose|j: int| 0 <= j < s.len() && s[j] == stored[i];
        law_other_texts_are_not_read(s, j);
    } else {
        law_other_texts_are_not_read(s, 0);
    }
}

/// To accept a policy leaves the later of two stamps: the one stored before and that
/// of the policy.
pub proof fn law_high_water_is_the_later_stamp(stored: Seq<char>, issued_ts: u64)
    ensures
        high_water_of(stored_after(stored, issued_ts)) == if issued_ts >= high_water_of(stored) {
            issued_ts
        } else {
            high_water_of(stored)
        },
        issued_ts <= high_water_of(stored) ==> stored_after(stored, issued_ts) == stored,
{
    law_stored_stamp_is_read_back(issued_ts);
}

/// A stored text stands for the number that it reads as, apart from the white space
/// around it, and for zero if it reads as none.
pub proof fn law_stored_text_in_full(before: Seq<char>, middle: Seq<char>, after: Seq<char>)
    requires
        forall|i: int| 0 <= i < before.len() ==> is_white_space(#[trigger] before[i]),
        forall|i: int| 0 <= i < after.len() ==> is_white_space(#[trigger] after[i]),
        middle.len() > 0 ==> !is_white_space(middle[0]) && !is_white_space(middle.last()),
    ensures
        parsed_u64(middle) is Some ==> high_water_of(before + middle + after) == parsed_u64(
            middle,
        ).unwrap(),
        parsed_u64(middle) is None ==> high_water_of(before + middle + after) == 0,
{
    law_trim_takes_white_space_off(before, middle, after);
}

}
