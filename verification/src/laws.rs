//! What holds of every run of the redemption protocol: quantity is never
//! oversold, no pair redeems twice, terminal outcomes are what they claim,
//! and replays are harmless. Each law is proved over `spec_handle_click`,
//! the exact transition that `handle_click` implements.

use crate::clock::rfc3339_secs;
use crate::engine::Click;
use crate::engine::EngineState;
use crate::engine::resolved_key;
use crate::engine::spec_handle_click;
use crate::models::Outcome;
use vstd::prelude::*;

verus! {

/// The state after a sequence of clicks, handled one at a time.
pub open spec fn spec_run(s: EngineState, cs: Seq<Click>) -> EngineState
    decreases cs.len(),
{
    if cs.len() == 0 {
        s
    } else {
        spec_run(spec_handle_click(s, cs[0]).0, cs.drop_first())
    }
}

/// How many REDEEMED outcomes a run hands out for the code `key`.
pub open spec fn redeemed_count(s: EngineState, cs: Seq<Click>, key: Seq<char>) -> nat
    decreases cs.len(),
{
    if cs.len() == 0 {
        0
    } else {
        let stepped = spec_handle_click(s, cs[0]);
        let here: nat = if s.index.dom().contains(cs[0].button) && resolved_key(s, cs[0].button)
            == key && stepped.1 == Some(Outcome::Redeemed) {
            1
        } else {
            0
        };
        here + redeemed_count(stepped.0, cs.drop_first(), key)
    }
}

/// How many REDEEMED outcomes a run hands out to `user_id` for `key`.
pub open spec fn redeemed_count_by(
    s: EngineState,
    cs: Seq<Click>,
    user_id: u64,
    key: Seq<char>,
) -> nat
    decreases cs.len(),
{
    if cs.len() == 0 {
        0
    } else {
        let stepped = spec_handle_click(s, cs[0]);
        let here: nat = if cs[0].user_id == user_id && s.index.dom().contains(cs[0].button)
            && resolved_key(s, cs[0].button) == key && stepped.1 == Some(Outcome::Redeemed) {
            1
        } else {
            0
        };
        here + redeemed_count_by(stepped.0, cs.drop_first(), user_id, key)
    }
}

/// Law: over any sequence of clicks, the REDEEMED outcomes for a code and
/// its remaining quantity account exactly for the quantity it started
/// with — so the counter never goes negative and nothing is oversold.
pub proof fn lemma_quantity_accounting(s: EngineState, cs: Seq<Click>, key: Seq<char>)
    requires
        s.inventory.dom().contains(key),
    ensures
        spec_run(s, cs).inventory.dom().contains(key),
        redeemed_count(s, cs, key) + spec_run(s, cs).inventory[key].amount == s.inventory[
            key
        ].amount,
    decreases cs.len(),
{
    if cs.len() > 0 {
        let stepped = spec_handle_click(s, cs[0]);
        lemma_quantity_accounting(stepped.0, cs.drop_first(), key);
    }
}

/// Law: a code with remaining quantity `n` yields at most `n` REDEEMED
/// outcomes over any sequence of clicks, however they arrive.
pub proof fn lemma_at_most_quantity(s: EngineState, cs: Seq<Click>, key: Seq<char>)
    requires
        s.inventory.dom().contains(key),
    ensures
        redeemed_count(s, cs, key) <= s.inventory[key].amount,
{
    lemma_quantity_accounting(s, cs, key);
}

/// Law: the ledger only grows — no run ever forgets a redemption, so a
/// pair once recorded stays recorded and every later attempt for it is
/// refused (`lemma_replay_already_redeemed` says how).
pub proof fn lemma_ledger_monotone(s: EngineState, cs: Seq<Click>, user_id: u64, key: Seq<char>)
    requires
        s.ledger.contains((user_id, key)),
    ensures
        spec_run(s, cs).ledger.contains((user_id, key)),
    decreases cs.len(),
{
    if cs.len() > 0 {
        let stepped = spec_handle_click(s, cs[0]);
        lemma_ledger_monotone(stepped.0, cs.drop_first(), user_id, key);
    }
}

/// Once the ledger holds a pair, no run redeems that pair again.
proof fn lemma_ledger_blocks_redemption(s: EngineState, cs: Seq<Click>, user_id: u64, key: Seq<
    char>)
    requires
        s.ledger.contains((user_id, key)),
    ensures
        redeemed_count_by(s, cs, user_id, key) == 0,
    decreases cs.len(),
{
    if cs.len() > 0 {
        let stepped = spec_handle_click(s, cs[0]);
        assert(stepped.0.ledger.contains((user_id, key)));
        lemma_ledger_blocks_redemption(stepped.0, cs.drop_first(), user_id, key);
    }
}

/// Law: a user redeems a given code at most once over any sequence of
/// clicks; every further attempt is refused.
pub proof fn lemma_single_redemption(s: EngineState, cs: Seq<Click>, user_id: u64, key: Seq<char>)
    ensures
        redeemed_count_by(s, cs, user_id, key) <= 1,
    decreases cs.len(),
{
    if cs.len() > 0 {
        let stepped = spec_handle_click(s, cs[0]);
        if cs[0].user_id == user_id && s.index.dom().contains(cs[0].button) && resolved_key(
            s,
            cs[0].button,
        ) == key && stepped.1 == Some(Outcome::Redeemed) {
            assert(stepped.0.ledger.contains((user_id, key)));
            lemma_ledger_blocks_redemption(stepped.0, cs.drop_first(), user_id, key);
        } else {
            lemma_single_redemption(stepped.0, cs.drop_first(), user_id, key);
        }
    }
}

/// Law: a click by a user the ledger already holds answers
/// ALREADY_REDEEMED and changes nothing, as long as the code is still in
/// stock and not expired (out of stock or expiry answer for themselves
/// first).
pub proof fn lemma_replay_already_redeemed(s: EngineState, c: Click, expiry: i64)
    requires
        s.index.dom().contains(c.button),
        s.inventory.dom().contains(resolved_key(s, c.button)),
        rfc3339_secs(s.inventory[resolved_key(s, c.button)].expired_at@) == Some(expiry),
        s.inventory[resolved_key(s, c.button)].amount > 0,
        c.now_secs <= expiry,
        s.ledger.contains((c.user_id, resolved_key(s, c.button))),
    ensures
        spec_handle_click(s, c) == (s, Some(Outcome::AlreadyRedeemed)),
{
}

/// Law: replaying the same click twice for a user who already redeemed
/// answers ALREADY_REDEEMED both times, and the stored quantity does not
/// move.
pub proof fn lemma_replay_idempotent(s: EngineState, c: Click, expiry: i64)
    requires
        s.index.dom().contains(c.button),
        s.inventory.dom().contains(resolved_key(s, c.button)),
        rfc3339_secs(s.inventory[resolved_key(s, c.button)].expired_at@) == Some(expiry),
        s.inventory[resolved_key(s, c.button)].amount > 0,
        c.now_secs <= expiry,
        s.ledger.contains((c.user_id, resolved_key(s, c.button))),
    ensures
        spec_handle_click(s, c) == (s, Some(Outcome::AlreadyRedeemed)),
        spec_handle_click(spec_handle_click(s, c).0, c) == (s, Some(Outcome::AlreadyRedeemed)),
        spec_handle_click(spec_handle_click(s, c).0, c).0.inventory[resolved_key(s, c.button)]
            == s.inventory[resolved_key(s, c.button)],
{
    lemma_replay_already_redeemed(s, c, expiry);
}

/// Law: a code whose expiry lies in the past always answers EXPIRED, even
/// with quantity left.
pub proof fn lemma_expired_always_expired(s: EngineState, c: Click, expiry: i64)
    requires
        s.index.dom().contains(c.button),
        s.inventory.dom().contains(resolved_key(s, c.button)),
        rfc3339_secs(s.inventory[resolved_key(s, c.button)].expired_at@) == Some(expiry),
        s.inventory[resolved_key(s, c.button)].amount > 0,
        expiry < c.now_secs,
    ensures
        spec_handle_click(s, c) == (s, Some(Outcome::Expired)),
{
}

/// Law: a code with no quantity left always answers EXHAUSTED, expired or
/// not.
pub proof fn lemma_exhausted_always_exhausted(s: EngineState, c: Click, expiry: i64)
    requires
        s.index.dom().contains(c.button),
        s.inventory.dom().contains(resolved_key(s, c.button)),
        rfc3339_secs(s.inventory[resolved_key(s, c.button)].expired_at@) == Some(expiry),
        s.inventory[resolved_key(s, c.button)].amount == 0,
    ensures
        spec_handle_click(s, c) == (s, Some(Outcome::Exhausted)),
{
}

/// Law: an unknown button identifier produces no response and no store
/// mutation.
pub proof fn lemma_unknown_button_drops(s: EngineState, c: Click)
    requires
        !s.index.dom().contains(c.button),
    ensures
        spec_handle_click(s, c) == (s, None::<Outcome>),
{
}

} // verus!
