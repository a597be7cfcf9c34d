//! The redemption coordinator. A click resolves through the code index,
//! the live record decides the outcome in a fixed order — out of stock,
//! expired, already redeemed — and a redemption inserts the ledger record
//! first (the point of no return) and only then takes the quantity down.
//! Attempts for one code are handled one at a time; `handle_click` is that
//! serialized step, and the laws below hold over any sequence of steps.

use crate::clock::rfc3339_secs;
use crate::clock::is_expired;
use crate::clock::parse_rfc3339_secs;
use crate::index::CodeIndex;
use crate::index::refreshed;
use crate::inventory::InventoryModel;
use crate::inventory::decremented;
use crate::ledger::Ledger;
use crate::models::GiftCode;
use crate::models::GiftCodeResponse;
use crate::models::Outcome;
use vstd::prelude::*;

verus! {

/// Everything the redemption protocol reads and writes, as one
/// mathematical state: the button index, the inventory map, and the
/// redemption ledger.
#[verifier::ext_equal]
pub ghost struct EngineState {
    pub index: Map<Seq<char>, GiftCodeResponse>,
    pub inventory: Map<Seq<char>, GiftCode>,
    pub ledger: Set<(u64, Seq<char>)>,
}

/// One click, as the transition function takes it: the clicking user, the
/// button hit, and the instant of handling.
pub ghost struct Click {
    pub user_id: u64,
    pub button: Seq<char>,
    pub now_secs: i64,
}

/// The outcome of one attempt, decided in the fixed order: out of stock
/// first, then expiry, then the ledger.
pub open spec fn spec_outcome(amount: u32, expired: bool, already_redeemed: bool) -> Outcome {
    if amount == 0 {
        Outcome::Exhausted
    } else if expired {
        Outcome::Expired
    } else if already_redeemed {
        Outcome::AlreadyRedeemed
    } else {
        Outcome::Redeemed
    }
}

/// Decides one attempt's outcome from what the protocol fetched.
pub fn evaluate_outcome(amount: u32, expired: bool, already_redeemed: bool) -> (r: Outcome)
    ensures
        r == spec_outcome(amount, expired, already_redeemed),
{
    if amount == 0 {
        Outcome::Exhausted
    } else if expired {
        Outcome::Expired
    } else if already_redeemed {
        Outcome::AlreadyRedeemed
    } else {
        Outcome::Redeemed
    }
}

/// The code key a click resolves to, when its button is known.
pub open spec fn resolved_key(s: EngineState, button: Seq<char>) -> Seq<char> {
    s.index[button].key@
}

/// What one click does to the stores, and what the user is told. An
/// unknown button changes nothing and answers nothing; a missing record
/// or an unreadable expiry answers FAILED and changes nothing; otherwise
/// the outcome follows `spec_outcome`, and only REDEEMED writes: the
/// ledger gains the pair, the inventory loses one unit, and the cached
/// snapshot is refreshed.
pub open spec fn spec_handle_click(s: EngineState, c: Click) -> (EngineState, Option<Outcome>) {
    if !s.index.dom().contains(c.button) {
        (s, None)
    } else {
        let key = resolved_key(s, c.button);
        if !s.inventory.dom().contains(key) {
            (s, Some(Outcome::Failed))
        } else {
            let rec = s.inventory[key];
            match rfc3339_secs(rec.expired_at@) {
                None => (s, Some(Outcome::Failed)),
                Some(expiry) => {
                    let o = spec_outcome(
                        rec.amount,
                        expiry < c.now_secs,
                        s.ledger.contains((c.user_id, key)),
                    );
                    if o == Outcome::Redeemed {
                        (
                            EngineState {
                                index: s.index.insert(
                                    c.button,
                                    refreshed(s.index[c.button], (rec.amount - 1) as u32),
                                ),
                                inventory: s.inventory.insert(key, decremented(rec)),
                                ledger: s.ledger.insert((c.user_id, key)),
                            },
                            Some(Outcome::Redeemed),
                        )
                    } else {
                        (s, Some(o))
                    }
                },
            }
        }
    }
}

/// The coordinator's stores: the process-local index and the models of
/// the two remote stores, mutated only through the protocol.
pub struct RedemptionEngine {
    pub index: CodeIndex,
    pub inventory: InventoryModel,
    pub ledger: Ledger,
}

impl RedemptionEngine {
    /// The mathematical state of the three stores.
    pub open spec fn state(&self) -> EngineState {
        EngineState { index: self.index@, inventory: self.inventory@, ledger: self.ledger@ }
    }

    /// An engine over empty stores.
    pub fn new() -> (r: Self)
        ensures
            r.state().index == Map::<Seq<char>, GiftCodeResponse>::empty(),
            r.state().inventory == Map::<Seq<char>, GiftCode>::empty(),
            r.state().ledger == Set::<(u64, Seq<char>)>::empty(),
    {
        RedemptionEngine {
            index: CodeIndex::new(),
            inventory: InventoryModel::new(),
            ledger: Ledger::new(),
        }
    }

    /// Handles one click: exactly the transition `spec_handle_click`.
    pub fn handle_click(&mut self, user_id: u64, button_id: &String, now_secs: i64) -> (r:
        Option<Outcome>)
        ensures
            final(self).state() == spec_handle_click(
                old(self).state(),
                (Click { user_id, button: button_id@, now_secs }),
            ).0,
            r == spec_handle_click(
                old(self).state(),
                (Click { user_id, button: button_id@, now_secs }),
            ).1,
    {
        let key = match self.index.lookup(button_id) {
            Some(resp) => resp.key.clone(),
            None => {
                return None;
            },
        };
        let rec_amount: u32;
        let expiry_opt: Option<i64>;
        match self.inventory.get(&key) {
            Some(rec) => {
                rec_amount = rec.amount;
                expiry_opt = parse_rfc3339_secs(rec.expired_at.as_str());
            },
            None => {
                return Some(Outcome::Failed);
            },
        }
        let expiry = match expiry_opt {
            Some(t) => t,
            None => {
                return Some(Outcome::Failed);
            },
        };
        let expired = is_expired(expiry, now_secs);
        let already = self.ledger.contains(user_id, &key);
        let outcome = evaluate_outcome(rec_amount, expired, already);
        if outcome == Outcome::Redeemed {
            let ghost s0 = old(self).state();
            let ghost c = Click { user_id, button: button_id@, now_secs };
            match self.ledger.insert(user_id, key.clone()) {
                Ok(()) => {},
                Err(_) => {
                    proof {
                        assert(false);
                    }
                    return Some(Outcome::Failed);
                },
            }
            self.inventory.decrement(&key);
            self.index.refresh_amount(button_id, rec_amount - 1);
            proof {
                assert(resolved_key(s0, c.button) == key@);
                assert(self.state().inventory =~= spec_handle_click(s0, c).0.inventory);
                assert(self.state().ledger =~= spec_handle_click(s0, c).0.ledger);
                assert(self.state().index =~= spec_handle_click(s0, c).0.index);
                assert(self.state() =~~= spec_handle_click(s0, c).0);
            }
            Some(Outcome::Redeemed)
        } else {
            Some(outcome)
        }
    }
}

} // verus!
