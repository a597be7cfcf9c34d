//! The interaction listener's decisions. One loop per monitored channel
//! pulls the next click with a bounded wait; a timeout only means sleep
//! and wait again, a click on an unknown button is dropped silently, and
//! a click on a known button is dispatched to an independent handler so a
//! slow redemption never stalls the loop.

use crate::index::CodeIndex;
use crate::models::ClickEvent;
use crate::models::Outcome;
use crate::text::push_char;
use vstd::prelude::*;

verus! {

/// How long, in seconds, a listener waits for a click before it wakes,
/// and how long it sleeps after a timed-out wait.
pub const INTERACTION_LISTENER_RETRY_DELAY: u64 = 60;

/// What the listener loop does with one poll result.
pub enum ListenerAction {
    /// Hand the click to a freshly spawned handler, without waiting for
    /// it: the resolved code key and the clicking user.
    Dispatch { gift_code_key: String, user_id: u64 },
    /// Unknown button: drop the click silently.
    Ignore,
    /// The wait timed out: sleep for the retry delay, then wait again.
    Sleep,
}

/// Decides what to do with one poll result: a timeout sleeps, an unknown
/// button is dropped, a known button dispatches with the code key the
/// index resolves it to.
pub fn on_poll(index: &CodeIndex, poll: Option<ClickEvent>) -> (a: ListenerAction)
    ensures
        match a {
            ListenerAction::Dispatch { gift_code_key, user_id } => poll matches Some(e)
                && index@.dom().contains(e.button_id@) && gift_code_key@ == index@[
                e.button_id@
            ].key@ && user_id == e.user_id,
            ListenerAction::Ignore => poll matches Some(e) && !index@.dom().contains(e.button_id@),
            ListenerAction::Sleep => poll is None,
        },
{
    match poll {
        None => ListenerAction::Sleep,
        Some(event) => match index.lookup(&event.button_id) {
            Some(resp) => ListenerAction::Dispatch {
                gift_code_key: resp.key.clone(),
                user_id: event.user_id,
            },
            None => ListenerAction::Ignore,
        },
    }
}

/// The reply a user reads for each outcome.
pub open spec fn spec_outcome_text(o: Outcome) -> Seq<char> {
    match o {
        Outcome::Redeemed => "Congratulations! You have redeemed the gift code."@,
        Outcome::AlreadyRedeemed => "Sorry, you already redeemed this gift code. Your previous code was:"@,
        Outcome::Expired => "Sorry, this gift code has expired."@,
        Outcome::Exhausted => "Sorry, there are no more gift codes available."@,
        Outcome::Failed => "Sorry, the redemption failed. Please try again."@,
    }
}

/// The whole private reply: the outcome's text, and on REDEEMED or
/// ALREADY_REDEEMED the code's plaintext value on its own line.
pub open spec fn spec_outcome_message(o: Outcome, key: Seq<char>) -> Seq<char> {
    if o == Outcome::Redeemed || o == Outcome::AlreadyRedeemed {
        spec_outcome_text(o).push('\n') + key
    } else {
        spec_outcome_text(o)
    }
}

/// Builds the private reply for an outcome.
pub fn outcome_message(o: Outcome, key: &str) -> (r: String)
    ensures
        r@ == spec_outcome_message(o, key@),
{
    let mut message = String::new();
    let mut include_code = false;
    match o {
        Outcome::Redeemed => {
            message.append("Congratulations! You have redeemed the gift code.");
            include_code = true;
        },
        Outcome::AlreadyRedeemed => {
            message.append("Sorry, you already redeemed this gift code. Your previous code was:");
            include_code = true;
        },
        Outcome::Expired => {
            message.append("Sorry, this gift code has expired.");
        },
        Outcome::Exhausted => {
            message.append("Sorry, there are no more gift codes available.");
        },
        Outcome::Failed => {
            message.append("Sorry, the redemption failed. Please try again.");
        },
    }
    if include_code {
        push_char(&mut message, '\n');
        message.append(key);
    }
    proof {
        assert(message@ =~= spec_outcome_message(o, key@));
    }
    message
}

} // verus!
