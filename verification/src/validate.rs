//! Validation of administrative requests, and the errors they are
//! rejected with.

use vstd::prelude::*;

verus! {

/// Why an administrative request is rejected.
#[derive(Clone, Copy, PartialEq, Eq, Structural, Debug)]
pub enum AdminError {
    EmptyTitle,
    EmptySubtitle,
    ZeroAmount,
    ZeroDuration,
    EmptyRewards,
    InvalidReward,
    NotTestChannel,
    CodeLimitReached,
    EmptyCode,
    InvalidCode,
    UnknownProduct,
    ZeroSaveCountIncrease,
    InvalidExpiry,
    SaveCountOverflow,
    ExpiryOutOfRange,
}

/// What the reward payload of a creation request looks like, read off the
/// raw JSON document by the caller: whether it is null or an empty or
/// non-object document, and whether it parses as a reward payload.
#[derive(Clone, Copy, PartialEq, Eq, Structural, Debug)]
pub struct RewardsCheck {
    pub null_or_empty: bool,
    pub parses: bool,
}

/// The verdict on a creation request: each field is checked in turn and
/// the first failure names the reason.
pub open spec fn spec_validate_gift_code(
    title: Seq<char>,
    subtitle: Seq<char>,
    amount: u32,
    duration: u32,
    rewards: RewardsCheck,
) -> Result<(), AdminError> {
    if title.len() == 0 {
        Err(AdminError::EmptyTitle)
    } else if subtitle.len() == 0 {
        Err(AdminError::EmptySubtitle)
    } else if amount == 0 {
        Err(AdminError::ZeroAmount)
    } else if duration == 0 {
        Err(AdminError::ZeroDuration)
    } else if rewards.null_or_empty {
        Err(AdminError::EmptyRewards)
    } else if !rewards.parses {
        Err(AdminError::InvalidReward)
    } else {
        Ok(())
    }
}

/// Checks a creation request: title and subtitle must not be empty,
/// amount and duration must be positive, and the reward payload must be a
/// non-empty document that parses.
pub fn validate_gift_code(
    title: &str,
    subtitle: &str,
    amount: u32,
    duration: u32,
    rewards: &RewardsCheck,
) -> (r: Result<(), AdminError>)
    ensures
        r == spec_validate_gift_code(title@, subtitle@, amount, duration, *rewards),
{
    if title.is_empty() {
        Err(AdminError::EmptyTitle)
    } else if subtitle.is_empty() {
        Err(AdminError::EmptySubtitle)
    } else if amount == 0 {
        Err(AdminError::ZeroAmount)
    } else if duration == 0 {
        Err(AdminError::ZeroDuration)
    } else if rewards.null_or_empty {
        Err(AdminError::EmptyRewards)
    } else if !rewards.parses {
        Err(AdminError::InvalidReward)
    } else {
        Ok(())
    }
}

} // verus!
