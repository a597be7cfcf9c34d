//! The decisions of the administrative commands: creating a code, removing
//! one, sweeping stale ones, and touching a player's subscription or save
//! data. Everything here computes from plain values; the surrounding
//! command plumbing performs the network calls the plans call for.

use crate::clock::add_days_to_current_date;
use crate::clock::formats_as_rfc3339;
use crate::clock::is_stale;
use crate::clock::parse_rfc3339_secs;
use crate::clock::rfc3339_secs;
use crate::clock::rfc3339_of_secs;
use crate::clock::spec_stale;
use crate::gift_code::is_valid_gift_code;
use crate::gift_code::spec_valid_gift_code;
use crate::models::GiftCode;
use crate::models::GiftCodeReward;
use crate::models::GiftCodeResponse;
use crate::validate::AdminError;
use crate::validate::RewardsCheck;
use crate::validate::spec_validate_gift_code;
use crate::validate::validate_gift_code;
use vstd::prelude::*;

verus! {

/// Administration refuses to create more codes once this many exist.
pub const GIFT_CODE_LIMIT: u32 = 19;

/// Everything a creation request resolves to: the record, the code key it
/// goes under, the channel the broadcast goes to, and whether the record
/// is persisted and cached (a test code is only announced).
pub struct AddGiftCodePlan {
    pub record: GiftCode,
    pub code: String,
    pub channel_id: u64,
    pub save_remote: bool,
    pub cache_in_index: bool,
}

/// The first reason a creation request fails, if any: field validation,
/// then the invoking channel, then the code cap, then an expiry that does
/// not format.
pub open spec fn spec_add_gift_code_error(
    title: Seq<char>,
    subtitle: Seq<char>,
    amount: u32,
    duration: u32,
    rewards: RewardsCheck,
    invoked_channel_id: u64,
    test_channel_id: u64,
    gift_code_count: u32,
    now_secs: i64,
) -> Option<AdminError> {
    if spec_validate_gift_code(title, subtitle, amount, duration, rewards) is Err {
        Some(spec_validate_gift_code(title, subtitle, amount, duration, rewards)->Err_0)
    } else if invoked_channel_id != test_channel_id {
        Some(AdminError::NotTestChannel)
    } else if gift_code_count > GIFT_CODE_LIMIT {
        Some(AdminError::CodeLimitReached)
    } else if !formats_as_rfc3339(now_secs + duration * 86400) {
        Some(AdminError::ExpiryOutOfRange)
    } else {
        None
    }
}

/// Resolves a creation request. The caller hands in what only it has: the
/// freshly generated code key and routing identifiers, the parsed reward
/// payload with its checks, the channel the command came from, the two
/// configured channels, the current code count, and the clock.
#[verifier::rlimit(20)]
pub fn plan_add_gift_code(
    title: &str,
    subtitle: &str,
    amount: u32,
    duration: u32,
    rewards: &RewardsCheck,
    rewards_payload: GiftCodeReward,
    test: bool,
    hidden: bool,
    code: String,
    message_id: String,
    button_id: String,
    invoked_channel_id: u64,
    test_channel_id: u64,
    main_channel_id: u64,
    gift_code_count: u32,
    now_secs: i64,
) -> (r: Result<AddGiftCodePlan, AdminError>)
    ensures
        match r {
            Ok(plan) => {
                &&& spec_add_gift_code_error(
                    title@,
                    subtitle@,
                    amount,
                    duration,
                    *rewards,
                    invoked_channel_id,
                    test_channel_id,
                    gift_code_count,
                    now_secs,
                ) is None
                &&& plan.record.title@ == title@
                &&& plan.record.subtitle@ == subtitle@
                &&& plan.record.amount == amount
                &&& plan.record.duration == duration
                &&& rfc3339_secs(plan.record.expired_at@) == Some(
                    (now_secs + duration * 86400) as i64,
                )
                &&& plan.record.rewards == rewards_payload
                &&& plan.record.channel_id == (if test || hidden {
                    test_channel_id
                } else {
                    main_channel_id
                })
                &&& plan.record.message_id == message_id
                &&& plan.record.button_id == button_id
                &&& plan.code == code
                &&& plan.channel_id == plan.record.channel_id
                &&& plan.save_remote == !test
                &&& plan.cache_in_index == !test
            },
            Err(e) => Some(e) == spec_add_gift_code_error(
                title@,
                subtitle@,
                amount,
                duration,
                *rewards,
                invoked_channel_id,
                test_channel_id,
                gift_code_count,
                now_secs,
            ),
        },
{
    if let Err(e) = validate_gift_code(title, subtitle, amount, duration, rewards) {
        return Err(e);
    }
    if invoked_channel_id != test_channel_id {
        return Err(AdminError::NotTestChannel);
    }
    if gift_code_count > GIFT_CODE_LIMIT {
        return Err(AdminError::CodeLimitReached);
    }
    let expired_at = match add_days_to_current_date(now_secs, duration) {
        Some(s) => s,
        None => {
            return Err(AdminError::ExpiryOutOfRange);
        },
    };
    let channel_id: u64 = if test || hidden {
        test_channel_id
    } else {
        main_channel_id
    };
    let record = GiftCode {
        title: title.to_owned(),
        subtitle: subtitle.to_owned(),
        amount,
        duration,
        expired_at,
        rewards: rewards_payload,
        channel_id,
        message_id,
        button_id,
    };
    Ok(
        AddGiftCodePlan {
            record,
            code,
            channel_id,
            save_remote: !test,
            cache_in_index: !test,
        },
    )
}

/// The verdict on a removal request: the code must be non-empty and in
/// the fixed format.
pub open spec fn spec_check_remove_gift_code(code: Seq<char>) -> Result<(), AdminError> {
    if code.len() == 0 {
        Err(AdminError::EmptyCode)
    } else if !spec_valid_gift_code(code) {
        Err(AdminError::InvalidCode)
    } else {
        Ok(())
    }
}

/// Checks a removal request.
pub fn check_remove_gift_code(code: &str) -> (r: Result<(), AdminError>)
    ensures
        r == spec_check_remove_gift_code(code@),
{
    if code.is_empty() {
        Err(AdminError::EmptyCode)
    } else if !is_valid_gift_code(code) {
        Err(AdminError::InvalidCode)
    } else {
        Ok(())
    }
}

/// The verdict on a subscription update: only from the test channel, only
/// a known product, and the save count must move by at least one.
pub open spec fn spec_check_update_subscription(
    invoked_channel_id: u64,
    test_channel_id: u64,
    product_known: bool,
    increase_save_count_by: u64,
) -> Result<(), AdminError> {
    if invoked_channel_id != test_channel_id {
        Err(AdminError::NotTestChannel)
    } else if !product_known {
        Err(AdminError::UnknownProduct)
    } else if increase_save_count_by < 1 {
        Err(AdminError::ZeroSaveCountIncrease)
    } else {
        Ok(())
    }
}

/// Whether a product identifier is one of the configured subscription
/// types.
pub fn product_is_known(subscription_types: &Vec<String>, product_id: &String) -> (r: bool)
    ensures
        r == exists|i: int|
            0 <= i < subscription_types@.len() && (#[trigger] subscription_types@[i])@
                == product_id@,
{
    let n = subscription_types.len();
    let mut i: usize = 0;
    while i < n
        invariant
            n == subscription_types@.len(),
            0 <= i <= n,
            forall|j: int| 0 <= j < i ==> (#[trigger] subscription_types@[j])@ != product_id@,
        decreases n - i,
    {
        if subscription_types[i] == *product_id {
            return true;
        }
        i += 1;
    }
    false
}

/// Checks a subscription update request.
pub fn check_update_subscription(
    invoked_channel_id: u64,
    test_channel_id: u64,
    subscription_types: &Vec<String>,
    product_id: &String,
    increase_save_count_by: u64,
) -> (r: Result<(), AdminError>)
    ensures
        r == spec_check_update_subscription(
            invoked_channel_id,
            test_channel_id,
            exists|i: int|
                0 <= i < subscription_types@.len() && (#[trigger] subscription_types@[i])@
                    == product_id@,
            increase_save_count_by,
        ),
{
    if invoked_channel_id != test_channel_id {
        Err(AdminError::NotTestChannel)
    } else if !product_is_known(subscription_types, product_id) {
        Err(AdminError::UnknownProduct)
    } else if increase_save_count_by < 1 {
        Err(AdminError::ZeroSaveCountIncrease)
    } else {
        Ok(())
    }
}

/// The verdict on a save-data copy: only from the test channel, and the
/// save count must move by at least one.
pub open spec fn spec_check_copy_save_data(
    invoked_channel_id: u64,
    test_channel_id: u64,
    increase_save_count_by: u64,
) -> Result<(), AdminError> {
    if invoked_channel_id != test_channel_id {
        Err(AdminError::NotTestChannel)
    } else if increase_save_count_by < 1 {
        Err(AdminError::ZeroSaveCountIncrease)
    } else {
        Ok(())
    }
}

/// Checks a save-data copy request.
pub fn check_copy_save_data(
    invoked_channel_id: u64,
    test_channel_id: u64,
    increase_save_count_by: u64,
) -> (r: Result<(), AdminError>)
    ensures
        r == spec_check_copy_save_data(
            invoked_channel_id,
            test_channel_id,
            increase_save_count_by,
        ),
{
    if invoked_channel_id != test_channel_id {
        Err(AdminError::NotTestChannel)
    } else if increase_save_count_by < 1 {
        Err(AdminError::ZeroSaveCountIncrease)
    } else {
        Ok(())
    }
}

/// The save count after an administrative bump; a sum that does not fit
/// is refused rather than wrapped.
pub fn bump_save_count(old_save_count: u64, increase_save_count_by: u64) -> (r: Result<
    u64,
    AdminError,
>)
    ensures
        old_save_count + increase_save_count_by <= u64::MAX ==> r == Ok::<u64, AdminError>(
            (old_save_count + increase_save_count_by) as u64,
        ),
        old_save_count + increase_save_count_by > u64::MAX ==> r == Err::<u64, AdminError>(
            AdminError::SaveCountOverflow,
        ),
{
    match old_save_count.checked_add(increase_save_count_by) {
        Some(sum) => Ok(sum),
        None => Err(AdminError::SaveCountOverflow),
    }
}

/// What a subscription update writes back: the new expiry string of the
/// product, and the bumped save count.
pub struct SubscriptionUpdate {
    pub expires_at: String,
    pub new_save_count: u64,
}

/// Resolves a subscription update: the product's expiry moves to
/// `duration_days` days from now (negative days end it in the past), and
/// the save count is bumped.
pub fn plan_subscription_update(
    now_secs: i64,
    duration_days: i32,
    save_count: u64,
    increase_save_count_by: u64,
) -> (r: Result<SubscriptionUpdate, AdminError>)
    ensures
        match r {
            Ok(u) => {
                &&& increase_save_count_by >= 1
                &&& formats_as_rfc3339(now_secs + duration_days * 86400)
                &&& save_count + increase_save_count_by <= u64::MAX
                &&& rfc3339_secs(u.expires_at@) == Some(
                    (now_secs + duration_days * 86400) as i64,
                )
                &&& u.new_save_count == save_count + increase_save_count_by
            },
            Err(e) => {
                if increase_save_count_by < 1 {
                    e == AdminError::ZeroSaveCountIncrease
                } else if !formats_as_rfc3339(now_secs + duration_days * 86400) {
                    e == AdminError::ExpiryOutOfRange
                } else {
                    e == AdminError::SaveCountOverflow && save_count + increase_save_count_by
                        > u64::MAX
                }
            },
        },
{
    if increase_save_count_by < 1 {
        return Err(AdminError::ZeroSaveCountIncrease);
    }
    let target: i128 = now_secs as i128 + duration_days as i128 * 86400;
    if !(0 <= target && target <= 253_402_207_200i128) {
        return Err(AdminError::ExpiryOutOfRange);
    }
    let expires_at = rfc3339_of_secs(target as i64);
    match bump_save_count(save_count, increase_save_count_by) {
        Ok(new_save_count) => Ok(SubscriptionUpdate { expires_at, new_save_count }),
        Err(e) => Err(e),
    }
}

/// Whether every record's expiry string parses.
pub open spec fn all_expiries_parse(records: Seq<GiftCodeResponse>) -> bool {
    forall|i: int|
        0 <= i < records.len() ==> rfc3339_secs(
            #[trigger] records[i].value.expired_at@,
        ) is Some
}

/// The code keys the sweep removes: those of every record expired or out
/// of stock, in the order given.
pub open spec fn spec_stale_keys(records: Seq<GiftCodeResponse>, now_secs: i64) -> Seq<Seq<char>>
    decreases records.len(),
{
    if records.len() == 0 {
        Seq::empty()
    } else {
        let rest = spec_stale_keys(records.drop_last(), now_secs);
        let last = records.last();
        if rfc3339_secs(last.value.expired_at@) is Some && spec_stale(
            last.value.amount,
            rfc3339_secs(last.value.expired_at@)->0,
            now_secs,
        ) {
            rest.push(last.key@)
        } else {
            rest
        }
    }
}

/// The views of a vector of keys.
pub open spec fn key_views(keys: Seq<String>) -> Seq<Seq<char>> {
    keys.map_values(|k: String| k@)
}

/// Selects the codes the administrative sweep deletes: every record that
/// is expired or out of stock. A record whose expiry string does not
/// parse stops the sweep instead of being misjudged.
pub fn select_stale(records: &Vec<GiftCodeResponse>, now_secs: i64) -> (r: Result<
    Vec<String>,
    AdminError,
>)
    ensures
        match r {
            Ok(keys) => all_expiries_parse(records@) && key_views(keys@) == spec_stale_keys(
                records@,
                now_secs,
            ),
            Err(e) => e == AdminError::InvalidExpiry && !all_expiries_parse(records@),
        },
{
    let n = records.len();
    let mut keys: Vec<String> = Vec::new();
    let mut i: usize = 0;
    while i < n
        invariant
            n == records@.len(),
            0 <= i <= n,
            all_expiries_parse(records@.take(i as int)),
            key_views(keys@) == spec_stale_keys(records@.take(i as int), now_secs),
        decreases n - i,
    {
        let rec = &records[i];
        let expiry = match parse_rfc3339_secs(rec.value.expired_at.as_str()) {
            Some(t) => t,
            None => {
                proof {
                    assert(records@[i as int].value.expired_at@ == rec.value.expired_at@);
                }
                return Err(AdminError::InvalidExpiry);
            },
        };
        if is_stale(rec.value.amount, expiry, now_secs) {
            keys.push(rec.key.clone());
        }
        proof {
            assert(records@.take(i as int + 1).drop_last() =~= records@.take(i as int));
            assert(records@.take(i as int + 1).last() == records@[i as int]);
            assert(key_views(keys@) =~= spec_stale_keys(records@.take(i as int + 1), now_secs));
        }
        i += 1;
    }
    proof {
        assert(records@.take(n as int) =~= records@);
    }
    Ok(keys)
}

} // verus!
