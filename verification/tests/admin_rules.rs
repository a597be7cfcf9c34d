use unity_discordbot::admin::bump_save_count;
use unity_discordbot::admin::check_copy_save_data;
use unity_discordbot::admin::check_remove_gift_code;
use unity_discordbot::admin::check_update_subscription;
use unity_discordbot::admin::plan_add_gift_code;
use unity_discordbot::admin::plan_subscription_update;
use unity_discordbot::admin::select_stale;
use unity_discordbot::clock::add_days_to_current_date;
use unity_discordbot::clock::parse_rfc3339_secs;
use unity_discordbot::clock::rfc3339_of_secs;
use unity_discordbot::models::GiftCode;
use unity_discordbot::models::GiftCodeReward;
use unity_discordbot::models::GiftCodeResponse;
use unity_discordbot::validate::AdminError;
use unity_discordbot::validate::RewardsCheck;
use unity_discordbot::validate::validate_gift_code;

const NOW: i64 = 1_700_000_000;
const TEST_CHANNEL: u64 = 11;
const MAIN_CHANNEL: u64 = 22;

fn good_rewards() -> RewardsCheck {
    RewardsCheck { null_or_empty: false, parses: true }
}

fn empty_rewards_payload() -> GiftCodeReward {
    GiftCodeReward { currency_rewards: Vec::new(), item_rewards: Vec::new(), xp_reward: 500 }
}

fn plan(
    title: &str,
    subtitle: &str,
    amount: u32,
    duration: u32,
    rewards: RewardsCheck,
    test: bool,
    hidden: bool,
    invoked: u64,
    count: u32,
) -> Result<unity_discordbot::admin::AddGiftCodePlan, AdminError> {
    plan_add_gift_code(
        title,
        subtitle,
        amount,
        duration,
        &rewards,
        empty_rewards_payload(),
        test,
        hidden,
        "GIFTKEYALPHABETA".to_string(),
        "100_1".to_string(),
        "100_2".to_string(),
        invoked,
        TEST_CHANNEL,
        MAIN_CHANNEL,
        count,
        NOW,
    )
}

#[test]
fn add_gift_code_happy_path() {
    let p = plan("Title", "Sub", 5, 30, good_rewards(), false, false, TEST_CHANNEL, 3)
        .expect("valid request");
    assert_eq!(p.record.title, "Title");
    assert_eq!(p.record.subtitle, "Sub");
    assert_eq!(p.record.amount, 5);
    assert_eq!(p.record.duration, 30);
    assert_eq!(p.record.channel_id, MAIN_CHANNEL);
    assert_eq!(p.channel_id, MAIN_CHANNEL);
    assert_eq!(p.record.button_id, "100_2");
    assert_eq!(p.record.message_id, "100_1");
    assert_eq!(p.code, "GIFTKEYALPHABETA");
    assert!(p.save_remote);
    assert!(p.cache_in_index);
    assert_eq!(parse_rfc3339_secs(&p.record.expired_at), Some(NOW + 30 * 86400));
}

#[test]
fn add_gift_code_test_or_hidden_goes_to_test_channel() {
    let p = plan("Title", "Sub", 5, 30, good_rewards(), true, false, TEST_CHANNEL, 3)
        .expect("valid request");
    assert_eq!(p.record.channel_id, TEST_CHANNEL);
    assert!(!p.save_remote);
    assert!(!p.cache_in_index);
    let p = plan("Title", "Sub", 5, 30, good_rewards(), false, true, TEST_CHANNEL, 3)
        .expect("valid request");
    assert_eq!(p.record.channel_id, TEST_CHANNEL);
    assert!(p.save_remote);
    assert!(p.cache_in_index);
}

#[test]
fn add_gift_code_rejections() {
    let e = |r: Result<unity_discordbot::admin::AddGiftCodePlan, AdminError>| r.err().unwrap();
    assert_eq!(
        e(plan("", "Sub", 5, 30, good_rewards(), false, false, TEST_CHANNEL, 3)),
        AdminError::EmptyTitle
    );
    assert_eq!(
        e(plan("Title", "", 5, 30, good_rewards(), false, false, TEST_CHANNEL, 3)),
        AdminError::EmptySubtitle
    );
    assert_eq!(
        e(plan("Title", "Sub", 0, 30, good_rewards(), false, false, TEST_CHANNEL, 3)),
        AdminError::ZeroAmount
    );
    assert_eq!(
        e(plan("Title", "Sub", 5, 0, good_rewards(), false, false, TEST_CHANNEL, 3)),
        AdminError::ZeroDuration
    );
    assert_eq!(
        e(plan(
            "Title",
            "Sub",
            5,
            30,
            RewardsCheck { null_or_empty: true, parses: false },
            false,
            false,
            TEST_CHANNEL,
            3
        )),
        AdminError::EmptyRewards
    );
    assert_eq!(
        e(plan(
            "Title",
            "Sub",
            5,
            30,
            RewardsCheck { null_or_empty: false, parses: false },
            false,
            false,
            TEST_CHANNEL,
            3
        )),
        AdminError::InvalidReward
    );
    assert_eq!(
        e(plan("Title", "Sub", 5, 30, good_rewards(), false, false, MAIN_CHANNEL, 3)),
        AdminError::NotTestChannel
    );
    assert_eq!(
        e(plan("Title", "Sub", 5, 30, good_rewards(), false, false, TEST_CHANNEL, 20)),
        AdminError::CodeLimitReached
    );
}

#[test]
fn validate_gift_code_order_of_checks() {
    assert_eq!(
        validate_gift_code("", "", 0, 0, &RewardsCheck { null_or_empty: true, parses: false }),
        Err(AdminError::EmptyTitle)
    );
    assert_eq!(validate_gift_code("T", "S", 1, 1, &good_rewards()), Ok(()));
}

#[test]
fn remove_gift_code_checks() {
    assert_eq!(check_remove_gift_code(""), Err(AdminError::EmptyCode));
    assert_eq!(check_remove_gift_code("short"), Err(AdminError::InvalidCode));
    assert_eq!(check_remove_gift_code("CODEKEYC0DEKEYAB"), Err(AdminError::InvalidCode));
    assert_eq!(check_remove_gift_code("GIFTKEYALPHABETA"), Ok(()));
}

#[test]
fn update_subscription_checks() {
    let types = vec!["gold".to_string(), "silver".to_string()];
    let gold = "gold".to_string();
    let tin = "tin".to_string();
    assert_eq!(
        check_update_subscription(MAIN_CHANNEL, TEST_CHANNEL, &types, &gold, 1),
        Err(AdminError::NotTestChannel)
    );
    assert_eq!(
        check_update_subscription(TEST_CHANNEL, TEST_CHANNEL, &types, &tin, 1),
        Err(AdminError::UnknownProduct)
    );
    assert_eq!(
        check_update_subscription(TEST_CHANNEL, TEST_CHANNEL, &types, &gold, 0),
        Err(AdminError::ZeroSaveCountIncrease)
    );
    assert_eq!(check_update_subscription(TEST_CHANNEL, TEST_CHANNEL, &types, &gold, 2), Ok(()));
}

#[test]
fn copy_save_data_checks() {
    assert_eq!(
        check_copy_save_data(MAIN_CHANNEL, TEST_CHANNEL, 1),
        Err(AdminError::NotTestChannel)
    );
    assert_eq!(
        check_copy_save_data(TEST_CHANNEL, TEST_CHANNEL, 0),
        Err(AdminError::ZeroSaveCountIncrease)
    );
    assert_eq!(check_copy_save_data(TEST_CHANNEL, TEST_CHANNEL, 3), Ok(()));
}

#[test]
fn bump_save_count_adds_and_refuses_overflow() {
    assert_eq!(bump_save_count(10, 5), Ok(15));
    assert_eq!(bump_save_count(u64::MAX, 1), Err(AdminError::SaveCountOverflow));
}

#[test]
fn subscription_update_plan() {
    let u = plan_subscription_update(NOW, 30, 100, 2).expect("valid update");
    assert_eq!(u.new_save_count, 102);
    assert_eq!(parse_rfc3339_secs(&u.expires_at), Some(NOW + 30 * 86400));
    let u = plan_subscription_update(NOW, -7, 100, 2).expect("negative days end it early");
    assert_eq!(parse_rfc3339_secs(&u.expires_at), Some(NOW - 7 * 86400));
    assert_eq!(
        plan_subscription_update(NOW, 30, 100, 0).err(),
        Some(AdminError::ZeroSaveCountIncrease)
    );
    assert_eq!(
        plan_subscription_update(NOW, i32::MAX, 100, 1).err(),
        Some(AdminError::ExpiryOutOfRange)
    );
    assert_eq!(
        plan_subscription_update(NOW, 30, u64::MAX, 1).err(),
        Some(AdminError::SaveCountOverflow)
    );
}

fn stale_record(key: &str, amount: u32, expired_at: String) -> GiftCodeResponse {
    GiftCodeResponse {
        key: key.to_string(),
        value: GiftCode {
            title: "t".to_string(),
            subtitle: "s".to_string(),
            amount,
            duration: 1,
            expired_at,
            rewards: GiftCodeReward {
                currency_rewards: Vec::new(),
                item_rewards: Vec::new(),
                xp_reward: 0,
            },
            channel_id: 1,
            message_id: "m".to_string(),
            button_id: "b".to_string(),
        },
    }
}

#[test]
fn stale_sweep_selects_expired_and_exhausted() {
    let records = vec![
        stale_record("EXPIREDKEYABCDEF", 5, rfc3339_of_secs(NOW - 100)),
        stale_record("HEALTHYKEYABCDEF", 5, rfc3339_of_secs(NOW + 100)),
        stale_record("DRAINEDKEYABCDEF", 0, rfc3339_of_secs(NOW + 100)),
    ];
    let keys = select_stale(&records, NOW).expect("all expiries parse");
    assert_eq!(keys, vec!["EXPIREDKEYABCDEF".to_string(), "DRAINEDKEYABCDEF".to_string()]);
}

#[test]
fn stale_sweep_refuses_unreadable_expiry() {
    let records = vec![stale_record("BRKENKEYABCDEFGH", 5, "garbage".to_string())];
    assert_eq!(select_stale(&records, NOW).err(), Some(AdminError::InvalidExpiry));
}

#[test]
fn add_days_formats_and_parses_back() {
    let s = add_days_to_current_date(NOW, 14).expect("in range");
    assert_eq!(parse_rfc3339_secs(&s), Some(NOW + 14 * 86400));
    assert!(add_days_to_current_date(253_402_207_200, 1).is_none());
}
