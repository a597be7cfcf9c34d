use unity_discordbot::clock::rfc3339_of_secs;
use unity_discordbot::ledger::Ledger;
use unity_discordbot::ledger::LedgerError;
use unity_discordbot::engine::RedemptionEngine;
use unity_discordbot::models::GiftCode;
use unity_discordbot::models::GiftCodeReward;
use unity_discordbot::models::GiftCodeResponse;
use unity_discordbot::models::Outcome;

const NOW: i64 = 1_700_000_000;
const FUTURE: i64 = 1_700_000_000 + 30 * 86400;
const PAST: i64 = 1_600_000_000;

fn record(key: &str, button: &str, amount: u32, expiry_secs: i64) -> GiftCodeResponse {
    GiftCodeResponse {
        key: key.to_string(),
        value: GiftCode {
            title: "Launch gift".to_string(),
            subtitle: "Thanks for playing".to_string(),
            amount,
            duration: 30,
            expired_at: rfc3339_of_secs(expiry_secs),
            rewards: GiftCodeReward {
                currency_rewards: Vec::new(),
                item_rewards: Vec::new(),
                xp_reward: 0,
            },
            channel_id: 77,
            message_id: "100_1".to_string(),
            button_id: button.to_string(),
        },
    }
}

fn engine_with(records: Vec<GiftCodeResponse>) -> RedemptionEngine {
    let mut engine = RedemptionEngine::new();
    for rec in records {
        engine.inventory.save(rec.key.clone(), rec.value.clone());
        engine.index.upsert(rec);
    }
    engine
}

#[test]
fn redeem_then_replay_yields_already_redeemed() {
    let mut engine = engine_with(vec![record("GIFTKEYALPHABETA", "btn_1", 5, FUTURE)]);
    let button = "btn_1".to_string();
    assert_eq!(engine.handle_click(42, &button, NOW), Some(Outcome::Redeemed));
    assert_eq!(engine.handle_click(42, &button, NOW), Some(Outcome::AlreadyRedeemed));
    assert_eq!(engine.handle_click(42, &button, NOW), Some(Outcome::AlreadyRedeemed));
    let key = "GIFTKEYALPHABETA".to_string();
    assert_eq!(engine.inventory.get(&key).unwrap().amount, 4);
}

#[test]
fn replay_does_not_change_quantity() {
    let mut engine = engine_with(vec![record("GIFTKEYALPHABETA", "btn_1", 3, FUTURE)]);
    let button = "btn_1".to_string();
    let key = "GIFTKEYALPHABETA".to_string();
    assert_eq!(engine.handle_click(7, &button, NOW), Some(Outcome::Redeemed));
    assert_eq!(engine.inventory.get(&key).unwrap().amount, 2);
    assert_eq!(engine.handle_click(7, &button, NOW), Some(Outcome::AlreadyRedeemed));
    assert_eq!(engine.inventory.get(&key).unwrap().amount, 2);
    assert_eq!(engine.handle_click(7, &button, NOW), Some(Outcome::AlreadyRedeemed));
    assert_eq!(engine.inventory.get(&key).unwrap().amount, 2);
}

#[test]
fn quantity_bounds_redemptions() {
    let mut engine = engine_with(vec![record("GIFTKEYALPHABETA", "btn_1", 2, FUTURE)]);
    let button = "btn_1".to_string();
    let mut redeemed = 0;
    let mut exhausted = 0;
    for user in 1..=5u64 {
        match engine.handle_click(user, &button, NOW) {
            Some(Outcome::Redeemed) => redeemed += 1,
            Some(Outcome::Exhausted) => exhausted += 1,
            other => panic!("unexpected outcome: {:?}", other),
        }
    }
    assert_eq!(redeemed, 2);
    assert_eq!(exhausted, 3);
    let key = "GIFTKEYALPHABETA".to_string();
    assert_eq!(engine.inventory.get(&key).unwrap().amount, 0);
}

#[test]
fn fifty_users_one_code() {
    let button = "btn_1".to_string();
    for reversed in [false, true] {
        let mut engine = engine_with(vec![record("GIFTKEYALPHABETA", "btn_1", 1, FUTURE)]);
        let users: Vec<u64> = if reversed {
            (1..=50).rev().collect()
        } else {
            (1..=50).collect()
        };
        let mut redeemed = 0;
        let mut exhausted = 0;
        for user in users {
            match engine.handle_click(user, &button, NOW) {
                Some(Outcome::Redeemed) => redeemed += 1,
                Some(Outcome::Exhausted) => exhausted += 1,
                other => panic!("unexpected outcome: {:?}", other),
            }
        }
        assert_eq!(redeemed, 1);
        assert_eq!(exhausted, 49);
    }
}

#[test]
fn expired_code_yields_expired_despite_quantity() {
    let mut engine = engine_with(vec![record("GIFTKEYALPHABETA", "btn_1", 10, PAST)]);
    let button = "btn_1".to_string();
    assert_eq!(engine.handle_click(1, &button, NOW), Some(Outcome::Expired));
    let key = "GIFTKEYALPHABETA".to_string();
    assert_eq!(engine.inventory.get(&key).unwrap().amount, 10);
}

#[test]
fn exhausted_code_yields_exhausted_even_if_not_expired() {
    let mut engine = engine_with(vec![record("GIFTKEYALPHABETA", "btn_1", 0, FUTURE)]);
    let button = "btn_1".to_string();
    assert_eq!(engine.handle_click(1, &button, NOW), Some(Outcome::Exhausted));
}

#[test]
fn unknown_button_is_dropped_without_mutation() {
    let mut engine = engine_with(vec![record("GIFTKEYALPHABETA", "btn_1", 4, FUTURE)]);
    let unknown = "btn_stale".to_string();
    assert_eq!(engine.handle_click(1, &unknown, NOW), None);
    assert_eq!(engine.inventory.count(), 1);
    let key = "GIFTKEYALPHABETA".to_string();
    assert_eq!(engine.inventory.get(&key).unwrap().amount, 4);
    let button = "btn_1".to_string();
    assert_eq!(engine.handle_click(1, &button, NOW), Some(Outcome::Redeemed));
}

#[test]
fn missing_record_yields_failed() {
    let mut engine = RedemptionEngine::new();
    engine.index.upsert(record("GIFTKEYALPHABETA", "btn_1", 4, FUTURE));
    let button = "btn_1".to_string();
    assert_eq!(engine.handle_click(1, &button, NOW), Some(Outcome::Failed));
}

#[test]
fn unreadable_expiry_yields_failed() {
    let mut rec = record("GIFTKEYALPHABETA", "btn_1", 4, FUTURE);
    rec.value.expired_at = "not a timestamp".to_string();
    let mut engine = RedemptionEngine::new();
    engine.inventory.save(rec.key.clone(), rec.value.clone());
    engine.index.upsert(rec);
    let button = "btn_1".to_string();
    assert_eq!(engine.handle_click(1, &button, NOW), Some(Outcome::Failed));
}

#[test]
fn two_codes_are_independent() {
    let mut engine = engine_with(vec![
        record("GIFTKEYALPHABETA", "btn_1", 1, FUTURE),
        record("SECNDKEYBRAVKEYS", "btn_2", 1, FUTURE),
    ]);
    let first = "btn_1".to_string();
    let second = "btn_2".to_string();
    assert_eq!(engine.handle_click(9, &first, NOW), Some(Outcome::Redeemed));
    assert_eq!(engine.handle_click(9, &second, NOW), Some(Outcome::Redeemed));
    assert_eq!(engine.handle_click(9, &first, NOW), Some(Outcome::Exhausted));
}

#[test]
fn index_upsert_then_lookup_returns_record() {
    let mut engine = RedemptionEngine::new();
    let rec = record("GIFTKEYALPHABETA", "btn_9", 3, FUTURE);
    engine.index.upsert(rec);
    let button = "btn_9".to_string();
    let found = engine.index.lookup(&button).expect("inserted entry");
    assert_eq!(found.key, "GIFTKEYALPHABETA");
    assert_eq!(found.value.amount, 3);
}

#[test]
fn index_load_then_lookup_finds_every_record() {
    let mut engine = RedemptionEngine::new();
    engine.index.load(vec![
        record("GIFTKEYALPHABETA", "btn_1", 1, FUTURE),
        record("SECNDKEYBRAVKEYS", "btn_2", 2, FUTURE),
        record("THIRDKEYCHARLIEK", "btn_3", 3, FUTURE),
    ]);
    for (button, key, amount) in [
        ("btn_1", "GIFTKEYALPHABETA", 1),
        ("btn_2", "SECNDKEYBRAVKEYS", 2),
        ("btn_3", "THIRDKEYCHARLIEK", 3),
    ] {
        let b = button.to_string();
        let found = engine.index.lookup(&b).expect("loaded entry");
        assert_eq!(found.key, key);
        assert_eq!(found.value.amount, amount);
    }
    let missing = "btn_4".to_string();
    assert!(engine.index.lookup(&missing).is_none());
}

#[test]
fn index_load_replaces_earlier_entries() {
    let mut engine = RedemptionEngine::new();
    engine.index.load(vec![record("GIFTKEYALPHABETA", "btn_1", 1, FUTURE)]);
    engine.index.load(vec![record("SECNDKEYBRAVKEYS", "btn_2", 2, FUTURE)]);
    let old_button = "btn_1".to_string();
    assert!(engine.index.lookup(&old_button).is_none());
}

#[test]
fn inventory_scan_matches_what_was_saved() {
    let engine = engine_with(vec![
        record("GIFTKEYALPHABETA", "btn_1", 3, FUTURE),
        record("SECNDKEYBRAVKEYS", "btn_2", 7, FUTURE),
    ]);
    let entries = engine.inventory.entries();
    assert_eq!(entries.len(), 2);
    let mut keys: Vec<&str> = entries.iter().map(|p| p.0.as_str()).collect();
    keys.sort();
    assert_eq!(keys, vec!["GIFTKEYALPHABETA", "SECNDKEYBRAVKEYS"]);
}

#[test]
fn ledger_insert_refuses_duplicates() {
    let mut ledger = Ledger::new();
    let key = "GIFTKEYALPHABETA".to_string();
    assert!(!ledger.contains(5, &key));
    assert_eq!(ledger.insert(5, key.clone()), Ok(()));
    assert!(ledger.contains(5, &key));
    assert_eq!(ledger.insert(5, key.clone()), Err(LedgerError::DuplicateRedemption));
    assert!(!ledger.contains(6, &key));
}
