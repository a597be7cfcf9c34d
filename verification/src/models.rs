//! Plain data carried through the redemption path: code records, their
//! rewards, click events and per-click outcomes.

use vstd::prelude::*;

verus! {

/// A code record: the snapshot of one gift code held by the inventory
/// store. `amount` is the remaining quantity; `expired_at` is an RFC 3339
/// timestamp; `button_id` routes clicks back to this record.
pub struct GiftCode {
    pub title: String,
    pub subtitle: String,
    pub amount: u32,
    pub duration: u32,
    pub expired_at: String,
    pub rewards: GiftCodeReward,
    pub channel_id: u64,
    pub message_id: String,
    pub button_id: String,
}

/// One currency line of a reward payload.
pub struct CurrencyReward {
    pub name: String,
    pub currency_type: u32,
    pub currency_amount: u32,
}

/// One item line of a reward payload.
pub struct ItemReward {
    pub name: String,
    pub item_id: u32,
    pub item_grade: u32,
    pub upgrade_level: u32,
    pub item_refinement_quality: u32,
}

/// The reward payload of a code: opaque to the redemption protocol itself.
pub struct GiftCodeReward {
    pub currency_rewards: Vec<CurrencyReward>,
    pub item_rewards: Vec<ItemReward>,
    pub xp_reward: u32,
}

/// A key/value pair as the inventory store takes it on a save.
pub struct SaveRequest {
    pub key: String,
    pub value: String,
}

/// A code record together with the code key it is stored under.
pub struct GiftCodeResponse {
    pub key: String,
    pub value: GiftCode,
}

/// All records of the inventory store, as a full scan returns them.
pub struct GetAllGiftCodesResponse {
    pub results: Vec<GiftCodeResponse>,
}

/// A game version record, keyed by platform.
pub struct GameVersion {
    pub version_number: String,
    pub force_update: bool,
}

/// The platform a game version record belongs to.
#[allow(non_camel_case_types)]
#[derive(Clone, Copy, PartialEq, Eq, Structural, Debug)]
pub enum GamePlatform {
    iOS,
    Android,
}

/// A click on a code button: the clicking user and the button hit.
/// The reply handle stays with the caller.
pub struct ClickEvent {
    pub user_id: u64,
    pub button_id: String,
}

/// The per-click outcome reported back to the clicking user.
#[derive(Clone, Copy, PartialEq, Eq, Structural, Debug)]
pub enum Outcome {
    Redeemed,
    AlreadyRedeemed,
    Expired,
    Exhausted,
    Failed,
}

/// The lowercase form of `c` when `c` is an uppercase ASCII letter,
/// else `c` itself, as a code point.
pub open spec fn lower32(c: char) -> u32 {
    if 'A' <= c && c <= 'Z' {
        (c as u32 + 32) as u32
    } else {
        c as u32
    }
}

/// `s` spells the (lowercase) word `w` when compared without regard to
/// ASCII case.
pub open spec fn spells(s: Seq<char>, w: Seq<char>) -> bool {
    s.len() == w.len() && forall|i: int| 0 <= i < s.len() ==> lower32(s[i]) == #[trigger] w[i] as u32
}

/// The platform a name denotes, matched without regard to ASCII case.
pub open spec fn spec_platform_of(s: Seq<char>) -> Option<GamePlatform> {
    if spells(s, "ios"@) {
        Some(GamePlatform::iOS)
    } else if spells(s, "android"@) {
        Some(GamePlatform::Android)
    } else {
        None
    }
}

fn lower_code_point(c: char) -> (r: u32)
    ensures
        r == lower32(c),
{
    let u = c as u32;
    if 65 <= u && u <= 90 {
        u + 32
    } else {
        u
    }
}

fn str_spells(s: &str, word: &str) -> (r: bool)
    ensures
        r == spells(s@, word@),
{
    let n = s.unicode_len();
    if n != word.unicode_len() {
        return false;
    }
    let mut i: usize = 0;
    while i < n
        invariant
            n == s@.len() == word@.len(),
            0 <= i <= n,
            forall|j: int| 0 <= j < i ==> lower32(s@[j]) == #[trigger] word@[j] as u32,
        decreases n - i,
    {
        if lower_code_point(s.get_char(i)) != word.get_char(i) as u32 {
            return false;
        }
        i += 1;
    }
    true
}

impl GamePlatform {
    /// Parses a platform name, ignoring ASCII case; any other name is
    /// rejected.
    pub fn from_str(s: &str) -> (r: Option<GamePlatform>)
        ensures
            r == spec_platform_of(s@),
    {
        proof {
            reveal_strlit("ios");
            reveal_strlit("android");
        }
        if str_spells(s, "ios") {
            Some(GamePlatform::iOS)
        } else if str_spells(s, "android") {
            Some(GamePlatform::Android)
        } else {
            None
        }
    }

    /// The display name of the platform, as the inventory store keys
    /// game version records.
    pub fn as_str(&self) -> (r: &'static str)
        ensures
            *self == GamePlatform::iOS ==> r@ == "iOS"@,
            *self == GamePlatform::Android ==> r@ == "Android"@,
    {
        match self {
            GamePlatform::iOS => "iOS",
            GamePlatform::Android => "Android",
        }
    }
}

impl Clone for CurrencyReward {
    fn clone(&self) -> (res: Self)
        ensures
            res == *self,
    {
        CurrencyReward {
            name: self.name.clone(),
            currency_type: self.currency_type,
            currency_amount: self.currency_amount,
        }
    }
}

impl Clone for ItemReward {
    fn clone(&self) -> (res: Self)
        ensures
            res == *self,
    {
        ItemReward {
            name: self.name.clone(),
            item_id: self.item_id,
            item_grade: self.item_grade,
            upgrade_level: self.upgrade_level,
            item_refinement_quality: self.item_refinement_quality,
        }
    }
}

/// Equal elements come out of a clone of a vector whose element clones
/// are exact.
proof fn lemma_exact_clone_vec<T: Clone>(v: Vec<T>, r: Vec<T>)
    requires
        r.len() == v.len(),
        forall|i: int| #![all_triggers] 0 <= i < v.len() ==> cloned::<T>(v[i], r[i]),
        forall|a: T, b: T| call_ensures(T::clone, (&a,), b) ==> a == b,
    ensures
        r@ == v@,
{
    assert forall|i: int| 0 <= i < v.len() implies v@[i] == r@[i] by {
        assert(cloned::<T>(v[i], r[i]));
    }
    assert(r@ =~= v@);
}

/// `b` carries the same reward payload as `a`: equal lines and equal
/// experience reward.
pub open spec fn same_rewards(a: GiftCodeReward, b: GiftCodeReward) -> bool {
    a.currency_rewards@ == b.currency_rewards@ && a.item_rewards@ == b.item_rewards@
        && a.xp_reward == b.xp_reward
}

/// `b` is the same code record as `a` in every field, with the reward
/// payload compared line by line.
pub open spec fn same_code(a: GiftCode, b: GiftCode) -> bool {
    a.title == b.title && a.subtitle == b.subtitle && a.amount == b.amount && a.duration
        == b.duration && a.expired_at == b.expired_at && same_rewards(a.rewards, b.rewards)
        && a.channel_id == b.channel_id && a.message_id == b.message_id && a.button_id
        == b.button_id
}

impl Clone for GiftCodeReward {
    fn clone(&self) -> (res: Self)
        ensures
            same_rewards(res, *self),
    {
        let currency_rewards = self.currency_rewards.clone();
        let item_rewards = self.item_rewards.clone();
        proof {
            lemma_exact_clone_vec(self.currency_rewards, currency_rewards);
            lemma_exact_clone_vec(self.item_rewards, item_rewards);
        }
        GiftCodeReward { currency_rewards, item_rewards, xp_reward: self.xp_reward }
    }
}

impl Clone for GiftCode {
    fn clone(&self) -> (res: Self)
        ensures
            same_code(res, *self),
    {
        GiftCode {
            title: self.title.clone(),
            subtitle: self.subtitle.clone(),
            amount: self.amount,
            duration: self.duration,
            expired_at: self.expired_at.clone(),
            rewards: self.rewards.clone(),
            channel_id: self.channel_id,
            message_id: self.message_id.clone(),
            button_id: self.button_id.clone(),
        }
    }
}

impl Clone for GiftCodeResponse {
    fn clone(&self) -> (res: Self)
        ensures
            res.key == self.key,
            same_code(res.value, self.value),
    {
        GiftCodeResponse { key: self.key.clone(), value: self.value.clone() }
    }
}

impl GetAllGiftCodesResponse {
    /// The record of the first result, which a lookup by one key answers
    /// with; nothing when the store found no such code.
    pub fn into_first_value(self) -> (r: Option<GiftCode>)
        ensures
            match r {
                Some(rec) => self.results@.len() > 0 && rec == self.results@[0].value,
                None => self.results@.len() == 0,
            },
    {
        let mut results = self.results;
        if results.len() == 0 {
            None
        } else {
            let first = results.remove(0);
            Some(first.value)
        }
    }
}

impl Clone for GameVersion {
    fn clone(&self) -> (res: Self)
        ensures
            res == *self,
    {
        GameVersion {
            version_number: self.version_number.clone(),
            force_update: self.force_update,
        }
    }
}

impl Clone for ClickEvent {
    fn clone(&self) -> (res: Self)
        ensures
            res == *self,
    {
        ClickEvent { user_id: self.user_id, button_id: self.button_id.clone() }
    }
}

} // verus!
