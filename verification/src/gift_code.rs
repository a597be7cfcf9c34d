//! The code-key format — exactly 16 characters, each an uppercase ASCII
//! letter or a digit, excluding the visually ambiguous `O` and `0` — and
//! the generation of fresh code keys and routing identifiers.

use crate::clock::now_unix_millis;
use crate::text::push_char;
use crate::text::push_decimal;
use crate::text::spec_decimal;
use vstd::prelude::*;

verus! {

/// A character is allowed in a code key: uppercase ASCII except `O`,
/// or a digit except `0`.
pub open spec fn valid_code_char(c: char) -> bool {
    ('A' <= c && c <= 'Z' && c != 'O') || ('1' <= c && c <= '9')
}

/// A code key is exactly 16 characters, all of them allowed.
pub open spec fn spec_valid_gift_code(s: Seq<char>) -> bool {
    s.len() == 16 && forall|i: int| 0 <= i < s.len() ==> valid_code_char(#[trigger] s[i])
}

/// Checks a candidate code key against the fixed format.
pub fn is_valid_gift_code(code: &str) -> (r: bool)
    ensures
        r == spec_valid_gift_code(code@),
{
    let n = code.unicode_len();
    if n != 16 {
        return false;
    }
    let mut i: usize = 0;
    while i < 16
        invariant
            code@.len() == 16,
            0 <= i <= 16,
            forall|j: int| 0 <= j < i ==> valid_code_char(#[trigger] code@[j]),
        decreases 16 - i,
    {
        let c = code.get_char(i);
        let ok = ('A' <= c && c <= 'Z' && c != 'O') || ('1' <= c && c <= '9');
        if !ok {
            return false;
        }
        i += 1;
    }
    true
}

/// An ASCII letter or digit, as rand's `Alphanumeric` produces them.
pub open spec fn alnum_byte(b: u8) -> bool {
    (48 <= b <= 57) || (65 <= b <= 90) || (97 <= b <= 122)
}

/// Relies on rand's `thread_rng`: a handle to the thread-local generator.
#[verifier::external_body]
fn fresh_rng() -> rand::rngs::ThreadRng {
    rand::thread_rng()
}

/// rand's generator type, declared so its values can pass through
/// signatures; nothing is assumed of what is inside.
#[verifier::external_type_specification]
#[verifier::external_body]
pub struct ExThreadRng(rand::rngs::ThreadRng);

/// Relies on rand's `Alphanumeric` distribution: every sample is an ASCII
/// letter or digit; which one depends on the generator's state.
#[verifier::external_body]
fn sample_alphanumeric(rng: &mut rand::rngs::ThreadRng) -> (b: u8)
    ensures
        alnum_byte(b),
{
    rand::Rng::sample(rng, rand::distributions::Alphanumeric)
}

/// Relies on rand's `Rng::gen` for `u32`: a number with nothing assumed
/// of it.
#[verifier::external_body]
fn random_u32(rng: &mut rand::rngs::ThreadRng) -> (r: u32) {
    rand::Rng::gen(rng)
}

/// Whether a sampled byte may go into a code key: uppercase or digit,
/// and not `O` or `0`.
fn keep_code_byte(b: u8) -> (r: bool)
    requires
        alnum_byte(b),
    ensures
        r == valid_code_char(b as char),
{
    (65 <= b && b <= 90 && b != 79) || (49 <= b && b <= 57)
}

/// A fresh code key in the fixed format: sixteen characters drawn from
/// the generator, keeping only uppercase letters and digits other than
/// `O` and `0`. Sampling is rejection-based; a generous bound on draws
/// keeps the loop finite, and any positions still open after it — never
/// hit in practice, as more than half of all draws are kept — are filled
/// with a fixed allowed letter.
pub fn generate_gift_code() -> (r: String)
    ensures
        spec_valid_gift_code(r@),
{
    let mut rng = fresh_rng();
    let mut code = String::new();
    let mut len: usize = 0;
    let mut draws: usize = 0;
    while len < 16 && draws < 65536
        invariant
            code@.len() == len,
            0 <= len <= 16,
            forall|j: int| 0 <= j < len ==> valid_code_char(#[trigger] code@[j]),
        decreases 65536 - draws,
    {
        draws += 1;
        let b = sample_alphanumeric(&mut rng);
        if keep_code_byte(b) {
            push_char(&mut code, b as char);
            len += 1;
        }
    }
    while len < 16
        invariant
            code@.len() == len,
            0 <= len <= 16,
            forall|j: int| 0 <= j < len ==> valid_code_char(#[trigger] code@[j]),
        decreases 16 - len,
    {
        push_char(&mut code, 'A');
        len += 1;
    }
    code
}

/// The shape of a routing identifier: the milliseconds instant, an
/// underscore, and a random tag, both in decimal.
pub open spec fn spec_custom_id(millis: u64, tag: u32) -> Seq<char> {
    spec_decimal(millis as nat).push('_') + spec_decimal(tag as nat)
}

/// A routing identifier built from an instant and a random tag. Both the
/// broadcast message and its button get one.
pub fn custom_id_from(millis: u64, tag: u32) -> (r: String)
    ensures
        r@ == spec_custom_id(millis, tag),
{
    let mut s = String::new();
    push_decimal(&mut s, millis);
    push_char(&mut s, '_');
    push_decimal(&mut s, tag as u64);
    proof {
        assert(s@ =~= spec_custom_id(millis, tag));
    }
    s
}

/// A fresh routing identifier: the current instant and a random tag.
pub fn generate_custom_id() -> (r: String)
    ensures
        exists|millis: u64, tag: u32| r@ == spec_custom_id(millis, tag),
{
    let mut rng = fresh_rng();
    let millis = now_unix_millis();
    let tag = random_u32(&mut rng);
    let id = custom_id_from(millis, tag);
    proof {
        assert(id@ == spec_custom_id(millis, tag));
    }
    id
}

} // verus!
