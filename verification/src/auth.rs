//! The basic-auth header the inventory store is called with: the key id
//! and secret joined by a colon and base64-encoded.

use vstd::prelude::*;
use vstd::utf8::encode_utf8;

verus! {

/// The standard base64 encoding of a byte sequence, padded; a function of
/// the bytes alone.
pub uninterp spec fn base64_of(bytes: Seq<u8>) -> Seq<char>;

/// Relies on base64's standard-alphabet engine: the encoding depends on
/// the bytes alone, four characters standing for each group of up to
/// three bytes.
#[verifier::external_body]
fn base64_encode(bytes: &[u8]) -> (r: String)
    ensures
        r@ == base64_of(bytes@),
        r@.len() == 4 * ((bytes@.len() + 2) / 3),
{
    base64::Engine::encode(&base64::engine::general_purpose::STANDARD, bytes)
}

/// The header value authenticating as `key_id` with `secret`: the word
/// `Basic`, a space, and the base64 encoding of `key_id:secret`.
pub fn basic_auth_header(key_id: &str, secret: &str) -> (r: String)
    ensures
        r@ == "Basic "@ + base64_of(encode_utf8(key_id@ + ":"@ + secret@)),
{
    let mut credentials = String::new();
    credentials.append(key_id);
    credentials.append(":");
    credentials.append(secret);
    proof {
        assert(credentials@ =~= key_id@ + ":"@ + secret@);
    }
    let encoded = base64_encode(credentials.as_str().as_bytes());
    let mut header = String::new();
    header.append("Basic ");
    header.append(encoded.as_str());
    proof {
        assert(header@ =~= "Basic "@ + base64_of(encode_utf8(key_id@ + ":"@ + secret@)));
    }
    header
}

} // verus!
