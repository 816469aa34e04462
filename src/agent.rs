//! Agent bootstrap helpers: the random call sign a new agent registers
//! with, the token read back from registration, and the line that keeps it.

use vstd::prelude::*;
use vstd::string::*;
use crate::json::str_at;
use rand::{distributions::Alphanumeric, thread_rng, Rng};

verus! {

/// The standard, padded base64 encoding of `bytes`.
pub uninterp spec fn base64_of(bytes: Seq<u8>) -> Seq<char>;

/// Relies on `base64::encode`: the standard, padded base64 encoding.
#[verifier::external_body]
#[allow(deprecated)]
fn encode_base64(bytes: &Vec<u8>) -> (r: String)
    ensures
        r@ == base64_of(bytes@),
{
    base64::encode(bytes)
}

/// An ASCII letter or digit.
pub open spec fn is_alphanumeric(b: u8) -> bool {
    (0x30 <= b <= 0x39) || (0x41 <= b <= 0x5a) || (0x61 <= b <= 0x7a)
}

/// Relies on rand's `thread_rng` sampled through `Alphanumeric`: `n` bytes,
/// each an ASCII letter or digit.
#[verifier::external_body]
fn random_alphanumeric(n: usize) -> (r: Vec<u8>)
    ensures
        r@.len() == n,
        forall|i: int| 0 <= i < r@.len() ==> is_alphanumeric(#[trigger] r@[i]),
{
    thread_rng().sample_iter(&Alphanumeric).take(n).collect()
}

/// How many random characters a new call sign is drawn from.
pub const SYMBOL_SEED_LEN: usize = 6;

/// The prefix of every call sign.
pub open spec fn symbol_prefix() -> Seq<char> {
    "SFP-"@
}

/// The call sign made from `seed`: the prefix, then `seed` in base64.
pub fn agent_symbol(seed: &Vec<u8>) -> (r: String)
    ensures
        r@ == symbol_prefix() + base64_of(seed@),
{
    let encoded = encode_base64(seed);
    let mut r = String::from_str("SFP-");
    r.append(encoded.as_str());
    proof {
        reveal_strlit("SFP-");
    }
    r
}

/// A fresh call sign for registration, from six random letters and digits.
pub fn generate_random_symbol() -> (r: String)
    ensures
        exists|seed: Seq<u8>|
            {
                &&& seed.len() == SYMBOL_SEED_LEN
                &&& forall|i: int| 0 <= i < seed.len() ==> is_alphanumeric(#[trigger] seed[i])
                &&& r@ == symbol_prefix() + base64_of(seed)
            },
{
    let seed = random_alphanumeric(SYMBOL_SEED_LEN);
    agent_symbol(&seed)
}

/// The text found by a lookup, owned.
pub fn owned_text(found: Option<&str>) -> (r: Option<String>)
    ensures
        r is Some <==> found is Some,
        r matches Some(s) ==> s@ == found.unwrap()@,
{
    match found {
        Some(t) => Some(t.to_owned()),
        None => None,
    }
}

/// The token a registration response carries (`/data/token`).
pub open spec fn token_of(body: serde_json::Value) -> Option<Seq<char>> {
    str_at(body, "/data/token"@)
}

/// The token in a registration response (`data.token`); `None` where the
/// response carries no string there, which leaves the agent without a
/// credential.
pub fn registration_token(body: &serde_json::Value) -> (r: Option<String>)
    ensures
        r is Some <==> token_of(*body) is Some,
        r matches Some(t) ==> token_of(*body) == Some(t@),
{
    let found = match body.pointer("/data/token") {
        Some(t) => t.as_str(),
        None => None,
    };
    owned_text(found)
}

/// The line that persists a token in an environment file.
pub fn env_line(token: &str) -> (r: String)
    ensures
        r@ == "TOKEN="@ + token@,
{
    let mut r = String::from_str("TOKEN=");
    r.append(token);
    proof {
        reveal_strlit("TOKEN=");
    }
    r
}

/// The symbol of the first waypoint in a waypoint listing
/// (`/data/0/symbol`).
pub open spec fn first_waypoint_of(body: serde_json::Value) -> Option<Seq<char>> {
    str_at(body, "/data/0/symbol"@)
}

/// The symbol of the first waypoint in a waypoint listing
/// (`data[0].symbol`), if there is one.
pub fn first_waypoint_symbol(body: &serde_json::Value) -> (r: Option<String>)
    ensures
        r is Some <==> first_waypoint_of(*body) is Some,
        r matches Some(s) ==> first_waypoint_of(*body) == Some(s@),
{
    let found = match body.pointer("/data/0/symbol") {
        Some(s) => s.as_str(),
        None => None,
    };
    owned_text(found)
}

} // verus!
