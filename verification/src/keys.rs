//! Key material: minting a fresh key pair and reading a stored secret key.

use vstd::prelude::*;
use nostr_sdk::prelude::{Keys, ToBech32};
use crate::error::Error;
use crate::model::MyKey;

verus! {

/// The signing keys of the relay network, as the outside crate holds them.
#[verifier::external_type_specification]
#[verifier::external_body]
pub struct ExKeys(nostr_sdk::prelude::Keys);

/// Whether `nostr_sdk::Keys::parse` accepts this text as a secret key (in
/// hex or in the network's text encoding).
pub uninterp spec fn secret_key_parses(text: Seq<char>) -> bool;

/// Calls `nostr_sdk::Keys::generate` and writes the secret half with
/// `ToBech32::to_bech32`, which cannot fail for keys. Which key comes out is
/// up to the operating system's random source. Whichever it is, the text is
/// that key under the prefix for secret keys, and `Keys::parse` reads such a
/// text back: it checks the prefix and takes the bytes as the secret key.
#[verifier::external_body]
fn generate_secret_key() -> (text: String)
    ensures
        secret_key_parses(text@),
{
    let keys = Keys::generate();
    match keys.secret_key().to_bech32() {
        Ok(text) => text,
        Err(never) => match never {},
    }
}

/// Calls `nostr_sdk::Keys::parse`: the keys are returned exactly when the
/// text is accepted as a secret key.
#[verifier::external_body]
fn parse_keys(secret_key: &str) -> (keys: Option<Keys>)
    ensures
        keys is Some <==> secret_key_parses(secret_key@),
{
    match Keys::parse(secret_key) {
        Ok(keys) => Some(keys),
        Err(_) => None,
    }
}

/// Mints a fresh key pair, both halves in the network's text encoding.
///
/// This is the only place where new identities get their keys. It always
/// succeeds; which keys come out is up to the random source.
pub fn new_key() -> (r: Result<MyKey, Error>)
    ensures
        r is Ok,
        r matches Ok(pair) ==> secret_key_parses(pair@.secret_key) && public_key_text(
            pair@.secret_key,
        ) == Some(pair@.public_key),
{
    let secret_key = generate_secret_key();
    match derive_public_key(secret_key.as_str()) {
        Some(public_key) => Ok(MyKey { public_key, secret_key }),
        None => Err(Error::Nostr),
    }
}

/// Reads a stored secret key back into signing keys.
pub fn convert_key(secret_key: &str) -> (r: Result<Keys, Error>)
    ensures
        r is Ok <==> secret_key_parses(secret_key@),
        r matches Err(e) ==> e == Error::Nostr,
{
    match parse_keys(secret_key) {
        Some(keys) => Ok(keys),
        None => Err(Error::Nostr),
    }
}

/// Whether a stored secret key can be read back into signing keys.
pub fn is_valid_key(secret_key: &str) -> (b: bool)
    ensures
        b == secret_key_parses(secret_key@),
{
    convert_key(secret_key).is_ok()
}

/// The public half, in the network's text encoding, of the keys that
/// `nostr_sdk::Keys::parse` reads from this secret key, or `None` where it
/// rejects the text.
pub uninterp spec fn public_key_text(secret_key: Seq<char>) -> Option<Seq<char>>;

/// Calls `nostr_sdk::Keys::parse` and writes the public half of the keys
/// with `ToBech32::to_bech32`, which cannot fail for keys: there is a public
/// half exactly when the text is accepted as a secret key.
#[verifier::external_body]
fn derive_public_key(secret_key: &str) -> (r: Option<String>)
    ensures
        r is Some <==> secret_key_parses(secret_key@),
        match r {
            Some(text) => public_key_text(secret_key@) == Some(text@),
            None => public_key_text(secret_key@) is None,
        },
{
    match Keys::parse(secret_key) {
        Ok(keys) => match keys.public_key().to_bech32() {
            Ok(text) => Some(text),
            Err(never) => match never {},
        },
        Err(_) => None,
    }
}

} // verus!
