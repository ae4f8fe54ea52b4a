//! Startup decisions of the composition root: reading the configured pattern
//! from its transport encoding, and the single-instance short-circuit.

use base64::DecodeError;
use base64::Engine;
use std::string::FromUtf8Error;
use vstd::prelude::*;
use vstd::utf8::{decode_utf8, valid_utf8};

verus! {

/// The error of the `base64` crate's decoder, carried as an opaque value.
#[verifier::external_type_specification]
#[verifier::external_body]
pub struct ExDecodeError(DecodeError);

/// The error of `String::from_utf8`, carried as an opaque value.
#[verifier::external_type_specification]
#[verifier::external_body]
pub struct ExFromUtf8Error(FromUtf8Error);

/// The bytes that the standard base64 alphabet with canonical padding decodes
/// a text to, as the `base64` crate's `STANDARD` engine decodes it; `None`
/// where that engine rejects the text.
pub uninterp spec fn base64_decoded(text: Seq<char>) -> Option<Seq<u8>>;

/// Calls `Engine::decode` on the `base64` crate's `STANDARD` engine.
#[verifier::external_body]
fn base64_decode(text: &str) -> (r: Result<Vec<u8>, DecodeError>)
    ensures
        match base64_decoded(text@) {
            Some(bytes) => r matches Ok(v) && v@ == bytes,
            None => r is Err,
        },
{
    base64::engine::general_purpose::STANDARD.decode(text)
}

/// Calls `String::from_utf8`, which takes the bytes over as a string where
/// they are valid UTF-8 and fails where they are not.
#[verifier::external_body]
fn string_from_utf8(bytes: Vec<u8>) -> (r: Result<String, FromUtf8Error>)
    ensures
        r.is_ok() == valid_utf8(bytes@),
        r matches Ok(s) ==> s@ == decode_utf8(bytes@),
{
    String::from_utf8(bytes)
}

/// Why an encoded pattern could not be read.
#[derive(Clone, Copy, Debug, PartialEq, Eq, Structural)]
pub enum OverrideError {
    /// The text is not base64.
    NotBase64,
    /// The decoded bytes are not UTF-8.
    NotUtf8,
}

/// What `decode_base64` returns for a text.
pub open spec fn decoded_pattern(text: Seq<char>) -> Result<Seq<char>, OverrideError> {
    match base64_decoded(text) {
        None => Err(OverrideError::NotBase64),
        Some(bytes) => if valid_utf8(bytes) {
            Ok(decode_utf8(bytes))
        } else {
            Err(OverrideError::NotUtf8)
        },
    }
}

/// What follows from the bytes that the base64 decoder produced: the pattern
/// text where they are UTF-8.
pub fn pattern_from_bytes(bytes: Vec<u8>) -> (r: Result<String, OverrideError>)
    ensures
        r.is_ok() == valid_utf8(bytes@),
        r matches Ok(s) ==> s@ == decode_utf8(bytes@),
        r matches Err(e) ==> e == OverrideError::NotUtf8,
{
    match string_from_utf8(bytes) {
        Ok(s) => Ok(s),
        Err(_) => Err(OverrideError::NotUtf8),
    }
}

/// Reads the configured pattern from its base64 form.
pub fn decode_base64(encoded: &str) -> (r: Result<String, OverrideError>)
    ensures
        match decoded_pattern(encoded@) {
            Ok(text) => r matches Ok(s) && s@ == text,
            Err(e) => r matches Err(f) && f == e,
        },
{
    match base64_decode(encoded) {
        Ok(bytes) => pattern_from_bytes(bytes),
        Err(_) => Err(OverrideError::NotBase64),
    }
}

/// What the process does once it knows whether it is the only instance.
#[derive(Clone, Copy, Debug, PartialEq, Eq, Structural)]
pub enum Launch {
    /// Another instance serves already: exit with success, and create no
    /// control channel.
    Reuse,
    /// Start the forwarder and the control server.
    Serve,
}

/// Decides between serving and leaving the running instance in charge.
pub fn on_instance_check(is_single: bool) -> (launch: Launch)
    ensures
        launch == if is_single {
            Launch::Serve
        } else {
            Launch::Reuse
        },
{
    if is_single {
        Launch::Serve
    } else {
        Launch::Reuse
    }
}

} // verus!
