//! Decoding bytes as text, as the standard library does it.
//!
//! Nothing in this file is proved: it states what the event bridge assumes of
//! `String::from_utf8`.

use std::string::FromUtf8Error;
use vstd::prelude::*;
use vstd::utf8::*;

verus! {

/// `std::string::FromUtf8Error`: why bytes were refused as text. The
/// verifier sees nothing inside it.
#[verifier::external_type_specification]
#[verifier::external_body]
pub struct ExFromUtf8Error(FromUtf8Error);

/// `String::from_utf8` accepts exactly the byte vectors that are valid
/// UTF-8, and the string it then returns holds the characters those bytes
/// encode.
pub assume_specification[ String::from_utf8 ](bytes: Vec<u8>) -> (decoded: Result<
    String,
    FromUtf8Error,
>)
    ensures
        decoded is Ok <==> valid_utf8(bytes@),
        decoded matches Ok(text) ==> text@ == decode_utf8(bytes@),
;

} // verus!
