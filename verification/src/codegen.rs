//! Referral codes: the first characters of the user's name, then the first
//! characters of a random UUID.

use vstd::prelude::*;
use vstd::string::StringExecFns;
use vstd::string::StrSliceExecFns;
use crate::response::ApiError;
use crate::response::ApiErrorView;
use crate::text::leading;
use crate::trusted::fresh_uuid;
use crate::trusted::is_random_uuid;
use crate::trusted::uuid_text;
use crate::trusted::uuid_to_text;

verus! {

/// How many characters of the user's name open a referral code.
pub const PREFIX_CHARS: usize = 3;

/// How many characters of the UUID close a referral code.
pub const SUFFIX_CHARS: usize = 4;

/// What a name too short for a referral code is answered with.
pub open spec fn short_name_text() -> Seq<char> {
    "user_name must have at least 3 characters"@
}

/// The referral code for `user_name` and the UUID with the value `token`:
/// the first three characters of the name, then the first four characters of
/// the UUID's hyphenated form. A name of fewer than three characters has no
/// code.
pub open spec fn referral_code_text(user_name: Seq<char>, token: u128) -> Option<Seq<char>> {
    if user_name.len() >= PREFIX_CHARS {
        Some(user_name.take(PREFIX_CHARS as int) + uuid_text(token).take(SUFFIX_CHARS as int))
    } else {
        None
    }
}

/// The referral code for `user_name` and the UUID with the value `token`.
/// A name of fewer than three characters is refused as malformed.
pub fn referral_code(user_name: &str, token: u128) -> (code: Result<String, ApiError>)
    ensures
        match code {
            Ok(text) => referral_code_text(user_name@, token) == Some(text@),
            Err(error) => {
                &&& referral_code_text(user_name@, token) is None
                &&& error@ == ApiErrorView::Validation(short_name_text())
            },
        },
{
    match leading(user_name, PREFIX_CHARS) {
        None => Err(
            ApiError::Validation(String::from_str("user_name must have at least 3 characters")),
        ),
        Some(prefix) => {
            let token_text = uuid_to_text(token);
            let suffix = token_text.as_str().substring_char(0, SUFFIX_CHARS);
            Ok(prefix.concat(suffix))
        },
    }
}

/// A fresh referral code for `user_name`: the code for the name and a UUID
/// drawn at random. No code is held back for being in use: that two users
/// never share a code is for the record store to enforce.
pub fn generate(user_name: &str) -> (code: Result<String, ApiError>)
    ensures
        match code {
            Ok(text) => exists|token: u128|
                is_random_uuid(token) && #[trigger] referral_code_text(user_name@, token) == Some(
                    text@,
                ),
            Err(error) => {
                &&& user_name@.len() < PREFIX_CHARS
                &&& error@ == ApiErrorView::Validation(short_name_text())
            },
        },
{
    let token = fresh_uuid();
    referral_code(user_name, token)
}

} // verus!
