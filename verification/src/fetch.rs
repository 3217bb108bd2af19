//! The server's answer to the request for `yt-dlp`: whether the download may
//! go on, and what is reported where it may not.
use crate::decimal::{decimal, decimal_string};
use vstd::prelude::*;

verus! {

/// How `reqwest` writes out the status with the number `code`: the number
/// and the reason phrase that belongs to it.
pub uninterp spec fn status_text(code: u16) -> Seq<char>;

/// Why a fetch was given up.
#[derive(Debug, Clone, Copy, PartialEq, Eq, Structural)]
pub enum FetchError {
    /// The server answered with a status outside 200 to 299.
    BadStatus { code: u16 },
}

/// Whether a status is one of success.
pub open spec fn is_success(code: u16) -> bool {
    200 <= code < 300
}

/// Whether `code` is a number that HTTP allows for a status.
pub open spec fn is_status_code(code: u16) -> bool {
    100 <= code <= 999
}

/// How a status is named in a message: as `reqwest` writes it, or by its bare
/// number where it is none that HTTP allows.
pub open spec fn status_label(code: u16) -> Seq<char> {
    if is_status_code(code) {
        status_text(code)
    } else {
        decimal(code as int)
    }
}

/// The message for a status that ended a fetch, given how the status is named.
pub open spec fn bad_status_text(label: Seq<char>) -> Seq<char> {
    "ダウンロードエラー: ステータスコード "@ + label
}

/// What the user is told of an error.
pub open spec fn fetch_error_text(error: FetchError) -> Seq<char> {
    match error {
        FetchError::BadStatus { code } => bad_status_text(status_label(code)),
    }
}

/// `reqwest::StatusCode::is_success`, on the status that
/// `reqwest::StatusCode::from_u16` makes of `code`. A number from 100 to 999
/// makes a status, and that status is one of success exactly when the number
/// lies from 200 to 299. Any other number makes none.
#[verifier::external_body]
fn status_is_success(code: u16) -> (success: Option<bool>)
    ensures
        success == if is_status_code(code) {
            Some(is_success(code))
        } else {
            None
        },
{
    match reqwest::StatusCode::from_u16(code) {
        Ok(status) => Some(status.is_success()),
        Err(_) => None,
    }
}

/// The `Display` form of the `reqwest::StatusCode` that
/// `reqwest::StatusCode::from_u16` makes of `code`. A number from 100 to 999
/// makes a status, and its text depends on the number alone. Any other number
/// makes none.
#[verifier::external_body]
fn status_display(code: u16) -> (text: Option<String>)
    ensures
        text is Some <==> is_status_code(code),
        text matches Some(t) ==> t@ == status_text(code),
{
    match reqwest::StatusCode::from_u16(code) {
        Ok(status) => Some(status.to_string()),
        Err(_) => None,
    }
}

/// Judges the status the server answered with: the download goes on for a
/// status from 200 to 299 and is given up for every other.
pub fn check_response(code: u16) -> (r: Result<(), FetchError>)
    ensures
        r is Ok <==> is_success(code),
        r matches Err(e) ==> e == (FetchError::BadStatus { code }),
{
    match status_is_success(code) {
        Some(true) => Ok(()),
        _ => Err(FetchError::BadStatus { code }),
    }
}

/// The message for a status that ended a fetch, given how the status is named.
pub fn bad_status_message(label: &str) -> (message: String)
    ensures
        message@ == bad_status_text(label@),
{
    String::from_str("ダウンロードエラー: ステータスコード ").concat(label)
}

impl FetchError {
    /// What the user is told.
    pub fn message(&self) -> (message: String)
        ensures
            message@ == fetch_error_text(*self),
    {
        match self {
            FetchError::BadStatus { code } => {
                let label = match status_display(*code) {
                    Some(text) => text,
                    None => decimal_string(*code as i32),
                };
                bad_status_message(label.as_str())
            },
        }
    }
}

} // verus!
