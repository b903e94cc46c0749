//! What can go wrong in a history lookup, and how it is reported.

use vstd::prelude::*;
use vstd::string::*;

use crate::language::{invalid_lang_code_message, invalid_lang_code_text};
use crate::text::{decimal, padded2, push_decimal, push_padded2};

verus! {

/// The failures of a history lookup. The first two reject the request
/// before anything is sent; the others name the stage at which the exchange
/// with the server failed.
#[derive(Clone, Debug, PartialEq, Eq)]
pub enum HistoryError {
    /// The language is not two ASCII letters; holds the input.
    InvalidLanguageCode(String),
    /// The month and the day name no day of the calendar.
    InvalidDate { month: u32, day: u32 },
    /// No HTTP client could be set up; holds the cause.
    HttpClientInitFailure(String),
    /// The request did not reach the server or no answer came back; holds
    /// the cause.
    NetworkError(String),
    /// The server answered with a status outside 200 to 299; holds it.
    UpstreamStatusError(u16),
    /// The body of the answer was not the expected JSON; holds the cause.
    DecodeError(String),
}

/// A `HistoryError` with its texts as sequences and its numbers as integers.
pub enum HistoryErrorView {
    InvalidLanguageCode(Seq<char>),
    InvalidDate { month: int, day: int },
    HttpClientInitFailure(Seq<char>),
    NetworkError(Seq<char>),
    UpstreamStatusError(int),
    DecodeError(Seq<char>),
}

impl View for HistoryError {
    type V = HistoryErrorView;

    open spec fn view(&self) -> HistoryErrorView {
        match self {
            HistoryError::InvalidLanguageCode(input) => HistoryErrorView::InvalidLanguageCode(
                input@,
            ),
            HistoryError::InvalidDate { month, day } => HistoryErrorView::InvalidDate {
                month: *month as int,
                day: *day as int,
            },
            HistoryError::HttpClientInitFailure(cause) => HistoryErrorView::HttpClientInitFailure(
                cause@,
            ),
            HistoryError::NetworkError(cause) => HistoryErrorView::NetworkError(cause@),
            HistoryError::UpstreamStatusError(status) => HistoryErrorView::UpstreamStatusError(
                *status as int,
            ),
            HistoryError::DecodeError(cause) => HistoryErrorView::DecodeError(cause@),
        }
    }
}

/// What is said of a month and a day that name no day of the calendar:
/// both are written in at least two digits.
pub open spec fn invalid_date_text(month: nat, day: nat) -> Seq<char> {
    seq!['\''] + padded2(month, '0') + seq!['-'] + padded2(day, '0')
        + "' is not a valid calendar date"@
}

/// The message of each failure.
pub open spec fn message_text(error: HistoryErrorView) -> Seq<char> {
    match error {
        HistoryErrorView::InvalidLanguageCode(input) => invalid_lang_code_text(input),
        HistoryErrorView::InvalidDate { month, day } => invalid_date_text(month as nat, day as nat),
        HistoryErrorView::HttpClientInitFailure(cause) => "failed to build the HTTP client: "@
            + cause,
        HistoryErrorView::NetworkError(cause) => "the request failed: "@ + cause,
        HistoryErrorView::UpstreamStatusError(status) => "the server answered with HTTP status "@
            + decimal(status as nat),
        HistoryErrorView::DecodeError(cause) => "the response could not be decoded: "@ + cause,
    }
}

impl HistoryError {
    /// The message to show for this failure.
    pub fn message(&self) -> (r: String)
        ensures
            r@ == message_text(self@),
    {
        let mut out = String::new();
        match self {
            HistoryError::InvalidLanguageCode(input) => {
                return invalid_lang_code_message(input.as_str());
            },
            HistoryError::InvalidDate { month, day } => {
                out.push('\'');
                push_padded2(&mut out, *month as u64, '0');
                out.push('-');
                push_padded2(&mut out, *day as u64, '0');
                out.append("' is not a valid calendar date");
            },
            HistoryError::HttpClientInitFailure(cause) => {
                out.append("failed to build the HTTP client: ");
                out.append(cause.as_str());
            },
            HistoryError::NetworkError(cause) => {
                out.append("the request failed: ");
                out.append(cause.as_str());
            },
            HistoryError::UpstreamStatusError(status) => {
                out.append("the server answered with HTTP status ");
                push_decimal(&mut out, *status as u64);
            },
            HistoryError::DecodeError(cause) => {
                out.append("the response could not be decoded: ");
                out.append(cause.as_str());
            },
        }
        assert(out@ =~= message_text(self@));
        out
    }
}

} // verus!
