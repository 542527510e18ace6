//! The closed set of failure kinds the library reports.
//!
//! Remote completion codes, local decode failures and misuse of the
//! session are kept apart so a caller can tell a transient remote
//! failure from a local bug.

use vstd::prelude::*;

verus! {

/// Failures while decoding the typed fields of an accepted response.
#[derive(Clone, Copy, Debug, PartialEq, Eq, Structural)]
pub enum UpdateInfoError {
    /// The progression field did not read as a decimal fraction.
    ParseFloatError,
    /// A counter field (step, session, signature) did not read as a
    /// decimal integer.
    ParseIntError,
    /// The response was accepted but a needed object, usually
    /// `parameters`, is absent.
    MissingData,
}

/// The error taxonomy of the protocol.
#[derive(Clone, Copy, Debug, PartialEq, Eq, Structural)]
pub enum Error {
    /// The wall clock could not be read when the session started.
    TimeError,
    /// The HTTP request itself failed.
    RequestError,
    /// The response body was not the JSON shape that was expected.
    JsonParseError,
    /// The response was accepted but its fields could not be decoded.
    UpdateInfoError(UpdateInfoError),
    /// Scraping the game pages did not find the expected data.
    NoDataFound,
    /// The region's game servers are down.
    ServersDown,
    /// The service reported an internal technical error.
    TechnicalError,
    /// The service timed out waiting.
    TimeoutError,
    /// The service has no more questions to offer.
    NoMoreQuestions,
    /// Any other non-successful completion code.
    ConnectionError,
    /// `back` was asked for while already on the first question.
    CantGoBackAnyFurther,
    /// A word could not be read as an answer.
    InvalidAnswer,
    /// A word could not be read as a supported language.
    InvalidLanguage,
}

} // verus!
