//! The plain data shapes of the protocol: the decoded response bodies
//! the state machine consumes, and the guesses it produces.
//!
//! Every field is held as it travels on the wire (counters as decimal
//! strings); decoding into typed values happens in the session's
//! transition functions.

use vstd::prelude::*;

verus! {

/// One candidate guess, as returned when the game ends.  Immutable once
/// constructed; the order across a list of guesses is the service's
/// ranking order.
#[derive(Debug, PartialEq, Eq)]
pub struct Guess {
    /// The unique id of the guess.
    pub id: String,
    /// The name of the guess.
    pub name: String,
    pub award_id: String,
    pub flag_photo: u64,
    /// The service's confidence that this guess is right, as a decimal
    /// string.
    pub confidence: String,
    /// A brief description of the guess.
    pub description: String,
    /// The ranking place of the guess, as a decimal string.
    pub ranking: String,
    /// The relative URL of the guess's image.
    pub picture_path: String,
    /// The absolute URL of the guess's image.
    pub absolute_picture_path: String,
}

impl Clone for Guess {
    /// A clone carries exactly the same fields.
    fn clone(&self) -> (r: Self)
        ensures
            r == *self,
    {
        Guess {
            id: self.id.clone(),
            name: self.name.clone(),
            award_id: self.award_id.clone(),
            flag_photo: self.flag_photo,
            confidence: self.confidence.clone(),
            description: self.description.clone(),
            ranking: self.ranking.clone(),
            picture_path: self.picture_path.clone(),
            absolute_picture_path: self.absolute_picture_path.clone(),
        }
    }
}

/// The step block of a response: the fields every question carries.
#[derive(Debug)]
pub struct StepInfo {
    /// The step counter, as a decimal string.
    pub step: String,
    /// The question to show.
    pub question: String,
    /// The progression, as a decimal-fraction string.
    pub progression: String,
}

/// The identification block of a session-creation response.
#[derive(Debug)]
pub struct IdentJson {
    /// The session number, as a decimal string.
    pub session: String,
    /// The session signature, as a decimal string.
    pub signature: String,
}

/// The parameters block of a session-creation response.
#[derive(Debug)]
pub struct ParametersJson {
    pub identification: IdentJson,
    pub step_information: StepInfo,
}

/// A decoded session-creation response.
#[derive(Debug)]
pub struct StartJson {
    /// The completion code; `"OK"` is the sole success value.
    pub completion: String,
    pub parameters: Option<ParametersJson>,
}

/// A decoded answer or undo response.
#[derive(Debug)]
pub struct MoveJson {
    /// The completion code; `"OK"` is the sole success value.
    pub completion: String,
    pub parameters: Option<StepInfo>,
}

/// One element of a finalisation response.
#[derive(Debug)]
pub struct WinElement {
    pub element: Guess,
}

/// The parameters block of a finalisation response.
#[derive(Debug)]
pub struct WinParams {
    pub elements: Vec<WinElement>,
}

/// A decoded finalisation response.
#[derive(Debug)]
pub struct WinJson {
    /// The completion code; `"OK"` is the sole success value.
    pub completion: String,
    pub parameters: Option<WinParams>,
}

/// One entry of the scraped server list.
#[derive(Debug, PartialEq, Eq)]
pub struct ServerData {
    /// The game server's URL.
    pub url_ws: String,
    /// The subject id of the theme the server plays.
    pub subject_id: String,
}

} // verus!
