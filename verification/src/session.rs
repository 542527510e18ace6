//! The session state machine.
//!
//! An [`Akinator`] owns the identity of one game: the resolved server,
//! the session number and signature, the step counter, the current
//! question and the progression.  The protocol operations are split in
//! two: `*_request` functions build the URL and the query parameters of
//! the one round trip an operation makes, and `apply_*_response`
//! functions take the decoded response and move the session forward.
//! The embedding application performs the round trip in between.
//!
//! No operation mutates the session partially: the state changes only
//! after a response has been fully decoded and validated as successful.

use vstd::prelude::*;

use crate::enums::Answer;
use crate::enums::Language;
use crate::enums::Theme;
use crate::enums::spec_answer_code;
use crate::enums::spec_language_code;
use crate::error::Error;
use crate::error::UpdateInfoError;
use crate::models::Guess;
use crate::models::MoveJson;
use crate::models::ParametersJson;
use crate::models::StartJson;
use crate::models::StepInfo;
use crate::models::WinJson;
use crate::numbers::Decimal;
use crate::numbers::dec_digits;
use crate::numbers::dec_ok;
use crate::numbers::decimal_digits;
use crate::numbers::decimal_scale_of;
use crate::numbers::digits_val;
use crate::numbers::format_u64;
use crate::numbers::int_ok;
use crate::numbers::parse_decimal;
use crate::numbers::parse_u64;
use crate::text::seq_eq_ci;
use crate::text::str_eq;
use crate::text::str_eq_ci;

verus! {

/// One game session.
///
/// The identification fields (`uri`, `uid`, `ws_url`, `session`,
/// `frontaddr`, `signature`, `question_filter`, `timestamp`) are
/// populated atomically by a successful `start` response and read by
/// the later requests; the play fields (`current_question`,
/// `progression`, `step`) follow the server's reported values; the
/// guesses appear only after a successful `win` response.
#[derive(Debug)]
pub struct Akinator {
    /// The language for the session.
    pub language: Language,
    /// The theme for the session.
    pub theme: Theme,
    /// Whether to filter out content unsuitable for children.
    pub child_mode: bool,
    /// The epoch seconds captured when the session started; reused
    /// verbatim as the session nonce in every callback name.
    pub timestamp: u64,
    /// The regional base URI.
    pub uri: String,
    /// The extension session id scraped from the game page.
    pub uid: Option<String>,
    /// The game server resolved by discovery.
    pub ws_url: Option<String>,
    /// The session number issued by the service.
    pub session: Option<u64>,
    /// The front address scraped from the game page.
    pub frontaddr: Option<String>,
    /// The session signature issued by the service.
    pub signature: Option<u64>,
    /// The question filter derived from `child_mode`.
    pub question_filter: Option<String>,
    /// The question to answer next.
    pub current_question: Option<String>,
    /// The server-reported certainty, out of one hundred.
    pub progression: Decimal,
    /// The count of questions asked and answered, starting at zero.
    pub step: u64,
    /// The best guess, set by a successful `win` response.
    pub first_guess: Option<Guess>,
    /// All guesses, in the server's ranking order.
    pub guesses: Vec<Guess>,
}

/// The regional base URI of a language.
pub open spec fn spec_base_uri(l: Language) -> Seq<char> {
    "https://"@ + spec_language_code(l) + ".akinator.com"@
}

/// The JSONP callback name: a fixed tag with the session nonce behind
/// the underscore.
pub open spec fn spec_callback(ts: u64) -> Seq<char> {
    "jQuery331023608747682107778_"@ + dec_digits(ts as nat)
}

/// How a flag travels in a query string.
pub open spec fn spec_bool_str(b: bool) -> Seq<char> {
    if b {
        "true"@
    } else {
        "false"@
    }
}

/// The content constraint sent when child mode is on.
pub open spec fn spec_soft_constraint(b: bool) -> Seq<char> {
    if b {
        "ETAT='EN'"@
    } else {
        ""@
    }
}

/// The question filter sent when child mode is on.
pub open spec fn spec_question_filter(b: bool) -> Seq<char> {
    if b {
        "cat=1"@
    } else {
        ""@
    }
}

/// A query parameter holds exactly this key and this value.
pub open spec fn pair_is(p: (String, String), k: Seq<char>, v: Seq<char>) -> bool {
    p.0@ == k && p.1@ == v
}

/// The error taxonomy of a non-successful completion code, compared
/// ignoring ASCII case.
pub open spec fn spec_classify_completion(s: Seq<char>) -> Error {
    if seq_eq_ci(s, "KO - SERVER DOWN"@) {
        Error::ServersDown
    } else if seq_eq_ci(s, "KO - TECHNICAL ERROR"@) {
        Error::TechnicalError
    } else if seq_eq_ci(s, "KO - TIMEOUT"@) {
        Error::TimeoutError
    } else if seq_eq_ci(s, "KO - ELEM LIST IS EMPTY"@) || seq_eq_ci(s, "WARN - NO QUESTION"@) {
        Error::NoMoreQuestions
    } else {
        Error::ConnectionError
    }
}

/// Which field of an accepted session-creation response fails to
/// decode, if any, in the order the fields are read.
pub open spec fn start_fields_error(p: ParametersJson) -> Option<UpdateInfoError> {
    if !int_ok(p.identification.session@) {
        Some(UpdateInfoError::ParseIntError)
    } else if !int_ok(p.identification.signature@) {
        Some(UpdateInfoError::ParseIntError)
    } else if !dec_ok(p.step_information.progression@) {
        Some(UpdateInfoError::ParseFloatError)
    } else if !int_ok(p.step_information.step@) {
        Some(UpdateInfoError::ParseIntError)
    } else {
        None
    }
}

/// Which field of an accepted answer or undo response fails to decode,
/// if any, in the order the fields are read.
pub open spec fn move_fields_error(p: StepInfo) -> Option<UpdateInfoError> {
    if !dec_ok(p.progression@) {
        Some(UpdateInfoError::ParseFloatError)
    } else if !int_ok(p.step@) {
        Some(UpdateInfoError::ParseIntError)
    } else {
        None
    }
}

/// The play fields hold exactly the server-provided values and nothing
/// else moved: what a successful answer or undo does to the session.
pub open spec fn spec_move_updated(a: Akinator, b: Akinator, p: StepInfo) -> bool {
    &&& b.current_question == Some(p.question)
    &&& b.progression.mantissa as nat == digits_val(decimal_digits(p.progression@))
    &&& b.progression.scale as nat == decimal_scale_of(p.progression@)
    &&& b.step as nat == digits_val(p.step@)
    &&& b.language == a.language
    &&& b.theme == a.theme
    &&& b.child_mode == a.child_mode
    &&& b.timestamp == a.timestamp
    &&& b.uri == a.uri
    &&& b.uid == a.uid
    &&& b.ws_url == a.ws_url
    &&& b.session == a.session
    &&& b.frontaddr == a.frontaddr
    &&& b.signature == a.signature
    &&& b.question_filter == a.question_filter
    &&& b.first_guess == a.first_guess
    &&& b.guesses == a.guesses
}

/// The identification and play fields hold exactly the decoded values
/// of a successful session-creation response, and nothing else moved.
pub open spec fn spec_start_updated(a: Akinator, b: Akinator, p: ParametersJson) -> bool {
    &&& b.session matches Some(v) && v as nat == digits_val(p.identification.session@)
    &&& b.signature matches Some(v) && v as nat == digits_val(p.identification.signature@)
    &&& b.current_question == Some(p.step_information.question)
    &&& b.progression.mantissa as nat == digits_val(
        decimal_digits(p.step_information.progression@),
    )
    &&& b.progression.scale as nat == decimal_scale_of(p.step_information.progression@)
    &&& b.step as nat == digits_val(p.step_information.step@)
    &&& b.language == a.language
    &&& b.theme == a.theme
    &&& b.child_mode == a.child_mode
    &&& b.timestamp == a.timestamp
    &&& b.uri == a.uri
    &&& b.uid == a.uid
    &&& b.ws_url == a.ws_url
    &&& b.frontaddr == a.frontaddr
    &&& b.question_filter == a.question_filter
    &&& b.first_guess == a.first_guess
    &&& b.guesses == a.guesses
}

/// The whole outcome of a successful `start`: the response fields are
/// committed together with the discovery results, atomically.
pub open spec fn spec_start_committed(
    a: Akinator,
    b: Akinator,
    ws_url: String,
    uid: String,
    frontaddr: String,
    ts: u64,
    p: ParametersJson,
) -> bool {
    &&& b.session matches Some(v) && v as nat == digits_val(p.identification.session@)
    &&& b.signature matches Some(v) && v as nat == digits_val(p.identification.signature@)
    &&& b.current_question == Some(p.step_information.question)
    &&& b.progression.mantissa as nat == digits_val(
        decimal_digits(p.step_information.progression@),
    )
    &&& b.progression.scale as nat == decimal_scale_of(p.step_information.progression@)
    &&& b.step as nat == digits_val(p.step_information.step@)
    &&& b.uri@ == spec_base_uri(a.language)
    &&& b.ws_url == Some(ws_url)
    &&& b.uid == Some(uid)
    &&& b.frontaddr == Some(frontaddr)
    &&& b.timestamp == ts
    &&& b.question_filter matches Some(f) && f@ == spec_question_filter(a.child_mode)
    &&& b.language == a.language
    &&& b.theme == a.theme
    &&& b.child_mode == a.child_mode
    &&& b.first_guess == a.first_guess
    &&& b.guesses == a.guesses
}

/// A field-for-field copy of an optional string.
fn clone_opt_string(o: &Option<String>) -> (r: Option<String>)
    ensures
        r == *o,
{
    match o {
        Some(s) => Some(s.clone()),
        None => None,
    }
}

/// A field-for-field copy of a guess list.
fn clone_guesses(v: &Vec<Guess>) -> (r: Vec<Guess>)
    ensures
        r@ == v@,
{
    let mut r: Vec<Guess> = Vec::new();
    let mut i: usize = 0;
    while i < v.len()
        invariant
            i <= v@.len(),
            r@.len() == i,
            forall|k: int| 0 <= k < i ==> r@[k] == v@[k],
        decreases v@.len() - i,
    {
        r.push(v[i].clone());
        i = i + 1;
    }
    proof {
        assert(r@ =~= v@);
    }
    r
}

impl Clone for Akinator {
    /// A clone carries exactly the same session state.
    fn clone(&self) -> (r: Self)
        ensures
            r.language == self.language,
            r.theme == self.theme,
            r.child_mode == self.child_mode,
            r.timestamp == self.timestamp,
            r.uri == self.uri,
            r.uid == self.uid,
            r.ws_url == self.ws_url,
            r.session == self.session,
            r.frontaddr == self.frontaddr,
            r.signature == self.signature,
            r.question_filter == self.question_filter,
            r.current_question == self.current_question,
            r.progression == self.progression,
            r.step == self.step,
            r.first_guess == self.first_guess,
            r.guesses@ == self.guesses@,
    {
        Akinator {
            language: self.language,
            theme: self.theme,
            child_mode: self.child_mode,
            timestamp: self.timestamp,
            uri: self.uri.clone(),
            uid: clone_opt_string(&self.uid),
            ws_url: clone_opt_string(&self.ws_url),
            session: self.session,
            frontaddr: clone_opt_string(&self.frontaddr),
            signature: self.signature,
            question_filter: clone_opt_string(&self.question_filter),
            current_question: clone_opt_string(&self.current_question),
            progression: self.progression,
            step: self.step,
            first_guess: match &self.first_guess {
                Some(g) => Some(g.clone()),
                None => None,
            },
            guesses: clone_guesses(&self.guesses),
        }
    }
}

/// How a flag travels in a query string.
fn bool_str(b: bool) -> (r: &'static str)
    ensures
        r@ == spec_bool_str(b),
{
    if b {
        "true"
    } else {
        "false"
    }
}

impl Akinator {
    /// A fresh, unstarted session with the default language and theme.
    pub fn new() -> (r: Akinator)
        ensures
            r.language == Language::English,
            r.theme == Theme::Characters,
            !r.child_mode,
            r.timestamp == 0,
            r.uri@ == "https://en.akinator.com"@,
            r.uid is None,
            r.ws_url is None,
            r.session is None,
            r.frontaddr is None,
            r.signature is None,
            r.question_filter is None,
            r.current_question is None,
            r.progression == (Decimal { mantissa: 0, scale: 1 }),
            r.step == 0,
            r.first_guess is None,
            r.guesses@.len() == 0,
    {
        Akinator {
            language: Language::English,
            theme: Theme::Characters,
            child_mode: false,
            timestamp: 0,
            uri: String::from_str("https://en.akinator.com"),
            uid: None,
            ws_url: None,
            session: None,
            frontaddr: None,
            signature: None,
            question_filter: None,
            current_question: None,
            progression: Decimal { mantissa: 0, scale: 1 },
            step: 0,
            first_guess: None,
            guesses: Vec::new(),
        }
    }

    /// Sets the theme for the game.
    pub fn with_theme(self, theme: Theme) -> (r: Self)
        ensures
            r == (Akinator { theme, ..self }),
    {
        Akinator { theme, ..self }
    }

    /// Sets the language for the game.
    pub fn with_language(self, language: Language) -> (r: Self)
        ensures
            r == (Akinator { language, ..self }),
    {
        Akinator { language, ..self }
    }

    /// Turns child mode on.
    pub fn with_child_mode(self) -> (r: Self)
        ensures
            r == (Akinator { child_mode: true, ..self }),
    {
        Akinator { child_mode: true, ..self }
    }

    /// Classifies a non-successful completion code.
    pub fn handle_error_response(completion: String) -> (r: Error)
        ensures
            r == spec_classify_completion(completion@),
    {
        let s = completion.as_str();
        if str_eq_ci(s, "KO - SERVER DOWN") {
            Error::ServersDown
        } else if str_eq_ci(s, "KO - TECHNICAL ERROR") {
            Error::TechnicalError
        } else if str_eq_ci(s, "KO - TIMEOUT") {
            Error::TimeoutError
        } else if str_eq_ci(s, "KO - ELEM LIST IS EMPTY") || str_eq_ci(s, "WARN - NO QUESTION") {
            Error::NoMoreQuestions
        } else {
            Error::ConnectionError
        }
    }

    /// The regional base URI of this session's language.
    pub fn base_uri(&self) -> (r: String)
        ensures
            r@ == spec_base_uri(self.language),
    {
        let mut r = String::from_str("https://");
        r.append(self.language.code());
        r.append(".akinator.com");
        r
    }

    /// The fixed game page holding the inline session variables.
    pub fn game_page_url() -> (r: String)
        ensures
            r@ == "https://en.akinator.com/game"@,
    {
        String::from_str("https://en.akinator.com/game")
    }

    /// The JSONP callback name for this session's nonce.
    fn callback_param(timestamp: u64) -> (r: String)
        ensures
            r@ == spec_callback(timestamp),
    {
        let mut r = String::from_str("jQuery331023608747682107778_");
        let digits = format_u64(timestamp);
        r.append(digits.as_str());
        r
    }

    /// The URL and query parameters of the session-creation request,
    /// built from the discovery results and the session nonce.
    pub fn start_request(&self, ws_url: &str, uid: &str, frontaddr: &str, timestamp: u64) -> (r: (
        String,
        Vec<(String, String)>,
    ))
        ensures
            r.0@ == spec_base_uri(self.language) + "/new_session"@,
            r.1@.len() == 10,
            pair_is(r.1@[0], "callback"@, spec_callback(timestamp)),
            pair_is(r.1@[1], "urlApiWs"@, ws_url@),
            pair_is(r.1@[2], "partner"@, "1"@),
            pair_is(r.1@[3], "childMod"@, spec_bool_str(self.child_mode)),
            pair_is(r.1@[4], "player"@, "website-desktop"@),
            pair_is(r.1@[5], "uid_ext_session"@, uid@),
            pair_is(r.1@[6], "frontaddr"@, frontaddr@),
            pair_is(r.1@[7], "constraint"@, "ETAT<>'AV'"@),
            pair_is(r.1@[8], "soft_constraint"@, spec_soft_constraint(self.child_mode)),
            pair_is(r.1@[9], "question_filter"@, spec_question_filter(self.child_mode)),
    {
        let mut url = self.base_uri();
        url.append("/new_session");
        let soft = if self.child_mode {
            "ETAT='EN'"
        } else {
            ""
        };
        let filter = if self.child_mode {
            "cat=1"
        } else {
            ""
        };
        let mut params: Vec<(String, String)> = Vec::new();
        params.push((String::from_str("callback"), Self::callback_param(timestamp)));
        params.push((String::from_str("urlApiWs"), String::from_str(ws_url)));
        params.push((String::from_str("partner"), String::from_str("1")));
        params.push((String::from_str("childMod"), String::from_str(bool_str(self.child_mode))));
        params.push((String::from_str("player"), String::from_str("website-desktop")));
        params.push((String::from_str("uid_ext_session"), String::from_str(uid)));
        params.push((String::from_str("frontaddr"), String::from_str(frontaddr)));
        params.push((String::from_str("constraint"), String::from_str("ETAT<>'AV'")));
        params.push((String::from_str("soft_constraint"), String::from_str(soft)));
        params.push((String::from_str("question_filter"), String::from_str(filter)));
        (url, params)
    }

    /// The URL and query parameters of an answer request.  Fails with
    /// [`Error::NoDataFound`] unless the identification fields of a
    /// successful `start` are all present.
    pub fn answer_request(&self, answer: Answer) -> (r: Result<
        (String, Vec<(String, String)>),
        Error,
    >)
        ensures
            ({
                &&& self.ws_url is Some
                &&& self.session is Some
                &&& self.signature is Some
                &&& self.frontaddr is Some
                &&& self.question_filter is Some
            }) ==> (r matches Ok(req) && req.0@ == self.uri@ + "/answer_api"@ && req.1@.len() == 9
                && pair_is(req.1@[0], "callback"@, spec_callback(self.timestamp)) && pair_is(
                req.1@[1],
                "urlApiWs"@,
                self.ws_url->0@,
            ) && pair_is(req.1@[2], "childMod"@, spec_bool_str(self.child_mode)) && pair_is(
                req.1@[3],
                "session"@,
                dec_digits(self.session->0 as nat),
            ) && pair_is(req.1@[4], "signature"@, dec_digits(self.signature->0 as nat)) && pair_is(
                req.1@[5],
                "frontaddr"@,
                self.frontaddr->0@,
            ) && pair_is(req.1@[6], "step"@, dec_digits(self.step as nat)) && pair_is(
                req.1@[7],
                "answer"@,
                dec_digits(spec_answer_code(answer) as nat),
            ) && pair_is(req.1@[8], "question_filter"@, self.question_filter->0@)),
            !({
                &&& self.ws_url is Some
                &&& self.session is Some
                &&& self.signature is Some
                &&& self.frontaddr is Some
                &&& self.question_filter is Some
            }) ==> r == Err::<(String, Vec<(String, String)>), Error>(Error::NoDataFound),
    {
        let ws_url = match &self.ws_url {
            Some(w) => w,
            None => {
                return Err(Error::NoDataFound);
            },
        };
        let session = match &self.session {
            Some(v) => *v,
            None => {
                return Err(Error::NoDataFound);
            },
        };
        let signature = match &self.signature {
            Some(v) => *v,
            None => {
                return Err(Error::NoDataFound);
            },
        };
        let frontaddr = match &self.frontaddr {
            Some(f) => f,
            None => {
                return Err(Error::NoDataFound);
            },
        };
        let filter = match &self.question_filter {
            Some(f) => f,
            None => {
                return Err(Error::NoDataFound);
            },
        };
        let mut url = self.uri.clone();
        url.append("/answer_api");
        let mut params: Vec<(String, String)> = Vec::new();
        params.push((String::from_str("callback"), Self::callback_param(self.timestamp)));
        params.push((String::from_str("urlApiWs"), ws_url.clone()));
        params.push((String::from_str("childMod"), String::from_str(bool_str(self.child_mode))));
        params.push((String::from_str("session"), format_u64(session)));
        params.push((String::from_str("signature"), format_u64(signature)));
        params.push((String::from_str("frontaddr"), frontaddr.clone()));
        params.push((String::from_str("step"), format_u64(self.step)));
        params.push((String::from_str("answer"), format_u64(answer.code() as u64)));
        params.push((String::from_str("question_filter"), filter.clone()));
        Ok((url, params))
    }

    /// The URL and query parameters of an undo request.  Fails with
    /// [`Error::CantGoBackAnyFurther`] while on the first question,
    /// before anything else is considered, so no round trip is owed;
    /// otherwise fails with [`Error::NoDataFound`] unless the
    /// identification fields are all present.
    pub fn back_request(&self) -> (r: Result<(String, Vec<(String, String)>), Error>)
        ensures
            self.step == 0 ==> r == Err::<(String, Vec<(String, String)>), Error>(
                Error::CantGoBackAnyFurther,
            ),
            self.step != 0 && !({
                &&& self.ws_url is Some
                &&& self.session is Some
                &&& self.signature is Some
                &&& self.question_filter is Some
            }) ==> r == Err::<(String, Vec<(String, String)>), Error>(Error::NoDataFound),
            self.step != 0 && ({
                &&& self.ws_url is Some
                &&& self.session is Some
                &&& self.signature is Some
                &&& self.question_filter is Some
            }) ==> (r matches Ok(req) && req.0@ == self.ws_url->0@ + "/cancel_answer"@
                && req.1@.len() == 7 && pair_is(req.1@[0], "callback"@, spec_callback(self.timestamp))
                && pair_is(req.1@[1], "childMod"@, spec_bool_str(self.child_mode)) && pair_is(
                req.1@[2],
                "session"@,
                dec_digits(self.session->0 as nat),
            ) && pair_is(req.1@[3], "signature"@, dec_digits(self.signature->0 as nat)) && pair_is(
                req.1@[4],
                "step"@,
                dec_digits(self.step as nat),
            ) && pair_is(req.1@[5], "answer"@, "-1"@) && pair_is(
                req.1@[6],
                "question_filter"@,
                self.question_filter->0@,
            )),
    {
        if self.step == 0 {
            return Err(Error::CantGoBackAnyFurther);
        }
        let ws_url = match &self.ws_url {
            Some(w) => w,
            None => {
                return Err(Error::NoDataFound);
            },
        };
        let session = match &self.session {
            Some(v) => *v,
            None => {
                return Err(Error::NoDataFound);
            },
        };
        let signature = match &self.signature {
            Some(v) => *v,
            None => {
                return Err(Error::NoDataFound);
            },
        };
        let filter = match &self.question_filter {
            Some(f) => f,
            None => {
                return Err(Error::NoDataFound);
            },
        };
        let mut url = ws_url.clone();
        url.append("/cancel_answer");
        let mut params: Vec<(String, String)> = Vec::new();
        params.push((String::from_str("callback"), Self::callback_param(self.timestamp)));
        params.push((String::from_str("childMod"), String::from_str(bool_str(self.child_mode))));
        params.push((String::from_str("session"), format_u64(session)));
        params.push((String::from_str("signature"), format_u64(signature)));
        params.push((String::from_str("step"), format_u64(self.step)));
        params.push((String::from_str("answer"), String::from_str("-1")));
        params.push((String::from_str("question_filter"), filter.clone()));
        Ok((url, params))
    }

    /// The URL and query parameters of the finalisation request.  Fails
    /// with [`Error::NoDataFound`] unless the identification fields are
    /// all present.
    pub fn win_request(&self) -> (r: Result<(String, Vec<(String, String)>), Error>)
        ensures
            ({
                &&& self.ws_url is Some
                &&& self.session is Some
                &&& self.signature is Some
            }) ==> (r matches Ok(req) && req.0@ == self.ws_url->0@ + "/list"@ && req.1@.len() == 5
                && pair_is(req.1@[0], "callback"@, spec_callback(self.timestamp)) && pair_is(
                req.1@[1],
                "childMod"@,
                spec_bool_str(self.child_mode),
            ) && pair_is(req.1@[2], "session"@, dec_digits(self.session->0 as nat)) && pair_is(
                req.1@[3],
                "signature"@,
                dec_digits(self.signature->0 as nat),
            ) && pair_is(req.1@[4], "step"@, dec_digits(self.step as nat))),
            !({
                &&& self.ws_url is Some
                &&& self.session is Some
                &&& self.signature is Some
            }) ==> r == Err::<(String, Vec<(String, String)>), Error>(Error::NoDataFound),
    {
        let session = match &self.session {
            Some(v) => *v,
            None => {
                return Err(Error::NoDataFound);
            },
        };
        let signature = match &self.signature {
            Some(v) => *v,
            None => {
                return Err(Error::NoDataFound);
            },
        };
        let ws_url = match &self.ws_url {
            Some(w) => w,
            None => {
                return Err(Error::NoDataFound);
            },
        };
        let mut url = ws_url.clone();
        url.append("/list");
        let mut params: Vec<(String, String)> = Vec::new();
        params.push((String::from_str("callback"), Self::callback_param(self.timestamp)));
        params.push((String::from_str("childMod"), String::from_str(bool_str(self.child_mode))));
        params.push((String::from_str("session"), format_u64(session)));
        params.push((String::from_str("signature"), format_u64(signature)));
        params.push((String::from_str("step"), format_u64(self.step)));
        Ok((url, params))
    }

    /// Decodes and commits the fields of an accepted session-creation
    /// response.  Either every field decodes and they are all stored
    /// together, or the session is left exactly as it was.
    pub fn update_start_info(&mut self, json: &StartJson) -> (r: Result<(), UpdateInfoError>)
        ensures
            match json.parameters {
                None => r == Err::<(), UpdateInfoError>(UpdateInfoError::MissingData) && *final(self)
                    == *old(self),
                Some(p) => match start_fields_error(p) {
                    Some(e) => r == Err::<(), UpdateInfoError>(e) && *final(self) == *old(self),
                    None => r == Ok::<(), UpdateInfoError>(()) && spec_start_updated(
                        *old(self),
                        *final(self),
                        p,
                    ),
                },
            },
    {
        match &json.parameters {
            None => Err(UpdateInfoError::MissingData),
            Some(p) => {
                let session = match parse_u64(p.identification.session.as_str()) {
                    Some(v) => v,
                    None => {
                        return Err(UpdateInfoError::ParseIntError);
                    },
                };
                let signature = match parse_u64(p.identification.signature.as_str()) {
                    Some(v) => v,
                    None => {
                        return Err(UpdateInfoError::ParseIntError);
                    },
                };
                let progression = match parse_decimal(p.step_information.progression.as_str()) {
                    Some(d) => d,
                    None => {
                        return Err(UpdateInfoError::ParseFloatError);
                    },
                };
                let step = match parse_u64(p.step_information.step.as_str()) {
                    Some(v) => v,
                    None => {
                        return Err(UpdateInfoError::ParseIntError);
                    },
                };
                self.session = Some(session);
                self.signature = Some(signature);
                self.current_question = Some(p.step_information.question.clone());
                self.progression = progression;
                self.step = step;
                Ok(())
            },
        }
    }

    /// Decodes and commits the fields of an accepted answer or undo
    /// response.  Either every field decodes and they are all stored
    /// together, or the session is left exactly as it was.
    pub fn update_move_info(&mut self, json: MoveJson) -> (r: Result<(), UpdateInfoError>)
        ensures
            match json.parameters {
                None => r == Err::<(), UpdateInfoError>(UpdateInfoError::MissingData) && *final(self)
                    == *old(self),
                Some(p) => match move_fields_error(p) {
                    Some(e) => r == Err::<(), UpdateInfoError>(e) && *final(self) == *old(self),
                    None => r == Ok::<(), UpdateInfoError>(()) && spec_move_updated(
                        *old(self),
                        *final(self),
                        p,
                    ),
                },
            },
    {
        match json.parameters {
            None => Err(UpdateInfoError::MissingData),
            Some(p) => {
                let progression = match parse_decimal(p.progression.as_str()) {
                    Some(d) => d,
                    None => {
                        return Err(UpdateInfoError::ParseFloatError);
                    },
                };
                let step = match parse_u64(p.step.as_str()) {
                    Some(v) => v,
                    None => {
                        return Err(UpdateInfoError::ParseIntError);
                    },
                };
                self.current_question = Some(p.question);
                self.progression = progression;
                self.step = step;
                Ok(())
            },
        }
    }

    /// Applies a decoded session-creation response.  On the successful
    /// completion code the identification and play fields are committed
    /// atomically together with the discovery results, and the first
    /// question is returned; on any other completion code, or on a
    /// decode failure, the session is left exactly as it was.
    pub fn apply_start_response(
        &mut self,
        ws_url: String,
        uid: String,
        frontaddr: String,
        timestamp: u64,
        json: StartJson,
    ) -> (r: Result<Option<String>, Error>)
        ensures
            json.completion@ != "OK"@ ==> *final(self) == *old(self) && r == Err::<
                Option<String>,
                Error,
            >(spec_classify_completion(json.completion@)),
            json.completion@ == "OK"@ ==> match json.parameters {
                None => *final(self) == *old(self) && r == Err::<Option<String>, Error>(
                    Error::UpdateInfoError(UpdateInfoError::MissingData),
                ),
                Some(p) => match start_fields_error(p) {
                    Some(e) => *final(self) == *old(self) && r == Err::<Option<String>, Error>(
                        Error::UpdateInfoError(e),
                    ),
                    None => spec_start_committed(
                        *old(self),
                        *final(self),
                        ws_url,
                        uid,
                        frontaddr,
                        timestamp,
                        p,
                    ) && r == Ok::<Option<String>, Error>(Some(p.step_information.question)),
                },
            },
    {
        if !str_eq(json.completion.as_str(), "OK") {
            return Err(Self::handle_error_response(json.completion));
        }
        let uri = self.base_uri();
        let filter = if self.child_mode {
            "cat=1"
        } else {
            ""
        };
        match self.update_start_info(&json) {
            Err(e) => Err(Error::UpdateInfoError(e)),
            Ok(()) => {
                self.uri = uri;
                self.ws_url = Some(ws_url);
                self.uid = Some(uid);
                self.frontaddr = Some(frontaddr);
                self.timestamp = timestamp;
                self.question_filter = Some(String::from_str(filter));
                match &self.current_question {
                    Some(q) => Ok(Some(q.clone())),
                    None => Ok(None),
                }
            },
        }
    }

    /// Applies a decoded answer or undo response.  On the successful
    /// completion code the play fields are set exactly to the
    /// server-provided values and the next question is returned; on any
    /// other completion code, or on a decode failure, the session is
    /// left exactly as it was.
    pub fn apply_move_response(&mut self, json: MoveJson) -> (r: Result<Option<String>, Error>)
        ensures
            json.completion@ != "OK"@ ==> *final(self) == *old(self) && r == Err::<
                Option<String>,
                Error,
            >(spec_classify_completion(json.completion@)),
            json.completion@ == "OK"@ ==> match json.parameters {
                None => *final(self) == *old(self) && r == Err::<Option<String>, Error>(
                    Error::UpdateInfoError(UpdateInfoError::MissingData),
                ),
                Some(p) => match move_fields_error(p) {
                    Some(e) => *final(self) == *old(self) && r == Err::<Option<String>, Error>(
                        Error::UpdateInfoError(e),
                    ),
                    None => spec_move_updated(*old(self), *final(self), p) && r == Ok::<
                        Option<String>,
                        Error,
                    >(Some(p.question)),
                },
            },
    {
        if !str_eq(json.completion.as_str(), "OK") {
            return Err(Self::handle_error_response(json.completion));
        }
        match self.update_move_info(json) {
            Err(e) => Err(Error::UpdateInfoError(e)),
            Ok(()) => {
                match &self.current_question {
                    Some(q) => Ok(Some(q.clone())),
                    None => Ok(None),
                }
            },
        }
    }

    /// Applies a decoded finalisation response.  On the successful
    /// completion code the guesses are stored in the server's ranking
    /// order, the first one becomes the best guess and is returned; a
    /// successful code without a parameters block is a malformed
    /// response and leaves the session, guesses included, exactly as it
    /// was.
    pub fn apply_win_response(&mut self, json: WinJson) -> (r: Result<Option<Guess>, Error>)
        ensures
            json.completion@ != "OK"@ ==> *final(self) == *old(self) && r == Err::<
                Option<Guess>,
                Error,
            >(spec_classify_completion(json.completion@)),
            json.completion@ == "OK"@ ==> match json.parameters {
                None => *final(self) == *old(self) && r == Err::<Option<Guess>, Error>(
                    Error::UpdateInfoError(UpdateInfoError::MissingData),
                ),
                Some(w) => {
                    &&& final(self).guesses@ == w.elements@.map_values(
                        |e: crate::models::WinElement| e.element,
                    )
                    &&& final(self).first_guess == (if w.elements@.len() > 0 {
                        Some(w.elements@[0].element)
                    } else {
                        None::<Guess>
                    })
                    &&& r == Ok::<Option<Guess>, Error>(final(self).first_guess)
                    &&& final(self).language == old(self).language
                    &&& final(self).theme == old(self).theme
                    &&& final(self).child_mode == old(self).child_mode
                    &&& final(self).timestamp == old(self).timestamp
                    &&& final(self).uri == old(self).uri
                    &&& final(self).uid == old(self).uid
                    &&& final(self).ws_url == old(self).ws_url
                    &&& final(self).session == old(self).session
                    &&& final(self).frontaddr == old(self).frontaddr
                    &&& final(self).signature == old(self).signature
                    &&& final(self).question_filter == old(self).question_filter
                    &&& final(self).current_question == old(self).current_question
                    &&& final(self).progression == old(self).progression
                    &&& final(self).step == old(self).step
                },
            },
    {
        if !str_eq(json.completion.as_str(), "OK") {
            return Err(Self::handle_error_response(json.completion));
        }
        match json.parameters {
            None => Err(Error::UpdateInfoError(UpdateInfoError::MissingData)),
            Some(w) => {
                let elements = w.elements;
                let mut guesses: Vec<Guess> = Vec::new();
                let mut i: usize = 0;
                while i < elements.len()
                    invariant
                        i <= elements@.len(),
                        guesses@.len() == i,
                        forall|k: int| 0 <= k < i ==> guesses@[k] == elements@[k].element,
                    decreases elements@.len() - i,
                {
                    guesses.push(elements[i].element.clone());
                    i = i + 1;
                }
                proof {
                    assert(guesses@ =~= elements@.map_values(
                        |e: crate::models::WinElement| e.element,
                    ));
                }
                self.guesses = guesses;
                self.first_guess = if self.guesses.len() > 0 {
                    Some(self.guesses[0].clone())
                } else {
                    None
                };
                match &self.first_guess {
                    Some(g) => Ok(Some(g.clone())),
                    None => Ok(None),
                }
            },
        }
    }
}

} // verus!
