//! The answers, themes and languages a session can be played with,
//! together with their wire encodings and the word forms accepted from
//! users.

use vstd::prelude::*;

use crate::error::Error;
use crate::text::keyword_match;
use crate::text::matches_keyword;

verus! {

/// A player's reply to the current question.
#[derive(Clone, Copy, Debug, PartialEq, Eq, Structural)]
pub enum Answer {
    Yes,
    No,
    Idk,
    Probably,
    ProbablyNot,
}

/// The subject domain of a game, fixed at session creation.
#[derive(Clone, Copy, Debug, PartialEq, Eq, Structural)]
pub enum Theme {
    Characters,
    Animals,
    Objects,
}

/// The regional language of a game, which selects the base URI.
#[derive(Clone, Copy, Debug, PartialEq, Eq, Structural)]
pub enum Language {
    English,
    Arabic,
    Chinese,
    German,
    Spanish,
    French,
    Hebrew,
    Italian,
    Japanese,
    Korean,
    Dutch,
    Polish,
    Portugese,
    Russian,
    Turkish,
    Indonesian,
}

/// The wire encoding of an answer: the integers 0 to 4.
pub open spec fn spec_answer_code(a: Answer) -> u8 {
    match a {
        Answer::Yes => 0,
        Answer::No => 1,
        Answer::Idk => 2,
        Answer::Probably => 3,
        Answer::ProbablyNot => 4,
    }
}

/// The answer a wire code denotes, if any.
pub open spec fn spec_answer_from_code(c: u8) -> Option<Answer> {
    if c == 0 {
        Some(Answer::Yes)
    } else if c == 1 {
        Some(Answer::No)
    } else if c == 2 {
        Some(Answer::Idk)
    } else if c == 3 {
        Some(Answer::Probably)
    } else if c == 4 {
        Some(Answer::ProbablyNot)
    } else {
        None
    }
}

/// Law: every answer's code lies in 0..=4 and decodes back to the same
/// answer.
pub proof fn lemma_answer_code_roundtrip(a: Answer)
    ensures
        spec_answer_code(a) <= 4,
        spec_answer_from_code(spec_answer_code(a)) == Some(a),
{
}

/// Law: every code in 0..=4 decodes to an answer that encodes back to
/// the same code.
pub proof fn lemma_answer_code_complete(c: u8)
    requires
        c <= 4,
    ensures
        spec_answer_from_code(c) is Some,
        spec_answer_code(spec_answer_from_code(c)->0) == c,
{
}

/// The wire encoding of a theme: the subject id the service uses.
pub open spec fn spec_theme_code(t: Theme) -> u64 {
    match t {
        Theme::Characters => 1,
        Theme::Animals => 14,
        Theme::Objects => 2,
    }
}

impl Answer {
    /// The integer this answer travels as.
    pub fn code(&self) -> (r: u8)
        ensures
            r == spec_answer_code(*self),
    {
        match self {
            Answer::Yes => 0,
            Answer::No => 1,
            Answer::Idk => 2,
            Answer::Probably => 3,
            Answer::ProbablyNot => 4,
        }
    }

    /// The answer a wire code denotes, if any.
    pub fn from_code(c: u8) -> (r: Option<Answer>)
        ensures
            r == spec_answer_from_code(c),
    {
        match c {
            0 => Some(Answer::Yes),
            1 => Some(Answer::No),
            2 => Some(Answer::Idk),
            3 => Some(Answer::Probably),
            4 => Some(Answer::ProbablyNot),
            _ => None,
        }
    }
}

impl Theme {
    /// The subject id this theme travels as.
    pub fn code(&self) -> (r: u64)
        ensures
            r == spec_theme_code(*self),
    {
        match self {
            Theme::Characters => 1,
            Theme::Animals => 14,
            Theme::Objects => 2,
        }
    }
}

/// The two-letter code of a language, as it appears in the regional
/// host name.
pub open spec fn spec_language_code(l: Language) -> Seq<char> {
    match l {
        Language::English => "en"@,
        Language::Arabic => "ar"@,
        Language::Chinese => "cn"@,
        Language::German => "de"@,
        Language::Spanish => "es"@,
        Language::French => "fr"@,
        Language::Hebrew => "il"@,
        Language::Italian => "it"@,
        Language::Japanese => "jp"@,
        Language::Korean => "kr"@,
        Language::Dutch => "nl"@,
        Language::Polish => "pl"@,
        Language::Portugese => "pt"@,
        Language::Russian => "ru"@,
        Language::Turkish => "tr"@,
        Language::Indonesian => "id"@,
    }
}

impl Language {
    /// The two-letter code of this language.
    pub fn code(&self) -> (r: &'static str)
        ensures
            r@ == spec_language_code(*self),
    {
        match self {
            Language::English => "en",
            Language::Arabic => "ar",
            Language::Chinese => "cn",
            Language::German => "de",
            Language::Spanish => "es",
            Language::French => "fr",
            Language::Hebrew => "il",
            Language::Italian => "it",
            Language::Japanese => "jp",
            Language::Korean => "kr",
            Language::Dutch => "nl",
            Language::Polish => "pl",
            Language::Portugese => "pt",
            Language::Russian => "ru",
            Language::Turkish => "tr",
            Language::Indonesian => "id",
        }
    }
}

impl Default for Theme {
    /// The default theme.
    fn default() -> (r: Self)
        ensures
            r == Theme::Characters,
    {
        Theme::Characters
    }
}

impl Default for Language {
    /// The default language.
    fn default() -> (r: Self)
        ensures
            r == Language::English,
    {
        Language::English
    }
}

/// The answer a user-supplied word denotes: the word is trimmed and
/// compared to the accepted forms ignoring ASCII case.
pub open spec fn spec_answer_of(s: Seq<char>) -> Option<Answer> {
    if keyword_match(s, "yes"@) || keyword_match(s, "y"@) || keyword_match(s, "0"@) {
        Some(Answer::Yes)
    } else if keyword_match(s, "no"@) || keyword_match(s, "n"@) || keyword_match(s, "1"@) {
        Some(Answer::No)
    } else if keyword_match(s, "i dont know"@) || keyword_match(s, "i don't know"@)
        || keyword_match(s, "idk"@) || keyword_match(s, "i"@) || keyword_match(s, "2"@) {
        Some(Answer::Idk)
    } else if keyword_match(s, "probably"@) || keyword_match(s, "p"@) || keyword_match(s, "3"@) {
        Some(Answer::Probably)
    } else if keyword_match(s, "probably not"@) || keyword_match(s, "pn"@) || keyword_match(
        s,
        "4"@,
    ) {
        Some(Answer::ProbablyNot)
    } else {
        None
    }
}

/// Reads a user-supplied word as an answer.
pub fn try_answer_from_string(ans: String) -> (r: Result<Answer, Error>)
    ensures
        match spec_answer_of(ans@) {
            Some(a) => r == Ok::<Answer, Error>(a),
            None => r == Err::<Answer, Error>(Error::InvalidAnswer),
        },
{
    let s = ans.as_str();
    if matches_keyword(s, "yes") || matches_keyword(s, "y") || matches_keyword(s, "0") {
        Ok(Answer::Yes)
    } else if matches_keyword(s, "no") || matches_keyword(s, "n") || matches_keyword(s, "1") {
        Ok(Answer::No)
    } else if matches_keyword(s, "i dont know") || matches_keyword(s, "i don't know")
        || matches_keyword(s, "idk") || matches_keyword(s, "i") || matches_keyword(s, "2") {
        Ok(Answer::Idk)
    } else if matches_keyword(s, "probably") || matches_keyword(s, "p") || matches_keyword(
        s,
        "3",
    ) {
        Ok(Answer::Probably)
    } else if matches_keyword(s, "probably not") || matches_keyword(s, "pn") || matches_keyword(
        s,
        "4",
    ) {
        Ok(Answer::ProbablyNot)
    } else {
        Err(Error::InvalidAnswer)
    }
}

/// The theme a user-supplied word denotes; anything unrecognised falls
/// back to the default theme.
pub open spec fn spec_theme_of(s: Seq<char>) -> Theme {
    if keyword_match(s, "a"@) || keyword_match(s, "animals"@) {
        Theme::Animals
    } else if keyword_match(s, "o"@) || keyword_match(s, "objects"@) {
        Theme::Objects
    } else {
        Theme::Characters
    }
}

/// Reads a user-supplied word as a theme.
pub fn theme_from_string(theme: String) -> (r: Theme)
    ensures
        r == spec_theme_of(theme@),
{
    let s = theme.as_str();
    if matches_keyword(s, "a") || matches_keyword(s, "animals") {
        Theme::Animals
    } else if matches_keyword(s, "o") || matches_keyword(s, "objects") {
        Theme::Objects
    } else {
        Theme::Characters
    }
}

/// The language a user-supplied word denotes, by full name or
/// two-letter code.
pub open spec fn spec_language_of(s: Seq<char>) -> Option<Language> {
    if keyword_match(s, "english"@) || keyword_match(s, "en"@) {
        Some(Language::English)
    } else if keyword_match(s, "arabic"@) || keyword_match(s, "ar"@) {
        Some(Language::Arabic)
    } else if keyword_match(s, "chinese"@) || keyword_match(s, "cn"@) {
        Some(Language::Chinese)
    } else if keyword_match(s, "spanish"@) || keyword_match(s, "es"@) {
        Some(Language::Spanish)
    } else if keyword_match(s, "french"@) || keyword_match(s, "fr"@) {
        Some(Language::French)
    } else if keyword_match(s, "hebrew"@) || keyword_match(s, "il"@) {
        Some(Language::Hebrew)
    } else if keyword_match(s, "italian"@) || keyword_match(s, "it"@) {
        Some(Language::Italian)
    } else if keyword_match(s, "japanese"@) || keyword_match(s, "jp"@) {
        Some(Language::Japanese)
    } else if keyword_match(s, "korean"@) || keyword_match(s, "kr"@) {
        Some(Language::Korean)
    } else if keyword_match(s, "dutch"@) || keyword_match(s, "nl"@) {
        Some(Language::Dutch)
    } else if keyword_match(s, "polish"@) || keyword_match(s, "pl"@) {
        Some(Language::Polish)
    } else if keyword_match(s, "portugese"@) || keyword_match(s, "pt"@) {
        Some(Language::Portugese)
    } else if keyword_match(s, "russian"@) || keyword_match(s, "ru"@) {
        Some(Language::Russian)
    } else if keyword_match(s, "turkish"@) || keyword_match(s, "tr"@) {
        Some(Language::Turkish)
    } else if keyword_match(s, "indonesian"@) || keyword_match(s, "id"@) {
        Some(Language::Indonesian)
    } else if keyword_match(s, "german"@) || keyword_match(s, "de"@) {
        Some(Language::German)
    } else {
        None
    }
}

/// Reads a user-supplied word as a language.
pub fn try_lang_from_string(lang: String) -> (r: Result<Language, Error>)
    ensures
        match spec_language_of(lang@) {
            Some(l) => r == Ok::<Language, Error>(l),
            None => r == Err::<Language, Error>(Error::InvalidLanguage),
        },
{
    let s = lang.as_str();
    if matches_keyword(s, "english") || matches_keyword(s, "en") {
        Ok(Language::English)
    } else if matches_keyword(s, "arabic") || matches_keyword(s, "ar") {
        Ok(Language::Arabic)
    } else if matches_keyword(s, "chinese") || matches_keyword(s, "cn") {
        Ok(Language::Chinese)
    } else if matches_keyword(s, "spanish") || matches_keyword(s, "es") {
        Ok(Language::Spanish)
    } else if matches_keyword(s, "french") || matches_keyword(s, "fr") {
        Ok(Language::French)
    } else if matches_keyword(s, "hebrew") || matches_keyword(s, "il") {
        Ok(Language::Hebrew)
    } else if matches_keyword(s, "italian") || matches_keyword(s, "it") {
        Ok(Language::Italian)
    } else if matches_keyword(s, "japanese") || matches_keyword(s, "jp") {
        Ok(Language::Japanese)
    } else if matches_keyword(s, "korean") || matches_keyword(s, "kr") {
        Ok(Language::Korean)
    } else if matches_keyword(s, "dutch") || matches_keyword(s, "nl") {
        Ok(Language::Dutch)
    } else if matches_keyword(s, "polish") || matches_keyword(s, "pl") {
        Ok(Language::Polish)
    } else if matches_keyword(s, "portugese") || matches_keyword(s, "pt") {
        Ok(Language::Portugese)
    } else if matches_keyword(s, "russian") || matches_keyword(s, "ru") {
        Ok(Language::Russian)
    } else if matches_keyword(s, "turkish") || matches_keyword(s, "tr") {
        Ok(Language::Turkish)
    } else if matches_keyword(s, "indonesian") || matches_keyword(s, "id") {
        Ok(Language::Indonesian)
    } else if matches_keyword(s, "german") || matches_keyword(s, "de") {
        Ok(Language::German)
    } else {
        Err(Error::InvalidLanguage)
    }
}

impl core::str::FromStr for Answer {
    type Err = Error;

    /// Reads an answer word, as [`try_answer_from_string`] does.
    fn from_str(s: &str) -> Result<Answer, Error> {
        try_answer_from_string(s.to_owned())
    }
}

impl core::str::FromStr for Theme {
    type Err = Error;

    /// Reads a theme word, as [`theme_from_string`] does.
    fn from_str(s: &str) -> Result<Theme, Error> {
        Ok(theme_from_string(s.to_owned()))
    }
}

impl core::str::FromStr for Language {
    type Err = Error;

    /// Reads a language word, as [`try_lang_from_string`] does.
    fn from_str(s: &str) -> Result<Language, Error> {
        try_lang_from_string(s.to_owned())
    }
}

} // verus!
