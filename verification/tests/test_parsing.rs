//! The envelope stripper, the decimal codecs and the word conversions.

use akinator_rs::enums::{
    Answer, Language, Theme, theme_from_string, try_answer_from_string, try_lang_from_string,
};
use akinator_rs::error::Error;
use akinator_rs::jsonp::parse_response;
use akinator_rs::numbers::{Decimal, format_u64, parse_decimal, parse_u64};

#[test]
fn jsonp_envelope_is_stripped() {
    let r = parse_response("jQuery123_456({\"completion\":\"OK\"})".to_string());
    assert_eq!(r, "{\"completion\":\"OK\"}");
}

#[test]
fn jsonp_envelope_digits_vary_per_call() {
    let r = parse_response("jQuery331023608747682107778_1660000000({\"a\":1})".to_string());
    assert_eq!(r, "{\"a\":1}");
    let r = parse_response("JQUERY9_8(x)".to_string());
    assert_eq!(r, "x");
}

#[test]
fn jsonp_empty_payload_is_allowed() {
    assert_eq!(parse_response("jQuery1_2()".to_string()), "");
}

#[test]
fn body_without_wrapper_passes_through() {
    assert_eq!(parse_response("{\"completion\":\"OK\"}".to_string()), "{\"completion\":\"OK\"}");
    assert_eq!(parse_response("".to_string()), "");
    assert_eq!(parse_response("plain text)".to_string()), "plain text)");
}

#[test]
fn wrapper_without_closing_parenthesis_passes_through() {
    assert_eq!(parse_response("jQuery1_2({\"a\":1}".to_string()), "jQuery1_2({\"a\":1}");
}

#[test]
fn wrapper_missing_digits_passes_through() {
    assert_eq!(parse_response("jQuery_2(x)".to_string()), "jQuery_2(x)");
    assert_eq!(parse_response("jQuery1_(x)".to_string()), "jQuery1_(x)");
}

#[test]
fn format_renders_decimal_digits() {
    assert_eq!(format_u64(0), "0");
    assert_eq!(format_u64(7), "7");
    assert_eq!(format_u64(12345), "12345");
    assert_eq!(format_u64(u64::MAX), "18446744073709551615");
}

#[test]
fn parse_u64_accepts_digit_strings() {
    assert_eq!(parse_u64("0"), Some(0));
    assert_eq!(parse_u64("00123"), Some(123));
    assert_eq!(parse_u64("18446744073709551615"), Some(u64::MAX));
}

#[test]
fn parse_u64_rejects_everything_else() {
    assert_eq!(parse_u64(""), None);
    assert_eq!(parse_u64("12a"), None);
    assert_eq!(parse_u64("-5"), None);
    assert_eq!(parse_u64("18446744073709551616"), None);
}

#[test]
fn parse_decimal_reads_fractions() {
    assert_eq!(parse_decimal("0.0"), Some(Decimal { mantissa: 0, scale: 1 }));
    assert_eq!(parse_decimal("12.5"), Some(Decimal { mantissa: 125, scale: 1 }));
    assert_eq!(parse_decimal("99.99"), Some(Decimal { mantissa: 9999, scale: 2 }));
    assert_eq!(parse_decimal("80"), Some(Decimal { mantissa: 80, scale: 0 }));
}

#[test]
fn parse_decimal_rejects_malformed_text() {
    assert_eq!(parse_decimal(""), None);
    assert_eq!(parse_decimal("."), None);
    assert_eq!(parse_decimal(".5"), None);
    assert_eq!(parse_decimal("12."), None);
    assert_eq!(parse_decimal("1e5"), None);
    assert_eq!(parse_decimal("1.2.3"), None);
    assert_eq!(parse_decimal("-1.0"), None);
}

#[test]
fn answers_round_trip_through_their_codes() {
    let all = [Answer::Yes, Answer::No, Answer::Idk, Answer::Probably, Answer::ProbablyNot];
    for (i, a) in all.iter().enumerate() {
        assert_eq!(a.code() as usize, i);
        assert_eq!(Answer::from_code(a.code()), Some(*a));
    }
    assert_eq!(Answer::from_code(5), None);
}

#[test]
fn themes_carry_the_documented_subject_ids() {
    assert_eq!(Theme::Characters.code(), 1);
    assert_eq!(Theme::Objects.code(), 2);
    assert_eq!(Theme::Animals.code(), 14);
}

#[test]
fn answer_words_are_trimmed_and_case_folded() {
    assert_eq!(try_answer_from_string("yes".to_string()), Ok(Answer::Yes));
    assert_eq!(try_answer_from_string(" Y ".to_string()), Ok(Answer::Yes));
    assert_eq!(try_answer_from_string("0".to_string()), Ok(Answer::Yes));
    assert_eq!(try_answer_from_string("No".to_string()), Ok(Answer::No));
    assert_eq!(try_answer_from_string("n".to_string()), Ok(Answer::No));
    assert_eq!(try_answer_from_string("i don't know".to_string()), Ok(Answer::Idk));
    assert_eq!(try_answer_from_string("IDK".to_string()), Ok(Answer::Idk));
    assert_eq!(try_answer_from_string("probably".to_string()), Ok(Answer::Probably));
    assert_eq!(try_answer_from_string("probably not".to_string()), Ok(Answer::ProbablyNot));
    assert_eq!(try_answer_from_string("pn".to_string()), Ok(Answer::ProbablyNot));
    assert_eq!(try_answer_from_string("maybe".to_string()), Err(Error::InvalidAnswer));
    assert_eq!(try_answer_from_string("".to_string()), Err(Error::InvalidAnswer));
}

#[test]
fn theme_words_fall_back_to_characters() {
    assert_eq!(theme_from_string("animals".to_string()), Theme::Animals);
    assert_eq!(theme_from_string(" A ".to_string()), Theme::Animals);
    assert_eq!(theme_from_string("Objects".to_string()), Theme::Objects);
    assert_eq!(theme_from_string("o".to_string()), Theme::Objects);
    assert_eq!(theme_from_string("characters".to_string()), Theme::Characters);
    assert_eq!(theme_from_string("anything else".to_string()), Theme::Characters);
}

#[test]
fn language_words_cover_names_and_codes() {
    assert_eq!(try_lang_from_string("english".to_string()), Ok(Language::English));
    assert_eq!(try_lang_from_string("EN".to_string()), Ok(Language::English));
    assert_eq!(try_lang_from_string("german".to_string()), Ok(Language::German));
    assert_eq!(try_lang_from_string("de".to_string()), Ok(Language::German));
    assert_eq!(try_lang_from_string(" ru ".to_string()), Ok(Language::Russian));
    assert_eq!(try_lang_from_string("klingon".to_string()), Err(Error::InvalidLanguage));
}

#[test]
fn words_parse_through_from_str() {
    assert_eq!("yes".parse::<Answer>(), Ok(Answer::Yes));
    assert_eq!("back".parse::<Answer>(), Err(Error::InvalidAnswer));
    assert_eq!("a".parse::<Theme>(), Ok(Theme::Animals));
    assert_eq!("jp".parse::<Language>(), Ok(Language::Japanese));
}

#[test]
fn language_codes_build_the_regional_uris() {
    assert_eq!(Language::English.code(), "en");
    assert_eq!(Language::Japanese.code(), "jp");
    assert_eq!(Language::Hebrew.code(), "il");
    let aki = akinator_rs::Akinator::new().with_language(Language::French);
    assert_eq!(aki.base_uri(), "https://fr.akinator.com");
}
