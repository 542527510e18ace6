//! The session state machine: request building, response application,
//! atomicity on failure, and the full mocked game scenario.

use akinator_rs::Akinator;
use akinator_rs::enums::{Answer, Theme};
use akinator_rs::error::{Error, UpdateInfoError};
use akinator_rs::models::{
    Guess, IdentJson, MoveJson, ParametersJson, StartJson, StepInfo, WinElement, WinJson,
    WinParams,
};
use akinator_rs::numbers::Decimal;

fn start_json(completion: &str, session: &str, signature: &str, step: &str, question: &str, progression: &str) -> StartJson {
    StartJson {
        completion: completion.to_string(),
        parameters: Some(ParametersJson {
            identification: IdentJson {
                session: session.to_string(),
                signature: signature.to_string(),
            },
            step_information: StepInfo {
                step: step.to_string(),
                question: question.to_string(),
                progression: progression.to_string(),
            },
        }),
    }
}

fn move_json(completion: &str, step: &str, question: &str, progression: &str) -> MoveJson {
    MoveJson {
        completion: completion.to_string(),
        parameters: Some(StepInfo {
            step: step.to_string(),
            question: question.to_string(),
            progression: progression.to_string(),
        }),
    }
}

fn started_session() -> Akinator {
    let mut aki = Akinator::new().with_theme(Theme::Objects).with_child_mode();
    let json = start_json("OK", "501", "123456789", "0", "Is your character real?", "0.0");
    let first = aki
        .apply_start_response(
            "https://srv2.akinator.com:9161/ws".to_string(),
            "uid-ext".to_string(),
            "front-addr".to_string(),
            1234,
            json,
        )
        .expect("start should succeed");
    assert_eq!(first, Some("Is your character real?".to_string()));
    aki
}

#[test]
fn new_session_defaults() {
    let aki = Akinator::new();
    assert_eq!(aki.uri, "https://en.akinator.com");
    assert_eq!(aki.step, 0);
    assert_eq!(aki.progression, Decimal { mantissa: 0, scale: 1 });
    assert!(aki.session.is_none());
    assert!(aki.signature.is_none());
    assert!(aki.ws_url.is_none());
    assert!(aki.current_question.is_none());
    assert!(aki.first_guess.is_none());
    assert!(aki.guesses.is_empty());
    assert!(!aki.child_mode);
}

#[test]
fn builders_set_fields() {
    let aki = Akinator::new().with_theme(Theme::Animals).with_child_mode();
    assert_eq!(aki.theme, Theme::Animals);
    assert!(aki.child_mode);
}

#[test]
fn start_success_commits_all_fields() {
    let aki = started_session();
    assert_eq!(aki.session, Some(501));
    assert_eq!(aki.signature, Some(123456789));
    assert_eq!(aki.ws_url, Some("https://srv2.akinator.com:9161/ws".to_string()));
    assert_eq!(aki.uid, Some("uid-ext".to_string()));
    assert_eq!(aki.frontaddr, Some("front-addr".to_string()));
    assert_eq!(aki.timestamp, 1234);
    assert_eq!(aki.question_filter, Some("cat=1".to_string()));
    assert_eq!(aki.current_question, Some("Is your character real?".to_string()));
    assert_eq!(aki.progression, Decimal { mantissa: 0, scale: 1 });
    assert_eq!(aki.step, 0);
}

#[test]
fn start_rejection_mutates_nothing() {
    let mut aki = Akinator::new();
    let json = start_json("KO - TIMEOUT", "501", "123456789", "0", "Q", "0.0");
    let r = aki.apply_start_response(
        "ws".to_string(),
        "uid".to_string(),
        "front".to_string(),
        99,
        json,
    );
    assert_eq!(r, Err(Error::TimeoutError));
    assert!(aki.session.is_none());
    assert!(aki.signature.is_none());
    assert!(aki.ws_url.is_none());
    assert!(aki.current_question.is_none());
    assert_eq!(aki.progression, Decimal { mantissa: 0, scale: 1 });
    assert_eq!(aki.step, 0);
    assert_eq!(aki.timestamp, 0);
}

#[test]
fn start_without_parameters_is_malformed() {
    let mut aki = Akinator::new();
    let json = StartJson { completion: "OK".to_string(), parameters: None };
    let r = aki.apply_start_response(
        "ws".to_string(),
        "uid".to_string(),
        "front".to_string(),
        99,
        json,
    );
    assert_eq!(r, Err(Error::UpdateInfoError(UpdateInfoError::MissingData)));
    assert!(aki.session.is_none());
    assert!(aki.ws_url.is_none());
}

#[test]
fn start_bad_session_number_is_parse_error() {
    let mut aki = Akinator::new();
    let json = start_json("OK", "fivehundred", "1", "0", "Q", "0.0");
    let r = aki.apply_start_response(
        "ws".to_string(),
        "uid".to_string(),
        "front".to_string(),
        99,
        json,
    );
    assert_eq!(r, Err(Error::UpdateInfoError(UpdateInfoError::ParseIntError)));
    assert!(aki.session.is_none());
}

#[test]
fn move_success_takes_server_values_verbatim() {
    let mut aki = started_session();
    let r = aki.apply_move_response(move_json("OK", "7", "Does it fly?", "33.33"));
    assert_eq!(r, Ok(Some("Does it fly?".to_string())));
    assert_eq!(aki.step, 7);
    assert_eq!(aki.progression, Decimal { mantissa: 3333, scale: 2 });
    assert_eq!(aki.current_question, Some("Does it fly?".to_string()));
    // identification fields are untouched by a move
    assert_eq!(aki.session, Some(501));
    assert_eq!(aki.signature, Some(123456789));
}

#[test]
fn move_rejection_mutates_nothing() {
    let mut aki = started_session();
    let r = aki.apply_move_response(move_json("KO - SERVER DOWN", "9", "Q2", "50.0"));
    assert_eq!(r, Err(Error::ServersDown));
    assert_eq!(aki.step, 0);
    assert_eq!(aki.current_question, Some("Is your character real?".to_string()));
    assert_eq!(aki.progression, Decimal { mantissa: 0, scale: 1 });
}

#[test]
fn move_bad_progression_is_float_parse_error() {
    let mut aki = started_session();
    let r = aki.apply_move_response(move_json("OK", "1", "Q2", "a lot"));
    assert_eq!(r, Err(Error::UpdateInfoError(UpdateInfoError::ParseFloatError)));
    assert_eq!(aki.step, 0);
    assert_eq!(aki.current_question, Some("Is your character real?".to_string()));
}

#[test]
fn move_bad_step_is_int_parse_error() {
    let mut aki = started_session();
    let r = aki.apply_move_response(move_json("OK", "one", "Q2", "12.5"));
    assert_eq!(r, Err(Error::UpdateInfoError(UpdateInfoError::ParseIntError)));
    assert_eq!(aki.step, 0);
}

#[test]
fn back_on_first_question_fails_without_request() {
    let aki = started_session();
    assert_eq!(aki.step, 0);
    let r = aki.back_request();
    assert!(matches!(r, Err(Error::CantGoBackAnyFurther)));
}

#[test]
fn back_without_session_fails_with_no_data() {
    let mut aki = Akinator::new();
    aki.step = 3;
    let r = aki.back_request();
    assert!(matches!(r, Err(Error::NoDataFound)));
}

#[test]
fn answer_without_session_fails_with_no_data() {
    let aki = Akinator::new();
    let r = aki.answer_request(Answer::Yes);
    assert!(matches!(r, Err(Error::NoDataFound)));
}

#[test]
fn answer_request_parameters_follow_the_protocol() {
    let mut aki = started_session();
    aki.apply_move_response(move_json("OK", "2", "Q", "10.0")).unwrap();
    let (url, params) = aki.answer_request(Answer::ProbablyNot).unwrap();
    assert_eq!(url, "https://en.akinator.com/answer_api");
    let keys: Vec<&str> = params.iter().map(|p| p.0.as_str()).collect();
    assert_eq!(
        keys,
        vec![
            "callback",
            "urlApiWs",
            "childMod",
            "session",
            "signature",
            "frontaddr",
            "step",
            "answer",
            "question_filter",
        ]
    );
    assert_eq!(params[0].1, "jQuery331023608747682107778_1234");
    assert_eq!(params[1].1, "https://srv2.akinator.com:9161/ws");
    assert_eq!(params[2].1, "true");
    assert_eq!(params[3].1, "501");
    assert_eq!(params[4].1, "123456789");
    assert_eq!(params[6].1, "2");
    assert_eq!(params[7].1, "4");
    assert_eq!(params[8].1, "cat=1");
}

#[test]
fn start_request_parameters_follow_the_protocol() {
    let aki = Akinator::new();
    let (url, params) = aki.start_request("wsurl", "uid", "front", 77);
    assert_eq!(url, "https://en.akinator.com/new_session");
    let keys: Vec<&str> = params.iter().map(|p| p.0.as_str()).collect();
    assert_eq!(
        keys,
        vec![
            "callback",
            "urlApiWs",
            "partner",
            "childMod",
            "player",
            "uid_ext_session",
            "frontaddr",
            "constraint",
            "soft_constraint",
            "question_filter",
        ]
    );
    assert_eq!(params[0].1, "jQuery331023608747682107778_77");
    assert_eq!(params[2].1, "1");
    assert_eq!(params[3].1, "false");
    assert_eq!(params[4].1, "website-desktop");
    assert_eq!(params[7].1, "ETAT<>'AV'");
    // child mode off: both constraints empty
    assert_eq!(params[8].1, "");
    assert_eq!(params[9].1, "");
}

#[test]
fn start_request_child_mode_adds_both_constraints() {
    let aki = Akinator::new().with_child_mode();
    let (_, params) = aki.start_request("wsurl", "uid", "front", 1);
    assert_eq!(params[3].1, "true");
    assert_eq!(params[8].1, "ETAT='EN'");
    assert_eq!(params[9].1, "cat=1");
}

#[test]
fn cloned_session_carries_the_same_state() {
    let aki = started_session();
    let copy = aki.clone();
    assert_eq!(copy.session, aki.session);
    assert_eq!(copy.signature, aki.signature);
    assert_eq!(copy.ws_url, aki.ws_url);
    assert_eq!(copy.current_question, aki.current_question);
    assert_eq!(copy.step, aki.step);
    assert_eq!(copy.progression, aki.progression);
}

#[test]
fn back_request_parameters_follow_the_protocol() {
    let mut aki = started_session();
    aki.apply_move_response(move_json("OK", "1", "Q", "12.5")).unwrap();
    let (url, params) = aki.back_request().unwrap();
    assert_eq!(url, "https://srv2.akinator.com:9161/ws/cancel_answer");
    let keys: Vec<&str> = params.iter().map(|p| p.0.as_str()).collect();
    assert_eq!(
        keys,
        vec!["callback", "childMod", "session", "signature", "step", "answer", "question_filter"]
    );
    assert_eq!(params[4].1, "1");
    assert_eq!(params[5].1, "-1");
}

#[test]
fn win_request_parameters_follow_the_protocol() {
    let aki = started_session();
    let (url, params) = aki.win_request().unwrap();
    assert_eq!(url, "https://srv2.akinator.com:9161/ws/list");
    let keys: Vec<&str> = params.iter().map(|p| p.0.as_str()).collect();
    assert_eq!(keys, vec!["callback", "childMod", "session", "signature", "step"]);
}

fn sample_guess(id: &str, name: &str) -> Guess {
    Guess {
        id: id.to_string(),
        name: name.to_string(),
        award_id: "award".to_string(),
        flag_photo: 1,
        confidence: "0.97".to_string(),
        description: "a description".to_string(),
        ranking: "1".to_string(),
        picture_path: "pic.png".to_string(),
        absolute_picture_path: "https://img.example/pic.png".to_string(),
    }
}

#[test]
fn win_without_parameters_is_malformed_and_keeps_guesses() {
    let mut aki = started_session();
    let r = aki.apply_win_response(WinJson { completion: "OK".to_string(), parameters: None });
    assert_eq!(r, Err(Error::UpdateInfoError(UpdateInfoError::MissingData)));
    assert!(aki.guesses.is_empty());
    assert!(aki.first_guess.is_none());
}

#[test]
fn win_stores_guesses_in_ranking_order() {
    let mut aki = started_session();
    let json = WinJson {
        completion: "OK".to_string(),
        parameters: Some(WinParams {
            elements: vec![
                WinElement { element: sample_guess("1", "Best") },
                WinElement { element: sample_guess("2", "Second") },
            ],
        }),
    };
    let r = aki.apply_win_response(json).unwrap();
    assert_eq!(aki.guesses.len(), 2);
    assert_eq!(aki.guesses[0].name, "Best");
    assert_eq!(aki.guesses[1].name, "Second");
    assert_eq!(aki.first_guess.as_ref().map(|g| g.name.as_str()), Some("Best"));
    assert_eq!(r.map(|g| g.name), Some("Best".to_string()));
}

#[test]
fn win_with_no_elements_leaves_no_first_guess() {
    let mut aki = started_session();
    let json = WinJson {
        completion: "OK".to_string(),
        parameters: Some(WinParams { elements: vec![] }),
    };
    let r = aki.apply_win_response(json).unwrap();
    assert_eq!(r, None);
    assert!(aki.guesses.is_empty());
    assert!(aki.first_guess.is_none());
}

#[test]
fn win_rejection_classifies_and_keeps_state() {
    let mut aki = started_session();
    let r = aki.apply_win_response(WinJson {
        completion: "KO - ELEM LIST IS EMPTY".to_string(),
        parameters: None,
    });
    assert_eq!(r, Err(Error::NoMoreQuestions));
    assert!(aki.guesses.is_empty());
}

#[test]
fn completion_codes_classify_into_the_taxonomy() {
    assert_eq!(
        Akinator::handle_error_response("KO - SERVER DOWN".to_string()),
        Error::ServersDown
    );
    assert_eq!(
        Akinator::handle_error_response("ko - technical error".to_string()),
        Error::TechnicalError
    );
    assert_eq!(Akinator::handle_error_response("KO - TIMEOUT".to_string()), Error::TimeoutError);
    assert_eq!(
        Akinator::handle_error_response("KO - ELEM LIST IS EMPTY".to_string()),
        Error::NoMoreQuestions
    );
    assert_eq!(
        Akinator::handle_error_response("WARN - NO QUESTION".to_string()),
        Error::NoMoreQuestions
    );
    assert_eq!(
        Akinator::handle_error_response("KO - UNKNOWN".to_string()),
        Error::ConnectionError
    );
}

#[test]
fn full_game_scenario_with_mocked_responses() {
    // start: the server reports step 0, progression 0.0, the first question
    let mut aki = started_session();
    assert_eq!(aki.step, 0);
    assert_eq!(aki.progression, Decimal { mantissa: 0, scale: 1 });
    assert_eq!(aki.current_question, Some("Is your character real?".to_string()));

    // answer Yes: the server reports step 1, progression 12.5
    let (_, params) = aki.answer_request(Answer::Yes).unwrap();
    assert_eq!(params[7].1, "0");
    let q = aki.apply_move_response(move_json("OK", "1", "Is it an animal?", "12.5")).unwrap();
    assert_eq!(q, Some("Is it an animal?".to_string()));
    assert_eq!(aki.step, 1);
    assert_eq!(aki.progression, Decimal { mantissa: 125, scale: 1 });

    // back: the server restores step 0, progression 0.0
    assert!(aki.back_request().is_ok());
    let q = aki
        .apply_move_response(move_json("OK", "0", "Is your character real?", "0.0"))
        .unwrap();
    assert_eq!(q, Some("Is your character real?".to_string()));
    assert_eq!(aki.step, 0);
    assert_eq!(aki.progression, Decimal { mantissa: 0, scale: 1 });
    assert_eq!(aki.current_question, Some("Is your character real?".to_string()));

    // back again: already on the first question
    assert!(matches!(aki.back_request(), Err(Error::CantGoBackAnyFurther)));
}
