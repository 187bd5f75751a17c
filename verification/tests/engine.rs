use quiz_lobby::router::{
    Action, CommandOption, CommandRequest, ComponentRequest, DocumentResult, Error, Interaction,
    OptionValue, Reply, VoteDecision,
};
use quiz_lobby::announce::u64_to_dec;
use quiz_lobby::{announcement, Collector, Lobby, Quiz, Registry};

fn sample_quiz() -> Quiz {
    Quiz {
        question: "What is the color of grass?".to_string(),
        choices: vec!["Red".to_string(), "Green".to_string(), "Blue".to_string()],
        answer: 1,
        timeout: 5,
    }
}

fn vote_request(custom_id: &str, value: &str, user: u64) -> ComponentRequest {
    ComponentRequest {
        custom_id: custom_id.to_string(),
        values: vec![value.to_string()],
        member_user: Some(user),
        user: None,
    }
}

fn create_quiz(lobby: &mut Lobby, quiz: Quiz, token: u64) -> usize {
    match lobby.on_document(&DocumentResult::Document(quiz), token) {
        Ok(Reply::Menu { menu, .. }) => menu.id,
        _ => panic!("a valid quiz definition must open a slot"),
    }
}

#[test]
fn menu_lists_choices_under_new_slot_id() {
    let mut lobby = Lobby::new();
    let reply = lobby
        .on_document(&DocumentResult::Document(sample_quiz()), 7)
        .expect("valid definition");
    match reply {
        Reply::Menu { content, menu } => {
            assert_eq!(content, "What is the color of grass?");
            assert_eq!(menu.options.len(), 3);
            assert_eq!(menu.options[0].label, "Red");
            assert_eq!(menu.options[0].value, 0);
            assert_eq!(menu.options[1].label, "Green");
            assert_eq!(menu.options[1].value, 1);
            assert_eq!(menu.options[2].label, "Blue");
            assert_eq!(menu.options[2].value, 2);
        }
        _ => panic!("expected a menu reply"),
    }
}

#[test]
fn last_vote_of_each_voter_decides_winners() {
    // Voter A votes 0 then 1; voter B votes 2 and never changes it.
    let quiz = sample_quiz();
    let mut collector = Collector::for_quiz(&quiz).expect("valid definition");
    collector.record_vote(1, 0);
    collector.record_vote(1, 1);
    collector.record_vote(2, 2);
    let outcome = collector.finalize();
    assert_eq!(outcome.correct, "Green");
    assert_eq!(outcome.winners, vec![1]);
    assert_eq!(
        announcement(&outcome),
        "The correct answer is: **Green**. Congratulations to <@1>!"
    );
}

#[test]
fn no_votes_means_no_winners() {
    let quiz = sample_quiz();
    let collector = Collector::for_quiz(&quiz).expect("valid definition");
    let outcome = collector.finalize();
    assert_eq!(outcome.correct, "Green");
    assert!(outcome.winners.is_empty());
    assert_eq!(
        announcement(&outcome),
        "The correct answer is: **Green**. Nobody got it right..."
    );
}

#[test]
fn several_winners_are_all_congratulated() {
    let quiz = sample_quiz();
    let mut collector = Collector::for_quiz(&quiz).expect("valid definition");
    collector.record_vote(3, 1);
    collector.record_vote(12, 1);
    collector.record_vote(5, 0);
    let outcome = collector.finalize();
    assert_eq!(
        announcement(&outcome),
        "The correct answer is: **Green**. Congratulations to <@3> <@12>!"
    );
}

#[test]
fn numbers_are_written_in_plain_decimal() {
    assert_eq!(u64_to_dec(0), "0");
    assert_eq!(u64_to_dec(7), "7");
    assert_eq!(u64_to_dec(907), "907");
    assert_eq!(u64_to_dec(u64::MAX), "18446744073709551615");
}

#[test]
fn later_wrong_vote_overwrites_a_correct_one() {
    let quiz = sample_quiz();
    let mut collector = Collector::for_quiz(&quiz).expect("valid definition");
    collector.record_vote(1, 1);
    collector.record_vote(1, 0);
    let outcome = collector.finalize();
    assert!(outcome.winners.is_empty());
}

#[test]
fn out_of_range_choice_never_wins() {
    let quiz = sample_quiz();
    let mut collector = Collector::for_quiz(&quiz).expect("valid definition");
    collector.record_vote(1, 99);
    let outcome = collector.finalize();
    assert!(outcome.winners.is_empty());
}

#[test]
fn malformed_definition_is_rejected_without_a_slot() {
    fn bad_quiz() -> Quiz {
        Quiz {
            question: "?".to_string(),
            choices: vec!["only".to_string()],
            answer: 1,
            timeout: 5,
        }
    }
    let mut lobby = Lobby::new();
    match lobby.on_document(&DocumentResult::Document(bad_quiz()), 7) {
        Err(Error::MalformedData) => {}
        _ => panic!("an out-of-range answer must draw MalformedData"),
    }
    // A choice list too long for an 8-bit index is malformed too.
    let oversized = Quiz {
        question: "?".to_string(),
        choices: (0..300).map(|i| i.to_string()).collect(),
        answer: 0,
        timeout: 5,
    };
    match lobby.on_document(&DocumentResult::Document(oversized), 7) {
        Err(Error::MalformedData) => {}
        _ => panic!("an oversized choice list must draw MalformedData"),
    }
    // No slot was created: the very next create still gets the first id.
    let id = create_quiz(&mut lobby, sample_quiz(), 8);
    assert_eq!(id, 0);
    // And no collector exists for the malformed definition either.
    assert!(Collector::for_quiz(&bad_quiz()).is_none());
}

#[test]
fn fetch_failures_map_to_their_errors() {
    let mut lobby = Lobby::new();
    assert!(matches!(
        lobby.on_document(&DocumentResult::BadReference, 1),
        Err(Error::InvalidReference)
    ));
    assert!(matches!(
        lobby.on_document(&DocumentResult::FetchFailed, 1),
        Err(Error::FetchFailure)
    ));
    assert!(matches!(
        lobby.on_document(&DocumentResult::Malformed, 1),
        Err(Error::MalformedData)
    ));
}

#[test]
fn vote_for_unknown_slot_is_slot_not_found() {
    let lobby = Lobby::new();
    let d = lobby.decide_vote(&vote_request("5", "1", 10));
    assert!(d == VoteDecision::Reject(Error::SlotNotFound));
}

#[test]
fn vote_for_live_slot_is_forwarded() {
    let mut lobby = Lobby::new();
    let id = create_quiz(&mut lobby, sample_quiz(), 42);
    let d = lobby.decide_vote(&vote_request(&id.to_string(), "1", 10));
    assert!(
        d == VoteDecision::Forward {
            token: 42,
            voter: 10,
            choice: 1
        }
    );
}

#[test]
fn vote_after_close_is_rejected_not_accepted() {
    let mut lobby = Lobby::new();
    let id = create_quiz(&mut lobby, sample_quiz(), 42);
    let request = vote_request(&id.to_string(), "1", 10);
    assert!(matches!(
        lobby.decide_vote(&request),
        VoteDecision::Forward { .. }
    ));
    assert!(lobby.close_quiz(id));
    let d = lobby.decide_vote(&request);
    assert!(d == VoteDecision::Reject(Error::SlotNotFound));
}

#[test]
fn closing_twice_removes_nothing_more() {
    let mut lobby = Lobby::new();
    let id = create_quiz(&mut lobby, sample_quiz(), 42);
    assert!(lobby.close_quiz(id));
    assert!(!lobby.close_quiz(id));
}

#[test]
fn concurrent_quizzes_get_distinct_ids_and_closed_ids_are_reused() {
    let mut lobby = Lobby::new();
    let first = create_quiz(&mut lobby, sample_quiz(), 1);
    let second = create_quiz(&mut lobby, sample_quiz(), 2);
    let third = create_quiz(&mut lobby, sample_quiz(), 3);
    assert_ne!(first, second);
    assert_ne!(second, third);
    assert_ne!(first, third);
    // Votes reach each quiz's own intake, not another's.
    let d = lobby.decide_vote(&vote_request(&second.to_string(), "0", 9));
    assert!(
        d == VoteDecision::Forward {
            token: 2,
            voter: 9,
            choice: 0
        }
    );
    // Once a quiz closes, its id becomes eligible for reuse.
    lobby.close_quiz(first);
    let fourth = create_quiz(&mut lobby, sample_quiz(), 4);
    assert_eq!(fourth, first);
}

#[test]
fn voter_identity_prefers_the_membership() {
    let mut lobby = Lobby::new();
    let id = create_quiz(&mut lobby, sample_quiz(), 42);
    let request = ComponentRequest {
        custom_id: id.to_string(),
        values: vec!["1".to_string()],
        member_user: Some(7),
        user: Some(9),
    };
    let d = lobby.decide_vote(&request);
    assert!(
        d == VoteDecision::Forward {
            token: 42,
            voter: 7,
            choice: 1
        }
    );
}

#[test]
fn missing_identity_is_unknown_user() {
    let mut lobby = Lobby::new();
    let id = create_quiz(&mut lobby, sample_quiz(), 42);
    let request = ComponentRequest {
        custom_id: id.to_string(),
        values: vec!["1".to_string()],
        member_user: None,
        user: None,
    };
    assert!(lobby.decide_vote(&request) == VoteDecision::Reject(Error::UnknownUser));
}

#[test]
fn malformed_slot_reference_is_unrecoverable() {
    let lobby = Lobby::new();
    assert!(lobby.decide_vote(&vote_request("zero", "1", 10)) == VoteDecision::Reject(Error::Unrecoverable));
    assert!(lobby.decide_vote(&vote_request("", "1", 10)) == VoteDecision::Reject(Error::Unrecoverable));
}

#[test]
fn missing_or_malformed_selection_is_rejected() {
    let mut lobby = Lobby::new();
    let id = create_quiz(&mut lobby, sample_quiz(), 42);
    let none_selected = ComponentRequest {
        custom_id: id.to_string(),
        values: vec![],
        member_user: Some(7),
        user: None,
    };
    assert!(lobby.decide_vote(&none_selected) == VoteDecision::Reject(Error::Unrecoverable));
    let request = vote_request(&id.to_string(), "first", 7);
    assert!(lobby.decide_vote(&request) == VoteDecision::Reject(Error::Unrecoverable));
}

#[test]
fn only_the_last_selected_value_counts() {
    let mut lobby = Lobby::new();
    let id = create_quiz(&mut lobby, sample_quiz(), 42);
    let request = ComponentRequest {
        custom_id: id.to_string(),
        values: vec!["0".to_string(), "2".to_string()],
        member_user: Some(7),
        user: None,
    };
    let d = lobby.decide_vote(&request);
    assert!(
        d == VoteDecision::Forward {
            token: 42,
            voter: 7,
            choice: 2
        }
    );
}

#[test]
fn registry_binds_ids_to_tokens_until_removal() {
    let mut registry = Registry::new();
    let a = registry.insert(11);
    let b = registry.insert(22);
    assert_ne!(a, b);
    assert_eq!(registry.lookup(a), Some(11));
    assert_eq!(registry.lookup(b), Some(22));
    assert!(registry.remove(a));
    assert_eq!(registry.lookup(a), None);
    assert_eq!(registry.lookup(b), Some(22));
    assert!(!registry.remove(a));
    // The freed id is the lowest unused one, so it is handed out next.
    let c = registry.insert(33);
    assert_eq!(c, a);
    assert_eq!(registry.lookup(c), Some(33));
}

#[test]
fn allocation_always_picks_the_lowest_free_id() {
    let mut registry = Registry::new();
    let a = registry.insert(1);
    let b = registry.insert(2);
    let c = registry.insert(3);
    assert_eq!((a, b, c), (0, 1, 2));
    // Free the lowest id last: the next insert must still pick it first.
    registry.remove(b);
    registry.remove(a);
    assert_eq!(registry.insert(4), a);
    assert_eq!(registry.insert(5), b);
    assert_eq!(registry.insert(6), 3);
}

#[test]
fn ping_is_answered_with_pong() {
    let lobby = Lobby::new();
    assert!(matches!(
        lobby.on_interaction(&Interaction::Ping),
        Action::Respond(Reply::Pong)
    ));
}

#[test]
fn unknown_interactions_are_unsupported() {
    let lobby = Lobby::new();
    match lobby.on_interaction(&Interaction::Unknown) {
        Action::Respond(Reply::Message { content, ephemeral }) => {
            assert_eq!(content, Error::UnsupportedInteractionType.text());
            assert!(ephemeral);
        }
        _ => panic!("expected an error message reply"),
    }
}

fn create_request(name: &str, options: Vec<CommandOption>) -> Interaction {
    Interaction::Command(CommandRequest {
        name: name.to_string(),
        options,
    })
}

fn url_option(name: &str, url: &str) -> CommandOption {
    CommandOption {
        name: name.to_string(),
        value: OptionValue::Text(url.to_string()),
    }
}

#[test]
fn accepted_create_request_asks_for_the_document() {
    let lobby = Lobby::new();
    let request = create_request("create", vec![url_option("url", "https://example.org/quiz.json")]);
    match lobby.on_interaction(&request) {
        Action::FetchDocument { url } => assert_eq!(url, "https://example.org/quiz.json"),
        _ => panic!("expected a document fetch"),
    }
}

fn expect_error_reply(action: Action, e: Error) {
    match action {
        Action::Respond(Reply::Message { content, ephemeral }) => {
            assert_eq!(content, e.text());
            assert!(ephemeral);
        }
        _ => panic!("expected an error message reply"),
    }
}

#[test]
fn create_request_validation_errors() {
    let lobby = Lobby::new();
    expect_error_reply(
        lobby.on_interaction(&create_request("destroy", vec![url_option("url", "x")])),
        Error::UnknownCommandName,
    );
    expect_error_reply(
        lobby.on_interaction(&create_request("create", vec![])),
        Error::InvalidParameters,
    );
    expect_error_reply(
        lobby.on_interaction(&create_request(
            "create",
            vec![url_option("url", "x"), url_option("url", "y")],
        )),
        Error::InvalidParameters,
    );
    expect_error_reply(
        lobby.on_interaction(&create_request(
            "create",
            vec![CommandOption {
                name: "url".to_string(),
                value: OptionValue::Other,
            }],
        )),
        Error::InvalidParameters,
    );
    expect_error_reply(
        lobby.on_interaction(&create_request("create", vec![url_option("link", "x")])),
        Error::InvalidParameterName,
    );
}

#[test]
fn vote_through_the_router_is_forwarded_or_rejected() {
    let mut lobby = Lobby::new();
    let id = create_quiz(&mut lobby, sample_quiz(), 42);
    match lobby.on_interaction(&Interaction::Component(vote_request(&id.to_string(), "1", 10))) {
        Action::ForwardVote {
            token,
            voter,
            choice,
        } => {
            assert_eq!(token, 42);
            assert_eq!(voter, 10);
            assert_eq!(choice, 1);
        }
        _ => panic!("expected the vote to be forwarded"),
    }
    expect_error_reply(
        lobby.on_interaction(&Interaction::Component(vote_request("999", "1", 10))),
        Error::SlotNotFound,
    );
}
