use webhook_gateway::events::rally::{Artifact, Event, Message, State, Text, Transaction, User, WorkProduct};
use webhook_gateway::msg::time_spent::time_spent_with_id;
use webhook_gateway::config_env::ConfigEnv;
use webhook_gateway::events::msg::task::{
    get_task_from_str, handle_task, post_sending_task, BackendReply, CodeField,
};
use webhook_gateway::msg::time_spent::{handle_time_spent, TimeSpent, TimeSpentAction};

fn s(x: &str) -> String {
    x.to_string()
}

fn report(wp: Option<&str>, repo: Option<&str>, pr: Option<u64>) -> TimeSpent {
    TimeSpent {
        user: s("u"),
        login: s("l"),
        value: s("1"),
        id: 99,
        wp_formatted_id: wp.map(s),
        repo_name: repo.map(s),
        pr_number: pr,
        task_name: None,
    }
}

#[test]
fn valid_reports_are_published() {
    assert!(matches!(
        handle_time_spent(&report(Some("DE1"), None, None)),
        TimeSpentAction::Publish { key: 99 }
    ));
}

#[test]
fn invalid_reports_are_answered_on_the_pull_request() {
    match handle_time_spent(&report(None, Some("Tech/Server"), Some(3))) {
        TimeSpentAction::Complain { repo, pr, text } => {
            assert_eq!(repo, "Tech/Server");
            assert_eq!(pr, 3);
            assert_eq!(text, "Time And Task: not a valid time spent, please make sure your PR title to follow the guideline.");
        }
        _ => panic!("expected a complaint"),
    }
    assert!(matches!(handle_time_spent(&report(None, None, Some(3))), TimeSpentAction::Ignore));
}

#[test]
fn tasks_dispatch() {
    let c = ConfigEnv::from_vars(
        Some(s("t")),
        Some(s("b")),
        Some(s("k")),
        None,
        None,
        Some(s("h")),
        Some(s("1")),
        None,
    )
    .ok()
    .unwrap();
    let t = get_task_from_str("BN: 1", s("r"), 12, s("m"), &c).ok().unwrap();
    let d = handle_task(&t, &c);
    assert_eq!(d.kafka_key, 12);
    assert!(d.to_backend);
    let mut c2 = c;
    c2.backend_port = None;
    assert!(!handle_task(&t, &c2).to_backend);
}

#[test]
fn backend_replies() {
    assert!(post_sending_task(500, CodeField::Code(0)) == BackendReply::BadStatus);
    assert!(post_sending_task(200, CodeField::Missing) == BackendReply::NoCode);
    assert!(post_sending_task(200, CodeField::NotU64) == BackendReply::CodeNotU64);
    assert!(post_sending_task(200, CodeField::Code(399)) == BackendReply::Accepted);
    assert!(post_sending_task(200, CodeField::Code(400)) == BackendReply::Refused);
}

#[test]
fn report_identifier_is_the_given_number() {
    let e = Event {
        message: Message {
            object_id: s("o"),
            object_type: s("t"),
            state: State {
                text: Text { value: Some(s("Thanks 2!")), name: s("Text") },
                artifact: Artifact { value: Some(WorkProduct { formatted_id: s("US1"), name: s("n") }) },
            },
            transaction: Transaction { user: User { username: s("u") } },
            action: s("Created"),
        },
    };
    let tp = time_spent_with_id("Thanks 2!", &e, None, 1234).unwrap();
    assert_eq!(tp.id, 1234);
    assert_eq!(tp.value, "2");
}
