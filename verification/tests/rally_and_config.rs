use webhook_gateway::config_env::{
    get_backend_api_token, get_backend_host, get_backend_port, get_github_token,
    get_kafka_broker_list, get_kafka_time_spent_topic, get_kafka_topic, is_backend_api_enable,
    xt_doc_url, ConfigEnv, ConfigError,
};
use webhook_gateway::events::msg::Message;
use webhook_gateway::events::rally::handler::handle_rally_event;
use webhook_gateway::events::rally::{
    Artifact, Event, Message as RallyMessage, State, Text, Transaction, User, WorkProduct,
};
use webhook_gateway::msg::rally::handle_rally_message;
use webhook_gateway::msg::time_spent::TimeSpentTrait;

fn s(x: &str) -> String {
    x.to_string()
}

fn rally_event(text: Option<&str>, artifact: Option<&str>) -> Event {
    Event {
        message: RallyMessage {
            object_id: s("o"),
            object_type: s("ConversationPost"),
            state: State {
                text: Text { value: text.map(s), name: s("Text") },
                artifact: Artifact {
                    value: artifact.map(|a| WorkProduct { formatted_id: s(a), name: s("story") }),
                },
            },
            transaction: Transaction { user: User { username: s("jane@corp") } },
            action: s("Created"),
        },
    }
}

#[test]
fn rally_time_spent() {
    let e = rally_event(Some("<p>Thanks 0.25!</p>"), Some("US9999"));
    match handle_rally_event(&e, Some(s("Review"))) {
        Some(Message::TimeSpent(tp)) => {
            assert_eq!(tp.value, "0.25");
            assert_eq!(tp.wp_formatted_id, Some(s("US9999")));
            assert_eq!(tp.user, "jane@corp");
            assert_eq!(tp.login, "jane@corp");
            assert_eq!(tp.repo_name, None);
            assert_eq!(tp.pr_number, None);
            assert_eq!(tp.task_name, Some(s("Review")));
        }
        _ => panic!("expected a report"),
    }
    assert!(handle_rally_event(&e, None).is_some());
    assert!(handle_rally_message(&e, None).is_some());
}

#[test]
fn rally_without_text_or_artifact_yields_nothing() {
    assert!(handle_rally_event(&rally_event(None, Some("US1")), None).is_none());
    assert!(handle_rally_event(&rally_event(Some("Thanks 1!"), None), None).is_none());
    assert!(handle_rally_event(&rally_event(Some("thanks!"), Some("US1")), None).is_none());
    assert!(handle_rally_message(&rally_event(Some("thanks!"), Some("US1")), None).is_none());
}

#[test]
fn rally_accessors() {
    let e = rally_event(Some("hi"), Some("DE1"));
    assert_eq!(e.get_action(), "Created");
    assert_eq!(Event::get_user_name(&e), "jane@corp");
    assert_eq!(e.get_code(), Some("hi"));
    assert_eq!(TimeSpentTrait::get_work_product(&e), Some(s("DE1")));
    assert_eq!(TimeSpentTrait::get_repo_name(&e), None);
    assert_eq!(TimeSpentTrait::get_pr_number(&e), None);
}

#[test]
fn config_requires_token_broker_and_topic() {
    let r = ConfigEnv::from_vars(None, Some(s("b")), Some(s("k")), None, None, None, None, None);
    assert_eq!(r.err(), Some(ConfigError::MissingGithubToken));
    let r = ConfigEnv::from_vars(Some(s("t")), None, Some(s("k")), None, None, None, None, None);
    assert_eq!(r.err(), Some(ConfigError::MissingKafkaBrokerList));
    let r = ConfigEnv::from_vars(Some(s("t")), Some(s("b")), None, None, None, None, None, None);
    assert_eq!(r.err(), Some(ConfigError::MissingKafkaTopic));
    assert_eq!(
        ConfigError::MissingKafkaTopic.message(),
        "KAFKA_TOPIC is required, please provide it by env variable KAFKA_TOPIC"
    );
}

#[test]
fn config_defaults_and_getters() {
    let c = ConfigEnv::from_vars(Some(s("t")), Some(s("b")), Some(s("k")), None, None, None, None, None)
        .ok()
        .unwrap();
    assert_eq!(get_kafka_time_spent_topic(&c), "time_spent");
    assert_eq!(xt_doc_url(&c), "");
    assert_eq!(get_github_token(&c), "t");
    assert_eq!(get_kafka_broker_list(&c), "b");
    assert_eq!(get_kafka_topic(&c), "k");
    assert!(!is_backend_api_enable(&c));
    let c = ConfigEnv::from_vars(
        Some(s("t")),
        Some(s("b")),
        Some(s("k")),
        Some(s("tp")),
        Some(s("http://doc")),
        Some(s("host")),
        Some(s("8080")),
        None,
    )
    .ok()
    .unwrap();
    assert_eq!(get_kafka_time_spent_topic(&c), "tp");
    assert_eq!(xt_doc_url(&c), "http://doc");
    assert!(is_backend_api_enable(&c));
    assert_eq!(get_backend_host(&c), "host");
    assert_eq!(get_backend_port(&c), "8080");
    assert_eq!(get_backend_api_token(&c), None);
    let mut c = c;
    c.backend_api_token = Some(s("x"));
    assert!(!is_backend_api_enable(&c));
    assert_eq!(get_backend_api_token(&c), Some(s("x")));
}

#[test]
fn rally_created_filter() {
    let mut e = rally_event(Some("hi"), None);
    assert!(e.is_created());
    e.message.action = s("Updated");
    assert!(!e.is_created());
}
