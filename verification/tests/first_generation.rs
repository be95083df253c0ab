use webhook_gateway::time_spent::{time_spent_from_rally_str_with_id, time_spent_from_str_with_id};
use webhook_gateway::backend_task::get_backend_task_from_str;
use webhook_gateway::channel::producer::{produce_message_from, produce_msg_from};
use webhook_gateway::channel::Message as ChannelMessage;
use webhook_gateway::config_env::ConfigEnv;
use webhook_gateway::event::rally::{
    Artifact, Event, Message as RallyMessage, State, Text, Transaction, User as RallyUser,
    WorkProduct,
};
use webhook_gateway::events::github::pull_request::PullRequest;
use webhook_gateway::events::github::user::User;
use webhook_gateway::github::comment::Comment;
use webhook_gateway::github::event::GithubEvent;
use webhook_gateway::github::issue::Issue;
use webhook_gateway::github::repo::Repository;
use webhook_gateway::github::sender::Sender;
use webhook_gateway::handler::rally::handle_rally_event;
use webhook_gateway::msg::github::handle_github_message;
use webhook_gateway::msg::Message;
use webhook_gateway::time_spent::get_time_spent_from_rally_str;

fn s(x: &str) -> String {
    x.to_string()
}

fn user() -> User {
    User { login: s("jdoe"), id: 1, url: s(""), repos_url: s(""), name: None }
}

fn event(action: &str, body: &str, title: &str) -> GithubEvent {
    GithubEvent {
        action: s(action),
        issue: None,
        review: None,
        comment: Some(Comment {
            url: s(""),
            html_url: s(""),
            issue_url: s(""),
            id: 1,
            user: user(),
            body: s(body),
        }),
        repository: Repository {
            id: 1,
            name: s("Server"),
            full_name: s("Tech/Server"),
            fork: false,
            url: s(""),
            commits_url: s(""),
            issue_comment_url: s(""),
            pulls_url: s(""),
            git_url: s(""),
        },
        sender: Sender {
            login: s("jdoe"),
            id: 1,
            avatar_url: s(""),
            gravatar_id: s(""),
            url: s(""),
            ldap_dn: s("CN=John Doe,OU=Users"),
        },
        pull_request: Some(PullRequest { url: s(""), number: 8, state: s("open"), title: s(title) }),
    }
}

fn config() -> ConfigEnv {
    ConfigEnv::from_vars(Some(s("t")), Some(s("b")), Some(s("k")), None, Some(s("doc")), None, None, None)
        .ok()
        .unwrap()
}

#[test]
fn github_message_yields_report_and_task() {
    let e = event("created", "Thanks 4!\nXT ABAs: T1\nBN: 7", "US12345");
    let (messages, error) = handle_github_message(&e, &config());
    assert!(error.is_none());
    assert_eq!(messages.len(), 2);
    match &messages[0] {
        Message::TimeSpent(tp) => {
            assert_eq!(tp.value, "4");
            assert_eq!(tp.user, "John Doe");
            assert_eq!(tp.wp_formatted_id, Some(s("US12345")));
        }
        _ => panic!("expected a report first"),
    }
    match &messages[1] {
        Message::Task(t) => {
            assert_eq!(t.get_build_number(), "7");
            assert_eq!(t.Member, "John Doe");
            assert_eq!(t.PR, 8);
        }
        _ => panic!("expected a task second"),
    }
}

#[test]
fn github_message_error_after_report() {
    let e = event("created", "Thanks 4! XT ABAs: T1", "US12345");
    let (messages, error) = handle_github_message(&e, &config());
    assert_eq!(messages.len(), 1);
    assert_eq!(error.unwrap().message(), "\r\n Build number is required.\r\n Please read the doc");
    let e = event("deleted", "Thanks 4! XT ABAs: T1", "US12345");
    let (messages, error) = handle_github_message(&e, &config());
    assert!(messages.is_empty() && error.is_none());
}

#[test]
fn producer_first_generation() {
    let e = event("created", "Thanks 4! XT ABAs: T1", "no item");
    let messages = produce_message_from(&e);
    assert_eq!(messages.len(), 2);
    match &messages[0] {
        ChannelMessage::TimeSpent(tp) => {
            assert_eq!(tp.wp_formatted_id, None);
            assert!(!tp.is_valid());
            assert_eq!(tp.get_repo(), Some("Tech/Server"));
            assert_eq!(tp.get_pr_number(), Some(8));
        }
        _ => panic!("expected a report first"),
    }
    match &messages[1] {
        ChannelMessage::BackendTask(t) => {
            assert_eq!(t.RepoName, "Tech/Server");
            assert_eq!(t.PR, 8);
        }
        _ => panic!("expected a task second"),
    }
    let e = event("edited", "Thanks 4!", "US1234");
    assert!(produce_message_from(&e).is_empty());
    let e = event("created", "looks fine", "US1234");
    assert!(produce_message_from(&e).is_empty());
}

fn rally_event(text: &str, artifact: Option<&str>) -> Event {
    Event {
        message: RallyMessage {
            object_id: s("o"),
            object_type: s("t"),
            state: State {
                text: Text { value: s(text), name: s("Text") },
                artifact: Artifact {
                    value: artifact.map(|a| WorkProduct { formatted_id: s(a), name: s("n") }),
                },
            },
            transaction: Transaction { user: RallyUser { username: s("jane") } },
        },
    }
}

#[test]
fn rally_first_generation() {
    let e = rally_event("Thanks 1.5!", Some("DE777"));
    let messages = produce_msg_from(&e);
    assert_eq!(messages.len(), 1);
    let tp = get_time_spent_from_rally_str("thanks 2!", &e).unwrap();
    assert_eq!(tp.value, "2");
    assert_eq!(tp.task_name, Some(s("Review and Suggestion.")));
    assert_eq!(tp.wp_formatted_id, Some(s("DE777")));
    assert!(produce_msg_from(&rally_event("Thanks 1.5!", None)).is_empty());
    assert!(produce_msg_from(&rally_event("nothing", Some("DE1"))).is_empty());
}

#[test]
fn generic_rally_handler_on_github_event() {
    let e = event("created", "Thanks 3!", "DE12345");
    match handle_rally_event(&e, Some(s("review"))) {
        Some(Message::TimeSpent(tp)) => {
            assert_eq!(tp.repo_name, Some(s("Tech/Server")));
            assert_eq!(tp.task_name, Some(s("review")));
        }
        _ => panic!("expected a report"),
    }
}

#[test]
fn first_generation_backend_task() {
    let t = get_backend_task_from_str("anything", "Tech/Server", 3, s("m")).ok().unwrap();
    assert_eq!(t.RepoName, "Tech/Server");
    assert_eq!(t.PR, 3);
}

#[test]
fn first_generation_issue() {
    let i = Issue {
        url: s(""),
        repository_url: s(""),
        comments_url: s(""),
        html_url: s(""),
        id: 1,
        number: 4,
        title: s("US1234567"),
        user: user(),
        comments: 0,
        body: s(""),
    };
    assert_eq!(i.get_number(), 4);
    assert_eq!(i.get_work_product(), Some(s("US1234567")));
}

#[test]
fn first_generation_report_identifiers() {
    let e = event("created", "Thanks 4!", "US12345");
    let tp = time_spent_from_str_with_id("Thanks 4!", &e, 5).unwrap();
    assert_eq!(tp.id, 5);
    let r = rally_event("Thanks 1!", Some("DE1"));
    let tp = time_spent_from_rally_str_with_id("Thanks 1!", &r, 6).unwrap();
    assert_eq!(tp.id, 6);
}
