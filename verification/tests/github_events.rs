use webhook_gateway::config_env::ConfigEnv;
use webhook_gateway::events::github::comment::Comment;
use webhook_gateway::events::github::event::GithubEvent;
use webhook_gateway::events::github::handler::{handle_github_event, HandleError};
use webhook_gateway::events::github::issue::Issue;
use webhook_gateway::events::github::pull_request::PullRequest;
use webhook_gateway::events::github::review::Review;
use webhook_gateway::events::github::sender::Sender;
use webhook_gateway::events::github::user::User;
use webhook_gateway::events::msg::Message;
use webhook_gateway::github::repo::Repository;
use webhook_gateway::msg::time_spent::TimeSpentTrait;

fn s(x: &str) -> String {
    x.to_string()
}

fn user(name: Option<&str>) -> User {
    User { login: s("jdoe"), id: 1, url: s(""), repos_url: s(""), name: name.map(s) }
}

fn sender(ldap_dn: Option<&str>) -> Sender {
    Sender {
        login: s("jdoe"),
        id: 1,
        avatar_url: s(""),
        gravatar_id: s(""),
        url: s(""),
        ldap_dn: ldap_dn.map(s),
    }
}

fn repo() -> Repository {
    Repository {
        id: 1,
        name: s("Server"),
        full_name: s("Tech/Server"),
        fork: false,
        url: s(""),
        commits_url: s(""),
        issue_comment_url: s(""),
        pulls_url: s(""),
        git_url: s(""),
    }
}

fn comment(body: &str) -> Comment {
    Comment { url: s(""), html_url: s(""), issue_url: s(""), id: 9, user: user(None), body: s(body) }
}

fn pull_request(title: &str) -> PullRequest {
    PullRequest { url: s(""), number: 42, state: s("open"), title: s(title) }
}

fn issue(title: &str) -> Issue {
    Issue {
        url: s(""),
        repository_url: s(""),
        comments_url: s(""),
        html_url: s(""),
        id: 5,
        number: 17,
        title: s(title),
        user: user(None),
        comments: 0,
        body: None,
    }
}

fn event(action: &str, body: Option<&str>, pr: Option<PullRequest>, dn: Option<&str>) -> GithubEvent {
    GithubEvent {
        action: s(action),
        issue: None,
        review: None,
        comment: body.map(comment),
        repository: repo(),
        sender: sender(dn),
        pull_request: pr,
    }
}

fn config() -> ConfigEnv {
    ConfigEnv::from_vars(Some(s("t")), Some(s("b")), Some(s("k")), None, Some(s("doc")), None, None, None)
        .ok()
        .unwrap()
}

#[test]
fn deleted_comments_are_ignored() {
    let e = event("deleted", Some("Thanks 3!"), Some(pull_request("DE12345")), None);
    assert!(matches!(handle_github_event(&e, &user(None), &config()), Ok(None)));
}

#[test]
fn events_without_comment_are_errors() {
    let e = event("created", None, Some(pull_request("DE12345")), None);
    let r = handle_github_event(&e, &user(None), &config());
    match r {
        Err(e) => {
            assert!(matches!(e, HandleError::NoComment));
            assert_eq!(e.message(), "No comment in the github event");
        }
        _ => panic!("expected an error"),
    }
}

#[test]
fn time_spent_comment_yields_report() {
    let e = event("created", Some("Thanks 1.5! great"), Some(pull_request("[DE12345] fix")), None);
    match handle_github_event(&e, &user(None), &config()) {
        Ok(Some(Message::TimeSpent(tp))) => {
            assert_eq!(tp.value, "1.5");
            assert_eq!(tp.wp_formatted_id, Some(s("DE12345")));
            assert_eq!(tp.repo_name, Some(s("Tech/Server")));
            assert_eq!(tp.pr_number, Some(42));
            assert_eq!(tp.user, "jdoe");
            assert_eq!(tp.login, "jdoe");
            assert_eq!(tp.task_name, None);
            assert!(tp.is_valid());
        }
        _ => panic!("expected a time-spent report"),
    }
}

#[test]
fn time_spent_without_work_item_yields_nothing() {
    let e = event("created", Some("Thanks 2!"), Some(pull_request("no item")), None);
    assert!(matches!(handle_github_event(&e, &user(None), &config()), Ok(None)));
}

#[test]
fn edited_time_spent_falls_through_to_ocr() {
    let e = event("edited", Some("Thanks 2!"), Some(pull_request("DE12345")), None);
    assert!(matches!(handle_github_event(&e, &user(None), &config()), Ok(None)));
    let e = event("edited", Some("Thanks 2!\nXT ABAs: T1\nBN: 9"), Some(pull_request("DE12345")), None);
    match handle_github_event(&e, &user(Some("Jane Doe")), &config()) {
        Ok(Some(Message::Task(t))) => {
            assert_eq!(t.get_build_number(), "9");
            assert_eq!(t.Member, "Jane Doe");
            assert_eq!(t.PR, 42);
            assert_eq!(t.RepoName, "Tech/Server");
        }
        _ => panic!("expected a task"),
    }
}

#[test]
fn ocr_comment_without_build_number_is_error() {
    let e = event("created", Some("XT ABAs: T1"), Some(pull_request("x")), None);
    match handle_github_event(&e, &user(None), &config()) {
        Err(e) => assert_eq!(
            e.message(),
            "\r\n Build number is **required**.\r\n Please read the doc"
        ),
        _ => panic!("expected an error"),
    }
}

#[test]
fn ocr_member_falls_back_to_sender_name() {
    let e = event(
        "created",
        Some("XT ABAs: T1\nBN: 3"),
        None,
        Some("CN=Doe\\, Jane,OU=Users,DC=corp"),
    );
    let mut e = e;
    e.issue = Some(issue("US0001"));
    match handle_github_event(&e, &user(None), &config()) {
        Ok(Some(Message::Task(t))) => {
            assert_eq!(t.Member, "Doe, Jane");
            assert_eq!(t.PR, 17);
        }
        _ => panic!("expected a task"),
    }
}

#[test]
fn uninteresting_comment_yields_nothing() {
    let e = event("created", Some("looks fine"), Some(pull_request("DE12345")), None);
    assert!(matches!(handle_github_event(&e, &user(None), &config()), Ok(None)));
}

#[test]
fn event_accessors() {
    let mut e = event("submitted", None, None, Some("OU=x"));
    e.review = Some(Review { id: 77, user: user(None), body: s("Thanks 1!") });
    assert_eq!(e.get_action(), "submitted");
    assert_eq!(e.get_code(), Some("Thanks 1!"));
    assert_eq!(e.get_pr_number(), Some(77));
    assert_eq!(e.get_user_name(), "ocr_default");
    assert_eq!(e.get_login_name(), "jdoe");
    assert_eq!(e.get_repo_name(), Some("Tech/Server"));
    assert_eq!(e.get_work_product(), None);
    e.issue = Some(issue("de1234567, us7654"));
    assert_eq!(e.get_work_product(), Some(s("DE1234567, US7654")));
    assert_eq!(e.get_pr_number(), Some(17));
}

#[test]
fn sender_names() {
    assert_eq!(sender(None).get_sender_name(), Some(s("jdoe")));
    assert_eq!(sender(Some("CN=Jane,OU=People")).get_sender_name(), Some(s("Jane")));
    assert_eq!(sender(Some("uid=1,CN=Doe\\, J,OU=People,DC=x")).get_sender_name(), Some(s("Doe, J")));
    assert_eq!(sender(Some("CN=,OU=People")).get_sender_name(), None);
    assert_eq!(sender(Some("CN=Jane,DC=x")).get_sender_name(), None);
    assert_eq!(sender(Some("CN=A=B,OU=C")).get_sender_name(), None);
    assert_eq!(sender(None).get_login_name(), "jdoe");
}
