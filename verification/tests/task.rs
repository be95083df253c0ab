use webhook_gateway::config_env::ConfigEnv;
use webhook_gateway::events::msg::task::{get_task_from_str, OCRBody, TaskError};
use webhook_gateway::msg::task::{get_backend_task_from_str, BackendTaskError};

fn config() -> ConfigEnv {
    ConfigEnv::from_vars(
        Some("value".to_string()),
        Some("value".to_string()),
        Some("value".to_string()),
        None,
        None,
        None,
        None,
        None,
    )
    .ok()
    .unwrap()
}

#[test]
fn task_test_get_value() {
    let config = config();
    let s = r#"BN: 11.03.0064.0015
        name_abr"#;
    let t = get_task_from_str(s, "Tech/Server".to_string(), 12, "name_abr".to_string(), &config);
    assert_eq!(t.ok().unwrap().get_build_number(), "11.03.0064.0015");

    let s = "BN: 11.03.0064.0015\r\n";
    let t = get_task_from_str(s, "Tech/Server".to_string(), 12, "name_abr".to_string(), &config);
    assert_eq!(t.ok().unwrap().get_build_number(), "11.03.0064.0015");
}

#[test]
fn task_test_get_backend_task() {
    let config = config();
    let s = r#"BN: 11.03.0064.0015
        "#;
    let t = get_task_from_str(s, "ro".to_string(), 121, "mt".to_owned(), &config);
    assert_eq!(t.ok().unwrap().get_build_number(), "11.03.0064.0015");
    let s = r#"BN: 11.03.0064.0015"#;
    let t = get_task_from_str(s, "ro".to_string(), 121, "mt".to_owned(), &config);
    assert_eq!(t.ok().unwrap().get_build_number(), "11.03.0064.0015");
    let s = r#"BN: 11.03.0064.0015\r\nTC:Object"#;
    let t = get_task_from_str(s, "ro".to_string(), 121, "mt".to_owned(), &config);
    assert_eq!(t.ok().unwrap().body.TouchedComponents, vec!["Object".to_string()]);
    let s = r#"BN: 11.03.0064.0015\r\nTouchedComponents:Object"#;
    let t = get_task_from_str(s, "ro".to_string(), 121, "mt".to_owned(), &config);
    assert_eq!(t.ok().unwrap().body.TouchedComponents, vec!["Object".to_string()]);
    let s = r#"XT ABAs: T0, T15
        SB:xt-tt-11.3.1000.0125_installation_branch
        BN: 11.3.1000.0125
        TestType:Regression"#;
    let t = get_task_from_str(s, "ro".to_string(), 121, "mt".to_owned(), &config).ok();
    assert_eq!(t.as_ref().unwrap().get_build_number(), "11.3.1000.0125");
    assert_eq!(t.as_ref().unwrap().body.TestType, "Regression".to_string());
    assert_eq!(
        t.as_ref().unwrap().body.ServerBranch,
        "xt-tt-11.3.1000.0125_installation_branch".to_string()
    );
    assert_eq!(t.as_ref().unwrap().body.Flag, None);
}

#[test]
fn backend_task_test_get_value() {
    let config = config();
    let s = r#"BN: 11.03.0064.0015
        name_abr"#;
    let t = get_backend_task_from_str(s, "Tech/Server".to_string(), 12, "name_abr".to_string(), &config);
    assert_eq!(t.ok().unwrap().get_build_number(), "11.03.0064.0015");
    let s = "BN: 11.03.0064.0015\r\n";
    let t = get_backend_task_from_str(s, "Tech/Server".to_string(), 12, "name_abr".to_string(), &config);
    assert_eq!(t.ok().unwrap().get_build_number(), "11.03.0064.0015");
}

#[test]
fn backend_task_test_get_backend_task() {
    let config = config();
    let s = r#"BN: 11.03.0064.0015\r\nTC:Object"#;
    let t = get_backend_task_from_str(s, "ro".to_string(), 121, "mt".to_owned(), &config);
    assert_eq!(t.ok().unwrap().body.TouchedComponents, vec!["Object".to_string()]);
    let s = r#"XT ABAs: T0, T15
        SB:xt-tt-11.3.1000.0125_installation_branch
        BN: 11.3.1000.0125
        TestType:Regression"#;
    let t = get_backend_task_from_str(s, "ro".to_string(), 121, "mt".to_owned(), &config).ok().unwrap();
    assert_eq!(t.get_build_number(), "11.3.1000.0125");
    assert_eq!(t.body.TestType, "Regression".to_string());
    assert_eq!(t.body.ABAList, vec!["T0".to_string(), "T15".to_string()]);
    assert_eq!(t.RepoName, "ro".to_string());
    assert_eq!(t.PR, 121);
    assert_eq!(t.Member, "mt".to_string());
    assert_eq!(t.APIToken, None);
}

#[test]
fn task_without_build_number_is_refused() {
    let mut config = config();
    config.xt_doc_url = "http://doc".to_string();
    let t = get_task_from_str("XT ABAs: T0", "ro".to_string(), 1, "mt".to_string(), &config);
    match t {
        Err(TaskError::BuildNumberRequired(m)) => {
            assert_eq!(m, "\r\n Build number is **required**.\r\n Please read the http://doc")
        }
        Ok(_) => panic!("a task without a build number was accepted"),
    }
    let t = get_backend_task_from_str("XT ABAs: T0\nBN:   ", "ro".to_string(), 1, "mt".to_string(), &config);
    match t {
        Err(BackendTaskError::BuildNumberRequired(m)) => {
            assert_eq!(m, "\r\n Build number is required.\r\n Please read the http://doc")
        }
        Ok(_) => panic!("a task without a build number was accepted"),
    }
}

#[test]
fn task_carries_comment_and_token() {
    let mut config = config();
    config.backend_api_token = Some("tok".to_string());
    let s = "BN: 1.2\nPlatform: linux \nFlag: a, b ,c\nXY: infra";
    let t = get_task_from_str(s, "ro".to_string(), 7, "mt".to_string(), &config).ok().unwrap();
    assert_eq!(t.APIToken, Some("tok".to_string()));
    assert_eq!(t.body.comment, Some(s.to_string()));
    assert_eq!(t.body.Platform, Some("linux".to_string()));
    assert_eq!(
        t.body.Flag,
        Some(vec!["a".to_string(), "b".to_string(), "c".to_string()])
    );
    assert_eq!(t.body.XYatiInfrastructure, "infra".to_string());
    assert_eq!(t.body.ProjectIDs, Vec::<String>::new());
}

#[test]
fn colon_field_edge_cases() {
    // An empty value takes the next line.
    let b = OCRBody::from_str("BN:\nSB: x");
    assert_eq!(b.BuildNo, "SB: x".to_string());
    // Only white space up to the end: the value trims to nothing.
    let b = OCRBody::from_str("BN:  ");
    assert_eq!(b.BuildNo, "".to_string());
    assert_eq!(b.Platform, None);
    // Keys are matched anywhere, case-sensitively.
    let b = OCRBody::from_str("XBN: 5\nbn: 6");
    assert_eq!(b.BuildNo, "5".to_string());
    // An empty list value gives one empty item.
    let b = OCRBody::from_str("TC: ,\n");
    assert_eq!(b.TouchedComponents, vec!["".to_string(), "".to_string()]);
}
