use actobase::cli::{
    AccountCommand, AuthCommand, Cli, Command, ImportKeyArgs, QaCadence, QaCommand, QaFocus,
    QaRequestArgs, WatchAuthMode, WatchCommand, WatchMode, WatchRequestArgs,
};
use actobase::client::{HttpRequest, Method};
use actobase::commands::{
    Step, after_response, require_api_key, run, store_if_changed,
    update_stored_account_from_payload,
};
use actobase::config::StoredConfig;
use actobase::json::{Json, JsonNumber};

fn text(s: &str) -> Json {
    Json::Str(s.to_string())
}

fn object(members: Vec<(&str, Json)>) -> Json {
    Json::Object(members.into_iter().map(|(k, v)| (k.to_string(), v)).collect())
}

fn stored(base_url: Option<&str>, account_id: Option<&str>, api_key: Option<&str>) -> StoredConfig {
    StoredConfig {
        base_url: base_url.map(|s| s.to_string()),
        account_id: account_id.map(|s| s.to_string()),
        api_key: api_key.map(|s| s.to_string()),
    }
}

fn cli(command: Command) -> Cli {
    Cli { base_url: "https://actobase.com".to_string(), config: None, command }
}

fn watch_args() -> WatchRequestArgs {
    WatchRequestArgs {
        url: "https://example.com".to_string(),
        mode: WatchMode::Http,
        interval_seconds: 60,
        expect: None,
        webhook: Some("https://hooks.example/x".to_string()),
        name: None,
        email: None,
        auth_mode: WatchAuthMode::ApiKeyOnly,
    }
}

fn account_answer(account_id: &str, token: &str) -> Json {
    object(vec![
        ("ok", Json::Bool(true)),
        (
            "account",
            object(vec![
                ("account_id", text(account_id)),
                ("api_key", object(vec![("token", text(token))])),
            ]),
        ),
    ])
}

#[test]
fn api_values_match_service_names() {
    assert_eq!(WatchMode::Http.as_api_value(), "http");
    assert_eq!(WatchMode::Html.as_api_value(), "html");
    assert_eq!(WatchMode::AiHtml.as_api_value(), "ai_html");
    assert_eq!(WatchMode::AiImage.as_api_value(), "ai_image");
    assert_eq!(WatchAuthMode::ApiKeyOnly.as_api_value(), "api_key_only");
    assert_eq!(WatchAuthMode::ApiKeyPlusEmail.as_api_value(), "api_key_plus_email");
    assert_eq!(QaFocus::Visual.as_api_value(), "visual");
    assert_eq!(QaFocus::Copy.as_api_value(), "copy");
    assert_eq!(QaFocus::VisualCopy.as_api_value(), "visual_copy");
    assert_eq!(QaFocus::Recurring.as_api_value(), "recurring");
    assert_eq!(QaCadence::OneTime.as_api_value(), "one_time");
    assert_eq!(QaCadence::OnDeploy.as_api_value(), "on_deploy");
    assert_eq!(QaCadence::Daily.as_api_value(), "daily");
}

#[test]
fn require_api_key_needs_a_stored_key() {
    assert_eq!(require_api_key(&stored(None, None, Some("aboak_1"))), Ok("aboak_1"));
    assert_eq!(
        require_api_key(&stored(Some("https://actobase.com"), Some("aboacct_1"), None)),
        Err("no stored api key; run `actobase watch request`, `actobase qa request`, or `actobase auth import-key` first".to_string())
    );
}

#[test]
fn update_takes_account_and_key_from_answer() {
    let mut s = stored(Some("https://a"), None, None);
    update_stored_account_from_payload(&mut s, &account_answer("aboacct_9", "aboak_9"));
    assert_eq!(s, stored(Some("https://a"), Some("aboacct_9"), Some("aboak_9")));
}

#[test]
fn update_ignores_missing_or_non_string_fields() {
    let mut s = stored(None, Some("aboacct_1"), Some("aboak_1"));
    let answer = object(vec![(
        "account",
        object(vec![
            ("account_id", Json::Number(JsonNumber::Unsigned(7))),
            ("api_key", text("not an object")),
        ]),
    )]);
    update_stored_account_from_payload(&mut s, &answer);
    assert_eq!(s, stored(None, Some("aboacct_1"), Some("aboak_1")));
    update_stored_account_from_payload(&mut s, &Json::Null);
    assert_eq!(s, stored(None, Some("aboacct_1"), Some("aboak_1")));
}

#[test]
fn update_twice_is_update_once() {
    let answer = account_answer("aboacct_2", "aboak_2");
    let mut once = stored(None, Some("aboacct_1"), None);
    update_stored_account_from_payload(&mut once, &answer);
    let mut twice = stored(None, Some("aboacct_1"), None);
    update_stored_account_from_payload(&mut twice, &answer);
    update_stored_account_from_payload(&mut twice, &answer);
    assert_eq!(once, twice);
}

#[test]
fn store_if_changed_writes_only_an_account() {
    let mut empty = stored(None, None, None);
    assert!(!store_if_changed("https://b", &mut empty));
    assert_eq!(empty, stored(Some("https://b"), None, None));
    let mut with_id = stored(Some("https://a"), Some("aboacct_1"), None);
    assert!(store_if_changed("https://b", &mut with_id));
    assert_eq!(with_id, stored(Some("https://b"), Some("aboacct_1"), None));
    let mut with_key = stored(None, None, Some("aboak_1"));
    assert!(store_if_changed("https://b", &mut with_key));
}

#[test]
fn import_key_saves_key_and_reports() {
    let command = Command::Auth {
        command: AuthCommand::ImportKey(ImportKeyArgs { token: "aboak_test".to_string(), account_id: None }),
    };
    let step = run(cli(command), "/tmp/c.json", &stored(None, Some("aboacct_old"), None)).unwrap();
    assert_eq!(
        step,
        Step::Save {
            config: stored(Some("https://actobase.com"), Some("aboacct_old"), Some("aboak_test")),
            output: object(vec![
                ("ok", Json::Bool(true)),
                ("config_path", text("/tmp/c.json")),
                ("base_url", text("https://actobase.com")),
                ("account_id", text("aboacct_old")),
                ("authenticated", Json::Bool(true)),
            ]),
        }
    );
}

#[test]
fn import_key_with_account_replaces_account() {
    let command = Command::Auth {
        command: AuthCommand::ImportKey(ImportKeyArgs {
            token: "aboak_test".to_string(),
            account_id: Some("aboacct_new".to_string()),
        }),
    };
    match run(cli(command), "/tmp/c.json", &stored(None, Some("aboacct_old"), None)).unwrap() {
        Step::Save { config, .. } => assert_eq!(config.account_id.as_deref(), Some("aboacct_new")),
        other => panic!("unexpected step {:?}", other),
    }
}

#[test]
fn show_reports_masked_key() {
    let command = Command::Auth { command: AuthCommand::Show };
    let s = stored(Some("https://actobase.com"), Some("aboacct_1"), Some("aboak_0123456789abcdef"));
    let step = run(cli(command), "/tmp/c.json", &s).unwrap();
    assert_eq!(
        step,
        Step::Print {
            output: object(vec![
                ("config_path", text("/tmp/c.json")),
                ("base_url", text("https://actobase.com")),
                ("account_id", text("aboacct_1")),
                ("api_key_preview", text("aboak_01...cdef")),
                ("api_key_present", Json::Bool(true)),
                ("authenticated", Json::Bool(true)),
            ]),
        }
    );
}

#[test]
fn show_without_account_reports_nulls() {
    let step = run(cli(Command::Auth { command: AuthCommand::Show }), "p", &stored(None, None, None)).unwrap();
    assert_eq!(
        step,
        Step::Print {
            output: object(vec![
                ("config_path", text("p")),
                ("base_url", Json::Null),
                ("account_id", Json::Null),
                ("api_key_preview", Json::Null),
                ("api_key_present", Json::Bool(false)),
                ("authenticated", Json::Bool(false)),
            ]),
        }
    );
}

#[test]
fn clear_removes_config_and_reports() {
    let step = run(cli(Command::Auth { command: AuthCommand::Clear }), "/tmp/c.json", &stored(None, None, None)).unwrap();
    assert_eq!(
        step,
        Step::Clear {
            output: object(vec![
                ("ok", Json::Bool(true)),
                ("config_path", text("/tmp/c.json")),
                ("cleared", Json::Bool(true)),
            ]),
        }
    );
}

#[test]
fn account_status_without_key_fails() {
    let r = run(cli(Command::Account { command: AccountCommand::Status }), "p", &stored(None, Some("aboacct_1"), None));
    assert_eq!(
        r,
        Err("no stored api key; run `actobase watch request`, `actobase qa request`, or `actobase auth import-key` first".to_string())
    );
}

#[test]
fn account_status_gets_account_with_key() {
    let mut c = cli(Command::Account { command: AccountCommand::Status });
    c.base_url = "https://actobase.com/".to_string();
    let r = run(c, "p", &stored(None, None, Some("aboak_1"))).unwrap();
    assert_eq!(
        r,
        Step::Send {
            request: HttpRequest {
                method: Method::Get,
                base_url: "https://actobase.com/".to_string(),
                path: "/watch/api/account".to_string(),
                url: "https://actobase.com/watch/api/account".to_string(),
                authorization: Some("Bearer aboak_1".to_string()),
                content_type: "application/json".to_string(),
                payload: None,
            },
        }
    );
}

#[test]
fn account_status_refuses_a_key_that_cannot_be_sent() {
    let r = run(cli(Command::Account { command: AccountCommand::Status }), "p", &stored(None, None, Some("aboak\r\nx")));
    assert_eq!(r, Err("invalid api key: failed to parse header value".to_string()));
}

#[test]
fn watch_request_posts_payload_without_key() {
    let r = run(cli(Command::Watch { command: WatchCommand::Request(watch_args()) }), "p", &stored(None, None, None)).unwrap();
    assert_eq!(
        r,
        Step::Send {
            request: HttpRequest {
                method: Method::Post,
                base_url: "https://actobase.com".to_string(),
                path: "/watch/api/start".to_string(),
                url: "https://actobase.com/watch/api/start".to_string(),
                authorization: None,
                content_type: "application/json".to_string(),
                payload: Some(object(vec![
                    ("contact_email", Json::Null),
                    ("auth_mode", text("api_key_only")),
                    ("watch_name", Json::Null),
                    ("target_url", text("https://example.com")),
                    ("mode", text("http")),
                    ("interval_seconds", Json::Number(JsonNumber::Unsigned(60))),
                    ("expected_text", Json::Null),
                    ("webhook_url", text("https://hooks.example/x")),
                ])),
            },
        }
    );
}

#[test]
fn watch_request_reuses_stored_key() {
    let r = run(cli(Command::Watch { command: WatchCommand::Request(watch_args()) }), "p", &stored(None, None, Some("aboak_5"))).unwrap();
    match r {
        Step::Send { request } => assert_eq!(request.authorization.as_deref(), Some("Bearer aboak_5")),
        other => panic!("unexpected step {:?}", other),
    }
}

#[test]
fn qa_request_joins_paths() {
    let args = QaRequestArgs {
        site: "https://site.example".to_string(),
        focus: QaFocus::VisualCopy,
        cadence: QaCadence::Daily,
        paths: vec!["/".to_string(), "/pricing".to_string(), "/docs".to_string()],
        repo: Some("https://github.com/x/y".to_string()),
        concern: None,
        email: Some("me@example.com".to_string()),
    };
    let r = run(cli(Command::Qa { command: QaCommand::Request(args) }), "p", &stored(None, None, Some("aboak_5"))).unwrap();
    assert_eq!(
        r,
        Step::Send {
            request: HttpRequest {
                method: Method::Post,
                base_url: "https://actobase.com".to_string(),
                path: "/qa/api/start".to_string(),
                url: "https://actobase.com/qa/api/start".to_string(),
                authorization: Some("Bearer aboak_5".to_string()),
                content_type: "application/json".to_string(),
                payload: Some(object(vec![
                    ("contact_email", text("me@example.com")),
                    ("site_url", text("https://site.example")),
                    ("qa_focus", text("visual_copy")),
                    ("cadence", text("daily")),
                    ("page_paths", text("/\n/pricing\n/docs")),
                    ("repo_url", text("https://github.com/x/y")),
                    ("priority_concern", Json::Null),
                ])),
            },
        }
    );
}

#[test]
fn qa_request_without_paths_sends_empty_text() {
    let args = QaRequestArgs {
        site: "https://site.example".to_string(),
        focus: QaFocus::Visual,
        cadence: QaCadence::OneTime,
        paths: vec![],
        repo: None,
        concern: Some("layout".to_string()),
        email: None,
    };
    match run(cli(Command::Qa { command: QaCommand::Request(args) }), "p", &stored(None, None, None)).unwrap() {
        Step::Send { request } => match request.payload {
            Some(Json::Object(members)) => {
                assert_eq!(members[4], ("page_paths".to_string(), text("")));
                assert_eq!(members[6], ("priority_concern".to_string(), text("layout")));
            },
            other => panic!("unexpected payload {:?}", other),
        },
        other => panic!("unexpected step {:?}", other),
    }
}

#[test]
fn answer_with_account_is_saved() {
    let answer = account_answer("aboacct_7", "aboak_7");
    let step = after_response("https://actobase.com", &stored(None, None, None), account_answer("aboacct_7", "aboak_7"));
    assert_eq!(
        step,
        Step::Save {
            config: stored(Some("https://actobase.com"), Some("aboacct_7"), Some("aboak_7")),
            output: answer,
        }
    );
}

#[test]
fn answer_without_account_is_only_printed() {
    let answer = object(vec![("ok", Json::Bool(true))]);
    let step = after_response("https://actobase.com", &stored(None, None, None), object(vec![("ok", Json::Bool(true))]));
    assert_eq!(step, Step::Print { output: answer });
}

#[test]
fn answer_keeps_stored_key() {
    let answer = object(vec![("status", text("queued"))]);
    let step = after_response("https://b", &stored(Some("https://a"), None, Some("aboak_1")), object(vec![("status", text("queued"))]));
    assert_eq!(
        step,
        Step::Save { config: stored(Some("https://b"), None, Some("aboak_1")), output: answer }
    );
}

#[test]
fn handed_out_key_is_used_by_next_watch() {
    let step = after_response("https://actobase.com", &stored(None, None, None), account_answer("aboacct_3", "aboak_3"));
    let config = match step {
        Step::Save { config, .. } => config,
        other => panic!("unexpected step {:?}", other),
    };
    match run(cli(Command::Watch { command: WatchCommand::Request(watch_args()) }), "p", &config).unwrap() {
        Step::Send { request } => assert_eq!(request.authorization.as_deref(), Some("Bearer aboak_3")),
        other => panic!("unexpected step {:?}", other),
    }
}

#[test]
fn handed_out_key_is_used_by_next_qa() {
    let step = after_response("https://actobase.com", &stored(None, None, None), account_answer("aboacct_4", "aboak_4"));
    let config = match step {
        Step::Save { config, .. } => config,
        other => panic!("unexpected step {:?}", other),
    };
    let args = QaRequestArgs {
        site: "https://site.example".to_string(),
        focus: QaFocus::Visual,
        cadence: QaCadence::OneTime,
        paths: vec![],
        repo: None,
        concern: None,
        email: None,
    };
    match run(cli(Command::Qa { command: QaCommand::Request(args) }), "p", &config).unwrap() {
        Step::Send { request } => assert_eq!(request.authorization.as_deref(), Some("Bearer aboak_4")),
        other => panic!("unexpected step {:?}", other),
    }
}

#[test]
fn imported_key_is_used_by_account_status() {
    let command = Command::Auth {
        command: AuthCommand::ImportKey(ImportKeyArgs { token: "aboak_imp".to_string(), account_id: None }),
    };
    let config = match run(cli(command), "p", &StoredConfig::default()).unwrap() {
        Step::Save { config, .. } => config,
        other => panic!("unexpected step {:?}", other),
    };
    match run(cli(Command::Account { command: AccountCommand::Status }), "p", &config).unwrap() {
        Step::Send { request } => assert_eq!(request.authorization.as_deref(), Some("Bearer aboak_imp")),
        other => panic!("unexpected step {:?}", other),
    }
}
