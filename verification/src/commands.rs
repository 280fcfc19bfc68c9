//! What each command does, as decisions: from the command, the stored account and the
//! service's answers to the next step that the program performs.
use vstd::prelude::*;

use crate::cli::{
    AccountCommand, AuthCommand, Cli, Command, QaCommand, QaRequestArgs, WatchCommand,
    WatchRequestArgs, qa_cadence_name, qa_focus_name, watch_auth_mode_name, watch_mode_name,
};
use crate::client::{
    HttpRequest, bearer, get_json_request, invalid_key_message, is_get_request, is_post_request,
    post_json_request, valid_header_value,
};
use crate::config::{StoredConfig, StoredModel, copy_text};
use crate::json::{
    Json, JsonModel, JsonNumber, lemma_members_model, members_model, opt_text, text_at, text_of,
    text_or_null, member, member_path,
};
use crate::output::{config_summary, maskable, stored_config_summary, text_or_null_json};
use crate::text::{join, join_strings, texts};

verus! {

/// What the program does next.
#[derive(Debug, PartialEq, Eq)]
pub enum Step {
    /// Write `config` to the config file, then print `output`.
    Save { config: StoredConfig, output: Json },
    /// Remove the config file (one that is not there counts as removed), then print `output`.
    Clear { output: Json },
    /// Print `output`.
    Print { output: Json },
    /// Send `request`; its JSON answer goes to `after_response`.
    Send { request: HttpRequest },
}

/// The message when a command needs an API key and none is stored.
pub open spec fn no_key_message() -> Seq<char> {
    "no stored api key; run `actobase watch request`, `actobase qa request`, or `actobase auth import-key` first"@
}

/// The stored API key, or an error when there is none.
pub fn require_api_key(stored: &StoredConfig) -> (r: Result<&str, String>)
    ensures
        match stored.api_key {
            Some(k) => r matches Ok(s) && s@ == k@,
            None => r matches Err(e) && e@ == no_key_message(),
        },
{
    match &stored.api_key {
        Some(k) => Ok(k.as_str()),
        None => Err(
            String::from_str(
                "no stored api key; run `actobase watch request`, `actobase qa request`, or `actobase auth import-key` first",
            ),
        ),
    }
}

/// Where an answer of the service names the account.
pub open spec fn account_id_path() -> Seq<Seq<char>> {
    seq!["account"@, "account_id"@]
}

/// Where an answer of the service hands out an API key.
pub open spec fn api_token_path() -> Seq<Seq<char>> {
    seq!["account"@, "api_key"@, "token"@]
}

/// The stored account after an answer of the service: the account id and the API key that
/// the answer carries, as strings, replace the stored ones; the rest stays.
pub open spec fn updated_config(s: StoredModel, payload: JsonModel) -> StoredModel {
    StoredModel {
        base_url: s.base_url,
        account_id: match text_at(payload, account_id_path()) {
            Some(t) => Some(t),
            None => s.account_id,
        },
        api_key: match text_at(payload, api_token_path()) {
            Some(t) => Some(t),
            None => s.api_key,
        },
    }
}

proof fn lemma_paths(j: JsonModel)
    ensures
        text_at(j, account_id_path()) == match member(j, "account"@) {
            Some(a) => match member(a, "account_id"@) {
                Some(v) => text_of(v),
                None => None,
            },
            None => None,
        },
        text_at(j, api_token_path()) == match member(j, "account"@) {
            Some(a) => match member(a, "api_key"@) {
                Some(k) => match member(k, "token"@) {
                    Some(v) => text_of(v),
                    None => None,
                },
                None => None,
            },
            None => None,
        },
{
    reveal_with_fuel(member_path, 4);
    let p1 = account_id_path();
    let p2 = api_token_path();
    assert(p1.drop_first() =~= seq!["account_id"@]);
    assert(p1.drop_first().drop_first() =~= Seq::<Seq<char>>::empty());
    assert(p2.drop_first() =~= seq!["api_key"@, "token"@]);
    assert(p2.drop_first().drop_first() =~= seq!["token"@]);
    assert(p2.drop_first().drop_first().drop_first() =~= Seq::<Seq<char>>::empty());
}

/// Takes the account id and the API key from an answer of the service into the stored
/// account.
pub fn update_stored_account_from_payload(stored: &mut StoredConfig, payload: &Json)
    ensures
        final(stored)@ == updated_config(old(stored)@, payload@),
{
    proof {
        lemma_paths(payload@);
    }
    if let Some(account) = payload.get("account") {
        if let Some(id) = account.get("account_id") {
            if let Some(text) = id.as_str() {
                stored.account_id = Some(String::from_str(text));
            }
        }
    }
    if let Some(account) = payload.get("account") {
        if let Some(key) = account.get("api_key") {
            if let Some(token) = key.get("token") {
                if let Some(text) = token.as_str() {
                    stored.api_key = Some(String::from_str(text));
                }
            }
        }
    }
}

/// Whether a stored account is worth writing: it has an API key or an account id.
pub open spec fn worth_storing(s: StoredModel) -> bool {
    s.api_key is Some || s.account_id is Some
}

/// Records `base_url` in the stored account, and says whether to write the account: when it
/// holds an API key or an account id.
pub fn store_if_changed(base_url: &str, stored: &mut StoredConfig) -> (write: bool)
    ensures
        final(stored)@ == (StoredModel { base_url: Some(base_url@), ..old(stored)@ }),
        write == worth_storing(old(stored)@),
{
    stored.base_url = Some(String::from_str(base_url));
    stored.api_key.is_some() || stored.account_id.is_some()
}

/// The request body of `watch request`.
pub open spec fn watch_payload_model(args: WatchRequestArgs) -> JsonModel {
    JsonModel::Object(
        seq![
            ("contact_email"@, text_or_null(opt_text(args.email))),
            ("auth_mode"@, JsonModel::Str(watch_auth_mode_name(args.auth_mode))),
            ("watch_name"@, text_or_null(opt_text(args.name))),
            ("target_url"@, JsonModel::Str(args.url@)),
            ("mode"@, JsonModel::Str(watch_mode_name(args.mode))),
            ("interval_seconds"@, JsonModel::Number(JsonNumber::Unsigned(args.interval_seconds))),
            ("expected_text"@, text_or_null(opt_text(args.expect))),
            ("webhook_url"@, text_or_null(opt_text(args.webhook))),
        ],
    )
}

/// The request body of `watch request`.
pub fn watch_payload(args: WatchRequestArgs) -> (r: Json)
    ensures
        r@ == watch_payload_model(args),
{
    let ghost a = args;
    let auth_mode = String::from_str(args.auth_mode.as_api_value());
    let mode = String::from_str(args.mode.as_api_value());
    let members = vec![
        (String::from_str("contact_email"), text_or_null_json(args.email)),
        (String::from_str("auth_mode"), Json::Str(auth_mode)),
        (String::from_str("watch_name"), text_or_null_json(args.name)),
        (String::from_str("target_url"), Json::Str(args.url)),
        (String::from_str("mode"), Json::Str(mode)),
        (String::from_str("interval_seconds"), Json::Number(JsonNumber::Unsigned(args.interval_seconds))),
        (String::from_str("expected_text"), text_or_null_json(args.expect)),
        (String::from_str("webhook_url"), text_or_null_json(args.webhook)),
    ];
    proof {
        lemma_members_model(members@);
        assert(members_model(members@) =~= watch_payload_model(a)->Object_0);
    }
    Json::Object(members)
}

/// The request body of `qa request`.
pub open spec fn qa_payload_model(args: QaRequestArgs) -> JsonModel {
    JsonModel::Object(
        seq![
            ("contact_email"@, text_or_null(opt_text(args.email))),
            ("site_url"@, JsonModel::Str(args.site@)),
            ("qa_focus"@, JsonModel::Str(qa_focus_name(args.focus))),
            ("cadence"@, JsonModel::Str(qa_cadence_name(args.cadence))),
            ("page_paths"@, JsonModel::Str(join(texts(args.paths@), "\n"@))),
            ("repo_url"@, text_or_null(opt_text(args.repo))),
            ("priority_concern"@, text_or_null(opt_text(args.concern))),
        ],
    )
}

/// The request body of `qa request`.
pub fn qa_payload(args: QaRequestArgs) -> (r: Json)
    ensures
        r@ == qa_payload_model(args),
{
    let ghost a = args;
    let focus = String::from_str(args.focus.as_api_value());
    let cadence = String::from_str(args.cadence.as_api_value());
    let page_paths = join_strings(&args.paths, "\n");
    let members = vec![
        (String::from_str("contact_email"), text_or_null_json(args.email)),
        (String::from_str("site_url"), Json::Str(args.site)),
        (String::from_str("qa_focus"), Json::Str(focus)),
        (String::from_str("cadence"), Json::Str(cadence)),
        (String::from_str("page_paths"), Json::Str(page_paths)),
        (String::from_str("repo_url"), text_or_null_json(args.repo)),
        (String::from_str("priority_concern"), text_or_null_json(args.concern)),
    ];
    proof {
        lemma_members_model(members@);
        assert(members_model(members@) =~= qa_payload_model(a)->Object_0);
    }
    Json::Object(members)
}

/// What `auth import-key` reports after storing the account `c` at `path`.
pub open spec fn import_report(path: Seq<char>, c: StoredModel) -> JsonModel {
    JsonModel::Object(
        seq![
            ("ok"@, JsonModel::Bool(true)),
            ("config_path"@, JsonModel::Str(path)),
            ("base_url"@, text_or_null(c.base_url)),
            ("account_id"@, text_or_null(c.account_id)),
            ("authenticated"@, JsonModel::Bool(c.api_key is Some)),
        ],
    )
}

/// What `auth clear` reports after removing the config at `path`.
pub open spec fn clear_report(path: Seq<char>) -> JsonModel {
    JsonModel::Object(
        seq![
            ("ok"@, JsonModel::Bool(true)),
            ("config_path"@, JsonModel::Str(path)),
            ("cleared"@, JsonModel::Bool(true)),
        ],
    )
}

/// The stored account after `auth import-key`: the key and the base URL replace the stored
/// ones, and the account id does too when one is given.
pub open spec fn imported_config(
    s: StoredModel,
    base_url: Seq<char>,
    token: Seq<char>,
    account_id: Option<Seq<char>>,
) -> StoredModel {
    StoredModel {
        base_url: Some(base_url),
        api_key: Some(token),
        account_id: match account_id {
            Some(a) => Some(a),
            None => s.account_id,
        },
    }
}

/// Whether `step` is what the `auth` command `command` does, with the config at
/// `config_path`, the base URL `base_url` and the stored account `stored`.
pub open spec fn auth_step(
    command: AuthCommand,
    config_path: Seq<char>,
    base_url: Seq<char>,
    stored: StoredModel,
    step: Step,
) -> bool {
    match command {
        AuthCommand::ImportKey(args) => {
            let c = imported_config(stored, base_url, args.token@, opt_text(args.account_id));
            step matches Step::Save { config, output } && config@ == c && output@ == import_report(
                config_path,
                c,
            )
        },
        AuthCommand::Show => step matches Step::Print { output } && output@ == config_summary(
            stored,
            config_path,
        ),
        AuthCommand::Clear => step matches Step::Clear { output } && output@ == clear_report(
            config_path,
        ),
    }
}

/// Whether the stored account can be shown (see `maskable`).
pub open spec fn showable(stored: StoredModel) -> bool {
    stored.api_key matches Some(k) ==> maskable(k)
}

/// The `auth` commands: store a key, show the stored account, or remove it.
pub fn run_auth(command: AuthCommand, config_path: &str, base_url: &str, stored: &StoredConfig) -> (r:
    Step)
    requires
        command is Show ==> showable(stored@),
    ensures
        auth_step(command, config_path@, base_url@, stored@, r),
{
    match command {
        AuthCommand::ImportKey(args) => {
            let ghost token = args.token@;
            let ghost given = opt_text(args.account_id);
            let account_id = match args.account_id {
                Some(a) => Some(a),
                None => copy_text(&stored.account_id),
            };
            let config = StoredConfig {
                base_url: Some(String::from_str(base_url)),
                account_id,
                api_key: Some(args.token),
            };
            let members = vec![
                (String::from_str("ok"), Json::Bool(true)),
                (String::from_str("config_path"), Json::Str(String::from_str(config_path))),
                (String::from_str("base_url"), text_or_null_json(copy_text(&config.base_url))),
                (String::from_str("account_id"), text_or_null_json(copy_text(&config.account_id))),
                (String::from_str("authenticated"), Json::Bool(config.api_key.is_some())),
            ];
            proof {
                lemma_members_model(members@);
                assert(config@ == imported_config(stored@, base_url@, token, given));
                assert(members_model(members@) =~= import_report(config_path@, config@)->Object_0);
            }
            Step::Save { config, output: Json::Object(members) }
        },
        AuthCommand::Show => Step::Print { output: stored_config_summary(stored, config_path) },
        AuthCommand::Clear => {
            let members = vec![
                (String::from_str("ok"), Json::Bool(true)),
                (String::from_str("config_path"), Json::Str(String::from_str(config_path))),
                (String::from_str("cleared"), Json::Bool(true)),
            ];
            proof {
                lemma_members_model(members@);
                assert(members_model(members@) =~= clear_report(config_path@)->Object_0);
            }
            Step::Clear { output: Json::Object(members) }
        },
    }
}

/// Whether `r` is what the `account` command `command` comes to, with the base URL
/// `base_url` and the stored account `stored`.
pub open spec fn account_outcome(
    command: AccountCommand,
    base_url: Seq<char>,
    stored: StoredModel,
    r: Result<Step, String>,
) -> bool {
    match command {
        AccountCommand::Status => match stored.api_key {
            Some(k) => if valid_header_value(bearer(k)) {
                r matches Ok(step) && step matches Step::Send { request } && is_get_request(
                    request,
                    base_url,
                    "/watch/api/account"@,
                    k,
                )
            } else {
                r matches Err(e) && e@ == invalid_key_message()
            },
            None => r matches Err(e) && e@ == no_key_message(),
        },
    }
}

/// The `account` commands: ask the service about the stored account.
pub fn run_account(command: AccountCommand, base_url: &str, stored: &StoredConfig) -> (r: Result<
    Step,
    String,
>)
    ensures
        account_outcome(command, base_url@, stored@, r),
{
    match command {
        AccountCommand::Status => {
            let api_key = require_api_key(stored)?;
            let request = get_json_request(base_url, "/watch/api/account", api_key)?;
            Ok(Step::Send { request })
        },
    }
}

/// Whether `step` is what the `watch` command `command` does.
pub open spec fn watch_step(command: WatchCommand, base_url: Seq<char>, stored: StoredModel, step: Step) -> bool {
    match command {
        WatchCommand::Request(args) => step matches Step::Send { request } && is_post_request(
            request,
            base_url,
            "/watch/api/start"@,
            watch_payload_model(args),
            stored.api_key,
        ),
    }
}

/// The `watch` commands: ask the service to start a watch, with the stored key if any.
pub fn run_watch(command: WatchCommand, base_url: &str, stored: &StoredConfig) -> (r: Step)
    ensures
        watch_step(command, base_url@, stored@, r),
{
    match command {
        WatchCommand::Request(args) => {
            let payload = watch_payload(args);
            let api_key = match &stored.api_key {
                Some(k) => Some(k.as_str()),
                None => None,
            };
            Step::Send { request: post_json_request(base_url, "/watch/api/start", payload, api_key) }
        },
    }
}

/// Whether `step` is what the `qa` command `command` does.
pub open spec fn qa_step(command: QaCommand, base_url: Seq<char>, stored: StoredModel, step: Step) -> bool {
    match command {
        QaCommand::Request(args) => step matches Step::Send { request } && is_post_request(
            request,
            base_url,
            "/qa/api/start"@,
            qa_payload_model(args),
            stored.api_key,
        ),
    }
}

/// The `qa` commands: ask the service for QA of a site, with the stored key if any.
pub fn run_qa(command: QaCommand, base_url: &str, stored: &StoredConfig) -> (r: Step)
    ensures
        qa_step(command, base_url@, stored@, r),
{
    match command {
        QaCommand::Request(args) => {
            let payload = qa_payload(args);
            let api_key = match &stored.api_key {
                Some(k) => Some(k.as_str()),
                None => None,
            };
            Step::Send { request: post_json_request(base_url, "/qa/api/start", payload, api_key) }
        },
    }
}

/// Whether `r` is what the command line `cli` comes to, with the config at `config_path`
/// holding `stored`.
pub open spec fn run_outcome(cli: Cli, config_path: Seq<char>, stored: StoredModel, r: Result<Step, String>) -> bool {
    match cli.command {
        Command::Auth { command } => r matches Ok(step) && auth_step(
            command,
            config_path,
            cli.base_url@,
            stored,
            step,
        ),
        Command::Account { command } => account_outcome(command, cli.base_url@, stored, r),
        Command::Watch { command } => r matches Ok(step) && watch_step(
            command,
            cli.base_url@,
            stored,
            step,
        ),
        Command::Qa { command } => r matches Ok(step) && qa_step(command, cli.base_url@, stored, step),
    }
}

/// The first step of the command line `cli`, with the config at `config_path` holding
/// `stored`.
pub fn run(cli: Cli, config_path: &str, stored: &StoredConfig) -> (r: Result<Step, String>)
    requires
        cli.command matches Command::Auth { command } && command is Show ==> showable(stored@),
    ensures
        run_outcome(cli, config_path@, stored@, r),
{
    let base_url = cli.base_url;
    match cli.command {
        Command::Auth { command } => Ok(run_auth(command, config_path, base_url.as_str(), stored)),
        Command::Account { command } => run_account(command, base_url.as_str(), stored),
        Command::Watch { command } => Ok(run_watch(command, base_url.as_str(), stored)),
        Command::Qa { command } => Ok(run_qa(command, base_url.as_str(), stored)),
    }
}

/// Whether `step` is what follows the answer `payload` of the service, with the base URL
/// `base_url` and the stored account `stored`: the account taken from the answer is saved
/// when it is worth storing, and the answer is printed.
pub open spec fn response_step(base_url: Seq<char>, stored: StoredModel, payload: Json, step: Step) -> bool {
    let u = updated_config(stored, payload@);
    if worth_storing(u) {
        step matches Step::Save { config, output } && config@ == (StoredModel {
            base_url: Some(base_url),
            ..u
        }) && output == payload
    } else {
        step matches Step::Print { output } && output == payload
    }
}

/// What follows the JSON answer `payload` of the service.
pub fn after_response(base_url: &str, stored: &StoredConfig, payload: Json) -> (r: Step)
    ensures
        response_step(base_url@, stored@, payload, r),
{
    let mut config = stored.copy();
    update_stored_account_from_payload(&mut config, &payload);
    if store_if_changed(base_url, &mut config) {
        Step::Save { config, output: payload }
    } else {
        Step::Print { output: payload }
    }
}

} // verus!
