//! Properties of the client that span its operations.
use vstd::prelude::*;

use crate::cli::{
    AccountCommand, AuthCommand, ImportKeyArgs, QaCadence, QaCommand, QaRequestArgs,
    WatchRequestArgs, QaFocus, WatchAuthMode, WatchCommand, WatchMode,
    qa_cadence_name, qa_focus_name, watch_auth_mode_name, watch_mode_name,
};
use crate::client::{Method, ResponseBody, json_response_outcome, read_json_response, bearer, invalid_key_message, joined_url, valid_header_value};
use crate::commands::{
    account_id_path, after_response, qa_payload, run_account, run_qa, run_watch, qa_payload_model, run_auth, watch_payload,
    watch_payload_model,
    Step, account_outcome, api_token_path, auth_step, qa_step, response_step, updated_config, watch_step,
};
use crate::config::{StoredConfig, StoredModel};
use crate::json::{Json, JsonModel, JsonNumber, first_member, json_reading, member, opt_text, text_at};
use crate::output::{config_summary, maskable, masked_key};
use vstd::utf8::{decode_utf8, encode_utf8, valid_utf8_split, decode_utf8_encode_utf8, encode_utf8_valid_utf8};
use crate::text::{join, texts, trim_end, trim_start};

verus! {

/// Once a key is stored, a watch request and a QA request carry it.
pub proof fn stored_key_is_sent(
    watch: WatchCommand,
    qa: QaCommand,
    base_url: Seq<char>,
    stored: StoredModel,
    watch_step_taken: Step,
    qa_step_taken: Step,
)
    requires
        stored.api_key is Some,
        watch_step(watch, base_url, stored, watch_step_taken),
        qa_step(qa, base_url, stored, qa_step_taken),
    ensures
        watch_step_taken matches Step::Send { request } && request.authorization matches Some(a)
            && a@ == bearer(stored.api_key->0),
        qa_step_taken matches Step::Send { request } && request.authorization matches Some(a)
            && a@ == bearer(stored.api_key->0),
{
}

/// An answer of the service never loses a stored key: the account is saved, with the key
/// that the answer hands out, or else the stored one.
pub proof fn answer_keeps_key(base_url: Seq<char>, stored: StoredModel, payload: Json, step: Step)
    requires
        stored.api_key is Some,
        response_step(base_url, stored, payload, step),
    ensures
        step matches Step::Save { config, output } && config@.api_key == match text_at(
            payload@,
            api_token_path(),
        ) {
            Some(t) => Some(t),
            None => stored.api_key,
        },
{
}

/// A key that an answer of the service hands out is saved, with the base URL that was used.
pub proof fn handed_out_key_is_saved(
    base_url: Seq<char>,
    stored: StoredModel,
    payload: Json,
    step: Step,
    token: Seq<char>,
)
    requires
        text_at(payload@, api_token_path()) == Some(token),
        response_step(base_url, stored, payload, step),
    ensures
        step matches Step::Save { config, output } && config@.api_key == Some(token)
            && config@.base_url == Some(base_url) && output == payload,
{
}

/// Once an answer of the service has handed out a key, the next watch request and the next
/// QA request made with the saved account carry that key, so they reuse the same account.
pub proof fn handed_out_key_is_reused(
    base_url: Seq<char>,
    stored: StoredModel,
    payload: Json,
    answered: Step,
    token: Seq<char>,
    watch: WatchCommand,
    qa: QaCommand,
    next_base_url: Seq<char>,
    next_watch: Step,
    next_qa: Step,
)
    requires
        text_at(payload@, api_token_path()) == Some(token),
        response_step(base_url, stored, payload, answered),
        answered is Save,
        watch_step(watch, next_base_url, answered->Save_config@, next_watch),
        qa_step(qa, next_base_url, answered->Save_config@, next_qa),
    ensures
        next_watch matches Step::Send { request } && request.authorization matches Some(a) && a@
            == bearer(token),
        next_qa matches Step::Send { request } && request.authorization matches Some(a) && a@
            == bearer(token),
{
}

/// A key stored by `auth import-key` is the one that `account status` then sends; a key that
/// cannot be sent in a header is refused with the same error whenever it is used.
pub proof fn imported_key_is_used(
    command: AuthCommand,
    config_path: Seq<char>,
    base_url: Seq<char>,
    stored: StoredModel,
    imported: Step,
    status_base_url: Seq<char>,
    status: Result<Step, String>,
)
    requires
        command is ImportKey,
        auth_step(command, config_path, base_url, stored, imported),
        imported is Save,
        account_outcome(AccountCommand::Status, status_base_url, imported->Save_config@, status),
    ensures
        if valid_header_value(bearer(command->ImportKey_0.token@)) {
            status matches Ok(step) && step matches Step::Send { request }
                && request.authorization matches Some(a) && a@ == bearer(command->ImportKey_0.token@)
        } else {
            status matches Err(e) && e@ == invalid_key_message()
        },
{
}

/// Taking the account from the same answer twice changes nothing more than taking it once.
pub proof fn update_is_idempotent(stored: StoredModel, payload: JsonModel)
    ensures
        updated_config(updated_config(stored, payload), payload) == updated_config(stored, payload),
{
}

/// After `auth import-key`, the saved account holds the key, and showing it reports the
/// account as authenticated.
pub proof fn imported_key_is_authenticated(
    command: AuthCommand,
    config_path: Seq<char>,
    base_url: Seq<char>,
    stored: StoredModel,
    step: Step,
)
    requires
        command is ImportKey,
        auth_step(command, config_path, base_url, stored, step),
    ensures
        step matches Step::Save { config, output } && config@.api_key == Some(
            command->ImportKey_0.token@,
        ) && member(config_summary(config@, config_path), "authenticated"@) == Some(
            JsonModel::Bool(true),
        ) && member(config_summary(config@, config_path), "api_key_present"@) == Some(
            JsonModel::Bool(true),
        ),
{
    reveal_strlit("config_path");
    reveal_strlit("base_url");
    reveal_strlit("account_id");
    reveal_strlit("api_key_preview");
    reveal_strlit("api_key_present");
    reveal_strlit("authenticated");
    reveal_with_fuel(first_member, 7);
    let config = step->Save_config;
    let m = config_summary(config@, config_path)->Object_0;
    assert(m.drop_first()[0] == m[1]);
    assert(m.drop_first().drop_first()[0] == m[2]);
    assert(m.drop_first().drop_first().drop_first()[0] == m[3]);
    assert(m.drop_first().drop_first().drop_first().drop_first()[0] == m[4]);
    assert(m.drop_first().drop_first().drop_first().drop_first().drop_first()[0] == m[5]);
    assert(m[0].0.len() != "authenticated"@.len());
    assert(m[1].0.len() != "authenticated"@.len());
    assert(m[2].0.len() != "authenticated"@.len());
    assert(m[3].0.len() != "authenticated"@.len());
    assert(m[4].0.len() != "authenticated"@.len());
    assert(m[0].0.len() != "api_key_present"@.len());
    assert(m[1].0.len() != "api_key_present"@.len());
    assert(m[2].0.len() != "api_key_present"@.len());
    assert(m[3].0[11] != "api_key_present"@[11]);
}

proof fn lemma_trim_end_extra(s: Seq<char>, c: char)
    ensures
        trim_end(s.push(c), c) == trim_end(s, c),
{
    assert(s.push(c).drop_last() =~= s);
}

proof fn lemma_trim_start_extra(s: Seq<char>, c: char)
    ensures
        trim_start(seq![c] + s, c) == trim_start(s, c),
{
    assert((seq![c] + s).drop_first() =~= s);
}

/// Slashes at the end of the base URL, or at the start of the path, do not change the URL of
/// a request.
pub proof fn extra_slashes_do_not_matter(base_url: Seq<char>, path: Seq<char>)
    ensures
        joined_url(base_url.push('/'), path) == joined_url(base_url, path),
        joined_url(base_url, seq!['/'] + path) == joined_url(base_url, path),
{
    lemma_trim_end_extra(base_url, '/');
    lemma_trim_start_extra(path, '/');
}

/// Different choices are known to the service by different names.
pub proof fn api_names_are_distinct(
    m1: WatchMode,
    m2: WatchMode,
    a1: WatchAuthMode,
    a2: WatchAuthMode,
    f1: QaFocus,
    f2: QaFocus,
    c1: QaCadence,
    c2: QaCadence,
)
    ensures
        m1 != m2 ==> watch_mode_name(m1) != watch_mode_name(m2),
        a1 != a2 ==> watch_auth_mode_name(a1) != watch_auth_mode_name(a2),
        f1 != f2 ==> qa_focus_name(f1) != qa_focus_name(f2),
        c1 != c2 ==> qa_cadence_name(c1) != qa_cadence_name(c2),
{
    reveal_strlit("http");
    reveal_strlit("html");
    reveal_strlit("ai_html");
    reveal_strlit("ai_image");
    reveal_strlit("api_key_only");
    reveal_strlit("api_key_plus_email");
    reveal_strlit("visual");
    reveal_strlit("copy");
    reveal_strlit("visual_copy");
    reveal_strlit("recurring");
    reveal_strlit("one_time");
    reveal_strlit("on_deploy");
    reveal_strlit("daily");
    if m1 != m2 {
        assert(watch_mode_name(m1).len() != watch_mode_name(m2).len() || watch_mode_name(m1)[3]
            != watch_mode_name(m2)[3]);
    }
    if a1 != a2 {
        assert(watch_auth_mode_name(a1).len() != watch_auth_mode_name(a2).len());
    }
    if f1 != f2 {
        assert(qa_focus_name(f1).len() != qa_focus_name(f2).len() || qa_focus_name(f1)[0]
            != qa_focus_name(f2)[0]);
    }
    if c1 != c2 {
        assert(qa_cadence_name(c1).len() != qa_cadence_name(c2).len() || qa_cadence_name(c1)[1]
            != qa_cadence_name(c2)[1]);
    }
}

proof fn lemma_encode_concat(a: Seq<char>, b: Seq<char>)
    ensures
        encode_utf8(a + b) == encode_utf8(a) + encode_utf8(b),
    decreases a.len(),
{
    if a.len() == 0 {
        assert(a + b =~= b);
        assert(encode_utf8(a) + encode_utf8(b) =~= encode_utf8(b));
    } else {
        lemma_encode_concat(a.drop_first(), b);
        assert((a + b).drop_first() =~= a.drop_first() + b);
        assert(encode_utf8(a + b) =~= encode_utf8(a) + encode_utf8(b));
    }
}

/// The preview of a key longer than 12 bytes shows 12 of its bytes and no more: its first 8
/// and its last 4, with `...` between them.
pub proof fn long_keys_are_cut(key: Seq<char>)
    requires
        maskable(key),
        encode_utf8(key).len() > 12,
    ensures
        encode_utf8(masked_key(key)) == encode_utf8(key).subrange(0, 8) + encode_utf8("..."@)
            + encode_utf8(key).subrange(encode_utf8(key).len() - 4, encode_utf8(key).len() as int),
        encode_utf8(masked_key(key)).len() == 15,
{
    let bytes = encode_utf8(key);
    let n = bytes.len() as int;
    encode_utf8_valid_utf8(key);
    valid_utf8_split(bytes, 8);
    valid_utf8_split(bytes, n - 4);
    let head = bytes.subrange(0, 8);
    let tail = bytes.subrange(n - 4, n);
    decode_utf8_encode_utf8(head);
    decode_utf8_encode_utf8(tail);
    lemma_encode_concat(decode_utf8(head) + "..."@, decode_utf8(tail));
    lemma_encode_concat(decode_utf8(head), "..."@);
    reveal_strlit("...");
    reveal_with_fuel(encode_utf8, 4);
    assert("..."@.drop_first() =~= seq!['.', '.']);
    assert("..."@.drop_first().drop_first() =~= seq!['.']);
    assert("..."@.drop_first().drop_first().drop_first() =~= Seq::<char>::empty());
    assert(encode_utf8("..."@).len() == 3);
}


/// The first member named `key` is the one at `k` when no member before it has that name.
proof fn lemma_first_member_at(m: Seq<(Seq<char>, JsonModel)>, key: Seq<char>, k: int)
    requires
        0 <= k < m.len(),
        m[k].0 == key,
        forall|i: int| 0 <= i < k ==> m[i].0 != key,
    ensures
        first_member(m, key) == Some(m[k].1),
    decreases k,
{
    if k > 0 {
        assert forall|i: int| 0 <= i < k - 1 implies m.drop_first()[i].0 != key by {
            assert(m.drop_first()[i] == m[i + 1]);
        }
        lemma_first_member_at(m.drop_first(), key, k - 1);
    }
}

/// An answer whose `account.account_id` is a string records that account id, and one whose
/// `account.api_key.token` is a string records that key, each whatever else the answer holds;
/// what the answer does not name stays as stored.
pub proof fn answer_account_is_recorded(stored: StoredModel, payload: JsonModel)
    ensures
        updated_config(stored, payload).account_id == match text_at(
            payload,
            seq!["account"@, "account_id"@],
        ) {
            Some(t) => Some(t),
            None => stored.account_id,
        },
        updated_config(stored, payload).api_key == match text_at(
            payload,
            seq!["account"@, "api_key"@, "token"@],
        ) {
            Some(k) => Some(k),
            None => stored.api_key,
        },
        updated_config(stored, payload).base_url == stored.base_url,
{
    assert(account_id_path() =~= seq!["account"@, "account_id"@]);
    assert(api_token_path() =~= seq!["account"@, "api_key"@, "token"@]);
}

/// After an answer that names the account by the string `t`, the account is saved with that
/// id and the base URL that was used, whether or not the answer also hands out a key.
pub proof fn answered_account_id_is_saved(
    base_url: &str,
    stored: &StoredConfig,
    payload: Json,
    t: Seq<char>,
    step: Step,
)
    requires
        text_at(payload@, seq!["account"@, "account_id"@]) == Some(t),
        call_ensures(after_response, (base_url, stored, payload), step),
    ensures
        step matches Step::Save { config, output } && config@.account_id == Some(t)
            && config@.base_url == Some(base_url@) && output == payload,
{
    answer_account_is_recorded(stored@, payload@);
}

/// Every 2xx answer whose body is JSON is a success: its outcome is that JSON value; any
/// other status is an error.
pub proof fn every_2xx_answer_is_a_success(
    status: u16,
    body: &str,
    value: Json,
    compact: Option<String>,
    r: Result<Json, String>,
)
    requires
        call_ensures(json_response_outcome, (status, body, ResponseBody::Parsed { value, compact }), r),
    ensures
        200 <= status <= 299 ==> r == Ok::<Json, String>(value),
        !(200 <= status <= 299) ==> r is Err,
{
}

/// Reading an answer: a 2xx status with a JSON body gives that JSON value, and any other
/// status gives an error.
pub proof fn every_2xx_json_body_is_read(status: u16, body: &str, r: Result<Json, String>)
    requires
        json_reading(body@) is Ok,
        call_ensures(read_json_response, (status, body), r),
    ensures
        if 200 <= status <= 299 {
            r matches Ok(j) && j@ == json_reading(body@)->Ok_0
        } else {
            r is Err
        },
{
}

/// `null` for no text, else the JSON string of the text.
pub open spec fn string_or_null(o: Option<String>) -> JsonModel {
    match o {
        Some(t) => JsonModel::Str(t@),
        None => JsonModel::Null,
    }
}

/// The QA request body carries what was asked: the email, the site, the focus and the
/// cadence by their service names, the page paths joined by newlines, the repository and the
/// concern.
pub proof fn qa_payload_carries_the_request(args: QaRequestArgs, r: Json)
    requires
        call_ensures(qa_payload, (args,), r),
    ensures
        member(r@, "contact_email"@) == Some(string_or_null(args.email)),
        member(r@, "site_url"@) == Some(JsonModel::Str(args.site@)),
        member(r@, "qa_focus"@) == Some(JsonModel::Str(qa_focus_name(args.focus))),
        member(r@, "cadence"@) == Some(JsonModel::Str(qa_cadence_name(args.cadence))),
        member(r@, "page_paths"@) == Some(JsonModel::Str(join(texts(args.paths@), seq!['\n']))),
        member(r@, "repo_url"@) == Some(string_or_null(args.repo)),
        member(r@, "priority_concern"@) == Some(string_or_null(args.concern)),
{
    let m = qa_payload_model(args)->Object_0;
    reveal_strlit("contact_email");
    reveal_strlit("site_url");
    reveal_strlit("qa_focus");
    reveal_strlit("cadence");
    reveal_strlit("page_paths");
    reveal_strlit("repo_url");
    reveal_strlit("priority_concern");
    reveal_strlit("\n");
    assert("\n"@ =~= seq!['\n']);
    lemma_first_member_at(m, "contact_email"@, 0);
    assert(m[0].0.len() != "site_url"@.len());
    lemma_first_member_at(m, "site_url"@, 1);
    assert(m[0].0.len() != "qa_focus"@.len());
    assert(m[1].0[0] != "qa_focus"@[0]);
    lemma_first_member_at(m, "qa_focus"@, 2);
    assert(m[0].0.len() != "cadence"@.len());
    assert(m[1].0.len() != "cadence"@.len());
    assert(m[2].0.len() != "cadence"@.len());
    lemma_first_member_at(m, "cadence"@, 3);
    assert(m[0].0.len() != "page_paths"@.len());
    assert(m[1].0.len() != "page_paths"@.len());
    assert(m[2].0.len() != "page_paths"@.len());
    assert(m[3].0.len() != "page_paths"@.len());
    lemma_first_member_at(m, "page_paths"@, 4);
    assert(m[0].0.len() != "repo_url"@.len());
    assert(m[1].0[0] != "repo_url"@[0]);
    assert(m[2].0[0] != "repo_url"@[0]);
    assert(m[3].0.len() != "repo_url"@.len());
    assert(m[4].0.len() != "repo_url"@.len());
    lemma_first_member_at(m, "repo_url"@, 5);
    assert(m[0].0.len() != "priority_concern"@.len());
    assert(m[1].0.len() != "priority_concern"@.len());
    assert(m[2].0.len() != "priority_concern"@.len());
    assert(m[3].0.len() != "priority_concern"@.len());
    assert(m[4].0.len() != "priority_concern"@.len());
    assert(m[5].0.len() != "priority_concern"@.len());
    lemma_first_member_at(m, "priority_concern"@, 6);
}

/// Two QA requests asked with different cadences, or different focuses, send different
/// bodies.
pub proof fn qa_choices_reach_the_service(a1: QaRequestArgs, a2: QaRequestArgs, r1: Json, r2: Json)
    requires
        a1.cadence != a2.cadence || a1.focus != a2.focus,
        call_ensures(qa_payload, (a1,), r1),
        call_ensures(qa_payload, (a2,), r2),
    ensures
        r1@ != r2@,
{
    qa_payload_carries_the_request(a1, r1);
    qa_payload_carries_the_request(a2, r2);
    api_names_are_distinct(
        WatchMode::Http,
        WatchMode::Http,
        WatchAuthMode::ApiKeyOnly,
        WatchAuthMode::ApiKeyOnly,
        a1.focus,
        a2.focus,
        a1.cadence,
        a2.cadence,
    );
}

/// The watch request body carries what was asked: the email, the auth mode and the mode by
/// their service names, the name, the URL, the interval, the expected text and the webhook.
pub proof fn watch_payload_carries_the_request(args: WatchRequestArgs, r: Json)
    requires
        call_ensures(watch_payload, (args,), r),
    ensures
        member(r@, "contact_email"@) == Some(string_or_null(args.email)),
        member(r@, "auth_mode"@) == Some(JsonModel::Str(watch_auth_mode_name(args.auth_mode))),
        member(r@, "watch_name"@) == Some(string_or_null(args.name)),
        member(r@, "target_url"@) == Some(JsonModel::Str(args.url@)),
        member(r@, "mode"@) == Some(JsonModel::Str(watch_mode_name(args.mode))),
        member(r@, "interval_seconds"@) == Some(
            JsonModel::Number(JsonNumber::Unsigned(args.interval_seconds)),
        ),
        member(r@, "expected_text"@) == Some(string_or_null(args.expect)),
        member(r@, "webhook_url"@) == Some(string_or_null(args.webhook)),
{
    let m = watch_payload_model(args)->Object_0;
    reveal_strlit("contact_email");
    reveal_strlit("auth_mode");
    reveal_strlit("watch_name");
    reveal_strlit("target_url");
    reveal_strlit("mode");
    reveal_strlit("interval_seconds");
    reveal_strlit("expected_text");
    reveal_strlit("webhook_url");
    lemma_first_member_at(m, "contact_email"@, 0);
    assert(m[0].0.len() != "auth_mode"@.len());
    lemma_first_member_at(m, "auth_mode"@, 1);
    assert(m[0].0.len() != "watch_name"@.len());
    assert(m[1].0.len() != "watch_name"@.len());
    lemma_first_member_at(m, "watch_name"@, 2);
    assert(m[0].0.len() != "target_url"@.len());
    assert(m[1].0.len() != "target_url"@.len());
    assert(m[2].0[0] != "target_url"@[0]);
    lemma_first_member_at(m, "target_url"@, 3);
    assert(m[0].0.len() != "mode"@.len());
    assert(m[1].0.len() != "mode"@.len());
    assert(m[2].0.len() != "mode"@.len());
    assert(m[3].0.len() != "mode"@.len());
    lemma_first_member_at(m, "mode"@, 4);
    assert(m[0].0.len() != "interval_seconds"@.len());
    assert(m[1].0.len() != "interval_seconds"@.len());
    assert(m[2].0.len() != "interval_seconds"@.len());
    assert(m[3].0.len() != "interval_seconds"@.len());
    assert(m[4].0.len() != "interval_seconds"@.len());
    lemma_first_member_at(m, "interval_seconds"@, 5);
    assert(m[0].0[0] != "expected_text"@[0]);
    assert(m[1].0.len() != "expected_text"@.len());
    assert(m[2].0.len() != "expected_text"@.len());
    assert(m[3].0.len() != "expected_text"@.len());
    assert(m[4].0.len() != "expected_text"@.len());
    assert(m[5].0.len() != "expected_text"@.len());
    lemma_first_member_at(m, "expected_text"@, 6);
    assert(m[0].0.len() != "webhook_url"@.len());
    assert(m[1].0.len() != "webhook_url"@.len());
    assert(m[2].0.len() != "webhook_url"@.len());
    assert(m[3].0.len() != "webhook_url"@.len());
    assert(m[4].0.len() != "webhook_url"@.len());
    assert(m[5].0.len() != "webhook_url"@.len());
    assert(m[6].0.len() != "webhook_url"@.len());
    lemma_first_member_at(m, "webhook_url"@, 7);
}

/// Two watch requests asked with different modes, or different auth modes, send different
/// bodies.
pub proof fn watch_choices_reach_the_service(
    a1: WatchRequestArgs,
    a2: WatchRequestArgs,
    r1: Json,
    r2: Json,
)
    requires
        a1.mode != a2.mode || a1.auth_mode != a2.auth_mode,
        call_ensures(watch_payload, (a1,), r1),
        call_ensures(watch_payload, (a2,), r2),
    ensures
        r1@ != r2@,
{
    watch_payload_carries_the_request(a1, r1);
    watch_payload_carries_the_request(a2, r2);
    api_names_are_distinct(
        a1.mode,
        a2.mode,
        a1.auth_mode,
        a2.auth_mode,
        QaFocus::Visual,
        QaFocus::Visual,
        QaCadence::OneTime,
        QaCadence::OneTime,
    );
}

/// `auth import-key` saves the key and the base URL it is given, and the account id when one
/// is given, whatever was stored before; without one the stored account id stays. Its report
/// names the account id that was saved.
pub proof fn import_key_records_what_it_is_given(
    args: ImportKeyArgs,
    config_path: &str,
    base_url: &str,
    stored: &StoredConfig,
    step: Step,
)
    requires
        call_ensures(run_auth, (AuthCommand::ImportKey(args), config_path, base_url, stored), step),
    ensures
        step matches Step::Save { config, output } && config@.api_key == Some(args.token@)
            && config@.base_url == Some(base_url@) && config@.account_id == match args.account_id {
            Some(a) => Some(a@),
            None => stored@.account_id,
        } && member(output@, "account_id"@) == Some(
            match config@.account_id {
                Some(a) => JsonModel::Str(a),
                None => JsonModel::Null,
            },
        ),
{
    let c = step->Save_config;
    let m = step->Save_output@->Object_0;
    reveal_strlit("ok");
    reveal_strlit("config_path");
    reveal_strlit("base_url");
    reveal_strlit("account_id");
    assert(m[0].0.len() != "account_id"@.len());
    assert(m[1].0.len() != "account_id"@.len());
    assert(m[2].0.len() != "account_id"@.len());
    lemma_first_member_at(m, "account_id"@, 3);
}

/// A path that starts with one `/` and then not another joins as itself.
proof fn lemma_join_rooted(base_url: Seq<char>, path: Seq<char>)
    requires
        path.len() > 1,
        path[0] == '/',
        path[1] != '/',
    ensures
        joined_url(base_url, path) == trim_end(base_url, '/') + path,
{
    reveal_with_fuel(trim_start, 2);
    assert(path.drop_first()[0] == path[1]);
    assert(seq!['/'] + path.drop_first() =~= path);
}

/// `watch request` is a POST to `/watch/api/start` under the base URL, of JSON, with the
/// stored key when there is one.
pub proof fn watch_request_goes_to_watch_start(
    command: WatchCommand,
    base_url: &str,
    stored: &StoredConfig,
    step: Step,
)
    requires
        call_ensures(run_watch, (command, base_url, stored), step),
    ensures
        step matches Step::Send { request } && request.method == Method::Post && request.url@ == trim_end(
            base_url@,
            '/',
        ) + "/watch/api/start"@ && request.content_type@ == "application/json"@ && request.payload
            is Some && opt_text(request.authorization) == match stored@.api_key {
            Some(k) => Some("Bearer "@ + k),
            None => None::<Seq<char>>,
        },
{
    reveal_strlit("/watch/api/start");
    lemma_join_rooted(base_url@, "/watch/api/start"@);
    let request = step->Send_request;
    match request.authorization {
        Some(a) => assert(opt_text(request.authorization) == Some(a@)),
        None => {},
    }
}

/// `qa request` is a POST to `/qa/api/start` under the base URL, of JSON, with the stored key
/// when there is one.
pub proof fn qa_request_goes_to_qa_start(
    command: QaCommand,
    base_url: &str,
    stored: &StoredConfig,
    step: Step,
)
    requires
        call_ensures(run_qa, (command, base_url, stored), step),
    ensures
        step matches Step::Send { request } && request.method == Method::Post && request.url@ == trim_end(
            base_url@,
            '/',
        ) + "/qa/api/start"@ && request.content_type@ == "application/json"@ && request.payload
            is Some && opt_text(request.authorization) == match stored@.api_key {
            Some(k) => Some("Bearer "@ + k),
            None => None::<Seq<char>>,
        },
{
    reveal_strlit("/qa/api/start");
    lemma_join_rooted(base_url@, "/qa/api/start"@);
    let request = step->Send_request;
    match request.authorization {
        Some(a) => assert(opt_text(request.authorization) == Some(a@)),
        None => {},
    }
}

/// `account status` with a stored key is a GET of `/watch/api/account` under the base URL,
/// carrying the key, with no body.
pub proof fn account_status_gets_the_account(
    base_url: &str,
    stored: &StoredConfig,
    k: Seq<char>,
    r: Result<Step, String>,
)
    requires
        stored@.api_key == Some(k),
        valid_header_value("Bearer "@ + k),
        call_ensures(run_account, (AccountCommand::Status, base_url, stored), r),
    ensures
        r matches Ok(step) && step matches Step::Send { request } && request.method == Method::Get
            && request.url@ == trim_end(base_url@, '/') + "/watch/api/account"@
            && request.content_type@ == "application/json"@ && request.payload is None
            && opt_text(request.authorization) == Some("Bearer "@ + k),
{
    reveal_strlit("/watch/api/account");
    lemma_join_rooted(base_url@, "/watch/api/account"@);
}

} // verus!
