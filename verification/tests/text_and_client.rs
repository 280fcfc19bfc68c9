use actobase::client::{
    HttpRequest, Method, ResponseBody, get_json_request, is_valid_header_value, join_url,
    json_response_outcome, post_json_request, read_json_response,
};
use actobase::config::{StoredConfig, resolve_config_path};
use actobase::json::{Json, JsonNumber};
use actobase::output::{can_mask, mask_api_key};
use actobase::text::{decimal_string, join_strings, str_eq, trim_end_matches, trim_start_matches};

#[test]
fn join_url_puts_one_slash_between() {
    assert_eq!(join_url("https://actobase.com", "/watch/api/start"), "https://actobase.com/watch/api/start");
    assert_eq!(join_url("https://actobase.com/", "watch/api/start"), "https://actobase.com/watch/api/start");
    assert_eq!(join_url("https://actobase.com///", "//qa/api/start"), "https://actobase.com/qa/api/start");
    assert_eq!(join_url("https://actobase.com", ""), "https://actobase.com/");
    assert_eq!(join_url("", ""), "/");
}

#[test]
fn join_url_ignores_extra_slashes() {
    let plain = join_url("https://a.test", "x/y");
    assert_eq!(join_url("https://a.test/", "x/y"), plain);
    assert_eq!(join_url("https://a.test", "/x/y"), plain);
}

#[test]
fn trims_only_at_the_ends() {
    assert_eq!(trim_end_matches("/a/b//", '/'), "/a/b");
    assert_eq!(trim_start_matches("//a/b/", '/'), "a/b/");
    assert_eq!(trim_end_matches("é//", '/'), "é");
    assert_eq!(trim_start_matches("///", '/'), "");
}

#[test]
fn str_eq_compares_texts() {
    assert!(str_eq("account", "account"));
    assert!(!str_eq("account", "accounts"));
    assert!(!str_eq("token", "tokeN"));
    assert!(str_eq("", ""));
}

#[test]
fn decimal_strings() {
    assert_eq!(decimal_string(0), "0");
    assert_eq!(decimal_string(7), "7");
    assert_eq!(decimal_string(404), "404");
    assert_eq!(decimal_string(18446744073709551615), "18446744073709551615");
}

#[test]
fn join_strings_with_separator() {
    assert_eq!(join_strings(&vec![], "\n"), "");
    assert_eq!(join_strings(&vec!["a".to_string()], "\n"), "a");
    assert_eq!(join_strings(&vec!["a".to_string(), "b".to_string(), "".to_string()], ", "), "a, b, ");
}

#[test]
fn mask_keeps_short_keys() {
    assert_eq!(mask_api_key(""), "");
    assert_eq!(mask_api_key("aboak_123456"), "aboak_123456");
}

#[test]
fn mask_cuts_long_keys() {
    assert_eq!(mask_api_key("aboak_1234567"), "aboak_12...4567");
    assert_eq!(mask_api_key("aboak_0123456789abcdef"), "aboak_01...cdef");
}

#[test]
fn mask_counts_bytes() {
    // 12 characters but 13 bytes.
    assert!(can_mask("éabcdefghijk"));
    assert_eq!(mask_api_key("éabcdefghijk"), "éabcdef...hijk");
    // Byte 8 falls inside a character.
    assert!(!can_mask("abcdefgéhijklm"));
    assert!(can_mask("abcdefghéijklm"));
}

#[test]
fn resolve_config_path_cases() {
    assert_eq!(resolve_config_path(Some("/tmp/x.json".to_string()), None), Ok("/tmp/x.json".to_string()));
    assert_eq!(
        resolve_config_path(Some("/tmp/x.json".to_string()), Some("/home/u".to_string())),
        Ok("/tmp/x.json".to_string())
    );
    assert_eq!(resolve_config_path(None, Some("/home/u".to_string())), Ok("/home/u/.config/actobase/client.json".to_string()));
    assert_eq!(resolve_config_path(None, Some("/home/u/".to_string())), Ok("/home/u/.config/actobase/client.json".to_string()));
    assert_eq!(resolve_config_path(None, Some("".to_string())), Ok(".config/actobase/client.json".to_string()));
    assert_eq!(resolve_config_path(None, None), Err("HOME is not set".to_string()));
}

#[test]
fn default_config_is_empty() {
    let c = StoredConfig::default();
    assert_eq!(c, StoredConfig { base_url: None, account_id: None, api_key: None });
    assert_eq!(c.copy(), c);
}

#[test]
fn successful_response_gives_payload() {
    let value = Json::Object(vec![("ok".to_string(), Json::Bool(true))]);
    let r = json_response_outcome(
        200,
        "{\"ok\": true}",
        ResponseBody::Parsed {
            value: Json::Object(vec![("ok".to_string(), Json::Bool(true))]),
            compact: Some("{\"ok\":true}".to_string()),
        },
    );
    assert_eq!(r, Ok(value));
    let r = json_response_outcome(299, "[]", ResponseBody::Parsed { value: Json::Array(vec![]), compact: Some("[]".to_string()) });
    assert_eq!(r, Ok(Json::Array(vec![])));
}

#[test]
fn failed_status_is_an_error() {
    let r = json_response_outcome(
        404,
        "{ \"error\": \"nope\" }",
        ResponseBody::Parsed {
            value: Json::Object(vec![("error".to_string(), Json::Str("nope".to_string()))]),
            compact: Some("{\"error\":\"nope\"}".to_string()),
        },
    );
    assert_eq!(r, Err("request failed with status 404: {\"error\":\"nope\"}".to_string()));
    let r = json_response_outcome(199, "1", ResponseBody::Parsed { value: Json::Number(JsonNumber::Unsigned(1)), compact: Some("1".to_string()) });
    assert_eq!(r, Err("request failed with status 199: 1".to_string()));
    let r = json_response_outcome(300, "null", ResponseBody::Parsed { value: Json::Null, compact: Some("null".to_string()) });
    assert_eq!(r, Err("request failed with status 300: null".to_string()));
}

#[test]
fn answer_that_cannot_be_written_back_shows_braces() {
    let r = json_response_outcome(500, "{}", ResponseBody::Parsed { value: Json::Object(vec![]), compact: None });
    assert_eq!(r, Err("request failed with status 500: {}".to_string()));
}

#[test]
fn unparsable_body_is_an_error() {
    let r = json_response_outcome(
        502,
        "<html>bad gateway</html>",
        ResponseBody::Unparsable { message: "expected value at line 1 column 1".to_string() },
    );
    assert_eq!(
        r,
        Err("parse json response (status 502): expected value at line 1 column 1 body=<html>bad gateway</html>".to_string())
    );
}

#[test]
fn response_body_is_read_as_json() {
    assert_eq!(
        read_json_response(200, "{\"ok\": true, \"n\": [1, -2, null, \"x\"]}"),
        Ok(Json::Object(vec![
            (
                "n".to_string(),
                Json::Array(vec![
                    Json::Number(JsonNumber::Unsigned(1)),
                    Json::Number(JsonNumber::Signed(-2)),
                    Json::Null,
                    Json::Str("x".to_string()),
                ]),
            ),
            ("ok".to_string(), Json::Bool(true)),
        ]))
    );
    assert_eq!(
        read_json_response(201, "1.5"),
        Ok(Json::Number(JsonNumber::Binary64(1.5f64.to_bits())))
    );
}

#[test]
fn failed_status_shows_the_answer_as_compact_json() {
    assert_eq!(
        read_json_response(404, "{ \"error\" : \"nope\" }"),
        Err("request failed with status 404: {\"error\":\"nope\"}".to_string())
    );
    assert_eq!(
        read_json_response(500, " [ 1 , 2 ] "),
        Err("request failed with status 500: [1,2]".to_string())
    );
}

#[test]
fn body_that_is_not_json_is_quoted_in_the_error() {
    let message = serde_json::from_str::<serde_json::Value>("<html>bad gateway</html>")
        .unwrap_err()
        .to_string();
    assert_eq!(
        read_json_response(502, "<html>bad gateway</html>"),
        Err(format!("parse json response (status 502): {} body=<html>bad gateway</html>", message))
    );
    assert_eq!(
        read_json_response(200, ""),
        Err(format!(
            "parse json response (status 200): {} body=",
            serde_json::from_str::<serde_json::Value>("").unwrap_err()
        ))
    );
}

#[test]
fn header_values() {
    assert!(is_valid_header_value("Bearer aboak_1"));
    assert!(is_valid_header_value("a\tb"));
    assert!(is_valid_header_value("caf\u{e9}"));
    assert!(is_valid_header_value(""));
    assert!(!is_valid_header_value("a\nb"));
    assert!(!is_valid_header_value("a\u{7f}"));
    assert!(!is_valid_header_value("\u{1f}"));
}

#[test]
fn request_builders() {
    assert_eq!(
        get_json_request("https://a.test/", "/watch/api/account", "k1"),
        Ok(HttpRequest {
            method: Method::Get,
            base_url: "https://a.test/".to_string(),
            path: "/watch/api/account".to_string(),
            url: "https://a.test/watch/api/account".to_string(),
            authorization: Some("Bearer k1".to_string()),
            content_type: "application/json".to_string(),
            payload: None,
        })
    );
    assert_eq!(
        post_json_request("https://a.test", "qa/api/start", Json::Null, None),
        HttpRequest {
            method: Method::Post,
            base_url: "https://a.test".to_string(),
            path: "qa/api/start".to_string(),
            url: "https://a.test/qa/api/start".to_string(),
            authorization: None,
            content_type: "application/json".to_string(),
            payload: Some(Json::Null),
        }
    );
}

#[test]
fn key_that_cannot_be_a_header_is_refused() {
    assert_eq!(
        get_json_request("https://a.test", "/watch/api/account", "k\n1"),
        Err("invalid api key: failed to parse header value".to_string())
    );
    assert_eq!(
        get_json_request("https://a.test", "/watch/api/account", "k\u{0}"),
        Err("invalid api key: failed to parse header value".to_string())
    );
}

#[test]
fn json_lookup() {
    let j = Json::Object(vec![
        ("a".to_string(), Json::Str("first".to_string())),
        ("b".to_string(), Json::Bool(false)),
        ("a".to_string(), Json::Str("second".to_string())),
    ]);
    assert_eq!(j.get("a"), Some(&Json::Str("first".to_string())));
    assert_eq!(j.get("b"), Some(&Json::Bool(false)));
    assert_eq!(j.get("c"), None);
    assert_eq!(Json::Null.get("a"), None);
    assert_eq!(j.get("a").and_then(|v| v.as_str()), Some("first"));
    assert_eq!(j.get("b").and_then(|v| v.as_str()), None);
}
