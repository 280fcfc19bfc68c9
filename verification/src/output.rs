//! What the client shows of its stored account.
use vstd::prelude::*;
use vstd::utf8::{decode_utf8, encode_utf8, is_char_boundary};

use crate::config::{StoredConfig, StoredModel};
use crate::json::{Json, JsonModel, lemma_members_model, opt_text, text_or_null};

verus! {

broadcast use vstd::utf8::encode_utf8_decode_utf8, vstd::utf8::encode_utf8_valid_utf8;

/// A key as it may be shown: a key of at most 12 bytes in UTF-8 whole, a longer one as its
/// first 8 bytes, `...` and its last 4 bytes.
pub open spec fn masked_key(key: Seq<char>) -> Seq<char> {
    let bytes = encode_utf8(key);
    if bytes.len() <= 12 {
        key
    } else {
        decode_utf8(bytes.subrange(0, 8)) + "..."@ + decode_utf8(
            bytes.subrange(bytes.len() - 4, bytes.len() as int),
        )
    }
}

/// Whether the key can be cut where `masked_key` cuts it: its UTF-8 encoding is at most 12
/// bytes long, or bytes 8 and `len - 4` begin characters.
pub open spec fn maskable(key: Seq<char>) -> bool {
    let bytes = encode_utf8(key);
    bytes.len() <= 12 || (is_char_boundary(bytes, 8) && is_char_boundary(
        bytes,
        bytes.len() - 4,
    ))
}

/// Whether the key can be cut where `mask_api_key` cuts it.
pub fn can_mask(api_key: &str) -> (r: bool)
    ensures
        r == maskable(api_key@),
{
    let len = api_key.as_bytes().len();
    len <= 12 || (api_key.is_char_boundary(8) && api_key.is_char_boundary(len - 4))
}

/// The key as it may be shown.
pub fn mask_api_key(api_key: &str) -> (r: String)
    requires
        maskable(api_key@),
    ensures
        r@ == masked_key(api_key@),
{
    let len = api_key.as_bytes().len();
    if len <= 12 {
        return String::from_str(api_key);
    }
    let (head, _) = api_key.split_at(8);
    let (_, tail) = api_key.split_at(len - 4);
    proof {
        assert(decode_utf8(encode_utf8(head@)) == head@);
        assert(decode_utf8(encode_utf8(tail@)) == tail@);
    }
    let mut r = String::from_str(head);
    r.append("...");
    r.append(tail);
    r
}

/// The optional key as it may be shown.
pub open spec fn key_preview(key: Option<Seq<char>>) -> Option<Seq<char>> {
    match key {
        Some(k) => Some(masked_key(k)),
        None => None,
    }
}

/// What `auth show` reports of the stored config found at `path`.
pub open spec fn config_summary(config: StoredModel, path: Seq<char>) -> JsonModel {
    JsonModel::Object(
        seq![
            ("config_path"@, JsonModel::Str(path)),
            ("base_url"@, text_or_null(config.base_url)),
            ("account_id"@, text_or_null(config.account_id)),
            ("api_key_preview"@, text_or_null(key_preview(config.api_key))),
            ("api_key_present"@, JsonModel::Bool(config.api_key is Some)),
            ("authenticated"@, JsonModel::Bool(config.api_key is Some)),
        ],
    )
}

/// A JSON string for some text, `null` for none.
pub fn text_or_null_json(o: Option<String>) -> (r: Json)
    ensures
        r@ == text_or_null(opt_text(o)),
{
    match o {
        Some(s) => Json::Str(s),
        None => Json::Null,
    }
}

/// What `auth show` reports of the stored config found at `path`.
pub fn stored_config_summary(config: &StoredConfig, path: &str) -> (r: Json)
    requires
        config.api_key matches Some(k) ==> maskable(k@),
    ensures
        r@ == config_summary(config@, path@),
{
    let preview = match &config.api_key {
        Some(k) => Some(mask_api_key(k.as_str())),
        None => None,
    };
    let members = vec![
        (String::from_str("config_path"), Json::Str(String::from_str(path))),
        (String::from_str("base_url"), text_or_null_json(crate::config::copy_text(&config.base_url))),
        (String::from_str("account_id"), text_or_null_json(crate::config::copy_text(&config.account_id))),
        (String::from_str("api_key_preview"), text_or_null_json(preview)),
        (String::from_str("api_key_present"), Json::Bool(config.api_key.is_some())),
        (String::from_str("authenticated"), Json::Bool(config.api_key.is_some())),
    ];
    proof {
        lemma_members_model(members@);
    }
    let ghost expected = config_summary(config@, path@);
    assert(crate::json::members_model(members@) =~= expected->Object_0);
    let r = Json::Object(members);
    r
}

} // verus!
