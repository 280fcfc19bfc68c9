//! The stored account of the client and where it is kept.
use vstd::prelude::*;

use crate::json::opt_text;

verus! {

/// What the client keeps between runs.
#[derive(Debug, PartialEq, Eq)]
pub struct StoredConfig {
    pub base_url: Option<String>,
    pub account_id: Option<String>,
    pub api_key: Option<String>,
}

/// The stored config with its strings as `char` sequences.
pub struct StoredModel {
    pub base_url: Option<Seq<char>>,
    pub account_id: Option<Seq<char>>,
    pub api_key: Option<Seq<char>>,
}

impl View for StoredConfig {
    type V = StoredModel;

    open spec fn view(&self) -> StoredModel {
        StoredModel {
            base_url: opt_text(self.base_url),
            account_id: opt_text(self.account_id),
            api_key: opt_text(self.api_key),
        }
    }
}

impl Default for StoredConfig {
    fn default() -> (r: Self)
        ensures
            r.base_url is None,
            r.account_id is None,
            r.api_key is None,
    {
        StoredConfig { base_url: None, account_id: None, api_key: None }
    }
}

/// A copy of an optional string.
pub fn copy_text(o: &Option<String>) -> (r: Option<String>)
    ensures
        r == *o,
{
    match o {
        Some(s) => Some(s.clone()),
        None => None,
    }
}

impl StoredConfig {
    /// A copy of the stored config.
    pub fn copy(&self) -> (r: StoredConfig)
        ensures
            r == *self,
    {
        StoredConfig {
            base_url: copy_text(&self.base_url),
            account_id: copy_text(&self.account_id),
            api_key: copy_text(&self.api_key),
        }
    }
}

/// The path `base` with the relative path `part` appended, on a system whose separator is `/`:
/// a separator goes between them unless `base` is empty or already ends in one.
pub open spec fn push_path(base: Seq<char>, part: Seq<char>) -> Seq<char> {
    if base.len() == 0 || base.last() == '/' {
        base + part
    } else {
        base + seq!['/'] + part
    }
}

/// Where the config file lives under the home directory `home`.
pub open spec fn default_config_path(home: Seq<char>) -> Seq<char> {
    push_path(push_path(push_path(home, ".config"@), "actobase"@), "client.json"@)
}

/// The message when no config path is given and no home directory is known.
pub open spec fn no_home_message() -> Seq<char> {
    "HOME is not set"@
}

/// `base` with the relative path `part` appended.
fn push_path_exec(base: String, part: &str) -> (r: String)
    ensures
        r@ == push_path(base@, part@),
{
    let n = base.unicode_len();
    let mut r = base;
    if n > 0 && r.get_char(n - 1) != '/' {
        proof {
            reveal_strlit("/");
        }
        r.append("/");
    }
    r.append(part);
    r
}

/// The config path: the one given, else `.config/actobase/client.json` under the home
/// directory `home`.
pub fn resolve_config_path(explicit: Option<String>, home: Option<String>) -> (r: Result<
    String,
    String,
>)
    ensures
        explicit matches Some(p) ==> r == Ok::<String, String>(p),
        explicit is None && home is None ==> (r matches Err(e) && e@ == no_home_message()),
        explicit is None && home is Some ==> (r matches Ok(p) && p@ == default_config_path(
            home->0@,
        )),
{
    match explicit {
        Some(path) => Ok(path),
        None => match home {
            None => {
                proof {
                    reveal_strlit("HOME is not set");
                }
                Err(String::from_str("HOME is not set"))
            },
            Some(home) => {
                let p = push_path_exec(home, ".config");
                let p = push_path_exec(p, "actobase");
                Ok(push_path_exec(p, "client.json"))
            },
        },
    }
}

} // verus!
