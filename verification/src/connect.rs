//! The engine connection settings: which address and key are in effect, and
//! the plain sentence a successful connect check reads as.

use vstd::prelude::*;
use crate::json::{self, JsonValue};
use crate::strs;

verus! {

/// The engine address and key the IDE connects with.
#[derive(Clone, Debug, PartialEq, Eq)]
pub struct AuracleConfig {
    pub engine_url: Option<String>,
    pub api_key: Option<String>,
}

impl Default for AuracleConfig {
    fn default() -> (c: Self)
        ensures
            c.engine_url is None,
            c.api_key is None,
    {
        AuracleConfig { engine_url: None, api_key: None }
    }
}

/// The loopback address of a local engine.
pub const LOCAL_ENGINE_URL: &'static str = "http://127.0.0.1:1969";

/// The configuration in effect: the environment overrides the file, and the
/// address falls back to the local engine.
pub fn effective_config(file: Option<AuracleConfig>, env_url: Option<String>, env_key: Option<String>) -> (c: AuracleConfig)
    ensures
        strs::opt_view(c.engine_url) == match env_url {
            Some(u) => Some(u@),
            None => match file {
                Some(f) => match f.engine_url {
                    Some(u) => Some(u@),
                    None => Some(LOCAL_ENGINE_URL@),
                },
                None => Some(LOCAL_ENGINE_URL@),
            },
        },
        strs::opt_view(c.api_key) == match env_key {
            Some(k) => Some(k@),
            None => match file {
                Some(f) => strs::opt_view(f.api_key),
                None => None,
            },
        },
{
    let mut config = match file {
        Some(f) => f,
        None => AuracleConfig::default(),
    };
    if let Some(url) = env_url {
        config.engine_url = Some(url);
    }
    if let Some(key) = env_key {
        config.api_key = Some(key);
    }
    if config.engine_url.is_none() {
        config.engine_url = Some(strs::own(LOCAL_ENGINE_URL));
    }
    config
}

/// Whether a key is present and not blank.
pub open spec fn key_usable(key: Option<Seq<char>>) -> bool {
    match key {
        Some(k) => strs::trim(k).len() > 0,
        None => false,
    }
}

/// Whether the configuration carries a usable key.
pub fn has_usable_key(config: &AuracleConfig) -> (r: bool)
    ensures
        r == key_usable(strs::opt_view(config.api_key)),
{
    match &config.api_key {
        Some(k) => !strs::is_blank(k.as_str()),
        None => false,
    }
}

/// The engine address of a configuration, or the local engine's.
pub fn base_url(config: &AuracleConfig) -> (r: String)
    ensures
        r@ == match config.engine_url {
            Some(u) => u@,
            None => LOCAL_ENGINE_URL@,
        },
{
    match &config.engine_url {
        Some(u) => u.clone(),
        None => strs::own(LOCAL_ENGINE_URL),
    }
}

/// A string field of a value, or `default`.
pub open spec fn str_or(v: Option<JsonValue>, default: Seq<char>) -> Seq<char> {
    match json::str_of(v) {
        Some(s) => s,
        None => default,
    }
}

/// The nested field `outer.inner` of a value.
pub open spec fn field2(value: JsonValue, outer: Seq<char>, inner: Seq<char>) -> Option<JsonValue> {
    match json::field(value, outer) {
        Some(o) => json::field(o, inner),
        None => None,
    }
}

/// The sentence a successful connect check reads as: engine version and
/// active broker, then a separate line of truth about the AI agent.
pub open spec fn connect_check_line(value: JsonValue) -> Seq<char> {
    let version = str_or(field2(value, "engine"@, "version"@), "unknown"@);
    let active = str_or(json::field(value, "active_broker"@), "none yet"@);
    let reachable = match json::bool_of(field2(value, "agent"@, "reachable"@)) {
        Some(b) => b,
        None => false,
    };
    let detail = str_or(field2(value, "agent"@, "detail"@), Seq::<char>::empty());
    let head = "Connected — engine v"@ + version + " is up and your key works (active broker: "@ + active + ")."@;
    if reachable {
        head + " Your AI agent is reachable."@
    } else {
        head + " Note: the AI agent isn't reachable yet ("@ + (if detail.len() == 0 {
            "the engine couldn't reach the MCP agent server"@
        } else {
            detail
        }) + ")."@
    }
}

fn nested<'a>(value: &'a JsonValue, outer: &str, inner: &str) -> (r: Option<&'a JsonValue>)
    ensures
        match r {
            Some(v) => field2(*value, outer@, inner@) == Some(*v),
            None => field2(*value, outer@, inner@) is None,
        },
{
    match value.get(outer) {
        Some(o) => o.get(inner),
        None => None,
    }
}

fn str_field<'a>(v: Option<&'a JsonValue>, default: &'a str) -> (r: &'a str)
    ensures
        r@ == str_or(match v {
            Some(x) => Some(*x),
            None => None,
        }, default@),
{
    match v {
        Some(x) => match x.as_str() {
            Some(s) => s,
            None => default,
        },
        None => default,
    }
}

/// Read a successful connect-check reply into the sentence the Connect
/// dialog shows.
pub fn connect_check_text(value: &JsonValue) -> (r: String)
    ensures
        r@ == connect_check_line(*value),
{
    let version = str_field(nested(value, "engine", "version"), "unknown");
    let active = str_field(value.get("active_broker"), "none yet");
    let reachable = match nested(value, "agent", "reachable") {
        Some(v) => match v.as_bool() {
            Some(b) => b,
            None => false,
        },
        None => false,
    };
    proof {
        reveal_strlit("");
    }
    let detail = str_field(nested(value, "agent", "detail"), "");
    let mut r = strs::own("Connected — engine v");
    strs::append_str(&mut r, version);
    strs::append_str(&mut r, " is up and your key works (active broker: ");
    strs::append_str(&mut r, active);
    strs::append_str(&mut r, ").");
    if reachable {
        strs::append_str(&mut r, " Your AI agent is reachable.");
    } else {
        strs::append_str(&mut r, " Note: the AI agent isn't reachable yet (");
        if strs::chars_of(detail).len() == 0 {
            strs::append_str(&mut r, "the engine couldn't reach the MCP agent server");
        } else {
            strs::append_str(&mut r, detail);
        }
        strs::append_str(&mut r, ").");
    }
    r
}

/// Whether a connect-check status means the key was refused (the engine
/// answered 401, or redirected to its sign-in page).
pub fn key_refused(status: u16) -> (r: bool)
    ensures
        r == (status == 401 || status == 302),
{
    status == 401 || status == 302
}

/// Whether launching the IDE verifies the saved connection in the
/// background: only when a key is saved at all.
pub fn auto_connect_on_launch(config: &AuracleConfig) -> (r: bool)
    ensures
        r == match config.api_key {
            Some(k) => k@.len() > 0,
            None => false,
        },
{
    match &config.api_key {
        Some(k) => k.as_str().unicode_len() > 0,
        None => false,
    }
}

/// The Connect dialog's verdict after a test: the engine's own sentence, or
/// why it could not connect with what to check.
pub fn connect_verdict(result: Result<String, &str>) -> (r: (bool, String))
    ensures
        match result {
            Ok(p) => r.0 && r.1@ == p@,
            Err(e) => !r.0 && r.1@ == "Couldn't connect: "@ + e@
                + ". Check the address, the key, and that your engine is running."@,
        },
{
    match result {
        Ok(p) => (true, p),
        Err(e) => {
            let mut m = strs::own("Couldn't connect: ");
            strs::append_str(&mut m, e);
            strs::append_str(&mut m, ". Check the address, the key, and that your engine is running.");
            (false, m)
        },
    }
}

/// What the Connect dialog's two boxes make: the typed address and key.
pub fn typed_config(url: &str, key: &str) -> (c: AuracleConfig)
    ensures
        strs::opt_view(c.engine_url) == Some(url@),
        strs::opt_view(c.api_key) == Some(key@),
{
    AuracleConfig { engine_url: Some(strs::own(url)), api_key: Some(strs::own(key)) }
}

} // verus!
