//! The applications' configuration records, read from layered sources:
//! a named file with environment overrides, rendered to the flat
//! key-value text the `kv` module reads. What the sources hold comes from
//! outside; what a rendered section must look like to become a record is
//! stated exactly.

use vstd::prelude::*;
use vstd::string::StringSliceAdditionalSpecFns;
use vstd::utf8::{decode_utf8, encode_utf8, valid_utf8};

use crate::kv::{entries_v, get_entry, kv_get, parse_kv, sp_kv_lines, KvFile, KvV, KvValue};

verus! {

/// Why a configuration could not be loaded.
#[derive(Clone, Copy, Debug, PartialEq, Eq, Structural)]
pub enum ConfigError {
    /// The sources could not be read or layered.
    ReadError,
    /// The rendered section does not hold the record's fields.
    MalformedError,
}

/// Relies on the config crate and on toml: loads the named file, layers
/// `PREFIX__` environment overrides over it, and renders the named section
/// back to TOML text. What comes back depends on the file system and the
/// environment.
#[verifier::external_body]
fn load_config_section(path: &str, section: &str, env_prefix: &str) -> (r: Result<String, ()>) {
    let cfg = config::Config::builder().add_source(config::File::with_name(path)).add_source(
        config::Environment::with_prefix(env_prefix).keep_prefix(true).separator("__"),
    ).build().map_err(|_| ())?;
    let value: toml::Value = cfg.get(section).map_err(|_| ())?;
    toml::to_string(&value).map_err(|_| ())
}

/// The string under `key` among parsed entries, where it is one of valid
/// UTF-8.
pub open spec fn sp_str_entry(fs: Seq<(Seq<u8>, KvV)>, key: Seq<char>) -> Option<Seq<char>> {
    match kv_get(fs, encode_utf8(key)) {
        Some(v) => match v {
            KvV::S(b) => if valid_utf8(b) {
                Some(decode_utf8(b))
            } else {
                None
            },
            _ => None,
        },
        None => None,
    }
}

/// The integer under `key` among parsed entries.
pub open spec fn sp_u64_entry(fs: Seq<(Seq<u8>, KvV)>, key: Seq<char>) -> Option<u64> {
    match kv_get(fs, encode_utf8(key)) {
        Some(v) => match v {
            KvV::I(n) => Some(n),
            _ => None,
        },
        None => None,
    }
}

/// The integer under `key` where the entry is present, `Some(None)` where
/// it is absent, `None` where it holds something else.
pub open spec fn sp_opt_u64_entry(fs: Seq<(Seq<u8>, KvV)>, key: Seq<char>) -> Option<
    Option<u64>,
> {
    match kv_get(fs, encode_utf8(key)) {
        Some(v) => match v {
            KvV::I(n) => Some(Some(n)),
            _ => None,
        },
        None => Some(None),
    }
}

/// Reads a required string entry, as `sp_str_entry` says.
fn str_entry(f: &KvFile, key: &str) -> (r: Option<String>)
    ensures
        r is Some <==> sp_str_entry(entries_v(f.entries@), key@) is Some,
        r is Some ==> r.unwrap()@ == sp_str_entry(entries_v(f.entries@), key@).unwrap(),
{
    match get_entry(f, key) {
        Some(v) => match v {
            KvValue::S(b) => crate::codec::string_from_utf8(
                crate::codec::to_owned_bytes(b.as_slice()),
            ),
            _ => None,
        },
        None => None,
    }
}

/// Reads a required integer entry, as `sp_u64_entry` says.
fn u64_entry(f: &KvFile, key: &str) -> (r: Option<u64>)
    ensures
        r == sp_u64_entry(entries_v(f.entries@), key@),
{
    match get_entry(f, key) {
        Some(v) => match v {
            KvValue::I(n) => Some(*n),
            _ => None,
        },
        None => None,
    }
}

/// Reads an optional integer entry, as `sp_opt_u64_entry` says.
fn opt_u64_entry(f: &KvFile, key: &str) -> (r: Option<Option<u64>>)
    ensures
        r == sp_opt_u64_entry(entries_v(f.entries@), key@),
{
    match get_entry(f, key) {
        Some(v) => match v {
            KvValue::I(n) => Some(Some(*n)),
            _ => None,
        },
        None => Some(None),
    }
}

/// Configuration of the game service.
#[derive(Clone, Debug)]
pub struct GuessAiConfig {
    /// The compute service's credential.
    pub atoma_api_key: String,
    /// The announcer's consumer key.
    pub twitter_consumer_key: String,
    /// The announcer's consumer secret.
    pub twitter_consumer_secret: String,
    /// The announcer's access token.
    pub twitter_access_token: String,
    /// The announcer's access token secret.
    pub twitter_access_token_secret: String,
    /// Where the cursor checkpoint lives.
    pub cursor_path: String,
    /// How many guesses pass between hints.
    pub hint_wait_count: u64,
    /// The ledger node spoken to.
    pub http_rpc_node_addr: String,
    /// The model that judges guesses.
    pub model: String,
    /// How many events one page may hold.
    pub limit: Option<u64>,
    /// The game contract's package.
    pub guess_ai_package_id: String,
    /// The game contract's state object.
    pub guess_ai_db: String,
    /// The transport timeout, in milliseconds.
    pub request_timeout: Option<u64>,
    /// The ceiling on concurrent ledger requests.
    pub max_concurrent_requests: Option<u64>,
    /// The wallet configuration used for signing.
    pub sui_config_path: String,
}

/// The rendered section holds every field the game service needs, each of
/// its type.
pub open spec fn sp_guess_config_ok(s: Seq<u8>) -> bool {
    match sp_kv_lines(s, 0) {
        Some(fs) => {
            &&& sp_str_entry(fs, "atoma_api_key"@) is Some
            &&& sp_str_entry(fs, "twitter_consumer_key"@) is Some
            &&& sp_str_entry(fs, "twitter_consumer_secret"@) is Some
            &&& sp_str_entry(fs, "twitter_access_token"@) is Some
            &&& sp_str_entry(fs, "twitter_access_token_secret"@) is Some
            &&& sp_str_entry(fs, "cursor_path"@) is Some
            &&& sp_u64_entry(fs, "hint_wait_count"@) is Some
            &&& sp_str_entry(fs, "http_rpc_node_addr"@) is Some
            &&& sp_str_entry(fs, "model"@) is Some
            &&& sp_opt_u64_entry(fs, "limit"@) is Some
            &&& sp_str_entry(fs, "guess_ai_package_id"@) is Some
            &&& sp_str_entry(fs, "guess_ai_db"@) is Some
            &&& sp_opt_u64_entry(fs, "request_timeout"@) is Some
            &&& sp_opt_u64_entry(fs, "max_concurrent_requests"@) is Some
            &&& sp_str_entry(fs, "sui_config_path"@) is Some
        },
        None => false,
    }
}

/// Whether the record `c` is exactly the reading of the rendered section
/// `s`, entry for entry.
pub open spec fn sp_guess_config_reads(s: Seq<u8>, c: GuessAiConfig) -> bool {
    match sp_kv_lines(s, 0) {
        Some(fs) => {
            &&& sp_str_entry(fs, "atoma_api_key"@) == Some(c.atoma_api_key@)
            &&& sp_str_entry(fs, "twitter_consumer_key"@) == Some(c.twitter_consumer_key@)
            &&& sp_str_entry(fs, "twitter_consumer_secret"@) == Some(c.twitter_consumer_secret@)
            &&& sp_str_entry(fs, "twitter_access_token"@) == Some(c.twitter_access_token@)
            &&& sp_str_entry(fs, "twitter_access_token_secret"@) == Some(
                c.twitter_access_token_secret@,
            )
            &&& sp_str_entry(fs, "cursor_path"@) == Some(c.cursor_path@)
            &&& sp_u64_entry(fs, "hint_wait_count"@) == Some(c.hint_wait_count)
            &&& sp_str_entry(fs, "http_rpc_node_addr"@) == Some(c.http_rpc_node_addr@)
            &&& sp_str_entry(fs, "model"@) == Some(c.model@)
            &&& sp_opt_u64_entry(fs, "limit"@) == Some(c.limit)
            &&& sp_str_entry(fs, "guess_ai_package_id"@) == Some(c.guess_ai_package_id@)
            &&& sp_str_entry(fs, "guess_ai_db"@) == Some(c.guess_ai_db@)
            &&& sp_opt_u64_entry(fs, "request_timeout"@) == Some(c.request_timeout)
            &&& sp_opt_u64_entry(fs, "max_concurrent_requests"@) == Some(
                c.max_concurrent_requests,
            )
            &&& sp_str_entry(fs, "sui_config_path"@) == Some(c.sui_config_path@)
        },
        None => false,
    }
}

/// Whether `c` is the reading of some rendered section the shape
/// predicate admits: what a loaded configuration is promised to be.
pub open spec fn guess_config_readable(c: GuessAiConfig) -> bool {
    exists|t: Seq<u8>| (#[trigger] sp_guess_config_reads(t, c)) && sp_guess_config_ok(t)
}

impl GuessAiConfig {
    /// Reads a rendered section into the record: exactly the texts
    /// `sp_guess_config_ok` admits become one, field for field.
    pub fn from_toml_text(s: &[u8]) -> (r: Option<GuessAiConfig>)
        ensures
            r is Some <==> sp_guess_config_ok(s@),
            r is Some ==> sp_guess_config_reads(s@, r.unwrap()),
    {
        let f = match parse_kv(s) {
            Some(f) => f,
            None => {
                return None;
            },
        };
        let atoma_api_key = match str_entry(&f, "atoma_api_key") {
            Some(v) => v,
            None => {
                return None;
            },
        };
        let twitter_consumer_key = match str_entry(&f, "twitter_consumer_key") {
            Some(v) => v,
            None => {
                return None;
            },
        };
        let twitter_consumer_secret = match str_entry(&f, "twitter_consumer_secret") {
            Some(v) => v,
            None => {
                return None;
            },
        };
        let twitter_access_token = match str_entry(&f, "twitter_access_token") {
            Some(v) => v,
            None => {
                return None;
            },
        };
        let twitter_access_token_secret = match str_entry(&f, "twitter_access_token_secret") {
            Some(v) => v,
            None => {
                return None;
            },
        };
        let cursor_path = match str_entry(&f, "cursor_path") {
            Some(v) => v,
            None => {
                return None;
            },
        };
        let hint_wait_count = match u64_entry(&f, "hint_wait_count") {
            Some(v) => v,
            None => {
                return None;
            },
        };
        let http_rpc_node_addr = match str_entry(&f, "http_rpc_node_addr") {
            Some(v) => v,
            None => {
                return None;
            },
        };
        let model = match str_entry(&f, "model") {
            Some(v) => v,
            None => {
                return None;
            },
        };
        let limit = match opt_u64_entry(&f, "limit") {
            Some(v) => v,
            None => {
                return None;
            },
        };
        let guess_ai_package_id = match str_entry(&f, "guess_ai_package_id") {
            Some(v) => v,
            None => {
                return None;
            },
        };
        let guess_ai_db = match str_entry(&f, "guess_ai_db") {
            Some(v) => v,
            None => {
                return None;
            },
        };
        let request_timeout = match opt_u64_entry(&f, "request_timeout") {
            Some(v) => v,
            None => {
                return None;
            },
        };
        let max_concurrent_requests = match opt_u64_entry(&f, "max_concurrent_requests") {
            Some(v) => v,
            None => {
                return None;
            },
        };
        let sui_config_path = match str_entry(&f, "sui_config_path") {
            Some(v) => v,
            None => {
                return None;
            },
        };
        Some(
            GuessAiConfig {
                atoma_api_key,
                twitter_consumer_key,
                twitter_consumer_secret,
                twitter_access_token,
                twitter_access_token_secret,
                cursor_path,
                hint_wait_count,
                http_rpc_node_addr,
                model,
                limit,
                guess_ai_package_id,
                guess_ai_db,
                request_timeout,
                max_concurrent_requests,
                sui_config_path,
            },
        )
    }

    /// Loads the `guess_ai` section from the named file, with `GUESS_AI__`
    /// environment overrides. What comes back depends on the file system
    /// and the environment; the rendered section is then read exactly as
    /// `from_toml_text` says.
    pub fn from_file_path(config_file_path: &str) -> (r: Result<GuessAiConfig, ConfigError>)
        ensures
            r is Ok ==> guess_config_readable(r.unwrap()),
            r is Err ==> r == Err::<GuessAiConfig, ConfigError>(ConfigError::ReadError) || r
                == Err::<GuessAiConfig, ConfigError>(ConfigError::MalformedError),
    {
        match load_config_section(config_file_path, "guess_ai", "GUESS_AI") {
            Ok(text) => {
                let bytes = text.as_str().as_bytes();
                let ghost tv = bytes@;
                match GuessAiConfig::from_toml_text(bytes) {
                    Some(c) => {
                        proof {
                            assert(sp_guess_config_reads(tv, c));
                            assert(guess_config_readable(c));
                        }
                        Ok(c)
                    },
                    None => Err(ConfigError::MalformedError),
                }
            },
            Err(()) => Err(ConfigError::ReadError),
        }
    }
}

/// Configuration of the answer-serving HTTP surface.
#[derive(Clone, Debug)]
pub struct HttpServerConfig {
    /// The address and port the server binds.
    pub service_bind_address: String,
}

/// The rendered section holds the server's one field.
pub open spec fn sp_http_config_ok(s: Seq<u8>) -> bool {
    match sp_kv_lines(s, 0) {
        Some(fs) => sp_str_entry(fs, "service_bind_address"@) is Some,
        None => false,
    }
}

/// Whether the record `c` is exactly the reading of the rendered section
/// `s`.
pub open spec fn sp_http_config_reads(s: Seq<u8>, c: HttpServerConfig) -> bool {
    match sp_kv_lines(s, 0) {
        Some(fs) => sp_str_entry(fs, "service_bind_address"@) == Some(c.service_bind_address@),
        None => false,
    }
}

/// Whether `c` is the reading of some rendered section the shape
/// predicate admits.
pub open spec fn http_config_readable(c: HttpServerConfig) -> bool {
    exists|t: Seq<u8>| (#[trigger] sp_http_config_reads(t, c)) && sp_http_config_ok(t)
}

impl HttpServerConfig {
    /// Reads a rendered section into the record, as `sp_http_config_ok`
    /// admits it.
    pub fn from_toml_text(s: &[u8]) -> (r: Option<HttpServerConfig>)
        ensures
            r is Some <==> sp_http_config_ok(s@),
            r is Some ==> sp_http_config_reads(s@, r.unwrap()),
    {
        let f = match parse_kv(s) {
            Some(f) => f,
            None => {
                return None;
            },
        };
        match str_entry(&f, "service_bind_address") {
            Some(v) => Some(HttpServerConfig { service_bind_address: v }),
            None => None,
        }
    }

    /// Loads the `http_server` section from the named file, with
    /// `HTTP_SERVER__` environment overrides, read as `from_toml_text`
    /// says.
    pub fn from_file_path(config_file_path: &str) -> (r: Result<HttpServerConfig, ConfigError>)
        ensures
            r is Ok ==> http_config_readable(r.unwrap()),
            r is Err ==> r == Err::<HttpServerConfig, ConfigError>(ConfigError::ReadError) || r
                == Err::<HttpServerConfig, ConfigError>(ConfigError::MalformedError),
    {
        match load_config_section(config_file_path, "http_server", "HTTP_SERVER") {
            Ok(text) => {
                let bytes = text.as_str().as_bytes();
                let ghost tv = bytes@;
                match HttpServerConfig::from_toml_text(bytes) {
                    Some(c) => {
                        proof {
                            assert(sp_http_config_reads(tv, c));
                            assert(http_config_readable(c));
                        }
                        Ok(c)
                    },
                    None => Err(ConfigError::MalformedError),
                }
            },
            Err(()) => Err(ConfigError::ReadError),
        }
    }
}

/// Configuration of the game's first cut, which the later service
/// superseded: the same sources, without the contract-state and wallet
/// fields.
#[derive(Clone, Debug)]
pub struct SecretGuessingConfig {
    /// The compute service's credential.
    pub atoma_api_key: String,
    /// The announcer's consumer key.
    pub twitter_consumer_key: String,
    /// The announcer's consumer secret.
    pub twitter_consumer_secret: String,
    /// The announcer's access token.
    pub twitter_access_token: String,
    /// The announcer's access token secret.
    pub twitter_access_token_secret: String,
    /// Where the cursor checkpoint lives.
    pub cursor_path: String,
    /// How many guesses pass between hints.
    pub hint_wait_count: u64,
    /// The ledger node spoken to.
    pub http_rpc_node_addr: String,
    /// The model that judges guesses.
    pub model: String,
    /// How many events one page may hold.
    pub limit: Option<u64>,
    /// The game contract's package.
    pub package_id: String,
    /// The transport timeout, in milliseconds.
    pub request_timeout: Option<u64>,
}

} // verus!
