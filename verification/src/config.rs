//! The application's settings, as read from its environment.
use vstd::prelude::*;
use crate::error::AppError;
use crate::text::{owned, parse_i64, parsed_i64};

verus! {

#[derive(Debug, Clone, PartialEq, Eq)]
pub struct Config {
    pub database_url: String,
    pub listen_addr: String,
    /// The credentials that every route but the health check asks for.
    pub app_username: String,
    pub app_password: String,
    pub pennylane_base_url: String,
    pub pennylane_api_token: Option<String>,
    pub sendcloud_base_url: String,
    pub sendcloud_public_key: Option<String>,
    pub sendcloud_private_key: Option<String>,
    pub sendcloud_integration_id: Option<i64>,
}

/// The given value, else the default.
pub open spec fn or_default(v: Option<String>, default: Seq<char>) -> Seq<char> {
    match v {
        Some(s) => s@,
        None => default,
    }
}

fn value_or(v: Option<String>, default: &str) -> (s: String)
    ensures
        s@ == or_default(v, default@),
{
    match v {
        Some(s) => s,
        None => owned(default),
    }
}

impl Config {
    /// The settings from the environment's values (`None` for a variable that
    /// is unset; the database URL and the credentials are required): the listen address defaults to `0.0.0.0:8080` and the two
    /// platforms' base URLs to their public APIs; the integration id is kept
    /// only when it reads as an integer.
    pub fn from_values(
        database_url: String,
        listen_addr: Option<String>,
        app_username: String,
        app_password: String,
        pennylane_base_url: Option<String>,
        pennylane_api_token: Option<String>,
        sendcloud_base_url: Option<String>,
        sendcloud_public_key: Option<String>,
        sendcloud_private_key: Option<String>,
        sendcloud_integration_id: Option<String>,
    ) -> (c: Config)
        ensures
            c.database_url == database_url,
            c.app_username == app_username,
            c.app_password == app_password,
            c.listen_addr@ == or_default(listen_addr, "0.0.0.0:8080"@),
            c.pennylane_base_url@ == or_default(pennylane_base_url, "https://app.pennylane.com"@),
            c.pennylane_api_token == pennylane_api_token,
            c.sendcloud_base_url@ == or_default(
                sendcloud_base_url,
                "https://panel.sendcloud.sc/api/v3"@,
            ),
            c.sendcloud_public_key == sendcloud_public_key,
            c.sendcloud_private_key == sendcloud_private_key,
            c.sendcloud_integration_id == (match sendcloud_integration_id {
                Some(v) => parsed_i64(v@),
                None => None,
            }),
    {
        let integration_id = match &sendcloud_integration_id {
            Some(v) => parse_i64(v.as_str()),
            None => None,
        };
        Config {
            database_url,
            listen_addr: value_or(listen_addr, "0.0.0.0:8080"),
            app_username,
            app_password,
            pennylane_base_url: value_or(pennylane_base_url, "https://app.pennylane.com"),
            pennylane_api_token,
            sendcloud_base_url: value_or(sendcloud_base_url, "https://panel.sendcloud.sc/api/v3"),
            sendcloud_public_key,
            sendcloud_private_key,
            sendcloud_integration_id: integration_id,
        }
    }
}

/// What talking to the carrier platform takes.
#[derive(Debug, Clone, PartialEq, Eq)]
pub struct SendcloudSettings {
    pub base_url: String,
    pub public_key: String,
    pub private_key: String,
    pub integration_id: i64,
}

pub open spec fn pennylane_missing_text() -> Seq<char> {
    "Pennylane n'est pas configuré (PENNYLANE_API_TOKEN manquant)"@
}

pub open spec fn sendcloud_missing_text() -> Seq<char> {
    "Sendcloud n'est pas configuré (SENDCLOUD_PUBLIC_KEY/SENDCLOUD_PRIVATE_KEY/SENDCLOUD_INTEGRATION_ID manquants)"@
}

/// The invoicing platform's base URL and token; without a token the import
/// answers with a clear error rather than failing.
pub fn pennylane_settings(c: &Config) -> (r: Result<(String, String), AppError>)
    ensures
        match c.pennylane_api_token {
            Some(t) => r == Ok::<(String, String), AppError>((c.pennylane_base_url, t)),
            None => r matches Err(AppError::External(m)) && m@ == pennylane_missing_text(),
        },
{
    match &c.pennylane_api_token {
        Some(t) => Ok((c.pennylane_base_url.clone(), t.clone())),
        None => Err(
            AppError::External(owned("Pennylane n'est pas configuré (PENNYLANE_API_TOKEN manquant)")),
        ),
    }
}

/// What talking to the carrier platform takes; without the two keys and the
/// integration id, sending answers with a clear error rather than failing.
pub fn sendcloud_settings(c: &Config) -> (r: Result<SendcloudSettings, AppError>)
    ensures
        match (c.sendcloud_public_key, c.sendcloud_private_key, c.sendcloud_integration_id) {
            (Some(p), Some(k), Some(i)) => r matches Ok(s) && s.base_url == c.sendcloud_base_url
                && s.public_key == p && s.private_key == k && s.integration_id == i,
            _ => r matches Err(AppError::External(m)) && m@ == sendcloud_missing_text(),
        },
{
    match (&c.sendcloud_public_key, &c.sendcloud_private_key, c.sendcloud_integration_id) {
        (Some(p), Some(k), Some(i)) => Ok(
            SendcloudSettings {
                base_url: c.sendcloud_base_url.clone(),
                public_key: p.clone(),
                private_key: k.clone(),
                integration_id: i,
            },
        ),
        _ => Err(
            AppError::External(
                owned(
                    "Sendcloud n'est pas configuré (SENDCLOUD_PUBLIC_KEY/SENDCLOUD_PRIVATE_KEY/SENDCLOUD_INTEGRATION_ID manquants)",
                ),
            ),
        ),
    }
}

} // verus!
