//! Stored client settings: the credential and the base URL of the store.
//!
//! The settings live as plain optional strings; reading them from and writing
//! them to their on-disk form is the surrounding program's business. Values
//! supplied for one invocation take precedence over stored ones.

use vstd::prelude::*;
use crate::errors::TransferError;

verus! {

/// The client settings that persist between invocations.
pub struct Config {
    pub key: Option<String>,
    pub url: Option<String>,
}

impl Config {
    /// A configuration holding the given stored values.
    pub fn new(key: Option<String>, url: Option<String>) -> (r: Config)
        ensures
            r.key == key,
            r.url == url,
    {
        Config { key, url }
    }

    /// The stored credential, if any.
    pub fn key(&self) -> (r: Option<String>)
        ensures
            r == self.key,
    {
        match &self.key {
            Some(k) => Some(k.clone()),
            None => None,
        }
    }

    /// Stores a credential, leaving the URL untouched.
    pub fn set_key(&mut self, key: String)
        ensures
            final(self).key == Some(key),
            final(self).url == old(self).url,
    {
        self.key = Some(key);
    }

    /// The stored base URL, if any.
    pub fn url(&self) -> (r: Option<String>)
        ensures
            r == self.url,
    {
        match &self.url {
            Some(u) => Some(u.clone()),
            None => None,
        }
    }

    /// Stores a base URL, leaving the credential untouched.
    pub fn set_url(&mut self, url: String)
        ensures
            final(self).url == Some(url),
            final(self).key == old(self).key,
    {
        self.url = Some(url);
    }
}

/// Picks the value to use for one invocation: the value passed on the command
/// line wins over the stored one; if neither is there, the setting is missing
/// and the command cannot run.
pub fn resolve_setting(cli: Option<String>, stored: Option<String>) -> (r: Result<
    String,
    TransferError,
>)
    ensures
        cli is Some ==> r == Ok::<String, TransferError>(cli->0),
        cli is None && stored is Some ==> r == Ok::<String, TransferError>(stored->0),
        cli is None && stored is None ==> r == Err::<String, TransferError>(
            TransferError::Config,
        ),
{
    match cli {
        Some(v) => Ok(v),
        None => match stored {
            Some(v) => Ok(v),
            None => Err(TransferError::Config),
        },
    }
}

/// Checks the inputs for saving a configuration: both a URL and a credential
/// must be supplied in the same invocation.
pub fn save_config_inputs(url: Option<String>, key: Option<String>) -> (r: Result<
    (String, String),
    TransferError,
>)
    ensures
        url is Some && key is Some ==> r == Ok::<(String, String), TransferError>(
            (url->0, key->0),
        ),
        url is None || key is None ==> r == Err::<(String, String), TransferError>(
            TransferError::Config,
        ),
{
    match (url, key) {
        (Some(u), Some(k)) => Ok((u, k)),
        _ => Err(TransferError::Config),
    }
}

} // verus!
