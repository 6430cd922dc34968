//! Where the backend is: its address and port, each with a default.

use crate::text::option_text;
use vstd::prelude::*;
use vstd::string::*;

verus! {

/// The name of the setting that holds the backend's address.
pub const BACKEND_URL: &'static str = "BACKEND_URL";

/// The name of the setting that holds the backend's port.
pub const BACKEND_PORT: &'static str = "BACKEND_PORT";

/// The backend's address where none is set.
pub const DEFAULT_BACKEND_URL: &'static str = "http://localhost";

/// The backend's port where none is set.
pub const DEFAULT_BACKEND_PORT: &'static str = "8000";

/// The text of a setting: what was set, or else the default.
pub open spec fn setting_or(setting: Option<Seq<char>>, default: Seq<char>) -> Seq<char> {
    match setting {
        Some(value) => value,
        None => default,
    }
}

/// The base address of the backend: address, a colon, port.
pub open spec fn full_backend_url(url: Option<Seq<char>>, port: Option<Seq<char>>) -> Seq<
    char,
> {
    setting_or(url, DEFAULT_BACKEND_URL@) + ":"@ + setting_or(port, DEFAULT_BACKEND_PORT@)
}

/// Resolves the backend's base address from the two settings. It holds no
/// state: each call takes the settings as the caller has just read them.
pub struct Config;

impl Config {
    /// The backend's address: the setting `BACKEND_URL`, or the default where
    /// the setting is absent.
    pub fn get_backend_url(setting: Option<String>) -> (url: String)
        ensures
            url@ == setting_or(option_text(setting), DEFAULT_BACKEND_URL@),
    {
        match setting {
            Some(value) => value,
            None => String::from_str(DEFAULT_BACKEND_URL),
        }
    }

    /// The backend's port: the setting `BACKEND_PORT`, or the default where
    /// the setting is absent.
    pub fn get_backend_port(setting: Option<String>) -> (port: String)
        ensures
            port@ == setting_or(option_text(setting), DEFAULT_BACKEND_PORT@),
    {
        match setting {
            Some(value) => value,
            None => String::from_str(DEFAULT_BACKEND_PORT),
        }
    }

    /// The base address under which both endpoints of the backend live.
    pub fn get_full_backend_url(url: Option<String>, port: Option<String>) -> (base: String)
        ensures
            base@ == full_backend_url(option_text(url), option_text(port)),
    {
        let mut base = Self::get_backend_url(url);
        let port = Self::get_backend_port(port);
        base.append(":");
        base.append(port.as_str());
        base
    }
}

} // verus!
