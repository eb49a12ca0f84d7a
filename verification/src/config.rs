//! Credentials and the Datadog site to talk to.

use vstd::prelude::*;
use crate::error::DdError;
use crate::text::{append_text, chars_of, string_of, text_of, trim, trimmed};

verus! {

/// Credentials and site of the Datadog account.
pub struct Config {
    pub api_key: String,
    pub app_key: String,
    pub site: String,
}

/// The site used when none is configured.
pub open spec fn default_site() -> Seq<char> {
    "datadoghq.com"@
}

/// The value of a required setting: present and not blank, trimmed.
pub open spec fn required_setting(name: Seq<char>, value: Option<Seq<char>>) -> Result<Seq<char>, Seq<char>> {
    match value {
        Some(v) => if trim(v).len() == 0 { Err(name) } else { Ok(trim(v)) },
        None => Err(name),
    }
}

/// The site in effect: the trimmed setting, or the default when unset or blank.
pub open spec fn site_setting(value: Option<Seq<char>>) -> Seq<char> {
    match value {
        Some(v) => if trim(v).len() == 0 { default_site() } else { trim(v) },
        None => default_site(),
    }
}

/// The view of an optional setting.
pub open spec fn opt_setting(o: Option<String>) -> Option<Seq<char>> {
    match o {
        Some(s) => Some(s@),
        None => None,
    }
}

fn trim_string(s: &String) -> (r: String)
    ensures
        r@ == trim(s@),
{
    let cs = chars_of(s.as_str());
    let t = trimmed(&cs);
    string_of(t.as_slice())
}

/// A required setting named `name` with value `value` (unset: `None`): trimmed,
/// or the missing-setting error when unset or blank.
pub fn required_env(name: &str, value: Option<String>) -> (r: Result<String, DdError>)
    ensures
        match r {
            Ok(v) => required_setting(name@, opt_setting(value)) == Ok::<Seq<char>, Seq<char>>(v@),
            Err(e) => e matches DdError::MissingEnv(n) && required_setting(name@, opt_setting(value))
                == Err::<Seq<char>, Seq<char>>(n@),
        },
{
    match value {
        Some(v) => {
            let t = trim_string(&v);
            if t.as_str().is_empty() {
                Err(DdError::MissingEnv(text_of(name)))
            } else {
                Ok(t)
            }
        },
        None => Err(DdError::MissingEnv(text_of(name))),
    }
}

impl Config {
    /// The configuration from the values of `DD_API_KEY`, `DD_APP_KEY` and
    /// `DD_SITE` (each `None` when unset).
    pub fn from_values(api_key: Option<String>, app_key: Option<String>, site: Option<String>) -> (r: Result<Config, DdError>)
        ensures
            match r {
                Ok(c) => required_setting("DD_API_KEY"@, opt_setting(api_key)) == Ok::<Seq<char>, Seq<char>>(c.api_key@)
                    && required_setting("DD_APP_KEY"@, opt_setting(app_key)) == Ok::<Seq<char>, Seq<char>>(c.app_key@)
                    && c.site@ == site_setting(opt_setting(site)),
                Err(e) => e matches DdError::MissingEnv(n) && (
                    required_setting("DD_API_KEY"@, opt_setting(api_key)) == Err::<Seq<char>, Seq<char>>(n@)
                    || (required_setting("DD_API_KEY"@, opt_setting(api_key)) is Ok
                        && required_setting("DD_APP_KEY"@, opt_setting(app_key)) == Err::<Seq<char>, Seq<char>>(n@))),
            },
    {
        let api_key = match required_env("DD_API_KEY", api_key) {
            Ok(v) => v,
            Err(e) => return Err(e),
        };
        let app_key = match required_env("DD_APP_KEY", app_key) {
            Ok(v) => v,
            Err(e) => return Err(e),
        };
        let site = match site {
            Some(s) => {
                let t = trim_string(&s);
                if t.as_str().is_empty() { text_of("datadoghq.com") } else { t }
            },
            None => text_of("datadoghq.com"),
        };
        Ok(Config { api_key, app_key, site })
    }

    /// The API base URL of the configured site.
    pub fn base_url(&self) -> (r: String)
        ensures
            r@ == "https://api."@ + self.site@,
    {
        let mut s = text_of("https://api.");
        append_text(&mut s, self.site.as_str());
        s
    }
}

} // verus!
