//! The configuration snapshot a single invocation works from: the registry
//! base URL, the token record, and the optional default app id.
//!
//! The snapshot is immutable during an invocation; a refresh produces a new
//! snapshot that the embedding binary persists as a whole.

use vstd::prelude::*;
use vstd::string::StrSliceExecFns;
use crate::util::push_char;

verus! {

/// The bearer/refresh token pair and its expiry, as instants in seconds.
pub struct Token {
    pub access_token: String,
    pub refresh_token: Option<String>,
    pub expires_at: u64,
}

/// The mathematical value of a [`Token`].
pub struct TokenV {
    pub access_token: Seq<char>,
    pub refresh_token: Option<Seq<char>>,
    pub expires_at: u64,
}

impl View for Token {
    type V = TokenV;

    open spec fn view(&self) -> TokenV {
        TokenV {
            access_token: self.access_token@,
            refresh_token: self.refresh_token.deep_view(),
            expires_at: self.expires_at,
        }
    }
}

/// One invocation's configuration snapshot.
pub struct Config {
    pub registry_url: String,
    pub token: Token,
    pub default_app: Option<String>,
}

/// The mathematical value of a [`Config`].
pub struct ConfigV {
    pub registry_url: Seq<char>,
    pub token: TokenV,
    pub default_app: Option<Seq<char>>,
}

impl View for Config {
    type V = ConfigV;

    open spec fn view(&self) -> ConfigV {
        ConfigV {
            registry_url: self.registry_url@,
            token: self.token@,
            default_app: self.default_app.deep_view(),
        }
    }
}

impl ConfigV {
    /// The base URL is non-empty and ends with the path separator that the
    /// resource paths are appended after.
    pub open spec fn wf(self) -> bool {
        self.registry_url.len() > 0 && self.registry_url[self.registry_url.len() - 1] == '/'
    }
}

impl Config {
    pub open spec fn wf(&self) -> bool {
        self@.wf()
    }

    /// Builds a well-formed snapshot, appending the trailing path separator
    /// to the registry URL when it is missing.
    pub fn new(registry_url: String, token: Token, default_app: Option<String>) -> (c: Config)
        ensures
            c.wf(),
            c@.token == token@,
            c@.default_app == default_app.deep_view(),
            registry_url@.len() > 0 && registry_url@[registry_url@.len() - 1] == '/' ==> c@
                .registry_url == registry_url@,
            !(registry_url@.len() > 0 && registry_url@[registry_url@.len() - 1] == '/') ==> c@
                .registry_url == registry_url@ + seq!['/'],
    {
        let n = registry_url.as_str().unicode_len();
        let mut url = registry_url;
        if n == 0 || url.as_str().get_char(n - 1) != '/' {
            push_char(&mut url, '/');
        }
        Config { registry_url: url, token, default_app }
    }
}

} // verus!
