//! The connection record: where the server is, who this client is, and the
//! credential it presents.

use vstd::prelude::*;

verus! {

/// The persisted connection record.
///
/// `token` is absent before the first authentication and present once the
/// server has issued one.
#[derive(Debug, Clone, PartialEq, Eq)]
pub struct Config {
    pub host: String,
    pub port: u16,
    pub token: Option<String>,
    pub plugin_name: String,
    pub plugin_developer: String,
}

/// What a [`Config`] holds, as mathematical values.
pub struct ConfigView {
    pub host: Seq<char>,
    pub port: int,
    pub token: Option<Seq<char>>,
    pub plugin_name: Seq<char>,
    pub plugin_developer: Seq<char>,
}

/// The port the server listens on unless told otherwise.
pub const DEFAULT_PORT: u16 = 8001;

impl View for Config {
    type V = ConfigView;

    open spec fn view(&self) -> ConfigView {
        ConfigView {
            host: self.host@,
            port: self.port as int,
            token: match self.token {
                Some(t) => Some(t@),
                None => None,
            },
            plugin_name: self.plugin_name@,
            plugin_developer: self.plugin_developer@,
        }
    }
}

impl Config {
    /// The record used when nothing is given: the local machine, the
    /// standard port, no credential, and this client's own identity.
    pub fn standard() -> (r: Config)
        ensures
            r@ == (ConfigView {
                host: "localhost"@,
                port: DEFAULT_PORT as int,
                token: None,
                plugin_name: "VTube Studio CLI"@,
                plugin_developer: "Walfie"@,
            }),
    {
        Config {
            host: "localhost".to_owned(),
            port: DEFAULT_PORT,
            token: None,
            plugin_name: "VTube Studio CLI".to_owned(),
            plugin_developer: "Walfie".to_owned(),
        }
    }

    /// A copy that holds the same values.
    pub fn duplicate(&self) -> (r: Config)
        ensures
            r == *self,
    {
        let token = match &self.token {
            Some(t) => Some(t.clone()),
            None => None,
        };
        Config {
            host: self.host.clone(),
            port: self.port,
            token,
            plugin_name: self.plugin_name.clone(),
            plugin_developer: self.plugin_developer.clone(),
        }
    }

    /// Replaces the credential with a newly issued one. Nothing else
    /// changes.
    pub fn rotate_token(&mut self, token: String)
        ensures
            *final(self) == (Config { token: Some(token), ..*old(self) }),
    {
        self.token = Some(token);
    }
}

} // verus!
