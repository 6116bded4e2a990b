//! The static description of the endpoints to subscribe to.

use vstd::prelude::*;

verus! {

/// One remote endpoint: its address and the token that authenticates the
/// connection. Endpoints are told apart by their position in the list, so
/// the same address may be configured, and connected, more than once.
#[derive(Debug, PartialEq, Eq)]
pub struct Auth {
    pub end_point: String,
    pub token: String,
}

/// An endpoint as a mathematical value.
pub struct AuthModel {
    pub end_point: Seq<char>,
    pub token: Seq<char>,
}

impl View for Auth {
    type V = AuthModel;

    open spec fn view(&self) -> AuthModel {
        AuthModel { end_point: self.end_point@, token: self.token@ }
    }
}

impl Clone for Auth {
    fn clone(&self) -> (copy: Auth)
        ensures
            copy@ == self@,
    {
        Auth { end_point: self.end_point.clone(), token: self.token.clone() }
    }
}

/// The configuration: the endpoints, in the order in which their workers
/// are spawned.
#[derive(Debug, PartialEq, Eq)]
pub struct Config {
    pub configs: Vec<Auth>,
}

impl View for Config {
    type V = Seq<AuthModel>;

    open spec fn view(&self) -> Seq<AuthModel> {
        Seq::new(self.configs@.len(), |i: int| self.configs@[i]@)
    }
}

impl Clone for Config {
    fn clone(&self) -> (copy: Config)
        ensures
            copy@ == self@,
    {
        let mut configs: Vec<Auth> = Vec::new();
        let mut i: usize = 0;
        while i < self.configs.len()
            invariant
                i <= self.configs.len(),
                configs@.len() == i,
                forall|j: int| 0 <= j < i ==> (#[trigger] configs@[j])@ == self.configs@[j]@,
            decreases self.configs.len() - i,
        {
            configs.push(self.configs[i].clone());
            i = i + 1;
        }
        Config { configs }
    }
}

impl Config {
    /// The number of configured endpoints.
    pub fn endpoint_count(&self) -> (count: usize)
        ensures
            count == self@.len(),
    {
        self.configs.len()
    }
}

/// Why there is no configuration to start from.
#[derive(Clone, Copy, Debug, PartialEq, Eq)]
pub enum ConfigError {
    /// The path of the configuration file was not given.
    MissingArgument,
    /// The configuration file could not be read.
    UnreadableFile,
    /// The configuration file does not hold the expected JSON.
    InvalidJson,
}

impl ConfigError {
    /// The text of the message that the program stops with.
    pub open spec fn message_text(self) -> Seq<char> {
        match self {
            ConfigError::MissingArgument => "Usage: program <config_path>"@,
            ConfigError::UnreadableFile => "Failed to read config file"@,
            ConfigError::InvalidJson => "Invalid JSON config format"@,
        }
    }

    /// The message that the program stops with.
    pub fn message(&self) -> (text: &'static str)
        ensures
            text@ == self.message_text(),
    {
        match self {
            ConfigError::MissingArgument => "Usage: program <config_path>",
            ConfigError::UnreadableFile => "Failed to read config file",
            ConfigError::InvalidJson => "Invalid JSON config format",
        }
    }
}

} // verus!
