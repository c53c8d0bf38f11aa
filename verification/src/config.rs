//! The credentials the bot runs with.
use std::sync::Arc;
use vstd::prelude::*;
use vstd::string::*;

verus! {

/// The two secrets, as the configuration document gives them.
#[derive(Debug, Clone)]
pub struct Config {
    pub discord_bot_token: String,
    pub biconomy_auth_token: String,
}

impl Config {
    /// Whether both secrets are there: neither is empty.
    pub open spec fn is_complete(&self) -> bool {
        self.discord_bot_token@.len() > 0 && self.biconomy_auth_token@.len() > 0
    }

    /// Tests [`Self::is_complete`].
    pub fn check(&self) -> (ok: bool)
        ensures
            ok == self.is_complete(),
    {
        !self.discord_bot_token.as_str().is_empty() && !self.biconomy_auth_token.as_str().is_empty()
    }
}

/// The configuration as every command run sees it: complete, shared, and
/// never changed.
pub struct ConfigDependency {
    config: Arc<Config>,
}

impl ConfigDependency {
    #[verifier::type_invariant]
    spec fn wf(&self) -> bool {
        self.config.is_complete()
    }

    /// The configuration held.
    pub closed spec fn view(&self) -> Config {
        *self.config
    }

    /// Takes `config` for sharing, if it is complete.
    pub fn new(config: Config) -> (shared: Option<Self>)
        ensures
            shared is Some <==> config.is_complete(),
            shared matches Some(s) ==> s@ == config,
    {
        if config.check() {
            Some(ConfigDependency { config: Arc::new(config) })
        } else {
            None
        }
    }

    /// The configuration held, which is complete.
    pub fn get(&self) -> (config: &Config)
        ensures
            *config == self@,
            config.is_complete(),
    {
        proof {
            use_type_invariant(self);
        }
        &*self.config
    }

    /// Another handle on the same configuration.
    pub fn share(&self) -> (other: Self)
        ensures
            other@ == self@,
    {
        proof {
            use_type_invariant(self);
        }
        ConfigDependency { config: self.config.clone() }
    }
}

} // verus!
