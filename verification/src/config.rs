//! The settings of the client.

use vstd::prelude::*;

verus! {

/// The settings of the client.
#[derive(Debug)]
pub struct Config {
    pub slack: SlackConfig,
    pub zeroclaw: ZeroClawConfig,
    pub llm: LlmConfig,
}

/// The settings of the chat service.
#[derive(Debug)]
pub struct SlackConfig {
    pub client_id: String,
    pub client_secret: String,
    pub redirect_port: u16,
}

/// The settings of the agent.
#[derive(Debug)]
pub struct ZeroClawConfig {
    pub binary_path: String,
    pub gateway_port: u16,
    pub auto_start: bool,
    pub timeout_seconds: u64,
}

/// The settings of the language model.
#[derive(Debug)]
pub struct LlmConfig {
    pub provider: String,
    pub api_key: String,
}

impl Config {
    /// The settings hold the values that a client without settings file
    /// starts with.
    pub open spec fn is_default(self) -> bool {
        &&& self.slack.client_id@.len() == 0
        &&& self.slack.client_secret@.len() == 0
        &&& self.slack.redirect_port == 3000
        &&& self.zeroclaw.binary_path@ == "zeroclaw"@
        &&& self.zeroclaw.gateway_port == 8080
        &&& self.zeroclaw.auto_start
        &&& self.zeroclaw.timeout_seconds == 30
        &&& self.llm.provider@ == "openrouter"@
        &&& self.llm.api_key@.len() == 0
    }

    /// The settings that were loaded, and the default settings where
    /// loading failed.
    pub fn load_or_default(loaded: Option<Config>) -> (r: Config)
        ensures
            match loaded {
                Some(config) => r == config,
                None => r.is_default(),
            },
    {
        match loaded {
            Some(config) => config,
            None => Config::default(),
        }
    }
}

impl Default for Config {
    fn default() -> (r: Config)
        ensures
            r.is_default(),
    {
        Config {
            slack: SlackConfig {
                client_id: String::new(),
                client_secret: String::new(),
                redirect_port: 3000,
            },
            zeroclaw: ZeroClawConfig {
                binary_path: "zeroclaw".to_owned(),
                gateway_port: 8080,
                auto_start: true,
                timeout_seconds: 30,
            },
            llm: LlmConfig { provider: "openrouter".to_owned(), api_key: String::new() },
        }
    }
}

} // verus!
