//! Exporter configuration: the listen port and the targets to poll.

use vstd::prelude::*;
use vstd::string::StringExecFns;

verus! {

/// Port the exporter listens on when none is configured.
pub const DEFAULT_HTTP_LISTEN_PORT: u16 = 9498;

/// The configuration for the server.
#[derive(Debug)]
pub struct ServerConfig {
    /// The port to listen on.
    pub http_listen_port: u16,
}

impl Default for ServerConfig {
    fn default() -> (config: Self)
        ensures
            config.http_listen_port == DEFAULT_HTTP_LISTEN_PORT,
    {
        ServerConfig { http_listen_port: DEFAULT_HTTP_LISTEN_PORT }
    }
}

/// The configuration for the application.
#[derive(Debug)]
pub struct Config {
    /// The configuration for the server.
    pub server: ServerConfig,
    /// A list of Mastodon instances to monitor.
    pub instance_info: Vec<String>,
    /// A list of Mastodon accounts to monitor.
    ///
    /// The first value is the name of the instance, the second is the account's id.
    pub accounts: Vec<(String, String)>,
}

impl Config {
    /// The instance domains of a configuration, as character sequences.
    pub open spec fn instance_domains(&self) -> Seq<Seq<char>> {
        Seq::new(self.instance_info@.len(), |i: int| self.instance_info@[i]@)
    }
}

impl Default for Config {
    fn default() -> (config: Self)
        ensures
            config.server.http_listen_port == DEFAULT_HTTP_LISTEN_PORT,
            config.instance_domains() == seq!["mas.to"@, "mastodon.social"@],
            config.accounts@.len() == 0,
    {
        let mut instance_info: Vec<String> = Vec::new();
        instance_info.push(String::from_str("mas.to"));
        instance_info.push(String::from_str("mastodon.social"));
        let config = Config {
            server: ServerConfig::default(),
            instance_info,
            accounts: Vec::new(),
        };
        assert(config.instance_domains() =~= seq!["mas.to"@, "mastodon.social"@]);
        config
    }
}

} // verus!
