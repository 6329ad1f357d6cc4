use vstd::prelude::*;

use crate::account::{parse_account, spec_parse_account, Account};
use crate::network::NetworkConfig;

verus! {

/// Name of the per-project configuration file.
pub const CONFIG_FILE_NAME: &'static str = "tari.config.toml";

/// A project's configuration: which network it deploys to and, optionally,
/// which account pays by default.
pub struct ProjectConfig {
    network: NetworkConfig,
    default_account: Option<String>,
}

impl ProjectConfig {
    pub fn new(network: NetworkConfig, default_account: Option<String>) -> (r: Self)
        ensures
            r.network_address() == network@,
            r.default_account_text() == (match default_account {
                Some(s) => Some(s@),
                None => None::<Seq<char>>,
            }),
    {
        Self { network, default_account }
    }

    /// The configured wallet daemon endpoint.
    pub closed spec fn network_address(&self) -> Seq<char> {
        self.network@
    }

    /// The configured default account's text, when one is set.
    pub closed spec fn default_account_text(&self) -> Option<Seq<char>> {
        match self.default_account {
            Some(s) => Some(s@),
            None => None,
        }
    }

    pub fn network(&self) -> (r: &NetworkConfig)
        ensures
            r@ == self.network_address(),
    {
        &self.network
    }

    /// The default account the project configures, classified as address
    /// or name; nothing when the project sets none.
    pub fn parsed_default_account(&self) -> (r: Option<Account>)
        ensures
            match self.default_account_text() {
                Some(s) => r matches Some(a) && a@ == spec_parse_account(s),
                None => r is None,
            },
    {
        match &self.default_account {
            Some(s) => Some(parse_account(s)),
            None => None,
        }
    }
}

impl Default for ProjectConfig {
    /// The stock project configuration: a local wallet daemon and no
    /// default account.
    fn default() -> (r: Self)
        ensures
            r.network_address() == "http://127.0.0.1:9000"@,
            r.default_account_text() is None,
    {
        ProjectConfig {
            network: NetworkConfig::new("http://127.0.0.1:9000".to_owned()),
            default_account: None,
        }
    }
}

} // verus!
