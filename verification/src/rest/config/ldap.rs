use vstd::prelude::*;

verus! {

/// LDAP authentication configuration.
#[derive(Clone, Debug, PartialEq)]
pub struct Ldap {
    /// LDAP server address (`server:port`).
    pub address: String,
    /// Bind DN for user authentication; `%s` stands for the username.
    pub bind_dn: String,
    pub options: Options,
}

/// The remaining LDAP options.
#[derive(Clone, Debug, PartialEq)]
pub struct Options {
    pub transport: Transport,
    /// Skip certificate verification.
    pub insecure_skip_verify: bool,
    /// Base DN for user searches.
    pub search_base_dn: String,
    /// Search filter for user searches.
    pub search_filter: String,
}

/// How the LDAP connection is secured.
#[derive(Copy, Clone, Debug, PartialEq, Eq, Structural, Hash)]
pub enum Transport {
    /// Non secure connection.
    Plain,
    /// TLS secured connection.
    Tls,
    /// StartTLS connection mode.
    StartTls,
}

} // verus!
