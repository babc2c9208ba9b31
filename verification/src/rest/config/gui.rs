use vstd::prelude::*;

use crate::decimal::{
    all_dec_digits, dec_rep, dec_val, parse_u16_dec, u64_to_decimal, ParseIntReason,
};

verus! {

broadcast use vstd::string::group_string_axioms;

/// The GUI and REST API configuration.
#[derive(Clone, Debug, PartialEq)]
pub struct Gui {
    /// If not `true`, the GUI and API are not started.
    pub enabled: bool,
    /// If `true`, TLS (HTTPS) is enforced.
    pub tls: bool,
    /// Enables profiling and additional debug endpoints.
    pub debugging: bool,
    /// The listen address.
    pub address: Address,
    /// Octal permissions for the UNIX socket, when one is used.
    pub unix_socket_permissions: String,
    /// Set to require authentication.
    pub user: String,
    /// The bcrypt hash of the password.
    pub password: String,
    /// The API key that enables the REST interface.
    pub api_key: String,
    /// Allow access from outside localhost without authorization.
    pub insecure_admin_access: bool,
    /// Bypass the Host header check on localhost.
    pub insecure_skip_hostcheck: bool,
    /// Allow rendering the GUI within a frame.
    pub insecure_allow_frame_loading: bool,
    /// The name of the theme to use.
    pub theme: String,
    /// The authentication mode.
    pub auth_mode: AuthMode,
}

/// A GUI listen address: an address with port, a wildcard port alone, or the
/// path of a UNIX socket.
#[derive(Clone, Debug, PartialEq)]
pub enum Address {
    /// An IP address and port, as given.
    Ip(String),
    /// A bare port, standing for all interfaces.
    Port(WildcardPort),
    /// An absolute path, interpreted as a UNIX socket.
    Path(String),
}

/// A port standing for all interfaces, written `:port`.
#[derive(Copy, Clone, Debug, PartialEq, Eq, Structural, Hash)]
pub struct WildcardPort(u16);

impl WildcardPort {
    /// The port number.
    pub closed spec fn spec_port(&self) -> u16 {
        self.0
    }

    pub fn new(port: u16) -> (r: WildcardPort)
        ensures
            r.spec_port() == port,
    {
        WildcardPort(port)
    }

    pub fn port(self) -> (r: u16)
        ensures
            r == self.spec_port(),
    {
        self.0
    }

    /// Reads a wildcard port: a `:` followed by the port in decimal.
    pub fn parse(s: &str) -> (r: Result<WildcardPort, ParseWildcardPortError>)
        ensures
            match r {
                Ok(w) => {
                    &&& s@.len() >= 1
                    &&& s@[0] == ':'
                    &&& all_dec_digits(s@.subrange(1, s@.len() as int))
                    &&& s@.len() >= 2
                    &&& dec_val(s@.subrange(1, s@.len() as int)) == w.spec_port() as nat
                },
                Err(ParseWildcardPortError::MissingPrefix) => s@.len() == 0 || s@[0] != ':',
                Err(ParseWildcardPortError::IntError(reason)) => {
                    &&& s@.len() >= 1
                    &&& s@[0] == ':'
                    &&& match reason {
                        ParseIntReason::Empty => s@.len() == 1,
                        ParseIntReason::InvalidDigit => s@.len() >= 2 && !all_dec_digits(
                            s@.subrange(1, s@.len() as int),
                        ),
                        ParseIntReason::Overflow => s@.len() >= 2 && all_dec_digits(
                            s@.subrange(1, s@.len() as int),
                        ) && dec_val(s@.subrange(1, s@.len() as int)) > u16::MAX,
                    }
                },
            },
    {
        let n = s.unicode_len();
        if n == 0 {
            return Err(ParseWildcardPortError::MissingPrefix);
        }
        if s.get_char(0) != ':' {
            return Err(ParseWildcardPortError::MissingPrefix);
        }
        let rest = s.substring_char(1, n);
        match parse_u16_dec(rest) {
            Ok(v) => Ok(WildcardPort(v)),
            Err(reason) => Err(ParseWildcardPortError::IntError(reason)),
        }
    }

    /// Writes this wildcard port as it appears on the wire: `:port`.
    pub fn render(&self) -> (r: String)
        ensures
            r@ == seq![':'] + dec_rep(self.spec_port() as nat),
    {
        proof {
            reveal_strlit(":");
        }
        let mut s = ":".to_owned();
        let rendered = u64_to_decimal(self.0 as u64);
        s.append(rendered.as_str());
        proof {
            assert(s@ =~= seq![':'] + dec_rep(self.spec_port() as nat));
        }
        s
    }
}

/// Rendering a wildcard port yields a string that parses back to the same
/// port: it starts with `:`, what follows is all digits, and those digits
/// are worth exactly the port.
pub proof fn lemma_render_parses_back(w: WildcardPort)
    ensures
        (seq![':'] + dec_rep(w.spec_port() as nat))[0] == ':',
        all_dec_digits(
            (seq![':'] + dec_rep(w.spec_port() as nat)).subrange(
                1,
                (seq![':'] + dec_rep(w.spec_port() as nat)).len() as int,
            ),
        ),
        dec_val(
            (seq![':'] + dec_rep(w.spec_port() as nat)).subrange(
                1,
                (seq![':'] + dec_rep(w.spec_port() as nat)).len() as int,
            ),
        ) == w.spec_port() as nat,
{
    let rendered = seq![':'] + dec_rep(w.spec_port() as nat);
    crate::decimal::lemma_dec_rep_digits(w.spec_port() as nat);
    crate::decimal::lemma_dec_round_trip(w.spec_port() as nat);
    assert(rendered.subrange(1, rendered.len() as int) =~= dec_rep(w.spec_port() as nat));
}

/// Why a wildcard port failed to parse.
#[derive(Copy, Clone, Debug, PartialEq, Eq, Structural)]
pub enum ParseWildcardPortError {
    /// The leading `:` was missing.
    MissingPrefix,
    /// What followed the `:` was not a port number.
    IntError(ParseIntReason),
}

impl ParseWildcardPortError {
    /// A one-line description of the failure.
    pub fn describe(&self) -> (r: String)
        ensures
            match self {
                ParseWildcardPortError::MissingPrefix => r@ == "missing ':' prefix"@,
                ParseWildcardPortError::IntError(ParseIntReason::Empty) => r@
                    == "cannot parse integer from empty string"@,
                ParseWildcardPortError::IntError(ParseIntReason::InvalidDigit) => r@
                    == "invalid digit found in string"@,
                ParseWildcardPortError::IntError(ParseIntReason::Overflow) => r@
                    == "number too large to fit in target type"@,
            },
    {
        match self {
            ParseWildcardPortError::MissingPrefix => "missing ':' prefix".to_owned(),
            ParseWildcardPortError::IntError(ParseIntReason::Empty) => {
                "cannot parse integer from empty string".to_owned()
            },
            ParseWildcardPortError::IntError(ParseIntReason::InvalidDigit) => {
                "invalid digit found in string".to_owned()
            },
            ParseWildcardPortError::IntError(ParseIntReason::Overflow) => {
                "number too large to fit in target type".to_owned()
            },
        }
    }
}

/// How GUI users authenticate.
#[derive(Copy, Clone, Debug, PartialEq, Eq, Structural, Hash)]
pub enum AuthMode {
    Static,
    Ldap,
}

} // verus!
