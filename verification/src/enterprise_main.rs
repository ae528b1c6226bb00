//! What the rendezvous server is started with: the settings that are read
//! from the command line, and the environment of the enterprise mode.

use vstd::prelude::*;
use vstd::string::*;
use crate::boundary::{parse_i32, parse_usize, parsed_i32, parsed_usize, random_below};
use crate::text::str_eq;
use crate::transport::MIN_PORT;

verus! {

/// The port of the rendezvous server where none is set.
pub const RENDEZVOUS_PORT: i32 = 21116;

/// The size of the UDP receive buffer where none is set: the system's own.
pub const RMEM: usize = 0;

/// The length of a generated secret.
pub const GENERATED_SECRET_LEN: usize = 64;

/// The characters that a generated secret is drawn from.
pub open spec fn secret_charset() -> Seq<char> {
    "ABCDEFGHIJKLMNOPQRSTUVWXYZabcdefghijklmnopqrstuvwxyz0123456789!@#$%^&*"@
}

/// The secret whose characters stand in the character set at the given
/// places.
pub open spec fn secret_from(picks: Seq<usize>) -> Seq<char> {
    Seq::new(picks.len(), |i: int| secret_charset()[picks[i] as int])
}

/// The secret whose characters stand in the character set at the given
/// places.
pub fn secret_with_picks(picks: &Vec<usize>) -> (secret: String)
    requires
        forall|i: int| 0 <= i < picks@.len() ==> picks@[i] < 70,
    ensures
        secret@ == secret_from(picks@),
{
    let charset = "ABCDEFGHIJKLMNOPQRSTUVWXYZabcdefghijklmnopqrstuvwxyz0123456789!@#$%^&*";
    proof {
        reveal_strlit("ABCDEFGHIJKLMNOPQRSTUVWXYZabcdefghijklmnopqrstuvwxyz0123456789!@#$%^&*");
    }
    let mut secret = String::new();
    let mut i: usize = 0;
    while i < picks.len()
        invariant
            i <= picks@.len(),
            charset@ == secret_charset(),
            charset@.len() == 70,
            charset.is_ascii(),
            forall|j: int| 0 <= j < picks@.len() ==> picks@[j] < 70,
            secret@ == secret_from(picks@.subrange(0, i as int)),
        decreases picks@.len() - i,
    {
        let p = picks[i];
        let piece = charset.substring_ascii(p, p + 1);
        secret.append(piece);
        proof {
            assert(piece@ =~= seq![secret_charset()[p as int]]);
            assert(secret@ =~= secret_from(picks@.subrange(0, i + 1)));
        }
        i += 1;
    }
    proof {
        assert(picks@.subrange(0, picks@.len() as int) =~= picks@);
    }
    secret
}

/// A new random secret: 64 characters of the character set.
pub fn generate_random_secret() -> (secret: String)
    ensures
        secret@.len() == GENERATED_SECRET_LEN,
        forall|i: int|
            0 <= i < secret@.len() ==> secret_charset().contains(#[trigger] secret@[i]),
{
    let mut picks: Vec<usize> = Vec::new();
    while picks.len() < GENERATED_SECRET_LEN
        invariant
            picks@.len() <= GENERATED_SECRET_LEN,
            forall|i: int| 0 <= i < picks@.len() ==> picks@[i] < 70,
        decreases GENERATED_SECRET_LEN - picks@.len(),
    {
        picks.push(random_below(70));
    }
    proof {
        reveal_strlit("ABCDEFGHIJKLMNOPQRSTUVWXYZabcdefghijklmnopqrstuvwxyz0123456789!@#$%^&*");
    }
    secret_with_picks(&picks)
}

/// The value of an argument, if it has one: an empty value is none.
pub fn get_arg_option(value: String) -> (r: Option<String>)
    ensures
        r == if value@.len() == 0 {
            None
        } else {
            Some(value)
        },
{
    if value.as_str().is_empty() {
        None
    } else {
        Some(value)
    }
}

/// Whether the enterprise mode is on: the argument says `true`, or the
/// environment names the mode.
pub fn enterprise_mode(argument: &str, named_in_environment: bool) -> (on: bool)
    ensures
        on == (argument@ == "true"@ || named_in_environment),
{
    str_eq(argument, "true") || named_in_environment
}

/// Why the server cannot start.
#[derive(Debug, Clone, Copy, PartialEq, Eq, Structural)]
pub enum StartError {
    /// The port is no number.
    PortFormat,
    /// The port is a number under the lowest base port.
    InvalidPort,
}

impl StartError {
    /// The error in words.
    pub fn message(&self) -> (m: &'static str)
        ensures
            m@ == match *self {
                StartError::PortFormat => "invalid digit found in string"@,
                StartError::InvalidPort => "Invalid port"@,
            },
    {
        match self {
            StartError::PortFormat => "invalid digit found in string",
            StartError::InvalidPort => "Invalid port",
        }
    }
}

/// What the server is started with.
#[derive(Debug, Clone, Copy, PartialEq, Eq, Structural)]
pub struct StartSettings {
    pub port: i32,
    pub rmem: usize,
    pub serial: i32,
}

/// The settings that the arguments name.
pub open spec fn settings_of(port: Seq<char>, rmem: Seq<char>, serial: Seq<char>) -> Result<
    StartSettings,
    StartError,
> {
    match parsed_i32(port) {
        None => Err(StartError::PortFormat),
        Some(p) => if p < MIN_PORT {
            Err(StartError::InvalidPort)
        } else {
            Ok(
                StartSettings {
                    port: p,
                    rmem: match parsed_usize(rmem) {
                        Some(v) => v,
                        None => RMEM,
                    },
                    serial: match parsed_i32(serial) {
                        Some(v) => v,
                        None => 0,
                    },
                },
            )
        },
    }
}

/// The settings that the arguments name: the port must be a number of 2
/// or more; a buffer size or a serial that is no number is taken as 0.
pub fn start_settings(port: &str, rmem: &str, serial: &str) -> (r: Result<StartSettings, StartError>)
    ensures
        r == settings_of(port@, rmem@, serial@),
{
    let p = match parse_i32(port) {
        Some(p) => p,
        None => {
            return Err(StartError::PortFormat);
        },
    };
    if p < MIN_PORT {
        return Err(StartError::InvalidPort);
    }
    Ok(
        StartSettings {
            port: p,
            rmem: match parse_usize(rmem) {
                Some(v) => v,
                None => RMEM,
            },
            serial: match parse_i32(serial) {
                Some(v) => v,
                None => 0,
            },
        },
    )
}

/// What the environment of the enterprise mode is set to.
#[derive(Debug, PartialEq, Eq)]
pub struct EnterpriseEnvironment {
    /// The signing secret to set; nothing to keep the one that is set.
    pub jwt_secret: Option<String>,
    /// Whether the secret was generated, which calls for a warning.
    pub secret_generated: bool,
    /// The database address to set; nothing to keep the one that is set.
    pub db_url: Option<String>,
    /// The port of the management console to set, if one was given.
    pub web_port: Option<String>,
}

/// The database that is used where none is named.
pub open spec fn default_db_url() -> Seq<char> {
    "enterprise.sqlite3"@
}

/// Decides what the environment of the enterprise mode is set to. An
/// argument goes before what the environment holds; where neither names a
/// signing secret a new random one is generated, and where neither names a
/// database the default one is used.
pub fn setup_enterprise_environment(
    jwt_secret: Option<String>,
    jwt_secret_set: bool,
    db_url: Option<String>,
    db_url_set: bool,
    web_port: Option<String>,
) -> (env: EnterpriseEnvironment)
    ensures
        env.web_port == web_port,
        env.secret_generated == (jwt_secret is None && !jwt_secret_set),
        jwt_secret is Some ==> env.jwt_secret == jwt_secret,
        jwt_secret is None && jwt_secret_set ==> env.jwt_secret is None,
        jwt_secret is None && !jwt_secret_set ==> (env.jwt_secret matches Some(s) && s@.len()
            == GENERATED_SECRET_LEN),
        db_url is Some ==> env.db_url == db_url,
        db_url is None && db_url_set ==> env.db_url is None,
        db_url is None && !db_url_set ==> (env.db_url matches Some(u) && u@ == default_db_url()),
{
    let secret_generated = jwt_secret.is_none() && !jwt_secret_set;
    let jwt_secret = match jwt_secret {
        Some(s) => Some(s),
        None => if jwt_secret_set {
            None
        } else {
            Some(generate_random_secret())
        },
    };
    let db_url = match db_url {
        Some(u) => Some(u),
        None => if db_url_set {
            None
        } else {
            Some("enterprise.sqlite3".to_string())
        },
    };
    EnterpriseEnvironment { jwt_secret, secret_generated, db_url, web_port }
}

/// The port of the management console as it is shown: the one that is
/// set, or three above the server's port.
pub fn console_port(web_port: Option<i32>, main_port: i32) -> (port: i32)
    requires
        main_port <= i32::MAX - 3,
    ensures
        port == match web_port {
            Some(p) => p,
            None => (main_port + 3) as i32,
        },
{
    match web_port {
        Some(p) => p,
        None => main_port + 3,
    }
}

} // verus!
