//! What the relay server is started with.

use vstd::prelude::*;
use crate::boundary::{parse_i32, parsed_i32};

verus! {

/// The port of the relay server where none is set.
pub const RELAY_PORT: i32 = 21117;

/// The port that the relay server listens on where its own argument names
/// none: one above the port that the environment names for the rendezvous
/// server, or the default port where the environment names none above 0.
pub open spec fn relay_port_of(environment: Option<Seq<char>>) -> i32 {
    match environment {
        Some(text) => match parsed_i32(text) {
            Some(v) => if 0 < v < i32::MAX {
                (v + 1) as i32
            } else {
                RELAY_PORT
            },
            None => RELAY_PORT,
        },
        None => RELAY_PORT,
    }
}

/// The port that the relay server listens on where its own argument names
/// none.
pub fn relay_port(environment: Option<&str>) -> (port: i32)
    ensures
        port == relay_port_of(
            match environment {
                Some(t) => Some(t@),
                None => None,
            },
        ),
{
    match environment {
        Some(text) => match parse_i32(text) {
            Some(v) => if v > 0 && v < i32::MAX {
                v + 1
            } else {
                RELAY_PORT
            },
            None => RELAY_PORT,
        },
        None => RELAY_PORT,
    }
}

/// How the relay server runs.
#[derive(Debug, Clone, Copy, PartialEq, Eq, Structural)]
pub enum RelayMode {
    Standard,
    Enterprise,
}

/// How the relay server runs: in enterprise mode where that was asked for
/// and the database could be reached, else as the standard relay.
pub fn relay_mode(enterprise_asked: bool, database_ready: bool) -> (mode: RelayMode)
    ensures
        mode == if enterprise_asked && database_ready {
            RelayMode::Enterprise
        } else {
            RelayMode::Standard
        },
{
    if enterprise_asked && database_ready {
        RelayMode::Enterprise
    } else {
        RelayMode::Standard
    }
}

/// A new random secret for signing tokens.
pub fn generate_random_secret() -> (secret: String)
    ensures
        secret@.len() == crate::enterprise_main::GENERATED_SECRET_LEN,
        forall|i: int|
            0 <= i < secret@.len() ==> crate::enterprise_main::secret_charset().contains(
                #[trigger] secret@[i],
            ),
{
    crate::enterprise_main::generate_random_secret()
}

} // verus!
