//! What the server settles before it listens: where to bind, and how a
//! failed start is named.

use vstd::prelude::*;
use vstd::string::*;

verus! {

/// The port that is used where none is given.
pub const DEFAULT_PORT: &'static str = "3000";

/// The address that the server listens on, before the colon and the port.
pub const BIND_HOST: &'static str = "0.0.0.0";

/// The ways in which the server can fail to start.
#[derive(Clone, Copy, Debug, PartialEq, Eq, Structural)]
pub enum StartupError {
    /// The environment could not be read.
    BadEnv,
    /// The address to listen on is not an address.
    BadBind,
    /// The server did not come up.
    BadLaunch,
}

impl StartupError {
    /// The tag under which the process reports the failure.
    pub open spec fn tag_text(self) -> Seq<char> {
        match self {
            StartupError::BadEnv => "Bad Env"@,
            StartupError::BadBind => "Bad Bind"@,
            StartupError::BadLaunch => "Bad Launch"@,
        }
    }

    /// The tag under which the process reports the failure.
    pub fn tag(&self) -> (tag: &'static str)
        ensures
            tag@ == self.tag_text(),
    {
        match self {
            StartupError::BadEnv => "Bad Env",
            StartupError::BadBind => "Bad Bind",
            StartupError::BadLaunch => "Bad Launch",
        }
    }
}

/// What looking up a variable of the environment came to.
#[derive(Clone, Debug, PartialEq, Eq)]
pub enum EnvLookup {
    /// The variable is set, to this text.
    Present(String),
    /// The variable is not set.
    NotPresent,
    /// The variable is set, to something that is no text.
    NotUnicode,
}

/// Reads the log filter out of the lookup of its variable. A filter that is
/// not set is no error; one that is no text is.
pub fn log_filter(lookup: EnvLookup) -> (filter: Result<Option<String>, StartupError>)
    ensures
        filter == match lookup {
            EnvLookup::Present(text) => Ok::<Option<String>, StartupError>(Some(text)),
            EnvLookup::NotPresent => Ok(None),
            EnvLookup::NotUnicode => Err(StartupError::BadEnv),
        },
{
    match lookup {
        EnvLookup::Present(text) => Ok(Some(text)),
        EnvLookup::NotPresent => Ok(None),
        EnvLookup::NotUnicode => Err(StartupError::BadEnv),
    }
}

/// The port to listen on: the one given, or the default where none is.
pub fn port_or_default(argument: Option<String>) -> (port: String)
    ensures
        port@ == match argument {
            Some(given) => given@,
            None => DEFAULT_PORT@,
        },
{
    match argument {
        Some(given) => given,
        None => String::from_str(DEFAULT_PORT),
    }
}

/// The text of the address to listen on: every interface, a colon, and the
/// port as it was given.
pub fn bind_address(port: &str) -> (address: String)
    ensures
        address@ == BIND_HOST@ + ":"@ + port@,
{
    let mut address = String::from_str(BIND_HOST);
    address.append(":");
    address.append(port);
    address
}

} // verus!
