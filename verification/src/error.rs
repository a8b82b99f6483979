//! The errors that the library reports.

use vstd::prelude::*;

verus! {

/// What is wrong with a configuration that cannot be used.
#[derive(Debug, Clone, Copy, PartialEq, Eq, Structural)]
pub enum ConfigFault {
    /// The stream server's kind is none of the supported ones.
    UnsupportedServer,
    /// A field that the stream server's kind needs is absent.
    MissingServerField,
    /// The broadcasting software's address is not `host:port`.
    BadAddress,
    /// An alias is not a pair of an alias and a command.
    BadAlias,
}

#[derive(Debug, Clone, Copy, PartialEq, Eq, Structural)]
pub enum Error {
    /// The operation needs a chat configuration and there is none.
    NoChat,
    /// The configuration cannot be used.
    ConfigInvalid(ConfigFault),
    /// The configuration could not be read or written.
    ConfigFile,
    /// The configuration is not written in a known form.
    Json,
}

/// What an error says of itself.
pub open spec fn message_of(e: Error) -> Seq<char> {
    match e {
        Error::NoChat => "no chat configured"@,
        Error::ConfigInvalid(fault) => match fault {
            ConfigFault::UnsupportedServer => "no supported server found"@,
            ConfigFault::MissingServerField => "the stream server lacks a field"@,
            ConfigFault::BadAddress => "the address is not host:port"@,
            ConfigFault::BadAlias => "an alias names no command"@,
        },
        Error::ConfigFile => "the configuration file cannot be used"@,
        Error::Json => "the configuration cannot be read"@,
    }
}

impl Error {
    /// A short description for logs and messages.
    pub fn message(&self) -> (r: String)
        ensures
            r@ == message_of(*self),
    {
        let text = match self {
            Error::NoChat => "no chat configured",
            Error::ConfigInvalid(fault) => match fault {
                ConfigFault::UnsupportedServer => "no supported server found",
                ConfigFault::MissingServerField => "the stream server lacks a field",
                ConfigFault::BadAddress => "the address is not host:port",
                ConfigFault::BadAlias => "an alias names no command",
            },
            Error::ConfigFile => "the configuration file cannot be used",
            Error::Json => "the configuration cannot be read",
        };
        text.to_owned()
    }
}

} // verus!
