//! The errors of the bot.

use vstd::prelude::*;

verus! {

/// What can go wrong while serving a command.
#[derive(Debug, Clone, PartialEq, Eq)]
pub enum Error {
    StandardError { e: String },
    NotAPlaylist,
    NotFound,
    YtDlpNotFound,
    YtDlpError { e: String },
    UnknownError { e: String },
    SerenityError { e: String },
}

impl Error {
    /// The error for a failure that carries only its message.
    pub fn standard(message: String) -> (r: Error)
        ensures
            r matches Error::StandardError { e } && e@ == message@,
    {
        Error::StandardError { e: message }
    }

    /// The error for a failure of the chat client.
    pub fn serenity(message: String) -> (r: Error)
        ensures
            r matches Error::SerenityError { e } && e@ == message@,
    {
        Error::SerenityError { e: message }
    }
}

} // verus!
