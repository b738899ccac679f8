//! The user-visible error taxonomy. Every variant maps to exactly one short
//! message; background tasks never surface these to a caller.

use vstd::prelude::*;
use vstd::string::StringExecFns;

verus! {

#[derive(Debug, Clone, PartialEq)]
pub enum MusicError {
    /// The actor is not present in a voice channel.
    NotInVoiceChannel,
    /// The command was issued outside a guild context.
    NotInGuild,
    /// Metadata lookup returned nothing.
    NoResults,
    /// The operation requires a non-empty queue.
    EmptyQueue,
    /// Connection establishment failed, with the provider's reason.
    JoinError(String),
}

impl MusicError {
    /// The one short message shown for this error.
    pub open spec fn spec_message(self) -> Seq<char> {
        match self {
            MusicError::NotInVoiceChannel => "You must be in a voice channel"@,
            MusicError::NotInGuild => "This command must be used in a server"@,
            MusicError::NoResults => "No results found for your query"@,
            MusicError::EmptyQueue => "The queue is empty"@,
            MusicError::JoinError(reason) => "Failed to join voice channel: "@ + reason@,
        }
    }

    pub fn message(&self) -> (r: String)
        ensures
            r@ == self.spec_message(),
    {
        match self {
            MusicError::NotInVoiceChannel => String::from_str("You must be in a voice channel"),
            MusicError::NotInGuild => String::from_str("This command must be used in a server"),
            MusicError::NoResults => String::from_str("No results found for your query"),
            MusicError::EmptyQueue => String::from_str("The queue is empty"),
            MusicError::JoinError(reason) => String::from_str(
                "Failed to join voice channel: ",
            ).concat(reason.as_str()),
        }
    }
}

} // verus!
