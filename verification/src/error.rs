use vstd::prelude::*;

verus! {

/// Typed failure of one command. Every error is terminal for that single
/// command only: it never tears a session down. The front-end renders the
/// message; the kind plus its context is all it needs.
#[derive(Debug, Clone, PartialEq, Eq)]
pub enum CommandError {
    /// The command requires an existing session and none was found.
    NotInSession,
    /// The caller gave no resolvable channel to join.
    NoChannel,
    /// The playback state machine refuses the transition, e.g. pausing
    /// while stopped or resuming while already playing.
    InvalidState,
    /// A queue position out of range, or an empty catalog lookup passed
    /// through unchanged.
    NotFound,
    /// A failure reported by the transport when it performed an action;
    /// carried verbatim, never retried.
    TransportError(String),
}

impl CommandError {
    /// A short, stable name for the error kind, for rendering.
    pub fn describe(&self) -> (r: &'static str)
        ensures
            r@ == self.describe_spec(),
    {
        match self {
            CommandError::NotInSession => "not in a voice session",
            CommandError::NoChannel => "no voice channel to join",
            CommandError::InvalidState => "invalid playback state for this command",
            CommandError::NotFound => "not found",
            CommandError::TransportError(_) => "transport error",
        }
    }

    pub open spec fn describe_spec(&self) -> Seq<char> {
        match self {
            CommandError::NotInSession => "not in a voice session"@,
            CommandError::NoChannel => "no voice channel to join"@,
            CommandError::InvalidState => "invalid playback state for this command"@,
            CommandError::NotFound => "not found"@,
            CommandError::TransportError(_) => "transport error"@,
        }
    }
}

} // verus!
