//! The ways in which a command fails.

use vstd::prelude::*;

verus! {

/// Why a command was rejected. A rejected command hands out no data.
#[derive(Clone, Copy, Debug, PartialEq, Eq, Structural)]
pub enum CommandError {
    /// The decoder could not open the file.
    OpenFailure,
    /// The path was never opened successfully.
    CacheMiss,
    /// The opened file has no such channel, or the channel has no master.
    ChannelMissing,
    /// The channel's values cannot be turned into numeric samples.
    ConversionFailure,
    /// The channel's master data is not real-valued.
    InvalidTimeRepresentation,
}

impl CommandError {
    /// The text that the front-end is shown for this error.
    pub open spec fn message_text(self) -> Seq<char> {
        match self {
            CommandError::OpenFailure => "could not open file"@,
            CommandError::CacheMiss => "not found in cache"@,
            CommandError::ChannelMissing => "channel not found"@,
            CommandError::ConversionFailure => "conversion failed"@,
            CommandError::InvalidTimeRepresentation => "time representation invalid"@,
        }
    }

    /// Flattens the error into the message that crosses the boundary to the
    /// front-end.
    pub fn message(&self) -> (text: String)
        ensures
            text@ == self.message_text(),
    {
        match self {
            CommandError::OpenFailure => "could not open file".to_owned(),
            CommandError::CacheMiss => "not found in cache".to_owned(),
            CommandError::ChannelMissing => "channel not found".to_owned(),
            CommandError::ConversionFailure => "conversion failed".to_owned(),
            CommandError::InvalidTimeRepresentation => "time representation invalid".to_owned(),
        }
    }
}

/// No two errors share a message: the front-end can tell them apart by the
/// text alone.
pub proof fn lemma_messages_distinct(a: CommandError, b: CommandError)
    ensures
        a.message_text() == b.message_text() ==> a == b,
{
    reveal_strlit("could not open file");
    reveal_strlit("not found in cache");
    reveal_strlit("channel not found");
    reveal_strlit("conversion failed");
    reveal_strlit("time representation invalid");
    if a != b {
        assert(a.message_text().len() != b.message_text().len() || a.message_text()[1]
            != b.message_text()[1]);
    }
}

} // verus!
