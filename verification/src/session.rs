//! The fixed names of the remote player on the bus, the commands it takes,
//! and the ways in which a read or a call can fail.

use vstd::prelude::*;
use crate::property::{PropertyModel, RemoteProperty};

verus! {

/// How long a call on the bus may take, in milliseconds.
pub const CALL_TIMEOUT_MS: u64 = 5000;

/// The time between two ticks of a timer, in milliseconds.
pub const POLL_INTERVAL_MS: u64 = 350;

/// The bus name of the player.
pub fn service_name() -> (name: &'static str)
    ensures
        name@ == "org.mpris.MediaPlayer2.mopidy"@,
{
    "org.mpris.MediaPlayer2.mopidy"
}

/// The path of the player's object.
pub fn object_path() -> (path: &'static str)
    ensures
        path@ == "/org/mpris/MediaPlayer2"@,
{
    "/org/mpris/MediaPlayer2"
}

/// The interface that holds the player's properties and methods.
pub fn player_interface() -> (name: &'static str)
    ensures
        name@ == "org.mpris.MediaPlayer2.Player"@,
{
    "org.mpris.MediaPlayer2.Player"
}

/// The property that holds the playback status.
pub fn status_property() -> (name: &'static str)
    ensures
        name@ == "PlaybackStatus"@,
{
    "PlaybackStatus"
}

/// The property that holds the metadata of the current track.
pub fn metadata_property() -> (name: &'static str)
    ensures
        name@ == "Metadata"@,
{
    "Metadata"
}

/// Why a property could not be read.
#[derive(Clone, Copy, Debug, PartialEq, Eq, Structural)]
pub enum FetchError {
    /// The session with the bus could not be opened or was lost.
    Connection,
    /// The player did not answer with the property.
    Property,
}

/// A call on the player failed.
#[derive(Clone, Copy, Debug, PartialEq, Eq, Structural)]
pub struct CallError;

/// What a read of a property came to, with the value as its model.
pub open spec fn fetch_view(fetched: Result<RemoteProperty, FetchError>) -> Result<
    PropertyModel,
    FetchError,
> {
    match fetched {
        Ok(p) => Ok(p@),
        Err(e) => Err(e),
    }
}

/// A playback control that the player takes.
#[derive(Clone, Copy, Debug, PartialEq, Eq, Structural)]
pub enum Command {
    Previous,
    PlayPause,
    Stop,
    Next,
}

impl Command {
    /// The name of the player's method for this command.
    pub open spec fn method_text(self) -> Seq<char> {
        match self {
            Command::Previous => "Previous"@,
            Command::PlayPause => "PlayPause"@,
            Command::Stop => "Stop"@,
            Command::Next => "Next"@,
        }
    }

    /// The name of the player's method for this command. The method takes no
    /// arguments.
    pub fn method_name(self) -> (name: &'static str)
        ensures
            name@ == self.method_text(),
    {
        match self {
            Command::Previous => "Previous",
            Command::PlayPause => "PlayPause",
            Command::Stop => "Stop",
            Command::Next => "Next",
        }
    }
}

} // verus!
