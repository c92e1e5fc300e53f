//! The playback status as the consumer shows it.

use vstd::prelude::*;
use vstd::string::StringExecFns;
use crate::property::{PropertyModel, RemoteProperty, lemma_view_keeps_shape};
use crate::session::{FetchError, fetch_view};

verus! {

/// The status that stands for every failed read.
pub open spec fn error_status() -> Seq<char> {
    "Error"@
}

/// The status that is shown while the player plays.
pub open spec fn playing_status() -> Seq<char> {
    "Playing"@
}

/// The status for what a read came to: the text that was read, whatever it
/// says; the error status where the read failed or gave no text.
pub open spec fn status_text(fetched: Result<PropertyModel, FetchError>) -> Seq<char> {
    match fetched {
        Ok(PropertyModel::Scalar(t)) => t,
        _ => error_status(),
    }
}

/// Turns what a read of the `PlaybackStatus` property came to into the status
/// text. A text that was read is handed on as it is; a failed read, and a
/// value that is no text, give `"Error"`.
pub fn get_playback_status(fetched: Result<RemoteProperty, FetchError>) -> (status: String)
    ensures
        status@ == status_text(fetch_view(fetched)),
{
    match fetched {
        Ok(p) => {
            proof {
                lemma_view_keeps_shape(p);
            }
            match p {
                RemoteProperty::Scalar(text) => text,
                _ => String::from_str("Error"),
            }
        },
        Err(_) => String::from_str("Error"),
    }
}

/// Tells whether the status says that the player plays.
pub fn is_playing(status: &String) -> (playing: bool)
    ensures
        playing == (status@ == playing_status()),
{
    let playing = String::from_str("Playing");
    *status == playing
}

} // verus!
