//! A typed client-side model of the MPRIS2 media-player protocol.
//!
//! The library translates the protocol's loose conventions — properties
//! that may be absent, enums carried as free-form strings, durations as
//! signed microsecond counts, open-ended metadata bags — into a typed
//! domain model with a defined error taxonomy. Handles bind a destination
//! bus name; the transport round trips themselves are the caller's: each
//! handle method that depends on a remote reply takes that reply as an
//! argument and is specified for every value of it.
use vstd::prelude::*;

pub mod error;
pub mod media_player;
pub mod metadata;
pub mod names;
pub mod player;
pub mod playlists;
pub mod text;
pub mod track;
pub mod track_list;

use crate::error::Error;

verus! {

/// The optional-property rule: a read that failed because the remote
/// player does not support the property counts as "value absent", not as
/// an error; every other failure propagates unchanged.
pub fn handle_optional<T>(input: Result<T, Error>) -> (r: Result<Option<T>, Error>)
    ensures
        match input {
            Ok(v) => r == Ok::<Option<T>, Error>(Some(v)),
            Err(e) => if e.is_not_supported() {
                r == Ok::<Option<T>, Error>(None::<T>)
            } else {
                r == Err::<Option<T>, Error>(e)
            },
        },
{
    match input {
        Ok(v) => Ok(Some(v)),
        Err(e) => if e.not_supported() {
            Ok(None)
        } else {
            Err(e)
        },
    }
}

} // verus!
