//! The track list interface: the ordered collection of tracks a player
//! is working through. The order the remote reports is authoritative and
//! is preserved end to end, duplicates included.
use vstd::prelude::*;
use vstd::string::*;
use crate::error::Error;
use crate::metadata::{Metadata, Value, dedup_first};
use crate::names::{BusName, is_valid_bus_name};
use crate::track::{Track, is_valid_object_path};

verus! {

/// The handle to one player's track list interface.
#[derive(Debug, PartialEq, Eq)]
pub struct TrackList {
    pub dest: BusName,
}

impl Clone for TrackList {
    /// Cloning copies the destination binding and nothing else.
    fn clone(&self) -> (r: Self)
        ensures
            r == *self,
    {
        TrackList { dest: self.dest.clone() }
    }
}

impl TrackList {
    /// Binds a handle to a destination name; fails only on a malformed
    /// name.
    pub fn new(name: String) -> (r: Result<TrackList, Error>)
        ensures
            match r {
                Ok(t) => is_valid_bus_name(name@) && t.dest.name@ == name@,
                Err(e) => !is_valid_bus_name(name@) && e matches Error::Transport { .. },
            },
    {
        match BusName::new(name) {
            Ok(b) => Ok(TrackList { dest: b }),
            Err(e) => Err(e),
        }
    }

    /// The arguments of an insertion, as the wire wants them: the
    /// location to resolve, the track to insert after — the protocol's
    /// own sentinel meaning "at the start" passes through like any other
    /// reference — and whether to make the new track current.
    pub fn add_track(&self, uri: &str, after: &Track, set_as_current: bool) -> (r: (
        String,
        String,
        bool,
    ))
        ensures
            r.0@ == uri@,
            r.1@ == after.path@,
            r.2 == set_as_current,
    {
        (uri.to_owned(), after.path.clone(), set_as_current)
    }

    /// The paths of a bulk metadata fetch: one per requested track, in
    /// the request's own order, duplicates kept.
    pub fn get_tracks_metadata_request(&self, tracks: &Vec<Track>) -> (r: Vec<String>)
        ensures
            r.deep_view() == tracks@.map_values(|t: Track| t.path@),
    {
        let n = tracks.len();
        let mut out: Vec<String> = Vec::new();
        let mut i: usize = 0;
        while i < n
            invariant
                i <= n,
                n == tracks@.len(),
                out@.len() == i,
                forall|j: int| 0 <= j < i ==> (#[trigger] out@[j])@ == tracks@[j].path@,
            decreases n - i,
        {
            out.push(tracks[i].path.clone());
            i += 1;
        }
        proof {
            assert forall|j: int|
                0 <= j < n implies out.deep_view()[j] == tracks@.map_values(|t: Track| t.path@)[j]
            by {
                assert(out.deep_view()[j] == out@[j]@);
            }
            assert(out.deep_view() =~= tracks@.map_values(|t: Track| t.path@));
        }
        out
    }

    /// The bulk metadata reply, read into snapshots: one per requested
    /// track, in the request's own order — an entry the remote did not
    /// know comes back as whatever placeholder bag it sent, not as a
    /// failure of the whole list.
    pub fn get_tracks_metadata(&self, reply: Result<Vec<Vec<(String, Value)>>, Error>) -> (r:
        Result<Vec<Metadata>, Error>)
        ensures
            match reply {
                Ok(bags) => r matches Ok(ms) && ms@.len() == bags@.len() && (forall|i: int|
                    0 <= i < bags@.len() ==> (#[trigger] ms@[i]).entries@ == dedup_first(
                        bags@[i]@,
                    )),
                Err(e) => r == Err::<Vec<Metadata>, Error>(e),
            },
    {
        match reply {
            Ok(bags) => {
                let mut bags = bags;
                let ghost orig = bags@;
                let mut out: Vec<Metadata> = Vec::new();
                let ghost k: int = 0;
                loop
                    invariant
                        0 <= k <= orig.len(),
                        bags@ == orig.subrange(k, orig.len() as int),
                        out@.len() == k,
                        forall|i: int|
                            0 <= i < k ==> (#[trigger] out@[i]).entries@ == dedup_first(orig[i]@),
                    ensures
                        out@.len() == orig.len(),
                        forall|i: int|
                            0 <= i < orig.len() ==> (#[trigger] out@[i]).entries@ == dedup_first(
                                orig[i]@,
                            ),
                    decreases orig.len() - k,
                {
                    if bags.len() == 0 {
                        break ;
                    }
                    let bag = bags.remove(0);
                    proof {
                        assert(bag == orig[k]);
                    }
                    out.push(Metadata::from_raw(bag));
                    proof {
                        assert(bags@ =~= orig.subrange(k + 1, orig.len() as int));
                        k = k + 1;
                    }
                }
                Ok(out)
            },
            Err(e) => Err(e),
        }
    }

    /// The track listing reply: every path taken over as a track
    /// reference, in the reply's own order — the current playback
    /// order, which is authoritative. A malformed path in the reply
    /// fails the read as the transport's own validation would.
    #[verifier::loop_isolation(false)]
    pub fn tracks(&self, reply: Result<Vec<String>, Error>) -> (r: Result<Vec<Track>, Error>)
        ensures
            match reply {
                Ok(paths) => match r {
                    Ok(ts) => {
                        &&& ts@.len() == paths@.len()
                        &&& forall|i: int|
                            0 <= i < paths@.len() ==> (#[trigger] ts@[i]).path@ == paths@[i]@
                        &&& forall|i: int|
                            0 <= i < paths@.len() ==> is_valid_object_path(
                                (#[trigger] paths@[i])@,
                            )
                    },
                    Err(e) => (exists|i: int|
                        0 <= i < paths@.len() && !is_valid_object_path((#[trigger] paths@[i])@))
                        && e matches Error::Transport { .. },
                },
                Err(e) => r == Err::<Vec<Track>, Error>(e),
            },
    {
        match reply {
            Ok(paths) => {
                let n = paths.len();
                let mut out: Vec<Track> = Vec::new();
                let mut i: usize = 0;
                while i < n
                    invariant
                        i <= n,
                        n == paths@.len(),
                        out@.len() == i,
                        forall|j: int| 0 <= j < i ==> (#[trigger] out@[j]).path@ == paths@[j]@,
                        forall|j: int|
                            0 <= j < i ==> is_valid_object_path((#[trigger] paths@[j])@),
                    decreases n - i,
                {
                    match Track::new(paths[i].clone()) {
                        Ok(t) => {
                            out.push(t);
                        },
                        Err(e) => {
                            proof {
                                assert(!is_valid_object_path((paths@[i as int])@));
                                assert(exists|j: int|
                                    0 <= j < paths@.len() && !is_valid_object_path(
                                        (#[trigger] paths@[j])@,
                                    ));
                            }
                            return Err(e);
                        },
                    }
                    i += 1;
                }
                Ok(out)
            },
            Err(e) => Err(e),
        }
    }
}

} // verus!
