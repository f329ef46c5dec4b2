//! The root handle: one per media player on the bus, bound to a
//! destination name, and the discovery of those destinations out of a
//! bus's name listing.
use vstd::prelude::*;
use vstd::string::*;
use crate::error::Error;
use crate::names::{BusName, is_valid_bus_name};
use crate::player::Player;
use crate::text;
use crate::track_list::TrackList;

verus! {

/// The namespace prefix under which MPRIS2 players announce themselves.
pub open spec fn mpris_prefix() -> Seq<char> {
    "org.mpris.MediaPlayer2."@
}

pub open spec fn is_mpris_name(s: Seq<char>) -> bool {
    text::has_prefix(s, mpris_prefix())
}

/// The handle to one media player's root interface.
#[derive(Debug, PartialEq, Eq)]
pub struct MediaPlayer {
    pub dest: BusName,
}

impl Clone for MediaPlayer {
    /// Cloning copies the destination binding and nothing else.
    fn clone(&self) -> (r: Self)
        ensures
            r == *self,
    {
        MediaPlayer { dest: self.dest.clone() }
    }
}

impl MediaPlayer {
    /// Binds a handle to a destination name; no round trip is involved,
    /// and only a malformed name fails.
    pub fn new(name: String) -> (r: Result<MediaPlayer, Error>)
        ensures
            match r {
                Ok(m) => is_valid_bus_name(name@) && m.dest.name@ == name@,
                Err(e) => !is_valid_bus_name(name@) && e matches Error::Transport { .. },
            },
    {
        match BusName::new(name) {
            Ok(b) => Ok(MediaPlayer { dest: b }),
            Err(e) => Err(e),
        }
    }

    /// The players announced in a bus's name listing: exactly the names
    /// under the MPRIS2 namespace, in the listing's own order, neither
    /// sorted nor de-duplicated.
    pub fn available_players(names: &Vec<String>) -> (r: Vec<String>)
        ensures
            r.deep_view() == names.deep_view().filter(|s: Seq<char>| is_mpris_name(s)),
    {
        let n = names.len();
        let mut out: Vec<String> = Vec::new();
        let mut i: usize = 0;
        proof {
            reveal(Seq::filter);
            assert(names.deep_view().take(0) =~= Seq::<Seq<char>>::empty());
        }
        while i < n
            invariant
                i <= n,
                n == names@.len(),
                out.deep_view() == names.deep_view().take(i as int).filter(
                    |s: Seq<char>| is_mpris_name(s),
                ),
            decreases n - i,
        {
            let keep = text::starts_with_str(names[i].as_str(), "org.mpris.MediaPlayer2.");
            proof {
                reveal(Seq::filter);
                assert(names.deep_view().take(i + 1).drop_last() =~= names.deep_view().take(
                    i as int,
                ));
                assert(names.deep_view().take(i + 1).last() == names@[i as int]@);
            }
            if keep {
                out.push(names[i].clone());
                proof {
                    assert(out.deep_view() =~= names.deep_view().take(i as int).filter(
                        |s: Seq<char>| is_mpris_name(s),
                    ).push(names@[i as int]@));
                }
            }
            i += 1;
        }
        proof {
            assert(names.deep_view().take(n as int) =~= names.deep_view());
        }
        out
    }

    /// Discovery and binding in one step, failing fast: a handle per
    /// announced player, in the listing's order, or the first failure —
    /// which only a malformed announced name can produce.
    #[verifier::loop_isolation(false)]
    pub fn new_all(names: &Vec<String>) -> (r: Result<Vec<MediaPlayer>, Error>)
        ensures
            ({
                let picked = names.deep_view().filter(|s: Seq<char>| is_mpris_name(s));
                match r {
                    Ok(ms) => {
                        &&& ms@.len() == picked.len()
                        &&& forall|i: int|
                            0 <= i < picked.len() ==> (#[trigger] ms@[i]).dest.name@ == picked[i]
                        &&& forall|i: int|
                            0 <= i < picked.len() ==> is_valid_bus_name(#[trigger] picked[i])
                    },
                    Err(e) => (exists|i: int|
                        0 <= i < picked.len() && !is_valid_bus_name(#[trigger] picked[i]))
                        && e matches Error::Transport { .. },
                }
            }),
    {
        let players = Self::available_players(names);
        let ghost picked = names.deep_view().filter(|s: Seq<char>| is_mpris_name(s));
        let n = players.len();
        let mut out: Vec<MediaPlayer> = Vec::new();
        let mut i: usize = 0;
        while i < n
            invariant
                i <= n,
                n == players@.len(),
                players.deep_view() == picked,
                out@.len() == i,
                forall|j: int| 0 <= j < i ==> (#[trigger] out@[j]).dest.name@ == picked[j],
                forall|j: int| 0 <= j < i ==> is_valid_bus_name(#[trigger] picked[j]),
            decreases n - i,
        {
            match Self::new(players[i].clone()) {
                Ok(m) => {
                    out.push(m);
                },
                Err(e) => {
                    proof {
                        assert(players.deep_view()[i as int] == players@[i as int]@);
                        assert(!is_valid_bus_name(picked[i as int]));
                        assert(exists|j: int|
                            0 <= j < picked.len() && !is_valid_bus_name(#[trigger] picked[j]));
                    }
                    return Err(e);
                },
            }
            i += 1;
        }
        Ok(out)
    }

    /// The playback interface of the same player: mandatory by the
    /// protocol, bound to the same destination without a probe.
    pub fn player(&self) -> (r: Player)
        ensures
            r.dest == self.dest,
    {
        Player { dest: self.dest.clone() }
    }

    /// The track list interface, behind its capability probe: built over
    /// the same destination only when the `HasTrackList` property came
    /// back true; absent — not an error — when it came back false.
    pub fn track_list(&self, has_track_list: Result<bool, Error>) -> (r: Result<
        Option<TrackList>,
        Error,
    >)
        ensures
            match has_track_list {
                Ok(b) => if b {
                    r matches Ok(Some(t)) && t.dest == self.dest
                } else {
                    r == Ok::<Option<TrackList>, Error>(None::<TrackList>)
                },
                Err(e) => r == Err::<Option<TrackList>, Error>(e),
            },
    {
        match has_track_list {
            Ok(true) => Ok(Some(TrackList { dest: self.dest.clone() })),
            Ok(false) => Ok(None),
            Err(e) => Err(e),
        }
    }
}

} // verus!
