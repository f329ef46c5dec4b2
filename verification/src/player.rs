//! The playback interface: a stateless handle bound to one destination,
//! the `PlaybackStatus` enum with its fixed token table, and the
//! decisions behind seeking and the optional rate properties. The state
//! machine itself is entirely remote: every operation is one fresh round
//! trip, whose reply a method here takes as an argument and interprets
//! for every value of it.
use vstd::prelude::*;
use vstd::string::*;
use crate::error::Error;
use crate::handle_optional;
use crate::media_player::MediaPlayer;
use crate::metadata::{Metadata, Value, dedup_first, unique_keys};
use crate::names::{BusName, is_valid_bus_name};
use crate::text;
use crate::track::Track;

verus! {

/// The handle to one player's playback interface.
#[derive(Debug, PartialEq, Eq)]
pub struct Player {
    pub dest: BusName,
}

impl Clone for Player {
    /// Cloning copies the destination binding and nothing else.
    fn clone(&self) -> (r: Self)
        ensures
            r == *self,
    {
        Player { dest: self.dest.clone() }
    }
}

impl Player {
    /// Binds a handle to a destination name; fails only on a malformed
    /// name.
    pub fn new(name: String) -> (r: Result<Player, Error>)
        ensures
            match r {
                Ok(p) => is_valid_bus_name(name@) && p.dest.name@ == name@,
                Err(e) => !is_valid_bus_name(name@) && e matches Error::Transport { .. },
            },
    {
        match BusName::new(name) {
            Ok(b) => Ok(Player { dest: b }),
            Err(e) => Err(e),
        }
    }

    /// The root handle of the same player: the same destination.
    pub fn media_player(&self) -> (r: MediaPlayer)
        ensures
            r.dest == self.dest,
    {
        MediaPlayer { dest: self.dest.clone() }
    }

    /// The seek decision: with the `CanSeek` capability in hand, either
    /// the signed microsecond offset to send, or `None` — not performed,
    /// no seek issued. A failed capability read propagates.
    pub fn seek(&self, can_seek: Result<bool, Error>, offset_micros: i64) -> (r: Result<
        Option<i64>,
        Error,
    >)
        ensures
            match can_seek {
                Ok(b) => if b {
                    r == Ok::<Option<i64>, Error>(Some(offset_micros))
                } else {
                    r == Ok::<Option<i64>, Error>(None::<i64>)
                },
                Err(e) => r == Err::<Option<i64>, Error>(e),
            },
    {
        match can_seek {
            Ok(true) => Ok(Some(offset_micros)),
            Ok(false) => Ok(None),
            Err(e) => Err(e),
        }
    }

    /// Seeking forward by a nonnegative offset.
    pub fn seek_ahead(&self, can_seek: Result<bool, Error>, offset_micros: i64) -> (r: Result<
        Option<i64>,
        Error,
    >)
        requires
            offset_micros >= 0,
        ensures
            match can_seek {
                Ok(b) => if b {
                    r == Ok::<Option<i64>, Error>(Some(offset_micros))
                } else {
                    r == Ok::<Option<i64>, Error>(None::<i64>)
                },
                Err(e) => r == Err::<Option<i64>, Error>(e),
            },
    {
        self.seek(can_seek, offset_micros)
    }

    /// Seeking backward by a nonnegative offset: the offset goes out
    /// negated.
    pub fn seek_back(&self, can_seek: Result<bool, Error>, offset_micros: i64) -> (r: Result<
        Option<i64>,
        Error,
    >)
        requires
            offset_micros >= 0,
        ensures
            match can_seek {
                Ok(b) => if b {
                    r == Ok::<Option<i64>, Error>(Some((-offset_micros) as i64))
                } else {
                    r == Ok::<Option<i64>, Error>(None::<i64>)
                },
                Err(e) => r == Err::<Option<i64>, Error>(e),
            },
    {
        self.seek(can_seek, -offset_micros)
    }

    /// The arguments of a position change, as the wire wants them: the
    /// track's path and the signed microsecond position. The remote
    /// ignores the call when the track reference is stale — the
    /// protocol's own rule — so nothing is promised of the position
    /// afterwards.
    pub fn set_position(&self, track: &Track, position_micros: i64) -> (r: (String, i64))
        ensures
            r.0@ == track.path@,
            r.1 == position_micros,
    {
        (track.path.clone(), position_micros)
    }

    /// The position property, optional: a not-supported fault is
    /// "absent", anything else propagates.
    pub fn position(&self, read: Result<i64, Error>) -> (r: Result<Option<i64>, Error>)
        ensures
            match read {
                Ok(v) => r == Ok::<Option<i64>, Error>(Some(v)),
                Err(e) => if e.is_not_supported() {
                    r == Ok::<Option<i64>, Error>(None::<i64>)
                } else {
                    r == Err::<Option<i64>, Error>(e)
                },
            },
    {
        handle_optional(read)
    }

    /// The playback rate property, optional in the same way; the value
    /// itself passes through untouched.
    pub fn rate<T>(&self, read: Result<T, Error>) -> (r: Result<Option<T>, Error>)
        ensures
            match read {
                Ok(v) => r == Ok::<Option<T>, Error>(Some(v)),
                Err(e) => if e.is_not_supported() {
                    r == Ok::<Option<T>, Error>(None::<T>)
                } else {
                    r == Err::<Option<T>, Error>(e)
                },
            },
    {
        handle_optional(read)
    }

    /// The lower rate bound, optional in the same way.
    pub fn minimum_rate<T>(&self, read: Result<T, Error>) -> (r: Result<Option<T>, Error>)
        ensures
            match read {
                Ok(v) => r == Ok::<Option<T>, Error>(Some(v)),
                Err(e) => if e.is_not_supported() {
                    r == Ok::<Option<T>, Error>(None::<T>)
                } else {
                    r == Err::<Option<T>, Error>(e)
                },
            },
    {
        handle_optional(read)
    }

    /// The upper rate bound, optional in the same way.
    pub fn maximum_rate<T>(&self, read: Result<T, Error>) -> (r: Result<Option<T>, Error>)
        ensures
            match read {
                Ok(v) => r == Ok::<Option<T>, Error>(Some(v)),
                Err(e) => if e.is_not_supported() {
                    r == Ok::<Option<T>, Error>(None::<T>)
                } else {
                    r == Err::<Option<T>, Error>(e)
                },
            },
    {
        handle_optional(read)
    }

    /// The first step of the rate range: the minimum bound is read
    /// first, and when it comes back absent the whole range is absent —
    /// the maximum is then never read.
    pub fn available_rates_minimum<T>(&self, min_read: Result<T, Error>) -> (r: Result<
        Option<T>,
        Error,
    >)
        ensures
            match min_read {
                Ok(v) => r == Ok::<Option<T>, Error>(Some(v)),
                Err(e) => if e.is_not_supported() {
                    r == Ok::<Option<T>, Error>(None::<T>)
                } else {
                    r == Err::<Option<T>, Error>(e)
                },
            },
    {
        handle_optional(min_read)
    }

    /// The second step, taken only with the minimum in hand: an absent
    /// maximum makes the whole range absent even then.
    pub fn available_rates_maximum<T>(&self, minimum: T, max_read: Result<T, Error>) -> (r: Result<
        Option<(T, T)>,
        Error,
    >)
        ensures
            match max_read {
                Ok(v) => r == Ok::<Option<(T, T)>, Error>(Some((minimum, v))),
                Err(e) => if e.is_not_supported() {
                    r == Ok::<Option<(T, T)>, Error>(None::<(T, T)>)
                } else {
                    r == Err::<Option<(T, T)>, Error>(e)
                },
            },
    {
        match handle_optional(max_read) {
            Ok(Some(v)) => Ok(Some((minimum, v))),
            Ok(None) => Ok(None),
            Err(e) => Err(e),
        }
    }

    /// The playback status: the reply string parsed at the boundary. A
    /// successful read of an unrecognized string is an `InvalidEnum`
    /// rejection.
    pub fn playback_status(&self, read: Result<String, Error>) -> (r: Result<PlaybackStatus, Error>)
        ensures
            match read {
                Ok(s) => match r {
                    Ok(v) => PlaybackStatus::parse_spec(s@) == Some(v),
                    Err(e) => PlaybackStatus::parse_spec(s@) is None && match e {
                        Error::InvalidEnum { got, expected } => got@ == s@ && expected.deep_view()
                            == PlaybackStatus::expected_spec(),
                        _ => false,
                    },
                },
                Err(e) => r == Err::<PlaybackStatus, Error>(e),
            },
    {
        match read {
            Ok(s) => PlaybackStatus::parse(s.as_str()),
            Err(e) => Err(e),
        }
    }

    /// The metadata property: the reply bag read into a snapshot, first
    /// entry per key; a bag with unique keys is taken over exactly.
    pub fn metadata(&self, read: Result<Vec<(String, Value)>, Error>) -> (r: Result<Metadata, Error>)
        ensures
            match read {
                Ok(raw) => r matches Ok(m) && m.entries@ == dedup_first(raw@) && m.wf() && (
                unique_keys(raw@) ==> m.entries@ == raw@),
                Err(e) => r == Err::<Metadata, Error>(e),
            },
    {
        match read {
            Ok(raw) => Ok(Metadata::from_raw(raw)),
            Err(e) => Err(e),
        }
    }
}

/// The remote player's current playback state, carried on the wire as a
/// free-form string and validated here at the boundary.
#[derive(Debug, Copy, Clone, PartialEq, Eq, Structural)]
pub enum PlaybackStatus {
    Playing,
    Paused,
    Stopped,
}

impl PlaybackStatus {
    /// What parsing recognizes: the trimmed input matched
    /// case-insensitively against the fixed token table.
    pub open spec fn parse_spec(s: Seq<char>) -> Option<PlaybackStatus> {
        let t = text::trim_of(s);
        if text::eq_ci(t, "playing"@) {
            Some(PlaybackStatus::Playing)
        } else if text::eq_ci(t, "paused"@) {
            Some(PlaybackStatus::Paused)
        } else if text::eq_ci(t, "stopped"@) {
            Some(PlaybackStatus::Stopped)
        } else {
            None
        }
    }

    /// The canonical display tokens, as listed in a rejection.
    pub open spec fn expected_spec() -> Seq<Seq<char>> {
        seq!["Playing"@, "Paused"@, "Stopped"@]
    }

    pub open spec fn display_spec(self) -> Seq<char> {
        match self {
            PlaybackStatus::Playing => "Playing"@,
            PlaybackStatus::Paused => "Paused"@,
            PlaybackStatus::Stopped => "Stopped"@,
        }
    }

    /// Parses a protocol string: trimmed, case-insensitive, against the
    /// fixed token table; anything else is an `InvalidEnum` rejection
    /// carrying the raw input and the canonical tokens.
    pub fn parse(s: &str) -> (r: Result<PlaybackStatus, Error>)
        ensures
            match r {
                Ok(v) => Self::parse_spec(s@) == Some(v),
                Err(e) => Self::parse_spec(s@) is None && match e {
                    Error::InvalidEnum { got, expected } => got@ == s@ && expected.deep_view()
                        == Self::expected_spec(),
                    _ => false,
                },
            },
    {
        let (lo, hi) = text::trim_bounds(s);
        if text::range_eq_ci(s, lo, hi, "playing") {
            Ok(PlaybackStatus::Playing)
        } else if text::range_eq_ci(s, lo, hi, "paused") {
            Ok(PlaybackStatus::Paused)
        } else if text::range_eq_ci(s, lo, hi, "stopped") {
            Ok(PlaybackStatus::Stopped)
        } else {
            let mut expected: Vec<String> = Vec::new();
            expected.push("Playing".to_owned());
            expected.push("Paused".to_owned());
            expected.push("Stopped".to_owned());
            proof {
                assert(expected.deep_view() =~= Self::expected_spec());
            }
            Err(Error::InvalidEnum { got: s.to_owned(), expected })
        }
    }

    /// The canonical display token of this variant.
    pub fn display(&self) -> (r: String)
        ensures
            r@ == self.display_spec(),
    {
        match self {
            PlaybackStatus::Playing => "Playing".to_owned(),
            PlaybackStatus::Paused => "Paused".to_owned(),
            PlaybackStatus::Stopped => "Stopped".to_owned(),
        }
    }

    /// Round trip: every variant's display token parses back to the
    /// variant itself.
    pub proof fn lemma_round_trip(x: PlaybackStatus)
        ensures
            Self::parse_spec(x.display_spec()) == Some(x),
    {
        reveal_strlit("Playing");
        reveal_strlit("playing");
        reveal_strlit("Paused");
        reveal_strlit("paused");
        reveal_strlit("Stopped");
        reveal_strlit("stopped");
        match x {
            PlaybackStatus::Playing => {
                text::lemma_eq_ci_pointwise("Playing"@, "playing"@);
            },
            PlaybackStatus::Paused => {
                text::lemma_eq_ci_pointwise("Paused"@, "paused"@);
            },
            PlaybackStatus::Stopped => {
                assert(!text::char_eq_ci("Stopped"@[0], "playing"@[0]));
                text::lemma_eq_ci_pointwise("Stopped"@, "stopped"@);
            },
        }
    }
}

} // verus!
