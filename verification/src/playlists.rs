//! The playlists interface: a thin handle binding, and the
//! `PlaylistOrdering` enum. Its token tables are asymmetric on purpose:
//! parsing knows short aliases, display uses its own canonical tokens.
use vstd::prelude::*;
use vstd::string::*;
use crate::error::Error;
use crate::metadata::Value;
use crate::names::{BusName, is_valid_bus_name};
use crate::text;

verus! {

/// The handle to one player's playlists interface.
#[derive(Debug, PartialEq, Eq)]
pub struct Playlists {
    pub dest: BusName,
}

impl Clone for Playlists {
    /// Cloning copies the destination binding and nothing else.
    fn clone(&self) -> (r: Self)
        ensures
            r == *self,
    {
        Playlists { dest: self.dest.clone() }
    }
}

impl Playlists {
    /// Binds a handle to a destination name; fails only on a malformed
    /// name.
    pub fn new(name: String) -> (r: Result<Playlists, Error>)
        ensures
            match r {
                Ok(p) => is_valid_bus_name(name@) && p.dest.name@ == name@,
                Err(e) => !is_valid_bus_name(name@) && e matches Error::Transport { .. },
            },
    {
        match BusName::new(name) {
            Ok(b) => Ok(Playlists { dest: b }),
            Err(e) => Err(e),
        }
    }
}

/// How a playlist listing is ordered.
#[derive(Debug, Copy, Clone, PartialEq, Eq, Structural)]
pub enum PlaylistOrdering {
    /// By name, ascending.
    Alphabetical,
    /// By creation date, oldest first.
    CreationDate,
    /// By last modified date, oldest first.
    ModifiedDate,
    /// By date of last playback, oldest first.
    LastPlayDate,
    /// An ordering the user defined.
    UserDefined,
}

impl PlaylistOrdering {
    /// What parsing recognizes: the trimmed input matched
    /// case-insensitively against the short parse aliases.
    pub open spec fn parse_spec(s: Seq<char>) -> Option<PlaylistOrdering> {
        let t = text::trim_of(s);
        if text::eq_ci(t, "alphabetical"@) {
            Some(PlaylistOrdering::Alphabetical)
        } else if text::eq_ci(t, "created"@) {
            Some(PlaylistOrdering::CreationDate)
        } else if text::eq_ci(t, "modified"@) {
            Some(PlaylistOrdering::ModifiedDate)
        } else if text::eq_ci(t, "played"@) {
            Some(PlaylistOrdering::LastPlayDate)
        } else if text::eq_ci(t, "user"@) {
            Some(PlaylistOrdering::UserDefined)
        } else {
            None
        }
    }

    /// The canonical display tokens, as listed in a rejection. They are
    /// not the parse aliases: the asymmetry is the protocol's.
    pub open spec fn expected_spec() -> Seq<Seq<char>> {
        seq!["Alphabetical"@, "Created"@, "Modified"@, "Played"@, "User"@]
    }

    pub open spec fn display_spec(self) -> Seq<char> {
        match self {
            PlaylistOrdering::Alphabetical => "Alphabetical"@,
            PlaylistOrdering::CreationDate => "Created"@,
            PlaylistOrdering::ModifiedDate => "Modified"@,
            PlaylistOrdering::LastPlayDate => "Played"@,
            PlaylistOrdering::UserDefined => "User"@,
        }
    }

    /// Parses a protocol string: trimmed, case-insensitive, against the
    /// alias table; anything else is an `InvalidEnum` rejection carrying
    /// the raw input and the canonical display tokens.
    pub fn parse(s: &str) -> (r: Result<PlaylistOrdering, Error>)
        ensures
            match r {
                Ok(v) => Self::parse_spec(s@) == Some(v),
                Err(e) => Self::parse_spec(s@) is None && match e {
                    Error::InvalidEnum { got, expected } => got@ == s@ && expected.deep_view()
                        == Self::expected_spec(),
                    _ => false,
                },
            },
    {
        let (lo, hi) = text::trim_bounds(s);
        if text::range_eq_ci(s, lo, hi, "alphabetical") {
            Ok(PlaylistOrdering::Alphabetical)
        } else if text::range_eq_ci(s, lo, hi, "created") {
            Ok(PlaylistOrdering::CreationDate)
        } else if text::range_eq_ci(s, lo, hi, "modified") {
            Ok(PlaylistOrdering::ModifiedDate)
        } else if text::range_eq_ci(s, lo, hi, "played") {
            Ok(PlaylistOrdering::LastPlayDate)
        } else if text::range_eq_ci(s, lo, hi, "user") {
            Ok(PlaylistOrdering::UserDefined)
        } else {
            let mut expected: Vec<String> = Vec::new();
            expected.push("Alphabetical".to_owned());
            expected.push("Created".to_owned());
            expected.push("Modified".to_owned());
            expected.push("Played".to_owned());
            expected.push("User".to_owned());
            proof {
                assert(expected.deep_view() =~= Self::expected_spec());
            }
            Err(Error::InvalidEnum { got: s.to_owned(), expected })
        }
    }

    /// Reads the enum out of a variant value: only the string shape can
    /// hold one; any other shape is an `IncorrectVariant` rejection.
    pub fn from_value(v: &Value) -> (r: Result<PlaylistOrdering, Error>)
        ensures
            match v {
                Value::Str(s) => match r {
                    Ok(o) => Self::parse_spec(s@) == Some(o),
                    Err(e) => Self::parse_spec(s@) is None && match e {
                        Error::InvalidEnum { got, expected } => got@ == s@ && expected.deep_view()
                            == Self::expected_spec(),
                        _ => false,
                    },
                },
                _ => match r {
                    Err(e) => e matches Error::IncorrectVariant { wanted, actual } && wanted@
                        == "Str"@ && actual@ == v.kind_spec(),
                    Ok(_) => false,
                },
            },
    {
        match v {
            Value::Str(s) => Self::parse(s.as_str()),
            _ => Err(Error::IncorrectVariant { wanted: "Str".to_owned(), actual: v.kind() }),
        }
    }

    /// The canonical display token of this variant.
    pub fn display(&self) -> (r: String)
        ensures
            r@ == self.display_spec(),
    {
        match self {
            PlaylistOrdering::Alphabetical => "Alphabetical".to_owned(),
            PlaylistOrdering::CreationDate => "Created".to_owned(),
            PlaylistOrdering::ModifiedDate => "Modified".to_owned(),
            PlaylistOrdering::LastPlayDate => "Played".to_owned(),
            PlaylistOrdering::UserDefined => "User".to_owned(),
        }
    }

    /// Round trip: every variant's display token parses back to the
    /// variant itself — though display tokens and parse aliases differ,
    /// each display token still falls to the matching alias.
    pub proof fn lemma_round_trip(x: PlaylistOrdering)
        ensures
            Self::parse_spec(x.display_spec()) == Some(x),
    {
        reveal_strlit("Alphabetical");
        reveal_strlit("alphabetical");
        reveal_strlit("Created");
        reveal_strlit("created");
        reveal_strlit("Modified");
        reveal_strlit("modified");
        reveal_strlit("Played");
        reveal_strlit("played");
        reveal_strlit("User");
        reveal_strlit("user");
        match x {
            PlaylistOrdering::Alphabetical => {
                text::lemma_eq_ci_pointwise("Alphabetical"@, "alphabetical"@);
            },
            PlaylistOrdering::CreationDate => {
                text::lemma_eq_ci_pointwise("Created"@, "created"@);
            },
            PlaylistOrdering::ModifiedDate => {
                text::lemma_eq_ci_pointwise("Modified"@, "modified"@);
            },
            PlaylistOrdering::LastPlayDate => {
                text::lemma_eq_ci_pointwise("Played"@, "played"@);
            },
            PlaylistOrdering::UserDefined => {
                text::lemma_eq_ci_pointwise("User"@, "user"@);
            },
        }
    }
}

} // verus!
