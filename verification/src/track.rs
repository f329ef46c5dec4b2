//! A reference to a playable item: an object-path identifier, owned and
//! validated. Equality, ordering and hashing go by the path string, as
//! the protocol defines them.
use vstd::prelude::*;
use vstd::string::*;
use crate::error::Error;

verus! {

pub open spec fn is_path_char(c: char) -> bool {
    ||| ('A' <= c && c <= 'Z')
    ||| ('a' <= c && c <= 'z')
    ||| ('0' <= c && c <= '9')
    ||| c == '_'
}

/// The object path grammar: `/`, or `/`-separated nonempty elements of
/// letters, digits and `_`, with no trailing separator.
pub open spec fn is_valid_object_path(s: Seq<char>) -> bool {
    &&& s.len() >= 1
    &&& s[0] == '/'
    &&& (s.len() == 1 || s[s.len() - 1] != '/')
    &&& forall|i: int| 1 <= i < s.len() ==> s[i] == '/' || is_path_char(s[i])
    &&& forall|i: int| 0 <= i < s.len() - 1 ==> !(#[trigger] s[i] == '/' && s[i + 1] == '/')
}

fn path_char(c: char) -> (r: bool)
    ensures
        r == is_path_char(c),
{
    ('A' <= c && c <= 'Z') || ('a' <= c && c <= 'z') || ('0' <= c && c <= '9') || c == '_'
}

/// Whether `s` is a well-formed object path.
pub fn check_object_path(s: &str) -> (r: bool)
    ensures
        r == is_valid_object_path(s@),
{
    let n = s.unicode_len();
    if n == 0 {
        return false;
    }
    if s.get_char(0) != '/' {
        return false;
    }
    if n > 1 && s.get_char(n - 1) == '/' {
        return false;
    }
    let mut i: usize = 1;
    let mut prev: char = '/';
    loop
        invariant
            1 <= i <= n,
            n == s@.len(),
            s@[0] == '/',
            prev == s@[i - 1],
            forall|j: int| 1 <= j < i ==> s@[j] == '/' || is_path_char(s@[j]),
            forall|j: int| 0 <= j < i - 1 ==> !(#[trigger] s@[j] == '/' && s@[j + 1] == '/'),
        ensures
            i == n,
            forall|j: int| 1 <= j < n ==> s@[j] == '/' || is_path_char(s@[j]),
            forall|j: int| 0 <= j < n - 1 ==> !(#[trigger] s@[j] == '/' && s@[j + 1] == '/'),
        decreases n - i,
    {
        if i >= n {
            break ;
        }
        let c = s.get_char(i);
        if c != '/' && !path_char(c) {
            return false;
        }
        if prev == '/' && c == '/' {
            return false;
        }
        prev = c;
        i += 1;
    }
    true
}

/// A reference to an MPRIS track.
#[derive(Debug, Clone, PartialEq, Eq, Hash, PartialOrd, Ord)]
pub struct Track {
    pub path: String,
}

impl Track {
    pub open spec fn wf(&self) -> bool {
        is_valid_object_path(self.path@)
    }

    /// Accepts exactly the well-formed object paths. A malformed path is
    /// reported as a transport-kind error, as the transport's own
    /// validation would report it.
    pub fn new(path: String) -> (r: Result<Track, Error>)
        ensures
            match r {
                Ok(t) => is_valid_object_path(path@) && t.path@ == path@,
                Err(e) => !is_valid_object_path(path@) && e matches Error::Transport { .. },
            },
    {
        if check_object_path(path.as_str()) {
            Ok(Track { path })
        } else {
            Err(Error::Transport { message: "malformed object path".to_owned() })
        }
    }

    /// The path string, given up.
    pub fn into_inner(self) -> (r: String)
        ensures
            r@ == self.path@,
    {
        self.path
    }

    pub fn as_str(&self) -> (r: &str)
        ensures
            r@ == self.path@,
    {
        self.path.as_str()
    }
}

} // verus!
