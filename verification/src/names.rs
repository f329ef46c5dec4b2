//! Validated bus names. A destination on the message bus is addressed by
//! a well-known name: dot-separated elements of letters, digits, `_` and
//! `-`, at least two elements, no element empty or starting with a digit,
//! at most 255 characters in all. Handles are built over a name that has
//! passed this check.
use vstd::prelude::*;
use vstd::string::*;
use crate::error::Error;

verus! {

pub open spec fn is_name_char(c: char) -> bool {
    ||| ('A' <= c && c <= 'Z')
    ||| ('a' <= c && c <= 'z')
    ||| ('0' <= c && c <= '9')
    ||| c == '_'
    ||| c == '-'
}

pub open spec fn is_digit_char(c: char) -> bool {
    '0' <= c && c <= '9'
}

/// The well-known bus name grammar.
pub open spec fn is_valid_bus_name(s: Seq<char>) -> bool {
    &&& 0 < s.len() <= 255
    &&& s[0] != '.'
    &&& s[s.len() - 1] != '.'
    &&& !is_digit_char(s[0])
    &&& exists|i: int| 0 <= i < s.len() && s[i] == '.'
    &&& forall|i: int| 0 <= i < s.len() ==> s[i] == '.' || is_name_char(s[i])
    &&& forall|i: int| 0 <= i < s.len() - 1 ==> !(#[trigger] s[i] == '.' && s[i + 1] == '.')
    &&& forall|i: int| 0 <= i < s.len() - 1 ==> (#[trigger] s[i] == '.' ==> !is_digit_char(s[i + 1]))
}

fn name_char(c: char) -> (r: bool)
    ensures
        r == is_name_char(c),
{
    ('A' <= c && c <= 'Z') || ('a' <= c && c <= 'z') || ('0' <= c && c <= '9') || c == '_' || c
        == '-'
}

fn digit_char(c: char) -> (r: bool)
    ensures
        r == is_digit_char(c),
{
    '0' <= c && c <= '9'
}

/// Whether `s` is a well-formed well-known bus name.
pub fn check_bus_name(s: &str) -> (r: bool)
    ensures
        r == is_valid_bus_name(s@),
{
    let n = s.unicode_len();
    if n == 0 || n > 255 {
        return false;
    }
    let c0 = s.get_char(0);
    if c0 == '.' || digit_char(c0) {
        return false;
    }
    if s.get_char(n - 1) == '.' {
        return false;
    }
    let mut i: usize = 0;
    let mut seen_dot = false;
    let mut prev: char = c0;
    loop
        invariant
            i <= n,
            n == s@.len(),
            0 < n <= 255,
            i > 0 ==> prev == s@[i - 1],
            seen_dot == exists|j: int| 0 <= j < i && s@[j] == '.',
            forall|j: int| 0 <= j < i ==> s@[j] == '.' || is_name_char(s@[j]),
            forall|j: int| 0 <= j < i - 1 ==> !(#[trigger] s@[j] == '.' && s@[j + 1] == '.'),
            forall|j: int| 0 <= j < i - 1 ==> (#[trigger] s@[j] == '.' ==> !is_digit_char(s@[j + 1])),
        ensures
            i == n,
            seen_dot == exists|j: int| 0 <= j < n && s@[j] == '.',
            forall|j: int| 0 <= j < n ==> s@[j] == '.' || is_name_char(s@[j]),
            forall|j: int| 0 <= j < n - 1 ==> !(#[trigger] s@[j] == '.' && s@[j + 1] == '.'),
            forall|j: int| 0 <= j < n - 1 ==> (#[trigger] s@[j] == '.' ==> !is_digit_char(s@[j + 1])),
        decreases n - i,
    {
        if i >= n {
            break ;
        }
        let c = s.get_char(i);
        if c != '.' && !name_char(c) {
            return false;
        }
        if i > 0 && prev == '.' && c == '.' {
            return false;
        }
        if i > 0 && prev == '.' && digit_char(c) {
            return false;
        }
        proof {
            if c == '.' {
                assert(exists|j: int| 0 <= j < i + 1 && s@[j] == '.');
            }
        }
        seen_dot = seen_dot || c == '.';
        prev = c;
        i += 1;
    }
    seen_dot
}

/// An owned, validated destination name on the session bus.
#[derive(Debug, PartialEq, Eq, Hash)]
pub struct BusName {
    pub name: String,
}

impl Clone for BusName {
    /// A handle binds cheaply: cloning copies the destination name and
    /// nothing else.
    fn clone(&self) -> (r: Self)
        ensures
            r == *self,
    {
        BusName { name: self.name.clone() }
    }
}

impl BusName {
    pub open spec fn wf(&self) -> bool {
        is_valid_bus_name(self.name@)
    }

    /// Accepts exactly the well-formed names. A malformed destination is
    /// reported as a transport-kind error, as the transport's own
    /// destination check would report it.
    pub fn new(name: String) -> (r: Result<BusName, Error>)
        ensures
            match r {
                Ok(b) => is_valid_bus_name(name@) && b.name@ == name@,
                Err(e) => !is_valid_bus_name(name@) && e matches Error::Transport { .. },
            },
    {
        if check_bus_name(name.as_str()) {
            Ok(BusName { name })
        } else {
            Err(Error::Transport { message: "malformed bus name".to_owned() })
        }
    }

    pub fn as_str(&self) -> (r: &str)
        ensures
            r@ == self.name@,
    {
        self.name.as_str()
    }
}

} // verus!
