//! An immutable snapshot of a track's descriptive properties: an open
//! mapping from well-known string keys to tagged variant values. Unknown
//! keys are preserved opaquely; absent keys are simply absent. Converting
//! a raw bag in and back out is lossless whenever the bag's keys are
//! unique, unrecognized keys included.
use vstd::prelude::*;
use vstd::string::*;
use crate::error::Error;
use crate::track::Track;

verus! {

/// A tagged variant value of the protocol's open property bags. A
/// floating-point value is carried losslessly by its raw bit pattern.
#[derive(Debug, Clone, PartialEq, Eq)]
pub enum Value {
    Str(String),
    StrList(Vec<String>),
    ObjectPath(String),
    Bool(bool),
    Byte(u8),
    Int16(i16),
    UInt16(u16),
    Int32(i32),
    UInt32(u32),
    Int64(i64),
    UInt64(u64),
    DoubleBits(u64),
}

impl Value {
    /// The name of this value's shape, as a typed read reports it.
    pub open spec fn kind_spec(&self) -> Seq<char> {
        match self {
            Value::Str(_) => "Str"@,
            Value::StrList(_) => "StrList"@,
            Value::ObjectPath(_) => "ObjectPath"@,
            Value::Bool(_) => "Bool"@,
            Value::Byte(_) => "Byte"@,
            Value::Int16(_) => "Int16"@,
            Value::UInt16(_) => "UInt16"@,
            Value::Int32(_) => "Int32"@,
            Value::UInt32(_) => "UInt32"@,
            Value::Int64(_) => "Int64"@,
            Value::UInt64(_) => "UInt64"@,
            Value::DoubleBits(_) => "Double"@,
        }
    }

    pub fn kind(&self) -> (r: String)
        ensures
            r@ == self.kind_spec(),
    {
        match self {
            Value::Str(_) => "Str".to_owned(),
            Value::StrList(_) => "StrList".to_owned(),
            Value::ObjectPath(_) => "ObjectPath".to_owned(),
            Value::Bool(_) => "Bool".to_owned(),
            Value::Byte(_) => "Byte".to_owned(),
            Value::Int16(_) => "Int16".to_owned(),
            Value::UInt16(_) => "UInt16".to_owned(),
            Value::Int32(_) => "Int32".to_owned(),
            Value::UInt32(_) => "UInt32".to_owned(),
            Value::Int64(_) => "Int64".to_owned(),
            Value::UInt64(_) => "UInt64".to_owned(),
            Value::DoubleBits(_) => "Double".to_owned(),
        }
    }
}

/// A typed read that found a value of the wrong shape: rejected with
/// the shape it wanted and the shape it found.
pub open spec fn wrong_shape<T>(r: &Result<Option<T>, Error>, wanted: Seq<char>, v: &Value) -> bool {
    match r {
        Err(e) => e matches Error::IncorrectVariant { wanted: w, actual } && w@ == wanted
            && actual@ == v.kind_spec(),
        Ok(_) => false,
    }
}

/// One line of the diagnostic rendering: the key and its value's shape.
pub open spec fn render_line(e: (String, Value)) -> Seq<char> {
    e.0@ + ": <"@ + e.1.kind_spec() + ">\n"@
}

/// The diagnostic rendering of a whole bag: one line per entry, in
/// order.
pub open spec fn render_spec(s: Seq<(String, Value)>) -> Seq<char>
    decreases s.len(),
{
    if s.len() == 0 {
        Seq::empty()
    } else {
        render_spec(s.drop_last()) + render_line(s.last())
    }
}

/// Whether some entry of `s` carries the key `k`.
pub open spec fn contains_key(s: Seq<(String, Value)>, k: Seq<char>) -> bool {
    exists|i: int| 0 <= i < s.len() && s[i].0@ == k
}

/// No two entries carry the same key.
pub open spec fn unique_keys(s: Seq<(String, Value)>) -> bool {
    forall|i: int, j: int|
        0 <= i < j < s.len() ==> (#[trigger] s[i]).0@ != (#[trigger] s[j]).0@
}

/// The bag with every repeated key dropped, keeping each key's first
/// entry in order.
pub open spec fn dedup_first(s: Seq<(String, Value)>) -> Seq<(String, Value)>
    decreases s.len(),
{
    if s.len() == 0 {
        s
    } else {
        let front = dedup_first(s.drop_last());
        if contains_key(s.drop_last(), s.last().0@) {
            front
        } else {
            front.push(s.last())
        }
    }
}

/// The value under the first entry carrying `k`, if any.
pub open spec fn lookup(s: Seq<(String, Value)>, k: Seq<char>) -> Option<Value>
    decreases s.len(),
{
    if s.len() == 0 {
        None
    } else if s[0].0@ == k {
        Some(s[0].1)
    } else {
        lookup(s.drop_first(), k)
    }
}

/// Dropping repeated keys keeps exactly the keys.
pub proof fn lemma_dedup_contains(s: Seq<(String, Value)>, k: Seq<char>)
    ensures
        contains_key(dedup_first(s), k) == contains_key(s, k),
    decreases s.len(),
{
    if s.len() > 0 {
        lemma_dedup_contains(s.drop_last(), k);
        let front = dedup_first(s.drop_last());
        let dup = contains_key(s.drop_last(), s.last().0@);
        if contains_key(s, k) {
            let i = choose|i: int| 0 <= i < s.len() && s[i].0@ == k;
            if i < s.len() - 1 {
                assert(s.drop_last()[i].0@ == k);
                assert(contains_key(s.drop_last(), k));
                let j = choose|j: int| 0 <= j < front.len() && front[j].0@ == k;
                if !dup {
                    assert(front.push(s.last())[j].0@ == k);
                }
            } else {
                if dup {
                    assert(contains_key(s.drop_last(), k));
                } else {
                    assert(front.push(s.last())[front.len() as int].0@ == k);
                }
            }
        }
        if contains_key(dedup_first(s), k) {
            if dup {
                let j = choose|j: int| 0 <= j < s.drop_last().len() && s.drop_last()[j].0@ == k;
                assert(s[j].0@ == k);
            } else {
                let i = choose|i: int|
                    0 <= i < front.push(s.last()).len() && front.push(s.last())[i].0@ == k;
                if i < front.len() {
                    assert(front[i].0@ == k);
                    assert(contains_key(front, k));
                    let j = choose|j: int|
                        0 <= j < s.drop_last().len() && s.drop_last()[j].0@ == k;
                    assert(s[j].0@ == k);
                } else {
                    assert(front.push(s.last())[i] == s.last());
                    assert(s[s.len() - 1].0@ == k);
                }
            }
        }
    }
}

/// Dropping repeated keys leaves unique keys.
pub proof fn lemma_dedup_unique(s: Seq<(String, Value)>)
    ensures
        unique_keys(dedup_first(s)),
    decreases s.len(),
{
    if s.len() > 0 {
        lemma_dedup_unique(s.drop_last());
        lemma_dedup_contains(s.drop_last(), s.last().0@);
        let front = dedup_first(s.drop_last());
        if !contains_key(s.drop_last(), s.last().0@) {
            assert forall|i: int, j: int|
                0 <= i < j < front.push(s.last()).len() implies (#[trigger] front.push(
                s.last(),
            )[i]).0@ != (#[trigger] front.push(s.last())[j]).0@ by {
                if j < front.len() {
                    assert(front[i].0@ != front[j].0@);
                } else {
                    assert(front.push(s.last())[i] == front[i]);
                    if front[i].0@ == s.last().0@ {
                        assert(contains_key(front, s.last().0@));
                    }
                }
            }
        }
    }
}

/// A bag whose keys are unique is left unchanged by the dropping.
pub proof fn lemma_dedup_of_unique(s: Seq<(String, Value)>)
    requires
        unique_keys(s),
    ensures
        dedup_first(s) == s,
    decreases s.len(),
{
    if s.len() > 0 {
        assert(unique_keys(s.drop_last()));
        lemma_dedup_of_unique(s.drop_last());
        if contains_key(s.drop_last(), s.last().0@) {
            let i = choose|i: int| 0 <= i < s.len() - 1 && s.drop_last()[i].0@ == s.last().0@;
            assert(s[i].0@ == s[s.len() - 1].0@);
            assert(false);
        }
        assert(s.drop_last().push(s.last()) =~= s);
    }
}

fn contains_key_exec(entries: &Vec<(String, Value)>, k: &String) -> (r: bool)
    ensures
        r == contains_key(entries@, k@),
{
    let n = entries.len();
    let mut i: usize = 0;
    loop
        invariant
            i <= n,
            n == entries@.len(),
            forall|j: int| 0 <= j < i ==> (#[trigger] entries@[j]).0@ != k@,
        ensures
            i <= n,
            forall|j: int| 0 <= j < i ==> (#[trigger] entries@[j]).0@ != k@,
            i < n ==> entries@[i as int].0@ == k@,
        decreases n - i,
    {
        if i >= n {
            break ;
        }
        if entries[i].0 == *k {
            break ;
        }
        i += 1;
    }
    if i < n {
        proof {
            assert(contains_key(entries@, k@));
        }
        true
    } else {
        false
    }
}

/// An immutable snapshot of a track's descriptive properties.
#[derive(Debug, Clone, PartialEq, Eq)]
pub struct Metadata {
    pub entries: Vec<(String, Value)>,
}

impl Metadata {
    pub open spec fn wf(&self) -> bool {
        unique_keys(self.entries@)
    }

    /// Reads a raw property bag. A repeated key keeps its first entry;
    /// a bag with unique keys — the only kind the protocol produces —
    /// is taken over exactly as it is.
    pub fn from_raw(raw: Vec<(String, Value)>) -> (r: Metadata)
        ensures
            r.entries@ == dedup_first(raw@),
            r.wf(),
            unique_keys(raw@) ==> r.entries@ == raw@,
    {
        let mut raw = raw;
        let ghost orig = raw@;
        let mut entries: Vec<(String, Value)> = Vec::new();
        let ghost k: int = 0;
        loop
            invariant
                0 <= k <= orig.len(),
                raw@ == orig.subrange(k, orig.len() as int),
                entries@ == dedup_first(orig.take(k)),
            ensures
                entries@ == dedup_first(orig),
            decreases orig.len() - k,
        {
            if raw.len() == 0 {
                proof {
                    assert(orig.take(k) =~= orig);
                }
                break ;
            }
            let e = raw.remove(0);
            proof {
                assert(e == orig[k]);
                lemma_dedup_contains(orig.take(k), e.0@);
                assert(orig.take(k + 1).drop_last() =~= orig.take(k));
                assert(orig.take(k + 1).last() == orig[k]);
            }
            if !contains_key_exec(&entries, &e.0) {
                entries.push(e);
            }
            proof {
                assert(raw@ =~= orig.subrange(k + 1, orig.len() as int));
                k = k + 1;
            }
        }
        proof {
            lemma_dedup_unique(orig);
            if unique_keys(orig) {
                lemma_dedup_of_unique(orig);
            }
        }
        Metadata { entries }
    }

    /// The raw property-bag representation: the snapshot's own entries,
    /// key for key.
    pub fn into_raw(self) -> (r: Vec<(String, Value)>)
        ensures
            r@ == self.entries@,
    {
        self.entries
    }

    /// The track's title, under the key `xesam:title`: absent when the
    /// key is, an `IncorrectVariant` rejection when the key carries a
    /// value of another shape.
    pub fn title(&self) -> (r: Result<Option<String>, Error>)
        ensures
            match lookup(self.entries@, "xesam:title"@) {
                None => r == Ok::<Option<String>, Error>(None::<String>),
                Some(v) => match v {
                    Value::Str(s) => r == Ok::<Option<String>, Error>(Some(s)),
                    _ => wrong_shape(&r, "Str"@, &v),
                },
            },
    {
        match self.get("xesam:title") {
            None => Ok(None),
            Some(Value::Str(s)) => Ok(Some(s.clone())),
            Some(v) => Err(Error::IncorrectVariant { wanted: "Str".to_owned(), actual: v.kind() }),
        }
    }

    /// The track's artists, under the key `xesam:artist`.
    pub fn artists(&self) -> (r: Result<Option<Vec<String>>, Error>)
        ensures
            match lookup(self.entries@, "xesam:artist"@) {
                None => r == Ok::<Option<Vec<String>>, Error>(None::<Vec<String>>),
                Some(v) => match v {
                    Value::StrList(xs) => r matches Ok(Some(out)) && out@ == xs@,
                    _ => wrong_shape(&r, "StrList"@, &v),
                },
            },
    {
        match self.get("xesam:artist") {
            None => Ok(None),
            Some(Value::StrList(xs)) => {
                let out = xs.clone();
                proof {
                    assert forall|i: int| 0 <= i < out@.len() implies out@[i] == xs@[i] by {
                        assert(vstd::pervasive::cloned::<String>(xs@[i], out@[i]));
                    }
                    assert(out@ =~= xs@);
                }
                Ok(Some(out))
            },
            Some(v) => Err(
                Error::IncorrectVariant { wanted: "StrList".to_owned(), actual: v.kind() },
            ),
        }
    }

    /// The track's length as a signed microsecond count, under the key
    /// `mpris:length`.
    pub fn length(&self) -> (r: Result<Option<i64>, Error>)
        ensures
            match lookup(self.entries@, "mpris:length"@) {
                None => r == Ok::<Option<i64>, Error>(None::<i64>),
                Some(v) => match v {
                    Value::Int64(n) => r == Ok::<Option<i64>, Error>(Some(n)),
                    _ => wrong_shape(&r, "Int64"@, &v),
                },
            },
    {
        match self.get("mpris:length") {
            None => Ok(None),
            Some(Value::Int64(n)) => Ok(Some(*n)),
            Some(v) => Err(
                Error::IncorrectVariant { wanted: "Int64".to_owned(), actual: v.kind() },
            ),
        }
    }

    /// The track's art location, under the key `mpris:artUrl`.
    pub fn art_url(&self) -> (r: Result<Option<String>, Error>)
        ensures
            match lookup(self.entries@, "mpris:artUrl"@) {
                None => r == Ok::<Option<String>, Error>(None::<String>),
                Some(v) => match v {
                    Value::Str(s) => r == Ok::<Option<String>, Error>(Some(s)),
                    _ => wrong_shape(&r, "Str"@, &v),
                },
            },
    {
        match self.get("mpris:artUrl") {
            None => Ok(None),
            Some(Value::Str(s)) => Ok(Some(s.clone())),
            Some(v) => Err(Error::IncorrectVariant { wanted: "Str".to_owned(), actual: v.kind() }),
        }
    }

    /// The track's identifier, under the key `mpris:trackid`.
    pub fn track_id(&self) -> (r: Result<Option<Track>, Error>)
        ensures
            match lookup(self.entries@, "mpris:trackid"@) {
                None => r == Ok::<Option<Track>, Error>(None::<Track>),
                Some(v) => match v {
                    Value::ObjectPath(p) => r matches Ok(Some(t)) && t.path@ == p@,
                    _ => wrong_shape(&r, "ObjectPath"@, &v),
                },
            },
    {
        match self.get("mpris:trackid") {
            None => Ok(None),
            Some(Value::ObjectPath(p)) => Ok(Some(Track { path: p.clone() })),
            Some(v) => Err(
                Error::IncorrectVariant { wanted: "ObjectPath".to_owned(), actual: v.kind() },
            ),
        }
    }

    /// A human-readable multi-line rendering enumerating the present
    /// keys, each with the shape of its value: diagnostics only, never
    /// a wire format.
    pub fn display(&self) -> (r: String)
        ensures
            r@ == render_spec(self.entries@),
    {
        let mut r = String::new();
        let n = self.entries.len();
        let mut i: usize = 0;
        proof {
            assert(self.entries@.take(0) =~= Seq::<(String, Value)>::empty());
        }
        while i < n
            invariant
                i <= n,
                n == self.entries@.len(),
                r@ == render_spec(self.entries@.take(i as int)),
            decreases n - i,
        {
            let e = &self.entries[i];
            r.append(e.0.as_str());
            r.append(": <");
            let k = e.1.kind();
            r.append(k.as_str());
            r.append(">\n");
            proof {
                assert(self.entries@.take(i + 1).drop_last() =~= self.entries@.take(i as int));
                assert(self.entries@.take(i + 1).last() == self.entries@[i as int]);
                assert(r@ =~= render_spec(self.entries@.take(i + 1)));
            }
            i += 1;
        }
        proof {
            assert(self.entries@.take(n as int) =~= self.entries@);
        }
        r
    }

    /// Pass-through access to any key, well known or not.
    pub fn get(&self, key: &str) -> (r: Option<&Value>)
        ensures
            match r {
                Some(v) => lookup(self.entries@, key@) == Some(*v),
                None => lookup(self.entries@, key@) is None,
            },
    {
        let n = self.entries.len();
        proof {
            assert(self.entries@.subrange(0, n as int) =~= self.entries@);
        }
        let mut i: usize = 0;
        loop
            invariant
                i <= n,
                n == self.entries@.len(),
                lookup(self.entries@, key@) == lookup(
                    self.entries@.subrange(i as int, n as int),
                    key@,
                ),
                forall|j: int| 0 <= j < i ==> (#[trigger] self.entries@[j]).0@ != key@,
            decreases n - i,
        {
            if i >= n {
                return None;
            }
            let e = &self.entries[i];
            if text_eq(&e.0, key) {
                proof {
                    assert(self.entries@.subrange(i as int, n as int)[0] == self.entries@[i as int]);
                }
                return Some(&e.1);
            }
            proof {
                assert(self.entries@.subrange(i as int, n as int).drop_first() =~= self.entries@
                    .subrange(i + 1, n as int));
                assert(self.entries@.subrange(i as int, n as int)[0] == self.entries@[i as int]);
            }
            i += 1;
        }
    }
}

fn text_eq(a: &String, b: &str) -> (r: bool)
    ensures
        r == (a@ == b@),
{
    crate::text::str_eq(a.as_str(), b)
}

} // verus!
