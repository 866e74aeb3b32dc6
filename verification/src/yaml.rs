//! The library's model of a parsed declaration document: a closed
//! tagged-union tree value with total accessors that return an
//! absent-marker instead of failing.
use vstd::prelude::*;
use vstd::string::StrSliceExecFns;

verus! {

/// One node of a parsed declaration tree. Mappings keep their entries in
/// document order; numeric scalars keep only their kind, since no part of
/// the translation reads numeric content.
pub enum Yaml {
    Null,
    Bool(bool),
    Number,
    Str(String),
    Sequence(Vec<Yaml>),
    Mapping(Vec<(Yaml, Yaml)>),
}

/// Whether a mapping entry's key is the string `key`.
pub open spec fn entry_key_matches(entry: (Yaml, Yaml), key: Seq<char>) -> bool {
    match entry.0 {
        Yaml::Str(s) => s@ == key,
        _ => false,
    }
}

/// The value of the first entry whose key is the string `key`.
pub open spec fn lookup(entries: Seq<(Yaml, Yaml)>, key: Seq<char>) -> Option<Yaml>
    decreases entries.len(),
{
    if entries.len() == 0 {
        None
    } else if entry_key_matches(entries[0], key) {
        Some(entries[0].1)
    } else {
        lookup(entries.drop_first(), key)
    }
}

/// String equality on character sequences.
pub fn str_eq(a: &str, b: &str) -> (r: bool)
    ensures
        r == (a@ == b@),
{
    let alen = a.unicode_len();
    let blen = b.unicode_len();
    if alen != blen {
        proof {
            if a@ == b@ {
                assert(a@.len() == b@.len());
            }
        }
        return false;
    }
    let mut i: usize = 0;
    while i < alen
        invariant
            alen == a@.len(),
            blen == b@.len(),
            alen == blen,
            0 <= i <= alen,
            forall|j: int| 0 <= j < i ==> a@[j] == b@[j],
        decreases alen - i,
    {
        let ca = a.get_char(i);
        let cb = b.get_char(i);
        if ca != cb {
            proof {
                if a@ == b@ {
                    assert(a@[i as int] == b@[i as int]);
                }
            }
            return false;
        }
        i += 1;
    }
    proof {
        assert(a@ =~= b@);
    }
    true
}

impl Yaml {
    /// The value under the string key `key`, when this node is a mapping
    /// that carries such an entry.
    pub open spec fn get_spec(self, key: Seq<char>) -> Option<Yaml> {
        match self {
            Yaml::Mapping(entries) => lookup(entries@, key),
            _ => None,
        }
    }

    /// The character sequence of a string scalar.
    pub open spec fn str_spec(self) -> Option<Seq<char>> {
        match self {
            Yaml::Str(s) => Some(s@),
            _ => None,
        }
    }

    /// The value of a boolean scalar.
    pub open spec fn bool_spec(self) -> Option<bool> {
        match self {
            Yaml::Bool(b) => Some(b),
            _ => None,
        }
    }

    pub fn get<'a>(&'a self, key: &str) -> (r: Option<&'a Yaml>)
        ensures
            match r {
                Some(v) => self.get_spec(key@) == Some(*v),
                None => self.get_spec(key@) is None,
            },
    {
        match self {
            Yaml::Mapping(entries) => {
                let n = entries.len();
                let mut i: usize = 0;
                proof {
                    assert(entries@.skip(0) =~= entries@);
                }
                while i < n
                    invariant
                        *self == Yaml::Mapping(*entries),
                        n == entries@.len(),
                        0 <= i <= n,
                        lookup(entries@.skip(i as int), key@) == lookup(entries@, key@),
                    decreases n - i,
                {
                    proof {
                        assert(entries@.skip(i as int)[0] == entries@[i as int]);
                    }
                    match &entries[i].0 {
                        Yaml::Str(k) => {
                            if str_eq(k.as_str(), key) {
                                proof {
                                    assert(entry_key_matches(entries@[i as int], key@));
                                    assert(lookup(entries@.skip(i as int), key@) == Some(
                                        entries@[i as int].1,
                                    ));
                                    assert(*self == Yaml::Mapping(*entries));
                                    assert(self.get_spec(key@) == lookup(entries@, key@));
                                    assert(self.get_spec(key@) == Some(entries@[i as int].1));
                                }
                                return Some(&entries[i].1);
                            }
                        },
                        _ => {},
                    }
                    proof {
                        assert(!entry_key_matches(entries@[i as int], key@));
                        assert(entries@.skip(i as int).drop_first() =~= entries@.skip(
                            i as int + 1,
                        ));
                    }
                    i += 1;
                }
                proof {
                    assert(entries@.skip(n as int).len() == 0);
                }
                None
            },
            _ => None,
        }
    }

    pub fn as_str<'a>(&'a self) -> (r: Option<&'a str>)
        ensures
            match r {
                Some(s) => self.str_spec() == Some(s@),
                None => self.str_spec() is None,
            },
    {
        match self {
            Yaml::Str(s) => Some(s.as_str()),
            _ => None,
        }
    }

    pub fn as_bool(&self) -> (r: Option<bool>)
        ensures
            r == self.bool_spec(),
    {
        match self {
            Yaml::Bool(b) => Some(*b),
            _ => None,
        }
    }

    pub fn as_sequence<'a>(&'a self) -> (r: Option<&'a Vec<Yaml>>)
        ensures
            match r {
                Some(v) => *self == Yaml::Sequence(*v),
                None => !(*self is Sequence),
            },
    {
        match self {
            Yaml::Sequence(v) => Some(v),
            _ => None,
        }
    }
}

} // verus!
