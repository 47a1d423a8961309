//! Response headers as the rules read them.

use vstd::prelude::*;
use crate::text::{lower_of, same_text, to_lower};

verus! {

/// The value of the first entry named `name` at or after position `i`.
pub open spec fn value_from(
    entries: Seq<(Seq<char>, Seq<char>)>,
    name: Seq<char>,
    i: int,
) -> Option<Seq<char>>
    decreases entries.len() - i,
{
    if i < 0 || i >= entries.len() {
        None
    } else if entries[i].0 == name {
        Some(entries[i].1)
    } else {
        value_from(entries, name, i + 1)
    }
}

/// The value of the first entry named `name`: repeated names collapse to the
/// first one seen.
pub open spec fn first_value(entries: Seq<(Seq<char>, Seq<char>)>, name: Seq<char>) -> Option<
    Seq<char>,
> {
    value_from(entries, name, 0)
}

/// The first value of `name`, or `default` where there is none.
pub open spec fn value_or(
    entries: Seq<(Seq<char>, Seq<char>)>,
    name: Seq<char>,
    default: Seq<char>,
) -> Seq<char> {
    match first_value(entries, name) {
        Some(v) => v,
        None => default,
    }
}

/// Header names, lowercased, and their values, in the order the response
/// gave them.
pub struct HeaderSet {
    entries: Vec<(String, String)>,
}

impl View for HeaderSet {
    type V = Seq<(Seq<char>, Seq<char>)>;

    closed spec fn view(&self) -> Seq<(Seq<char>, Seq<char>)> {
        self.entries@.map_values(|e: (String, String)| (e.0@, e.1@))
    }
}

impl HeaderSet {
    /// A set with no headers.
    pub fn new() -> (r: HeaderSet)
        ensures
            r@ == Seq::<(Seq<char>, Seq<char>)>::empty(),
    {
        HeaderSet { entries: Vec::new() }
    }

    /// Appends one header line under its lowercased name; an earlier value of
    /// the same name still wins on lookup.
    pub fn insert(&mut self, name: &str, value: &str)
        ensures
            final(self)@ == old(self)@.push((lower_of(name@), value@)),
    {
        self.entries.push((to_lower(name), value.to_owned()));
        assert(final(self)@ =~= old(self)@.push((lower_of(name@), value@)));
    }

    /// Number of header lines held.
    pub fn len(&self) -> (r: usize)
        ensures
            r == self@.len(),
    {
        self.entries.len()
    }

    /// The first value given for `name`.
    pub fn get(&self, name: &str) -> (r: Option<&str>)
        ensures
            match r {
                Some(v) => first_value(self@, name@) == Some(v@),
                None => first_value(self@, name@) is None,
            },
    {
        let n = self.entries.len();
        let mut i: usize = 0;
        while i < n
            invariant
                n == self.entries@.len(),
                n == self@.len(),
                0 <= i <= n,
                first_value(self@, name@) == value_from(self@, name@, i as int),
            decreases n - i,
        {
            if same_text(self.entries[i].0.as_str(), name) {
                return Some(self.entries[i].1.as_str());
            }
            i = i + 1;
        }
        None
    }

    /// The first value given for `name`, or `default` where there is none.
    pub fn get_or<'a>(&'a self, name: &str, default: &'a str) -> (r: &'a str)
        ensures
            r@ == value_or(self@, name@, default@),
    {
        match self.get(name) {
            Some(v) => v,
            None => default,
        }
    }
}

} // verus!

verus! {

/// One HTTP response as the rules see it: its headers and its body bytes.
pub struct Response {
    pub headers: HeaderSet,
    pub body: Vec<u8>,
}

} // verus!
