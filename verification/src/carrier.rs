//! A read-only view over the headers of an inbound request.
//!
//! Header names are matched without regard to ASCII case, and a name that
//! occurs more than once answers with its first value.

use vstd::prelude::*;

use crate::text::characters;

verus! {

/// `c` with an ASCII capital letter replaced by its small letter.
pub open spec fn lower(c: char) -> char {
    if 'A' <= c && c <= 'Z' {
        ((c as u8) + 32) as char
    } else {
        c
    }
}

/// Whether two header names are the same name: equal up to ASCII case.
pub open spec fn same_name(a: Seq<char>, b: Seq<char>) -> bool {
    &&& a.len() == b.len()
    &&& forall|i: int| 0 <= i < a.len() ==> lower(#[trigger] a[i]) == lower(b[i])
}

/// The value of the first header named `key`, if there is one.
pub open spec fn lookup(headers: Seq<(Seq<char>, Seq<char>)>, key: Seq<char>) -> Option<Seq<char>>
    decreases headers.len(),
{
    if headers.len() == 0 {
        None
    } else if same_name(headers[0].0, key) {
        Some(headers[0].1)
    } else {
        lookup(headers.drop_first(), key)
    }
}

/// Whether `names` holds the name `name`.
pub open spec fn has_name(names: Seq<Seq<char>>, name: Seq<char>) -> bool {
    exists|i: int| 0 <= i < names.len() && same_name(#[trigger] names[i], name)
}

/// The names of `headers`, each once, in the order of their first appearance
/// and in the spelling used there.
pub open spec fn distinct_names(headers: Seq<(Seq<char>, Seq<char>)>) -> Seq<Seq<char>>
    decreases headers.len(),
{
    if headers.len() == 0 {
        Seq::empty()
    } else {
        let earlier = distinct_names(headers.drop_last());
        if has_name(earlier, headers.last().0) {
            earlier
        } else {
            earlier.push(headers.last().0)
        }
    }
}

/// `headers` without the headers named `name`.
pub open spec fn without_name(headers: Seq<(Seq<char>, Seq<char>)>, name: Seq<char>) -> Seq<
    (Seq<char>, Seq<char>),
>
    decreases headers.len(),
{
    if headers.len() == 0 {
        Seq::empty()
    } else {
        let earlier = without_name(headers.drop_last(), name);
        if same_name(headers.last().0, name) {
            earlier
        } else {
            earlier.push(headers.last())
        }
    }
}

/// `headers` with `name` set to `value`: every header of that name gives way
/// to a single new one at the end.
pub open spec fn with_header(
    headers: Seq<(Seq<char>, Seq<char>)>,
    name: Seq<char>,
    value: Seq<char>,
) -> Seq<(Seq<char>, Seq<char>)> {
    without_name(headers, name).push((name, value))
}

/// Looking up in a list with one more header at its end: the earlier headers
/// answer first, the new one only if none of them has the name.
pub proof fn lemma_lookup_push(
    headers: Seq<(Seq<char>, Seq<char>)>,
    last: (Seq<char>, Seq<char>),
    key: Seq<char>,
)
    ensures
        lookup(headers.push(last), key) == if lookup(headers, key) is Some {
            lookup(headers, key)
        } else if same_name(last.0, key) {
            Some(last.1)
        } else {
            None
        },
    decreases headers.len(),
{
    let all = headers.push(last);
    if headers.len() == 0 {
        assert(all[0] == last);
        assert(all.drop_first().len() == 0);
        assert(lookup(all.drop_first(), key) is None);
    } else {
        assert(all[0] == headers[0]);
        assert(all.drop_first() == headers.drop_first().push(last));
        lemma_lookup_push(headers.drop_first(), last, key);
    }
}

/// After the headers named `name` are taken out, `name` is absent.
pub proof fn lemma_without_name_absent(headers: Seq<(Seq<char>, Seq<char>)>, name: Seq<char>)
    ensures
        lookup(without_name(headers, name), name) is None,
    decreases headers.len(),
{
    if headers.len() > 0 {
        lemma_without_name_absent(headers.drop_last(), name);
        lemma_lookup_push(without_name(headers.drop_last(), name), headers.last(), name);
    }
}

/// A header that was set is the one that a lookup of its name finds.
pub proof fn lemma_set_then_get(
    headers: Seq<(Seq<char>, Seq<char>)>,
    name: Seq<char>,
    value: Seq<char>,
)
    ensures
        lookup(with_header(headers, name, value), name) == Some(value),
{
    lemma_without_name_absent(headers, name);
    lemma_lookup_push(without_name(headers, name), (name, value), name);
}

/// The texts of a list of string slices.
pub open spec fn texts(items: Seq<&str>) -> Seq<Seq<char>> {
    items.map_values(|s: &str| s@)
}

/// Replaces an ASCII capital letter by its small letter.
pub fn to_lower(c: char) -> (folded: char)
    ensures
        folded == lower(c),
{
    if 'A' <= c && c <= 'Z' {
        let code: u8 = c as u8;
        (code + 32) as char
    } else {
        c
    }
}

/// Whether `a` and `b` spell the same header name.
pub fn names_match(a: &str, b: &str) -> (same: bool)
    ensures
        same == same_name(a@, b@),
{
    let left = characters(a);
    let right = characters(b);
    if left.len() != right.len() {
        return false;
    }
    let mut i: usize = 0;
    while i < left.len()
        invariant
            i <= left.len(),
            left.len() == right.len(),
            left@ == a@,
            right@ == b@,
            forall|j: int| 0 <= j < i ==> lower(#[trigger] left@[j]) == lower(right@[j]),
        decreases left.len() - i,
    {
        if to_lower(left[i]) != to_lower(right[i]) {
            assert(lower(a@[i as int]) != lower(b@[i as int]));
            return false;
        }
        i += 1;
    }
    true
}

/// One header of a request: its name and its value.
#[derive(Debug, Clone)]
pub struct Header {
    pub name: String,
    pub value: String,
}

impl Header {
    /// The header as plain text: name and value.
    pub open spec fn view(self) -> (Seq<char>, Seq<char>) {
        (self.name@, self.value@)
    }

    /// A header with the given name and value.
    pub fn new(name: &str, value: &str) -> (header: Header)
        ensures
            header@ == (name@, value@),
    {
        Header { name: name.to_owned(), value: value.to_owned() }
    }
}

/// The headers of one request, in the order in which they arrived.
#[derive(Debug, Clone)]
pub struct HeaderCarrier {
    headers: Vec<Header>,
}

impl HeaderCarrier {
    /// The headers as a sequence of name and value.
    pub closed spec fn view(self) -> Seq<(Seq<char>, Seq<char>)> {
        self.headers@.map_values(|h: Header| h@)
    }

    /// A carrier over `headers`.
    pub fn new(headers: Vec<Header>) -> (carrier: HeaderCarrier)
        ensures
            carrier@ == headers@.map_values(|h: Header| h@),
    {
        HeaderCarrier { headers }
    }

    /// The number of headers, repeated names counted each time.
    pub fn len(&self) -> (count: usize)
        ensures
            count == self@.len(),
    {
        self.headers.len()
    }

    /// Looks a header up by name, without regard to ASCII case. A name that
    /// is absent gives `None`; one that occurs several times gives its first
    /// value.
    pub fn get(&self, key: &str) -> (value: Option<&str>)
        ensures
            match value {
                Some(text) => lookup(self@, key@) == Some(text@),
                None => lookup(self@, key@) is None,
            },
    {
        let mut i: usize = 0;
        assert(self@.skip(0) == self@);
        while i < self.headers.len()
            invariant
                i <= self.headers.len(),
                lookup(self@, key@) == lookup(self@.skip(i as int), key@),
            decreases self.headers.len() - i,
        {
            let ghost rest = self@.skip(i as int);
            assert(rest[0] == self.headers@[i as int]@);
            assert(rest.drop_first() == self@.skip(i + 1));
            if names_match(self.headers[i].name.as_str(), key) {
                return Some(self.headers[i].value.as_str());
            }
            i += 1;
        }
        None
    }

    /// Sets the header `name` to `value`, for a carrier that is written to
    /// an outbound request. Headers that already have the name are replaced.
    pub fn set(&mut self, name: &str, value: &str)
        ensures
            final(self)@ == with_header(old(self)@, name@, value@),
    {
        let mut kept: Vec<Header> = Vec::new();
        let mut i: usize = 0;
        while i < self.headers.len()
            invariant
                i <= self.headers.len(),
                kept@.map_values(|h: Header| h@) == without_name(self@.take(i as int), name@),
            decreases self.headers.len() - i,
        {
            let ghost upto = self@.take(i + 1);
            assert(upto.drop_last() == self@.take(i as int));
            assert(upto.last() == self.headers@[i as int]@);
            let header = &self.headers[i];
            if !names_match(header.name.as_str(), name) {
                let ghost before = kept@.map_values(|h: Header| h@);
                kept.push(Header::new(header.name.as_str(), header.value.as_str()));
                assert(kept@.map_values(|h: Header| h@) == before.push(upto.last()));
            }
            i += 1;
        }
        assert(self@.take(self.headers.len() as int) == self@);
        let ghost before = kept@.map_values(|h: Header| h@);
        kept.push(Header::new(name, value));
        assert(kept@.map_values(|h: Header| h@) == before.push((name@, value@)));
        self.headers = kept;
    }

    /// Enumerates the header names that are present, each once, in the order
    /// of their first appearance.
    pub fn keys(&self) -> (names: Vec<&str>)
        ensures
            texts(names@) == distinct_names(self@),
    {
        let mut names: Vec<&str> = Vec::new();
        let mut i: usize = 0;
        while i < self.headers.len()
            invariant
                i <= self.headers.len(),
                texts(names@) == distinct_names(self@.take(i as int)),
            decreases self.headers.len() - i,
        {
            let name = self.headers[i].name.as_str();
            let ghost before = self@.take(i as int);
            let ghost upto = self@.take(i + 1);
            assert(upto.drop_last() == before);
            assert(upto.last().0 == name@);
            let mut known = false;
            let mut j: usize = 0;
            while j < names.len()
                invariant
                    j <= names.len(),
                    known == has_name(texts(names@).take(j as int), name@),
                decreases names.len() - j,
            {
                let ghost seen = texts(names@).take(j as int);
                let ghost more = texts(names@).take(j + 1);
                assert(more[j as int] == names@[j as int]@);
                assert(forall|k: int| 0 <= k < j ==> more[k] == seen[k]);
                if names_match(names[j], name) {
                    known = true;
                }
                j += 1;
            }
            assert(texts(names@).take(names.len() as int) == texts(names@));
            if !known {
                let ghost old_names = texts(names@);
                names.push(name);
                assert(texts(names@) == old_names.push(name@));
            }
            i += 1;
        }
        assert(self@.take(self.headers.len() as int) == self@);
        names
    }
}

} // verus!
