//! Reading the headers and the query parameters of a webhook.

use vstd::prelude::*;
use vstd::string::StringSliceAdditionalSpecFns;
use vstd::utf8::encode_utf8;

use crate::codec::pairs_of;
use crate::text::same_text;

verus! {

/// A byte with an ASCII capital letter turned into the small one.
pub open spec fn ascii_lower(byte: u8) -> u8 {
    if 0x41 <= byte <= 0x5a {
        (byte + 0x20) as u8
    } else {
        byte
    }
}

/// Whether two header names are the same: byte by byte, but for the case of
/// ASCII letters.
pub open spec fn same_header_name(a: Seq<u8>, b: Seq<u8>) -> bool {
    a.len() == b.len() && forall|i: int| 0 <= i < a.len() ==> ascii_lower(#[trigger] a[i])
        == ascii_lower(b[i])
}

/// The value of the first header with the given name.
pub open spec fn header_value(headers: Seq<(String, String)>, name: Seq<u8>) -> Option<String>
    decreases headers.len(),
{
    if headers.len() == 0 {
        None
    } else if same_header_name(encode_utf8(headers[0].0@), name) {
        Some(headers[0].1)
    } else {
        header_value(headers.drop_first(), name)
    }
}

fn lower(byte: u8) -> (r: u8)
    ensures
        r == ascii_lower(byte),
{
    if 0x41 <= byte && byte <= 0x5a {
        byte + 0x20
    } else {
        byte
    }
}

fn names_agree(a: &[u8], b: &[u8]) -> (r: bool)
    ensures
        r == same_header_name(a@, b@),
{
    if a.len() != b.len() {
        return false;
    }
    let mut i: usize = 0;
    while i < a.len()
        invariant
            a@.len() == b@.len(),
            i <= a@.len(),
            forall|j: int| 0 <= j < i ==> ascii_lower(#[trigger] a@[j]) == ascii_lower(b@[j]),
        decreases a@.len() - i,
    {
        if lower(a[i]) != lower(b[i]) {
            return false;
        }
        i += 1;
    }
    true
}

/// Looks a header up by its name, whatever the case of its letters.
pub fn get_header_key_value<'a>(name: &str, headers: &'a Vec<(String, String)>) -> (r: Option<
    &'a String,
>)
    ensures
        match header_value(headers@, name.spec_bytes()) {
            Some(value) => r matches Some(found) && *found == value,
            None => r is None,
        },
{
    let wanted = name.as_bytes();
    let mut i: usize = 0;
    assert(headers@.skip(0) =~= headers@);
    while i < headers.len()
        invariant
            i <= headers@.len(),
            wanted@ == name.spec_bytes(),
            header_value(headers@, name.spec_bytes()) == header_value(
                headers@.skip(i as int),
                name.spec_bytes(),
            ),
        decreases headers@.len() - i,
    {
        proof {
            assert(headers@.skip(i as int)[0] == headers@[i as int]);
            assert(headers@.skip(i as int).drop_first() =~= headers@.skip(i + 1));
        }
        if names_agree(headers[i].0.as_str().as_bytes(), wanted) {
            return Some(&headers[i].1);
        }
        i += 1;
    }
    None
}

/// The values that a list of names and values holds under one name, in
/// their order.
pub open spec fn values_of(pairs: Seq<(Seq<char>, Seq<char>)>, name: Seq<char>) -> Seq<Seq<char>>
    decreases pairs.len(),
{
    if pairs.len() == 0 {
        Seq::empty()
    } else if pairs.last().0 == name {
        values_of(pairs.drop_last(), name).push(pairs.last().1)
    } else {
        values_of(pairs.drop_last(), name)
    }
}

/// The value of a field that has to be there, and only once.
pub open spec fn required_value(pairs: Seq<(Seq<char>, Seq<char>)>, name: Seq<char>) -> Option<
    Seq<char>,
> {
    if values_of(pairs, name).len() == 1 {
        Some(values_of(pairs, name)[0])
    } else {
        None
    }
}

/// The value of a field that may be left out but not be given twice:
/// outside, whether the field is well formed; inside, its value.
pub open spec fn optional_value(pairs: Seq<(Seq<char>, Seq<char>)>, name: Seq<char>) -> Option<
    Option<Seq<char>>,
> {
    if values_of(pairs, name).len() == 0 {
        Some(None)
    } else if values_of(pairs, name).len() == 1 {
        Some(Some(values_of(pairs, name)[0]))
    } else {
        None
    }
}

/// How often a name occurs, as far as it matters.
#[derive(Debug, PartialEq, Eq)]
pub enum Occurrence<'a> {
    Never,
    Once(&'a String),
    Repeated,
}

/// Finds the values of a name in a list of names and values.
pub fn find_field<'a>(pairs: &'a Vec<(String, String)>, name: &str) -> (r: Occurrence<'a>)
    ensures
        match r {
            Occurrence::Never => values_of(pairs_of(pairs@), name@).len() == 0,
            Occurrence::Once(value) => values_of(pairs_of(pairs@), name@).len() == 1
                && value@ == values_of(pairs_of(pairs@), name@)[0],
            Occurrence::Repeated => values_of(pairs_of(pairs@), name@).len() >= 2,
        },
{
    let ghost all = pairs_of(pairs@);
    let mut found: Occurrence<'a> = Occurrence::Never;
    let mut i: usize = 0;
    assert(all.take(0) =~= Seq::empty());
    while i < pairs.len()
        invariant
            i <= pairs@.len(),
            all == pairs_of(pairs@),
            match found {
                Occurrence::Never => values_of(all.take(i as int), name@).len() == 0,
                Occurrence::Once(value) => values_of(all.take(i as int), name@).len() == 1
                    && value@ == values_of(all.take(i as int), name@)[0],
                Occurrence::Repeated => values_of(all.take(i as int), name@).len() >= 2,
            },
        decreases pairs@.len() - i,
    {
        proof {
            assert(all.take(i + 1).drop_last() =~= all.take(i as int));
            assert(all.take(i + 1).last() == all[i as int]);
            assert(all[i as int] == (pairs@[i as int].0@, pairs@[i as int].1@));
        }
        if same_text(pairs[i].0.as_str(), name) {
            found = match found {
                Occurrence::Never => Occurrence::Once(&pairs[i].1),
                _ => Occurrence::Repeated,
            };
        }
        i += 1;
    }
    assert(all.take(all.len() as int) =~= all);
    found
}

} // verus!
