//! The wire grammar of header names and values, and the filter that keeps
//! only the headers that can be put on the wire.

use crate::headers::{
    distinct_names, index_of, lemma_index_of, lemma_mapping_keys, mapping_of, pairs_view,
    HeaderMapping, HeaderPair, HeaderSet,
};
use vstd::prelude::*;

verus! {

/// A character that may stand in a header name: a letter, a digit, or one of
/// ``! # $ % & ' * + - . ^ _ ` | ~``.
pub open spec fn is_name_char(c: char) -> bool {
    ||| 'a' <= c <= 'z'
    ||| 'A' <= c <= 'Z'
    ||| '0' <= c <= '9'
    ||| c == '!'
    ||| c == '#'
    ||| c == '$'
    ||| c == '%'
    ||| c == '&'
    ||| c == '\''
    ||| c == '*'
    ||| c == '+'
    ||| c == '-'
    ||| c == '.'
    ||| c == '^'
    ||| c == '_'
    ||| c == '`'
    ||| c == '|'
    ||| c == '~'
}

/// A header name fit for the wire: between 1 and 65535 name characters.
pub open spec fn is_header_name(name: Seq<char>) -> bool {
    &&& 1 <= name.len() <= 65535
    &&& forall|i: int| 0 <= i < name.len() ==> is_name_char(#[trigger] name[i])
}

/// A character that may stand in a header value: a tab, or anything from the
/// space upwards except the delete character.
pub open spec fn is_value_char(c: char) -> bool {
    c == '\t' || (' ' <= c && c != '\x7f')
}

/// A header value fit for the wire: value characters only.
pub open spec fn is_header_value(value: Seq<char>) -> bool {
    forall|i: int| 0 <= i < value.len() ==> is_value_char(#[trigger] value[i])
}

/// A header whose name and value are both fit for the wire.
pub open spec fn is_wire_header(pair: HeaderPair) -> bool {
    is_header_name(pair.0) && is_header_value(pair.1)
}

/// Asks `http::HeaderName` whether it accepts `name`
/// (`<HeaderName as FromStr>::from_str`). The contract claims that it accepts
/// exactly the names of 1 to 65535 bytes whose every byte is a letter, a digit
/// or one of the fifteen punctuation marks of `is_name_char`; every other byte,
/// and so every byte of a character outside ASCII, makes it refuse.
#[verifier::external_body]
fn name_accepted(name: &str) -> (ok: bool)
    ensures
        ok == is_header_name(name@),
{
    name.parse::<http::HeaderName>().is_ok()
}

/// Asks `http::HeaderValue` whether it accepts `value`
/// (`<HeaderValue as FromStr>::from_str`). The contract claims that it refuses
/// exactly the strings that hold a byte below 32 other than the tab, or the
/// byte 127; the bytes of a character outside ASCII are all above 127.
#[verifier::external_body]
fn value_accepted(value: &str) -> (ok: bool)
    ensures
        ok == is_header_value(value@),
{
    value.parse::<http::HeaderValue>().is_ok()
}

/// The pairs of `s` that are fit for the wire, in their order.
pub open spec fn sendable_pairs(s: Seq<HeaderPair>) -> Seq<HeaderPair>
    decreases s.len(),
{
    if s.len() == 0 {
        Seq::empty()
    } else if is_wire_header(s.last()) {
        sendable_pairs(s.drop_last()).push(s.last())
    } else {
        sendable_pairs(s.drop_last())
    }
}

/// The part of a mapping that is fit for the wire.
pub open spec fn sendable(m: HeaderMapping) -> HeaderMapping {
    Map::new(
        |name: Seq<char>| m.contains_key(name) && is_wire_header((name, m[name])),
        |name: Seq<char>| m[name],
    )
}

/// Every sendable pair is one of the given pairs, and is fit for the wire.
pub proof fn lemma_sendable_pairs_origin(s: Seq<HeaderPair>)
    ensures
        sendable_pairs(s).len() <= s.len(),
        forall|j: int|
            0 <= j < sendable_pairs(s).len() ==> is_wire_header(#[trigger] sendable_pairs(s)[j])
                && exists|k: int| 0 <= k < s.len() && s[k] == sendable_pairs(s)[j],
    decreases s.len(),
{
    if s.len() > 0 {
        let t = s.drop_last();
        lemma_sendable_pairs_origin(t);
        assert forall|j: int| 0 <= j < sendable_pairs(s).len() implies is_wire_header(
            #[trigger] sendable_pairs(s)[j],
        ) && exists|k: int| 0 <= k < s.len() && s[k] == sendable_pairs(s)[j] by {
            if j < sendable_pairs(t).len() {
                let k = choose|k: int| 0 <= k < t.len() && t[k] == sendable_pairs(t)[j];
                assert(s[k] == sendable_pairs(s)[j]);
            } else {
                assert(s[s.len() - 1] == sendable_pairs(s)[j]);
            }
        }
    }
}

/// With distinct names, the sendable pairs denote the sendable part of the
/// mapping that all the pairs denote.
pub proof fn lemma_sendable_mapping(s: Seq<HeaderPair>)
    requires
        distinct_names(s),
    ensures
        mapping_of(sendable_pairs(s)) == sendable(mapping_of(s)),
    decreases s.len(),
{
    if s.len() > 0 {
        let t = s.drop_last();
        assert(distinct_names(t));
        lemma_sendable_mapping(t);
        lemma_mapping_keys(t, s.last().0);
        assert(!mapping_of(t).contains_key(s.last().0));
        if is_wire_header(s.last()) {
            assert(sendable_pairs(s).drop_last() =~= sendable_pairs(t));
        }
    }
}

/// Whether the header can be put on the wire as it stands.
pub fn is_sendable(name: &str, value: &str) -> (ok: bool)
    ensures
        ok == is_wire_header((name@, value@)),
{
    name_accepted(name) && value_accepted(value)
}

/// Keeps the headers that are fit for the wire and silently drops the rest.
pub fn sendable_headers(headers: &HeaderSet) -> (kept: HeaderSet)
    ensures
        kept@ == sendable(headers@),
        kept.pairs() == sendable_pairs(headers.pairs()),
{
    let entries = headers.entries();
    let ghost all = headers.pairs();
    let mut kept = HeaderSet::new();
    let mut i: usize = 0;
    while i < entries.len()
        invariant
            i <= entries.len(),
            pairs_view(entries@) == all,
            distinct_names(all),
            kept.pairs() == sendable_pairs(all.take(i as int)),
        decreases entries.len() - i,
    {
        let ghost before = all.take(i as int);
        let ghost next = all.take(i + 1);
        proof {
            assert(next.drop_last() =~= before);
        }
        if is_sendable(entries[i].0.as_str(), entries[i].1.as_str()) {
            proof {
                lemma_sendable_pairs_origin(before);
                lemma_index_of(kept.pairs(), all[i as int].0);
                if index_of(kept.pairs(), all[i as int].0) < kept.pairs().len() {
                    let j = index_of(kept.pairs(), all[i as int].0);
                    let k = choose|k: int|
                        0 <= k < before.len() && before[k] == sendable_pairs(before)[j];
                    assert(all[k].0 != all[i as int].0);
                }
            }
            kept.insert(entries[i].0.clone(), entries[i].1.clone());
        }
        i += 1;
    }
    proof {
        assert(all.take(i as int) =~= all);
        lemma_sendable_mapping(all);
        kept.lemma_pairs();
        headers.lemma_pairs();
    }
    kept
}

} // verus!
