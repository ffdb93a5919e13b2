//! The values that pass through the gateway: assets, inbound requests, the
//! header set a hook may change, and outbound responses.

use crate::headers::{collected, mapping_of, pairs_view, HeaderMapping, HeaderPair, HeaderSet};
use vstd::prelude::*;

verus! {

/// The text of an optional string.
pub open spec fn text_of(s: Option<String>) -> Option<Seq<char>> {
    match s {
        Some(t) => Some(t@),
        None => None,
    }
}

/// A named byte payload with its MIME type and, where the resolver supplies
/// one, its content security policy.
#[derive(Clone, Debug, PartialEq, Eq)]
pub struct Asset {
    pub bytes: Vec<u8>,
    pub mime_type: String,
    pub csp_header: Option<String>,
}

/// What an asset holds, as plain values.
pub struct AssetView {
    pub bytes: Seq<u8>,
    pub mime_type: Seq<char>,
    pub csp_header: Option<Seq<char>>,
}

impl View for Asset {
    type V = AssetView;

    open spec fn view(&self) -> AssetView {
        AssetView {
            bytes: self.bytes@,
            mime_type: self.mime_type@,
            csp_header: text_of(self.csp_header),
        }
    }
}

/// The lower-case form of an ASCII capital letter; any other character is
/// itself.
pub open spec fn ascii_lower(c: char) -> char {
    if 'A' <= c <= 'Z' {
        ((c as u32 + 32) as u32) as char
    } else {
        c
    }
}

/// The text with each ASCII capital letter in lower case.
pub open spec fn lowered(text: Seq<char>) -> Seq<char> {
    Seq::new(text.len(), |i: int| ascii_lower(text[i]))
}

/// The headers with each name in lower case.
pub open spec fn folded(raw: Seq<HeaderPair>) -> Seq<HeaderPair> {
    Seq::new(raw.len(), |i: int| (lowered(raw[i].0), raw[i].1))
}

/// `str::to_ascii_lowercase`: a copy of the text in which the ASCII letters
/// `A` to `Z` are replaced by `a` to `z` and every other character is kept.
#[verifier::external_body]
fn lowercase(text: &str) -> (lower: String)
    ensures
        lower@ == lowered(text@),
{
    text.to_ascii_lowercase()
}

/// An inbound request as the gateway sees it. It does not change once
/// received. Header names are held in lower case, so that a header is found
/// whatever the case it was sent in; of headers with the same name the last
/// one stands.
#[derive(Debug)]
pub struct LocalRequest {
    method: String,
    url: String,
    headers: HeaderSet,
    body: Vec<u8>,
}

/// What a `LocalRequest` holds, as plain values.
pub struct LocalRequestView {
    pub method: Seq<char>,
    pub url: Seq<char>,
    pub headers: HeaderMapping,
    pub header_pairs: Seq<HeaderPair>,
    pub body: Seq<u8>,
}

impl View for LocalRequest {
    type V = LocalRequestView;

    closed spec fn view(&self) -> LocalRequestView {
        LocalRequestView {
            method: self.method@,
            url: self.url@,
            headers: self.headers@,
            header_pairs: self.headers.pairs(),
            body: self.body@,
        }
    }
}

impl LocalRequest {
    /// A request with the given method, raw request target, headers in the
    /// order they arrived in, and body. A request without a body has the
    /// empty body.
    pub fn new(method: String, url: String, headers: Vec<(String, String)>, body: Vec<u8>) -> (r:
        Self)
        ensures
            r@.method == method@,
            r@.url == url@,
            r@.headers == mapping_of(folded(pairs_view(headers@))),
            r@.header_pairs == collected(folded(pairs_view(headers@))),
            r@.body == body@,
    {
        let ghost all = folded(pairs_view(headers@));
        let mut set = HeaderSet::new();
        let mut i: usize = 0;
        while i < headers.len()
            invariant
                i <= headers.len(),
                all == folded(pairs_view(headers@)),
                set@ == mapping_of(all.take(i as int)),
                set.pairs() == collected(all.take(i as int)),
            decreases headers.len() - i,
        {
            proof {
                assert(all.take(i + 1).drop_last() =~= all.take(i as int));
            }
            set.insert(lowercase(headers[i].0.as_str()), headers[i].1.clone());
            i += 1;
        }
        proof {
            assert(all.take(i as int) =~= all);
        }
        LocalRequest { method, url, headers: set, body }
    }

    /// The request method.
    pub fn method(&self) -> (r: &str)
        ensures
            r@ == self@.method,
    {
        self.method.as_str()
    }

    /// The raw request target.
    pub fn url(&self) -> (r: &str)
        ensures
            r@ == self@.url,
    {
        self.url.as_str()
    }

    /// The request headers, names in lower case.
    pub fn headers(&self) -> (r: &HeaderSet)
        ensures
            r@ == self@.headers,
            r.pairs() == self@.header_pairs,
    {
        &self.headers
    }

    /// The value of the header `name`, whatever the case of `name`.
    pub fn header(&self, name: &str) -> (r: Option<&String>)
        ensures
            match r {
                Some(value) => self@.headers.contains_key(lowered(name@)) && value@
                    == self@.headers[lowered(name@)],
                None => !self@.headers.contains_key(lowered(name@)),
            },
    {
        let key = lowercase(name);
        self.headers.get(key.as_str())
    }

    /// The request body.
    pub fn body(&self) -> (r: &Vec<u8>)
        ensures
            r@ == self@.body,
    {
        &self.body
    }
}

/// The header set of a response in the making, which a hook may add to.
#[derive(Debug)]
pub struct LocalResponse {
    headers: HeaderSet,
}

impl View for LocalResponse {
    type V = HeaderMapping;

    closed spec fn view(&self) -> HeaderMapping {
        self.headers@
    }
}

impl LocalResponse {
    /// A response in the making that has no header yet.
    pub fn new() -> (r: Self)
        ensures
            r@ == HeaderMapping::empty(),
    {
        LocalResponse { headers: HeaderSet::new() }
    }

    /// Sets `header` to `value`, replacing what was set under exactly that name.
    pub fn add_header(&mut self, header: &str, value: &str)
        ensures
            final(self)@ == old(self)@.insert(header@, value@),
    {
        self.headers.insert(header.to_owned(), value.to_owned());
    }

    /// The headers set so far.
    pub fn headers(&self) -> (r: &HeaderSet)
        ensures
            r@ == self@,
    {
        &self.headers
    }
}

/// A complete response: status code, headers and body.
#[derive(Debug)]
pub struct OutboundResponse {
    pub status: u16,
    pub headers: HeaderSet,
    pub body: Vec<u8>,
}

/// What the dev server answered: status code, headers and body.
#[derive(Debug)]
pub struct UpstreamResponse {
    pub status: u16,
    pub headers: HeaderSet,
    pub body: Vec<u8>,
}

} // verus!
