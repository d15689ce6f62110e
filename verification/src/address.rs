//! Peer addresses: URLs held by their serialization.
//!
//! What a text means as a URL is left to the `url` library: whether it
//! parses, what its serialization is, whether it can be a base, and what
//! it becomes when a path segment is appended.

use vstd::prelude::*;
use vstd::std_specs::cmp::PartialEqSpecImpl;
use vstd::string::StringSliceAdditionalSpecFns;

verus! {

/// The longest text, in bytes, that is handed to the URL library when a
/// path segment is appended.
pub const MAX_URL_BYTES: usize = 0x0100_0000;

/// What parsing a text as an absolute URL gives: the serialization of the
/// URL, or `None` when the text is no URL.
pub uninterp spec fn url_parse(input: Seq<char>) -> Option<Seq<char>>;

/// Whether the URL that a text parses to cannot be a base, or `None` when
/// the text is no URL.
pub uninterp spec fn url_cannot_be_a_base(input: Seq<char>) -> Option<bool>;

/// What appending one path segment to the URL that a text parses to
/// gives: the new serialization, or `None` when the text is no URL or the
/// URL cannot be a base.
pub uninterp spec fn url_push(base: Seq<char>, segment: Seq<char>) -> Option<Seq<char>>;

/// The content of an optional text.
pub open spec fn text_of(text: Option<String>) -> Option<Seq<char>> {
    match text {
        Some(text) => Some(text@),
        None => None,
    }
}

/// Calls `url::Url::parse`, and `String::from` on the URL.
///
/// Trusted: the result is a function of the input text alone.
#[verifier::external_body]
fn parse_url(input: &str) -> (parsed: Option<String>)
    ensures
        text_of(parsed) == url_parse(input@),
{
    let url = url::Url::parse(input).ok()?;
    Some(String::from(url))
}

/// Calls `url::Url::cannot_be_a_base` on the URL that `url::Url::parse`
/// makes of the text.
///
/// Trusted: the result is a function of the input text alone.
#[verifier::external_body]
fn parsed_cannot_be_a_base(input: &str) -> (opaque: Option<bool>)
    ensures
        opaque == url_cannot_be_a_base(input@),
{
    let url = url::Url::parse(input).ok()?;
    Some(url.cannot_be_a_base())
}

/// Calls `url::Url::path_segments_mut` and `PathSegmentsMut::push` on the
/// URL that `url::Url::parse` makes of the text, and `String::from` on the
/// URL.
///
/// Trusted: the result is a function of the two texts alone. The URL
/// library keeps positions in 32 bits and panics beyond them; the bound on
/// the lengths keeps the serialization far below that.
#[verifier::external_body]
fn push_url_segment(base: &str, segment: &str) -> (pushed: Option<String>)
    requires
        base.spec_bytes().len() <= MAX_URL_BYTES,
        segment.spec_bytes().len() <= MAX_URL_BYTES,
    ensures
        text_of(pushed) == url_push(base@, segment@),
{
    let mut url = url::Url::parse(base).ok()?;
    url.path_segments_mut().ok()?.push(segment);
    Some(String::from(url))
}

/// Whether no path can be appended to the URL with the serialization
/// `text`: the URL cannot be a base, or the text is no URL at all.
pub open spec fn is_opaque(text: Seq<char>) -> bool {
    url_cannot_be_a_base(text) != Some(false)
}

/// What `Address::join` gives for a URL with the serialization `base`:
/// nothing where the URL cannot be a base or a text is too long for the
/// URL library, else what the library makes of them.
pub open spec fn joined(base: Seq<char>, segment: Seq<char>) -> Option<Seq<char>> {
    if is_opaque(base) || vstd::utf8::encode_utf8(base).len() > MAX_URL_BYTES
        || vstd::utf8::encode_utf8(segment).len() > MAX_URL_BYTES {
        None
    } else {
        url_push(base, segment)
    }
}

/// The address of a peer: a URL, known by its serialization.
#[derive(Debug)]
pub struct Address {
    text: String,
}

impl View for Address {
    type V = Seq<char>;

    /// The serialization of the URL. Two addresses are the same peer
    /// exactly when their serializations are equal.
    closed spec fn view(&self) -> Seq<char> {
        self.text@
    }
}

impl Address {
    /// Whether no path can be appended to the URL.
    pub open spec fn opaque(&self) -> bool {
        is_opaque(self@)
    }

    /// Parses a text as an absolute URL.
    pub fn parse(input: &str) -> (parsed: Option<Address>)
        ensures
            parsed is Some <==> url_parse(input@) is Some,
            parsed is Some ==> url_parse(input@) == Some(parsed->0@),
    {
        match parse_url(input) {
            Some(text) => Some(Address { text }),
            None => None,
        }
    }

    /// The address that a node has when none is configured:
    /// `http://127.0.0.1:9226/`.
    pub fn loopback() -> (address: Address)
        ensures
            address@ == "http://127.0.0.1:9226/"@,
    {
        Address { text: "http://127.0.0.1:9226/".to_owned() }
    }

    /// The serialization of the URL.
    pub fn as_str(&self) -> (text: &str)
        ensures
            text@ == self@,
    {
        self.text.as_str()
    }

    /// Tells whether the URL cannot be a base: its scheme is not followed
    /// by a slash, so that no path can be appended to it.
    pub fn cannot_be_a_base(&self) -> (opaque: bool)
        ensures
            opaque == self.opaque(),
    {
        match parsed_cannot_be_a_base(self.text.as_str()) {
            Some(opaque) => opaque,
            None => true,
        }
    }

    /// Appends one segment to the path of the URL.
    pub fn join(&self, segment: &str) -> (longer: Option<Address>)
        ensures
            longer is Some <==> joined(self@, segment@) is Some,
            longer is Some ==> joined(self@, segment@) == Some(longer->0@),
    {
        if self.text.as_str().as_bytes().len() > MAX_URL_BYTES || segment.as_bytes().len()
            > MAX_URL_BYTES || self.cannot_be_a_base() {
            return None;
        }
        match push_url_segment(self.text.as_str(), segment) {
            Some(text) => Some(Address { text }),
            None => None,
        }
    }

    /// Tells whether two addresses are the same peer.
    pub fn same(&self, other: &Address) -> (equal: bool)
        ensures
            equal == (self@ == other@),
    {
        self.text == other.text
    }
}

impl Clone for Address {
    fn clone(&self) -> (copy: Address)
        ensures
            copy == *self,
    {
        Address { text: self.text.clone() }
    }
}

impl PartialEq for Address {
    fn eq(&self, other: &Address) -> (equal: bool) {
        self.text == other.text
    }
}

impl PartialEqSpecImpl for Address {
    open spec fn obeys_eq_spec() -> bool {
        true
    }

    open spec fn eq_spec(&self, other: &Address) -> bool {
        self@ == other@
    }
}

} // verus!
