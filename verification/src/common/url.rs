//! The parts of an absolute URL that this crate's rules speak of.

use url::{Host, Url};
use vstd::prelude::*;

use crate::address::Address;
use crate::text::{characters, fields, same_text, split, views};

verus! {

/// The host of a URL.
#[derive(Debug)]
pub enum UrlHost {
    Domain(String),
    Address(Address),
}

/// The parts of an absolute URL.
#[derive(Debug)]
pub struct UrlParts {
    pub scheme: String,
    pub host: Option<UrlHost>,
    pub username: String,
    pub has_password: bool,
    pub has_query: bool,
    pub has_fragment: bool,
    pub path: String,
}

/// What the host of a URL is.
pub enum HostModel {
    Domain(Seq<char>),
    V4(Seq<u8>),
    V6(Seq<u16>),
}

/// What the parts of a URL are.
pub struct UrlModel {
    pub scheme: Seq<char>,
    pub host: Option<HostModel>,
    pub username: Seq<char>,
    pub has_password: bool,
    pub has_query: bool,
    pub has_fragment: bool,
    pub path: Seq<char>,
}

impl View for UrlHost {
    type V = HostModel;

    open spec fn view(&self) -> HostModel {
        match self {
            UrlHost::Domain(name) => HostModel::Domain(name@),
            UrlHost::Address(Address::V4(octets)) => HostModel::V4(octets@),
            UrlHost::Address(Address::V6(groups)) => HostModel::V6(groups@),
        }
    }
}

impl View for UrlParts {
    type V = UrlModel;

    open spec fn view(&self) -> UrlModel {
        UrlModel {
            scheme: self.scheme@,
            host: match self.host {
                Some(host) => Some(host@),
                None => None,
            },
            username: self.username@,
            has_password: self.has_password,
            has_query: self.has_query,
            has_fragment: self.has_fragment,
            path: self.path@,
        }
    }
}

/// The parts that `url::Url::parse` finds in a text, or nothing where it
/// refuses the text.
pub uninterp spec fn url_parts(text: Seq<char>) -> Option<UrlModel>;

/// Calls `url::Url::parse` and takes the parts from the parsed URL by its
/// accessors. The contract names them and is silent on which texts are URLs.
#[verifier::external_body]
fn parse_url(text: &str) -> (result: Option<UrlParts>)
    ensures
        match result {
            Some(parts) => url_parts(text@) == Some(parts@),
            None => url_parts(text@) is None,
        },
{
    let parsed = Url::parse(text).ok()?;
    Some(UrlParts {
        scheme: parsed.scheme().to_owned(),
        host: parsed.host().map(|host| match host {
            Host::Domain(name) => UrlHost::Domain(name.to_owned()),
            Host::Ipv4(address) => UrlHost::Address(Address::V4(address.octets())),
            Host::Ipv6(address) => UrlHost::Address(Address::V6(address.segments())),
        }),
        username: parsed.username().to_owned(),
        has_password: parsed.password().is_some(),
        has_query: parsed.query().is_some(),
        has_fragment: parsed.fragment().is_some(),
        path: parsed.path().to_owned(),
    })
}

/// Whether a URL is HTTPS with a host and without credentials, a query or a
/// fragment.
pub open spec fn plain_https(parts: UrlModel) -> bool {
    &&& parts.scheme == "https"@
    &&& parts.host is Some
    &&& parts.username.len() == 0
    &&& !parts.has_password
    &&& !parts.has_query
    &&& !parts.has_fragment
}

/// The last of the segments that a path has after its leading slash.
pub open spec fn last_segment(path: Seq<char>) -> Option<Seq<char>> {
    if path.len() > 0 && path[0] == '/' {
        Some(split(path.skip(1), '/').last())
    } else {
        None
    }
}

impl UrlParts {
    /// Takes an absolute URL apart.
    pub fn parse(text: &str) -> (result: Option<UrlParts>)
        ensures
            match result {
                Some(parts) => url_parts(text@) == Some(parts@),
                None => url_parts(text@) is None,
            },
    {
        parse_url(text)
    }

    /// Whether the URL is HTTPS with a host and without credentials, a query or
    /// a fragment.
    pub fn is_plain_https(&self) -> (result: bool)
        ensures
            result == plain_https(self@),
    {
        same_text(&self.scheme, "https") && self.host.is_some() && self.username.as_str().is_empty()
            && !self.has_password && !self.has_query && !self.has_fragment
    }

    /// Whether the last segment of the path is `name`.
    pub fn ends_in(&self, name: &str) -> (result: bool)
        ensures
            result == (last_segment(self@.path) == Some(name@)),
    {
        let all = characters(&self.path);
        if all.len() == 0 || all[0] != '/' {
            return false;
        }
        let rest = crate::text::text_of(vstd::slice::slice_subrange(all.as_slice(), 1, all.len()));
        assert(rest@ == self.path@.skip(1));
        let segments = fields(&rest, '/');
        let last: usize = segments.len() - 1;
        assert(views(segments@)[last as int] == segments@[last as int]@);
        same_text(&segments[last], name)
    }
}

} // verus!
