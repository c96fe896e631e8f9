//! Where an HTTPS download may be redirected to.

use vstd::prelude::*;

use crate::address::Address;
use crate::text::same_text;

use super::url::{HostModel, UrlHost, UrlModel, UrlParts};

verus! {

/// An IPv4 address that no public host has: loopback, private use, link-local,
/// unspecified, broadcast, or documentation.
pub open spec fn non_public_v4(octets: Seq<u8>) -> bool {
    ||| octets[0] == 127
    ||| octets[0] == 10
    ||| octets[0] == 172 && 16 <= octets[1] <= 31
    ||| octets[0] == 192 && octets[1] == 168
    ||| octets[0] == 169 && octets[1] == 254
    ||| octets == seq![0u8, 0, 0, 0]
    ||| octets == seq![255u8, 255, 255, 255]
    ||| octets[0] == 192 && octets[1] == 0 && octets[2] == 2
    ||| octets[0] == 198 && octets[1] == 51 && octets[2] == 100
    ||| octets[0] == 203 && octets[1] == 0 && octets[2] == 113
}

/// An IPv6 address that no public host has: loopback, unique-local, link-local,
/// or unspecified.
pub open spec fn non_public_v6(groups: Seq<u16>) -> bool {
    ||| groups == seq![0u16, 0, 0, 0, 0, 0, 0, 1]
    ||| 0xfc00 <= groups[0] <= 0xfdff
    ||| 0xfe80 <= groups[0] <= 0xfebf
    ||| groups == seq![0u16, 0, 0, 0, 0, 0, 0, 0]
}

/// Whether an address is one that no public host has.
pub open spec fn non_public(address: Address) -> bool {
    match address {
        Address::V4(octets) => non_public_v4(octets@),
        Address::V6(groups) => non_public_v6(groups@),
    }
}

fn is_non_public_v4(octets: &[u8; 4]) -> (result: bool)
    ensures
        result == non_public_v4(octets@),
{
    let (a, b, c, d) = (octets[0], octets[1], octets[2], octets[3]);
    assert((octets@ == seq![0u8, 0, 0, 0]) == (a == 0 && b == 0 && c == 0 && d == 0)) by {
        if a == 0 && b == 0 && c == 0 && d == 0 {
            assert(octets@ =~= seq![0u8, 0, 0, 0]);
        }
    }
    assert((octets@ == seq![255u8, 255, 255, 255]) == (a == 255 && b == 255 && c == 255 && d
        == 255)) by {
        if a == 255 && b == 255 && c == 255 && d == 255 {
            assert(octets@ =~= seq![255u8, 255, 255, 255]);
        }
    }
    a == 127 || a == 10 || (a == 172 && 16 <= b && b <= 31) || (a == 192 && b == 168) || (a == 169
        && b == 254) || (a == 0 && b == 0 && c == 0 && d == 0) || (a == 255 && b == 255 && c == 255
        && d == 255) || (a == 192 && b == 0 && c == 2) || (a == 198 && b == 51 && c == 100) || (a
        == 203 && b == 0 && c == 113)
}

fn is_non_public_v6(groups: &[u16; 8]) -> (result: bool)
    ensures
        result == non_public_v6(groups@),
{
    let zeros = groups[0] == 0 && groups[1] == 0 && groups[2] == 0 && groups[3] == 0 && groups[4]
        == 0 && groups[5] == 0 && groups[6] == 0;
    assert((groups@ == seq![0u16, 0, 0, 0, 0, 0, 0, 0]) == (zeros && groups@[7] == 0)) by {
        if zeros && groups@[7] == 0 {
            assert(groups@ =~= seq![0u16, 0, 0, 0, 0, 0, 0, 0]);
        }
    }
    assert((groups@ == seq![0u16, 0, 0, 0, 0, 0, 0, 1]) == (zeros && groups@[7] == 1)) by {
        if zeros && groups@[7] == 1 {
            assert(groups@ =~= seq![0u16, 0, 0, 0, 0, 0, 0, 1]);
        }
    }
    (zeros && (groups[7] == 0 || groups[7] == 1)) || (0xfc00 <= groups[0] && groups[0] <= 0xfdff)
        || (0xfe80 <= groups[0] && groups[0] <= 0xfebf)
}

/// Whether an address is one that no public host has.
pub fn is_non_public(address: &Address) -> (result: bool)
    ensures
        result == non_public(*address),
{
    match address {
        Address::V4(octets) => is_non_public_v4(octets),
        Address::V6(groups) => is_non_public_v6(groups),
    }
}

/// Whether a URL leads to a host that is not public. A domain is judged by the
/// first address that it resolves to, if it resolves.
pub open spec fn leads_inside(host: Option<HostModel>, resolved: Option<Address>) -> bool {
    match host {
        None => true,
        Some(HostModel::V4(octets)) => non_public_v4(octets),
        Some(HostModel::V6(groups)) => non_public_v6(groups),
        Some(HostModel::Domain(_)) => resolved is Some && non_public(resolved->0),
    }
}

#[derive(Debug, Clone, Copy, PartialEq, Eq, Structural)]
pub enum RedirectError {
    NotHttps,
    NotPublic,
}

impl RedirectError {
    pub open spec fn message_spec(self) -> Seq<char> {
        match self {
            RedirectError::NotHttps => "refusing non-HTTPS redirect"@,
            RedirectError::NotPublic => "refusing redirect to a private or local address"@,
        }
    }

    pub fn message(&self) -> (result: &'static str)
        ensures
            result@ == self.message_spec(),
    {
        match self {
            RedirectError::NotHttps => "refusing non-HTTPS redirect",
            RedirectError::NotPublic => "refusing redirect to a private or local address",
        }
    }
}

/// What is said of a redirect.
pub open spec fn redirect_verdict(next: UrlModel, resolved: Option<Address>) -> Result<
    (),
    RedirectError,
> {
    if next.scheme != "https"@ {
        Err(RedirectError::NotHttps)
    } else if leads_inside(next.host, resolved) {
        Err(RedirectError::NotPublic)
    } else {
        Ok(())
    }
}

/// Refuses a redirect when `next` is not HTTPS or names a non-public IP
/// literal. `resolved` is the first address of its domain.
///
/// Cross-origin HTTPS redirects to public hostnames stay allowed (GitHub
/// Releases uses them). Literal loopback, link-local, and RFC1918/ULA addresses
/// are refused so an open-redirecting feed cannot reach internal HTTPS.
pub fn https_redirect_is_allowed(next: &UrlParts, resolved: Option<Address>) -> (result: Result<
    (),
    RedirectError,
>)
    ensures
        result == redirect_verdict(next@, resolved),
{
    if !same_text(&next.scheme, "https") {
        return Err(RedirectError::NotHttps);
    }
    if host_is_non_public_literal(next, resolved) {
        return Err(RedirectError::NotPublic);
    }
    Ok(())
}

/// Whether a URL leads to a host that is not public.
pub fn host_is_non_public_literal(url: &UrlParts, resolved: Option<Address>) -> (result: bool)
    ensures
        result == leads_inside(url@.host, resolved),
{
    match &url.host {
        None => true,
        Some(UrlHost::Address(address)) => is_non_public(address),
        Some(UrlHost::Domain(_)) => match &resolved {
            Some(address) => is_non_public(address),
            None => false,
        },
    }
}

/// The most redirects that a download follows.
pub const MAX_REDIRECTS: usize = 3;

/// Whether a redirect is followed after this many others.
pub open spec fn is_followed(previous: int, scheme: Seq<char>) -> bool {
    previous < MAX_REDIRECTS && scheme == "https"@
}

/// Whether an updater's download follows a redirect: only over HTTPS, and only
/// so many times.
pub fn follows_redirect(previous: usize, scheme: &str) -> (result: bool)
    ensures
        result == is_followed(previous as int, scheme@),
{
    previous < MAX_REDIRECTS && same_text(scheme, "https")
}

/// A download follows a redirect exactly to an HTTPS address on a host that does not lead inside.
pub proof fn redirects_lead_outside(next: UrlModel, resolved: Option<Address>)
    ensures
        redirect_verdict(next, resolved) is Ok <==> next.scheme == "https"@ && !leads_inside(
            next.host,
            resolved,
        ),
        redirect_verdict(next, resolved) == Err::<(), RedirectError>(RedirectError::NotHttps)
            <==> next.scheme != "https"@,
        next.host is None ==> redirect_verdict(next, resolved) is Err,
{
}

/// The loopback, private, link-local and unspecified networks of version 4 lead inside, from their
/// first address to their last, and the addresses around them do not.
pub proof fn private_networks_lead_inside(a: u8, b: u8, c: u8, d: u8)
    ensures
        ({
            let address = seq![a, b, c, d];
            &&& a == 10 || a == 127 ==> non_public_v4(address)
            &&& a == 172 ==> (non_public_v4(address) <==> 16 <= b && b < 32)
            &&& a == 192 && b == 168 ==> non_public_v4(address)
            &&& a == 169 ==> (non_public_v4(address) <==> b == 254)
            &&& a == 192 && b != 168 ==> (non_public_v4(address) <==> b == 0 && c == 2)
            &&& a == 198 ==> (non_public_v4(address) <==> b == 51 && c == 100)
            &&& a == 203 ==> (non_public_v4(address) <==> b == 0 && c == 113)
            &&& a == 0 ==> (non_public_v4(address) <==> b == 0 && c == 0 && d == 0)
            &&& a == 255 ==> (non_public_v4(address) <==> b == 255 && c == 255 && d == 255)
            &&& non_public_v4(address) ==> a == 0 || a == 10 || a == 127 || a == 169 || a == 172
                || a == 192 || a == 198 || a == 203 || a == 255
        }),
{
    let address = seq![a, b, c, d];
    assert(address[0] == a && address[1] == b && address[2] == c && address[3] == d);
    assert(a == 0 && b == 0 && c == 0 && d == 0 ==> address =~= seq![0u8, 0, 0, 0]);
    assert(a == 255 && b == 255 && c == 255 && d == 255 ==> address =~= seq![255u8, 255, 255, 255]);
    let low = seq![0u8, 0, 0, 0];
    let high = seq![255u8, 255, 255, 255];
    assert(low[0] == 0 && low[1] == 0 && low[2] == 0 && low[3] == 0);
    assert(high[0] == 255 && high[1] == 255 && high[2] == 255 && high[3] == 255);
}

/// Of version 6, the loopback and unspecified addresses and the unique local and link-local
/// networks lead inside, and no other address does.
pub proof fn local_networks_lead_inside(groups: Seq<u16>)
    requires
        groups.len() == 8,
    ensures
        non_public_v6(groups) <==> {
            ||| groups[0] / 0x200 == 0x7e
            ||| groups[0] / 0x40 == 0x3fa
            ||| {
                &&& forall|i: int| 0 <= i < 7 ==> (#[trigger] groups[i]) == 0
                &&& groups[7] <= 1
            }
        },
{
    let one = seq![0u16, 0, 0, 0, 0, 0, 0, 1];
    let none = seq![0u16, 0, 0, 0, 0, 0, 0, 0];
    assert(one.len() == 8 && none.len() == 8);
    assert(forall|i: int| 0 <= i < 7 ==> #[trigger] one[i] == 0 && none[i] == 0);
    assert(one[7] == 1 && none[7] == 0);
    if forall|i: int| 0 <= i < 7 ==> (#[trigger] groups[i]) == 0 {
        if groups[7] == 1 {
            assert(groups =~= one);
        }
        if groups[7] == 0 {
            assert(groups =~= none);
        }
    }
}

/// A host that is an address leads inside as that address does, and one that is a name leads inside
/// as what it resolves to does.
pub proof fn hosts_lead_where_they_resolve(host: HostModel, resolved: Option<Address>)
    ensures
        host matches HostModel::V4(octets) ==> (leads_inside(Some(host), resolved)
            <==> non_public_v4(octets)),
        host matches HostModel::V6(groups) ==> (leads_inside(Some(host), resolved)
            <==> non_public_v6(groups)),
        host is Domain ==> (leads_inside(Some(host), resolved) <==> resolved is Some && non_public(
            resolved->0,
        )),
{
}

/// Three redirects are followed and no more, and none that leaves HTTPS.
pub proof fn three_redirects_are_followed(previous: int, scheme: Seq<char>)
    ensures
        is_followed(previous, scheme) <==> previous <= 2 && scheme == "https"@,
{
}

} // verus!
