//! Admin updater feed verification.
//!
//! The updater plugin verifies its own signature, which is not a CentralD release
//! signature. The feed carries a Minisign signature too, which is verified with
//! the baked Minisign public key, and a channel other than this build's is refused
//! before the plugin is allowed to check or to install anything.

use vstd::prelude::*;

use crate::client::updates::{is_identity, signature_url};
use crate::codec::{debug_form, debug_text, json_member_text, json_text_member};
use crate::common::build_info::RELEASE_CHANNEL;
use crate::crypto::{minisign_verdict, verify_minisign};
use crate::text::{concat, lower_case, optional_view, same_text, tell, told};

verus! {

pub const MAX_TAURI_MANIFEST_BYTES: usize = 262_144;

pub const MAX_SIGNATURE_BYTES: usize = 4096;

/// What is wrong with the headers of the feed's response, if anything.
pub open spec fn feed_headers_fault(
    encoding: Option<Seq<char>>,
    content_length: Option<u64>,
    max_bytes: usize,
) -> Option<Seq<char>> {
    if !is_identity(encoding) {
        Some("updater feed must not use content encoding"@)
    } else if content_length is Some && content_length->0 > max_bytes {
        Some("updater feed exceeds the size limit"@)
    } else {
        None
    }
}

/// Checks the headers of the feed's response.
pub fn check_feed_headers(
    encoding: &Option<String>,
    content_length: Option<u64>,
    max_bytes: usize,
) -> (result: Result<(), String>)
    ensures
        told(
            result,
            feed_headers_fault(optional_view(*encoding), content_length, max_bytes),
        ),
{
    match encoding {
        Some(text) => {
            if !same_text(&lower_case(text), "identity") {
                return tell("updater feed must not use content encoding");
            }
        },
        None => {},
    }
    match content_length {
        Some(length) => {
            if length > max_bytes as u64 {
                return tell("updater feed exceeds the size limit");
            }
        },
        None => {},
    }
    Ok(())
}

/// The body of the feed's response, while it is read.
#[derive(Debug)]
pub struct FeedBody {
    bytes: Vec<u8>,
    max_bytes: usize,
}

impl FeedBody {
    pub closed spec fn bytes_spec(self) -> Seq<u8> {
        self.bytes@
    }

    pub closed spec fn max_spec(self) -> usize {
        self.max_bytes
    }

    pub fn new(max_bytes: usize) -> (result: FeedBody)
        ensures
            result.bytes_spec() == Seq::<u8>::empty(),
            result.max_spec() == max_bytes,
    {
        FeedBody { bytes: Vec::new(), max_bytes }
    }

    /// Takes another chunk, unless the body gets too long.
    pub fn accept(&mut self, chunk: &Vec<u8>) -> (result: Result<(), String>)
        ensures
            final(self).max_spec() == old(self).max_spec(),
            final(self).bytes_spec() == old(self).bytes_spec() + chunk@,
            told(
                result,
                if old(self).bytes_spec().len() + chunk@.len() > old(self).max_spec() {
                    Some("updater feed exceeds the size limit"@)
                } else {
                    None
                },
            ),
    {
        let mut copy = chunk.clone();
        self.bytes.append(&mut copy);
        if self.bytes.len() > self.max_bytes {
            return tell("updater feed exceeds the size limit");
        }
        Ok(())
    }

    /// The whole body.
    pub fn finish(self) -> (result: Vec<u8>)
        ensures
            result@ == self.bytes_spec(),
    {
        self.bytes
    }
}

/// The URLs of the feed and of its signature.
pub fn feed_urls(manifest_url: &str) -> (result: Result<(String, String), String>)
    ensures
        told(
            result,
            if manifest_url@.len() == 0 {
                Some("this Admin build has no updater manifest URL"@)
            } else {
                None
            },
        ),
        result is Ok ==> result->Ok_0.0@ == manifest_url@ && result->Ok_0.1@ == manifest_url@
            + ".minisig"@,
{
    if manifest_url.is_empty() {
        return tell("this Admin build has no updater manifest URL");
    }
    Ok((manifest_url.to_owned(), signature_url(manifest_url)))
}

/// What is wrong with the channel in a feed, if anything; a feed without one has
/// the empty channel.
pub open spec fn feed_channel_fault(channel: Option<Option<Seq<char>>>) -> Option<Seq<char>> {
    match channel {
        None => Some("decode the Admin updater JSON"@),
        Some(named) => {
            let name = match named {
                Some(text) => text,
                None => ""@,
            };
            if name != RELEASE_CHANNEL@ {
                Some(
                    "Admin updater channel "@ + debug_form(name) + " does not match this build's "@
                        + RELEASE_CHANNEL@ + " channel"@,
                )
            } else {
                None
            }
        },
    }
}

/// Checks the channel in a feed: what its document reads as, and what text its
/// channel is.
pub fn check_feed_channel(channel: Option<Option<String>>) -> (result: Result<(), String>)
    ensures
        told(
            result,
            feed_channel_fault(
                match channel {
                    Some(named) => Some(optional_view(named)),
                    None => None,
                },
            ),
        ),
{
    let name = match channel {
        None => return tell("decode the Admin updater JSON"),
        Some(Some(text)) => text,
        Some(None) => "".to_owned(),
    };
    if !same_text(&name, RELEASE_CHANNEL) {
        let mut message = concat("Admin updater channel ", &debug_text(&name));
        message.append(" does not match this build's ");
        message.append(RELEASE_CHANNEL);
        message.append(" channel");
        return tell(&message);
    }
    Ok(())
}

/// What is wrong with the Minisign signature of a feed, if anything.
pub open spec fn feed_signature_fault(key: Seq<char>, data: Seq<u8>, signature: Seq<u8>) -> Option<
    Seq<char>,
> {
    match minisign_verdict(key, data, signature) {
        Ok(_) => None,
        Err(error) => Some(error.message_spec("Admin"@)),
    }
}

/// Why a feed is not followed, if it is not.
pub open spec fn feed_fault(key: Seq<char>, manifest: Seq<u8>, signature: Seq<u8>) -> Option<
    Seq<char>,
> {
    match feed_signature_fault(key, manifest, signature) {
        Some(text) => Some(text),
        None => feed_channel_fault(json_text_member(manifest, "channel"@)),
    }
}

/// Verifies the Admin updater feed with a Minisign public key, then checks that
/// the signed channel matches this build.
pub fn verify_admin_update_feed(key: &str, manifest: &Vec<u8>, signature: Vec<u8>) -> (result: Result<
    (),
    String,
>)
    ensures
        told(
            result,
            feed_fault(key@, manifest@, signature@),
        ),
{
    match verify_minisign(key, manifest, signature) {
        Ok(()) => {},
        Err(error) => return Err(error.message("Admin")),
    }
    check_feed_channel(json_member_text(manifest, "channel"))
}

/// A feed is followed exactly if its bytes carry a signature that the key accepts and name the
/// channel that this build follows.
pub proof fn signed_feeds_are_followed(key: Seq<char>, manifest: Seq<u8>, signature: Seq<u8>)
    ensures
        feed_fault(key, manifest, signature) is None <==> {
            &&& minisign_verdict(key, manifest, signature) is Ok
            &&& json_text_member(manifest, "channel"@) == Some(Some("alpha"@))
        },
{
    reveal_strlit("");
    reveal_strlit("alpha");
    assert(""@.len() == 0 && "alpha"@.len() == 5);
}

/// A feed's head is accepted exactly if it declares no more than the limit and the body comes as
/// it is.
pub proof fn plain_bounded_feeds_are_read(
    encoding: Option<Seq<char>>,
    content_length: Option<u64>,
    max_bytes: usize,
)
    ensures
        feed_headers_fault(encoding, content_length, max_bytes) is None <==> {
            &&& is_identity(encoding)
            &&& content_length is None || content_length->0 <= max_bytes
        },
{
}

} // verus!
