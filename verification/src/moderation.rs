//! Rules of the moderation endpoints that an embedding application offers
//! to signed-in users: who is an administrator, what may be blacklisted,
//! who may delete a record.

use crate::text::{pieces, same_text, split_on, strip_prefix, trim, trimmed, views};
use vstd::prelude::*;
use vstd::string::*;

verus! {

/// A request to blacklist content by its identifier.
#[derive(Debug)]
pub struct BlacklistCidRequest {
    pub cid: String,
    pub reason: String,
    pub reason_details: Option<String>,
    pub content_type: String,
}

#[derive(Debug)]
pub struct BlacklistCidResponse {
    pub success: bool,
}

/// A request to take content off the blacklist.
#[derive(Debug)]
pub struct RemoveBlacklistRequest {
    pub cid: String,
}

#[derive(Debug)]
pub struct RemoveBlacklistResponse {
    pub success: bool,
}

/// One entry of the blacklist.
#[derive(Debug)]
pub struct BlacklistedCidView {
    pub cid: String,
    pub reason: String,
    pub reason_details: Option<String>,
    pub content_type: String,
    pub moderator_did: String,
    pub blacklisted_at: String,
}

#[derive(Debug)]
pub struct ListBlacklistedResponse {
    pub blacklisted: Vec<BlacklistedCidView>,
}

#[derive(Debug)]
pub struct IsAdminResponse {
    pub is_admin: bool,
}

/// A request to delete an emoji record, named by its `at://` URI.
#[derive(Debug)]
pub struct DeleteEmojiRequest {
    pub uri: String,
}

#[derive(Debug)]
pub struct DeleteEmojiResponse {
    pub success: bool,
}

/// A request to delete a status record, named by its `at://` URI.
#[derive(Debug)]
pub struct DeleteStatusRequest {
    pub uri: String,
}

#[derive(Debug)]
pub struct DeleteStatusResponse {
    pub success: bool,
}

/// Whether a text is a reason for which content may be blacklisted.
pub open spec fn valid_reason(reason: Seq<char>) -> bool {
    reason == "nudity"@ || reason == "gore"@ || reason == "harassment"@ || reason == "spam"@
        || reason == "copyright"@ || reason == "other"@
}

/// Whether a text is a kind of content that can be blacklisted.
pub open spec fn valid_content_type(content_type: Seq<char>) -> bool {
    content_type == "emoji_blob"@ || content_type == "avatar"@ || content_type == "banner"@
}

/// Whether `did` is one of the administrators named in a comma-separated
/// list. White space around an entry does not count, nor do empty entries.
pub open spec fn listed_admin(list: Seq<char>, did: Seq<char>) -> bool {
    exists|i: int|
        0 <= i < pieces(list, ',').len() && trimmed(#[trigger] pieces(list, ',')[i]).len() > 0
            && trimmed(pieces(list, ',')[i]) == did
}

/// The text of a record URI after its `at://` prefix, or all of it if it
/// has no such prefix.
pub open spec fn address_of(uri: Seq<char>) -> Seq<char> {
    if "at://"@.is_prefix_of(uri) {
        uri.subrange("at://"@.len() as int, uri.len() as int)
    } else {
        uri
    }
}

/// The account and the record key that a record URI names: the first and
/// the third part of its address. `None` when it has fewer than three
/// parts.
pub open spec fn record_of(uri: Seq<char>) -> Option<(Seq<char>, Seq<char>)> {
    let parts = pieces(address_of(uri), '/');
    if parts.len() < 3 {
        None
    } else {
        Some((parts[0], parts[2]))
    }
}

/// What deciding on a deletion comes to: status 400 for a URI that names
/// no record, status 403 when the actor neither owns the record nor is an
/// administrator, and otherwise the record's address in the collection.
pub open spec fn deletion_of(
    uri: Seq<char>,
    collection: Seq<char>,
    actor: Seq<char>,
    is_admin: bool,
) -> Result<Seq<char>, u16> {
    match record_of(uri) {
        None => Err(400u16),
        Some((owner, key)) => if actor != owner && !is_admin {
            Err(403u16)
        } else {
            Ok(owner + "/"@ + collection + "/"@ + key)
        },
    }
}

/// The token in an `Authorization` header value of the scheme `Bearer` or
/// `DPoP`, each written with a capital or a small initial.
pub open spec fn any_token_of(header: Seq<char>) -> Option<Seq<char>> {
    match crate::auth::bearer_token_of(header) {
        Some(t) => Some(t),
        None => if "DPoP "@.is_prefix_of(header) {
            Some(header.subrange("DPoP "@.len() as int, header.len() as int))
        } else if "dpop "@.is_prefix_of(header) {
            Some(header.subrange("dpop "@.len() as int, header.len() as int))
        } else {
            None
        },
    }
}

/// Whether a text is a reason for which content may be blacklisted.
pub fn is_valid_reason(reason: &str) -> (valid: bool)
    ensures
        valid == valid_reason(reason@),
{
    same_text(reason, "nudity") || same_text(reason, "gore") || same_text(reason, "harassment")
        || same_text(reason, "spam") || same_text(reason, "copyright") || same_text(
        reason,
        "other",
    )
}

/// Whether a text is a kind of content that can be blacklisted.
pub fn is_valid_content_type(content_type: &str) -> (valid: bool)
    ensures
        valid == valid_content_type(content_type@),
{
    same_text(content_type, "emoji_blob") || same_text(content_type, "avatar") || same_text(
        content_type,
        "banner",
    )
}

/// Decides on a request to blacklist content: status 400 for an unknown
/// reason or kind of content, status 409 for content that is listed
/// already, success otherwise.
pub fn decide_blacklist(request: &BlacklistCidRequest, already_listed: bool) -> (result: Result<
    BlacklistCidResponse,
    u16,
>)
    ensures
        match result {
            Ok(response) => response.success && valid_reason(request.reason@)
                && valid_content_type(request.content_type@) && !already_listed,
            Err(status) => if !valid_reason(request.reason@) || !valid_content_type(
                request.content_type@,
            ) {
                status == 400
            } else {
                already_listed && status == 409
            },
        },
{
    if !is_valid_reason(request.reason.as_str()) {
        return Err(400);
    }
    if !is_valid_content_type(request.content_type.as_str()) {
        return Err(400);
    }
    if already_listed {
        return Err(409);
    }
    Ok(BlacklistCidResponse { success: true })
}

/// Whether `did` is one of the administrators named in a comma-separated
/// list.
pub fn is_initial_admin(admin_dids: &str, did: &str) -> (listed: bool)
    ensures
        listed == listed_admin(admin_dids@, did@),
{
    let entries = split_on(admin_dids, ',');
    let ghost all = pieces(admin_dids@, ',');
    let mut i: usize = 0;
    while i < entries.len()
        invariant
            0 <= i <= entries@.len(),
            views(entries@) == all,
            all == pieces(admin_dids@, ','),
            forall|k: int|
                0 <= k < i ==> !(trimmed(#[trigger] all[k]).len() > 0 && trimmed(all[k]) == did@),
        decreases entries@.len() - i,
    {
        let entry = trim(entries[i].as_str());
        proof {
            assert(all[i as int] == entries@[i as int]@);
        }
        if entry.unicode_len() > 0 && same_text(entry, did) {
            return true;
        }
        i += 1;
    }
    false
}

/// Reads the account and the record key out of a record URI.
pub fn record_owner_and_key(uri: &str) -> (record: Option<(String, String)>)
    ensures
        match record {
            Some((owner, key)) => record_of(uri@) == Some((owner@, key@)),
            None => record_of(uri@) is None,
        },
{
    let address = match strip_prefix(uri, "at://") {
        Some(rest) => rest,
        None => uri,
    };
    let parts = split_on(address, '/');
    if parts.len() < 3 {
        return None;
    }
    Some((parts[0].clone(), parts[2].clone()))
}

/// Decides on a request to delete a record of `collection` by `actor`.
pub fn decide_deletion(uri: &str, collection: &str, actor: &str, is_admin: bool) -> (result:
    Result<String, u16>)
    ensures
        match result {
            Ok(address) => deletion_of(uri@, collection@, actor@, is_admin) == Ok::<
                Seq<char>,
                u16,
            >(address@),
            Err(status) => deletion_of(uri@, collection@, actor@, is_admin) == Err::<
                Seq<char>,
                u16,
            >(status),
        },
{
    let (owner, key) = match record_owner_and_key(uri) {
        Some(r) => r,
        None => {
            return Err(400);
        },
    };
    if !same_text(actor, owner.as_str()) && !is_admin {
        return Err(403);
    }
    Ok(owner.concat("/").concat(collection).concat("/").concat(key.as_str()))
}

/// Extracts the token from an `Authorization` header value of the scheme
/// `Bearer` or `DPoP`.
pub fn extract_any_token(auth_header: &str) -> (token: Option<&str>)
    ensures
        match token {
            Some(t) => any_token_of(auth_header@) == Some(t@),
            None => any_token_of(auth_header@) is None,
        },
{
    match crate::auth::extract_bearer_token(auth_header) {
        Some(t) => Some(t),
        None => match strip_prefix(auth_header, "DPoP ") {
            Some(t) => Some(t),
            None => strip_prefix(auth_header, "dpop "),
        },
    }
}

} // verus!
