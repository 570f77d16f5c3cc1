//! The sign-in of an embedding application's own web client.

use vstd::prelude::*;
use vstd::string::*;

verus! {

/// Seconds for which a session cookie is kept: thirty days.
pub const SESSION_COOKIE_MAX_AGE_SECONDS: u32 = 2592000;

/// The query of the sign-in callback.
#[derive(Debug)]
pub struct CallbackQuery {
    pub code: String,
    pub state: Option<String>,
    pub iss: Option<String>,
}

/// The query of a sign-in request.
#[derive(Debug)]
pub struct LoginParams {
    pub handle: String,
}

/// The cookie that carries a session identifier: sent to every path, hidden
/// from scripts, lax about cross-site requests, kept for thirty days.
pub open spec fn session_cookie_of(session_id: Seq<char>) -> Seq<char> {
    "session_id="@ + session_id + "; Path=/; HttpOnly; SameSite=Lax; Max-Age=2592000"@
}

/// The name under which a session's key is filed.
pub open spec fn key_label_of(session_id: Seq<char>) -> Seq<char> {
    "dpop_key_"@ + session_id
}

/// Writes the cookie that carries a session identifier.
pub fn session_cookie(session_id: &str) -> (cookie: String)
    ensures
        cookie@ == session_cookie_of(session_id@),
{
    String::from_str("session_id=").concat(session_id).concat(
        "; Path=/; HttpOnly; SameSite=Lax; Max-Age=2592000",
    )
}

/// The name under which a session's key is filed.
pub fn key_label(session_id: &str) -> (label: String)
    ensures
        label@ == key_label_of(session_id@),
{
    String::from_str("dpop_key_").concat(session_id)
}

} // verus!
