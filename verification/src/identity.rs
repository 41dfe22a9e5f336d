//! The session token and the preview identifier: the opaque bearer
//! credential that tells the upstream preview host which uploaded artifact
//! a forwarded request belongs to.

use vstd::prelude::*;
use crate::config::ServerConfig;

verus! {

/// A lowercase hexadecimal digit.
pub open spec fn is_lower_hex(c: char) -> bool {
    (48 <= c as u32 && c as u32 <= 57) || (97 <= c as u32 && c as u32 <= 102)
}

/// Every character of `s` is a lowercase hexadecimal digit.
pub open spec fn all_lower_hex(s: Seq<char>) -> bool {
    forall|i: int| 0 <= i < s.len() ==> is_lower_hex(#[trigger] s[i])
}

/// Relies on `uuid::Uuid::new_v4` for a random 128-bit identifier and on
/// the `Display` of `Uuid::simple` to render it as exactly 32 lowercase
/// hexadecimal digits with no separators. The value is random, so nothing
/// is stated beyond the shape that holds of every outcome.
#[verifier::external_body]
fn random_simple_uuid() -> (r: String)
    ensures
        r@.len() == 32,
        all_lower_hex(r@),
{
    uuid::Uuid::new_v4().simple().to_string()
}

/// Draws the per-run session token: a fresh random 128-bit value rendered
/// as 32 lowercase hexadecimal digits. Generated once per proxy run and
/// used both inside the preview identifier and as the correlation key for
/// the external live-log listener.
pub fn new_session_token() -> (t: String)
    ensures
        t@.len() == 32,
        all_lower_hex(t@),
{
    random_simple_uuid()
}

/// The preview identifier as a function of its four parts: their
/// concatenation in this fixed order, with no separators, the HTTPS flag
/// rendered as `1` or `0`.
pub open spec fn preview_identifier(
    script_id: Seq<char>,
    session_token: Seq<char>,
    is_https: bool,
    host: Seq<char>,
) -> Seq<char> {
    script_id + session_token + (if is_https {
        "1"@
    } else {
        "0"@
    }) + host
}

/// Builds the preview identifier for one uploaded artifact: the script
/// identifier handed back by the upload collaborator, then the session
/// token, then `1` or `0` for the local host's HTTPS flag, then the local
/// host name, concatenated with no separators. The upstream treats the
/// result as an opaque bearer credential; it is never parsed back.
pub fn build_preview_identifier(
    script_id: &str,
    session_token: &str,
    config: &ServerConfig,
) -> (r: String)
    ensures
        r@ == preview_identifier(script_id@, session_token@, config.is_https, config.host@),
{
    let mut s = script_id.to_owned();
    s.append(session_token);
    if config.is_https {
        s.append("1");
    } else {
        s.append("0");
    }
    s.append(config.host.as_str());
    s
}

} // verus!
