//! Authorization resolution.
//!
//! A credential is resolved once, at client construction, into the exact
//! header value sent with every delivery: `Bearer <token>` for a secret
//! token, `ApiKey <base64(id:key)>` for an API-key pair.

use base64::Engine;
use vstd::prelude::*;
use vstd::string::StringExecFns;

use crate::config::Authorization;

verus! {

/// The standard base64 encoding of the UTF-8 bytes of `s`: a function of the
/// input alone, named here and left to the outside encoder.
pub uninterp spec fn base64_of(s: Seq<char>) -> Seq<char>;

/// Relies on base64's STANDARD engine (standard alphabet, padded): the
/// encoding depends on the input bytes alone, and an empty input encodes to
/// an empty string.
#[verifier::external_body]
fn base64_encode(s: &str) -> (r: String)
    ensures
        r@ == base64_of(s@),
        s@.len() == 0 ==> r@.len() == 0,
{
    base64::engine::general_purpose::STANDARD.encode(s.as_bytes())
}

/// The payload an API key is encoded from: `<id>:<key>`.
pub open spec fn api_key_payload(id: Seq<char>, key: Seq<char>) -> Seq<char> {
    id + ":"@ + key
}

/// The header value a credential resolves to.
pub open spec fn resolved_header(a: Authorization) -> Seq<char> {
    match a {
        Authorization::SecretToken(token) => "Bearer "@ + token@,
        Authorization::ApiKey(k) => "ApiKey "@ + base64_of(api_key_payload(k.id@, k.key@)),
    }
}

/// Turns a credential into the ready-to-send Authorization header value.
/// Pure string work plus the base64 encoding; it cannot fail.
pub fn resolve_authorization(authorization: &Authorization) -> (r: String)
    ensures
        r@ == resolved_header(*authorization),
{
    match authorization {
        Authorization::SecretToken(token) => {
            let mut out = String::from_str("Bearer ");
            out.append(token.as_str());
            out
        },
        Authorization::ApiKey(k) => {
            let mut payload = k.id.clone();
            payload.append(":");
            payload.append(k.key.as_str());
            proof {
                assert(payload@ =~= api_key_payload(k.id@, k.key@));
            }
            let encoded = base64_encode(payload.as_str());
            let mut out = String::from_str("ApiKey ");
            out.append(encoded.as_str());
            out
        },
    }
}

/// Resolves an optional credential: a client built without one attaches no
/// Authorization header.
pub fn resolve_optional_authorization(authorization: &Option<Authorization>) -> (r: Option<String>)
    ensures
        match *authorization {
            Some(a) => r matches Some(h) && h@ == resolved_header(a),
            None => r is None,
        },
{
    match authorization {
        Some(a) => Some(resolve_authorization(a)),
        None => None,
    }
}

} // verus!
