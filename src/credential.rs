use vstd::prelude::*;

use crate::error::ClientError;
use crate::json::{get_member, json_of, member, parse_json, Json};

verus! {

/// The session credential in an auth answer: a non-empty string at
/// `data.bulletToken`.
pub open spec fn token_of(doc: Option<Json>) -> Option<Seq<char>> {
    match doc {
        Some(d) => match member(d, "data"@) {
            Some(data) => match member(data, "bulletToken"@) {
                Some(Json::Text(t)) => if t@.len() > 0 { Some(t@) } else { None },
                _ => None,
            },
            None => None,
        },
        None => None,
    }
}

/// What `acquire()` yields for an answer with `status` and `body`.
pub open spec fn acquire_outcome(status: u16, body: Seq<char>) -> Result<Seq<char>, ClientError> {
    if status != 200 {
        Err(ClientError::AuthTransportFailed(status))
    } else {
        match token_of(json_of(body)) {
            Some(t) => Ok(t),
            None => Err(ClientError::AuthPayloadInvalid),
        }
    }
}

/// Takes the credential out of a parsed auth answer.
pub fn token_from_document(doc: &Option<Json>) -> (r: Result<String, ClientError>)
    ensures
        match r {
            Ok(t) => token_of(*doc) == Some(t@),
            Err(e) => token_of(*doc) is None && e == ClientError::AuthPayloadInvalid,
        },
{
    if let Some(d) = doc {
        if let Some(data) = get_member(d, "data") {
            if let Some(Json::Text(t)) = get_member(data, "bulletToken") {
                if t.as_str().unicode_len() > 0 {
                    return Ok(t.clone());
                }
            }
        }
    }
    Err(ClientError::AuthPayloadInvalid)
}

/// Reads the credential from the body of an auth answer.
pub fn parse_bullet_token(body: &str) -> (r: Result<String, ClientError>)
    ensures
        match r {
            Ok(t) => token_of(json_of(body@)) == Some(t@),
            Err(e) => token_of(json_of(body@)) is None && e == ClientError::AuthPayloadInvalid,
        },
{
    let doc = parse_json(body);
    token_from_document(&doc)
}

/// Decides the result of a credential request from the HTTP status and body
/// of its answer.
pub fn acquire_result(status: u16, body: &str) -> (r: Result<String, ClientError>)
    ensures
        match (r, acquire_outcome(status, body@)) {
            (Ok(t), Ok(s)) => t@ == s,
            (Err(e), Err(f)) => e == f,
            _ => false,
        },
        r matches Ok(t) ==> t@.len() > 0,
{
    if status != 200 {
        return Err(ClientError::AuthTransportFailed(status));
    }
    parse_bullet_token(body)
}

} // verus!
