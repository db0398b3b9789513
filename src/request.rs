//! The admission request as the decision reads it, and the owner-reference
//! inspector.
use crate::json::Json;
use vstd::prelude::*;

verus! {

/// The fields of an incoming admission review that the decision reads.
#[derive(Debug)]
pub struct AdmissionRequest {
    /// Correlation token, echoed in the verdict; never empty.
    pub uid: String,
    /// API version of the envelope, echoed in the verdict.
    pub api_version: String,
    /// The object being admitted, if the request carries one.
    pub object: Option<Json>,
}

/// Why an envelope is no well-formed admission review.
#[derive(Clone, Copy, Debug, PartialEq, Eq, Structural)]
pub enum MalformedRequestError {
    /// The envelope has no `request` object.
    MissingRequest,
    /// The request has no `uid`, or it is not a non-empty string.
    MissingUid,
    /// The envelope's `apiVersion` is there but not a string.
    InvalidApiVersion,
}

/// The API version assumed when an envelope names none.
pub open spec fn default_api_version() -> Seq<char> {
    seq!['v', '1']
}

/// The `request` member of an envelope.
pub open spec fn request_of(doc: Json) -> Option<Json> {
    doc.field("request"@)
}

/// Whether `v` is a non-empty string.
pub open spec fn is_nonempty_str(v: Option<Json>) -> bool {
    match v {
        Some(Json::Str(s)) => s@.len() > 0,
        _ => false,
    }
}

/// What is wrong with an envelope, if anything.
pub open spec fn envelope_error(doc: Json) -> Option<MalformedRequestError> {
    match request_of(doc) {
        Some(Json::Object(_)) => {
            if !is_nonempty_str(request_of(doc).unwrap().field("uid"@)) {
                Some(MalformedRequestError::MissingUid)
            } else {
                match doc.field("apiVersion"@) {
                    None => None,
                    Some(Json::Str(_)) => None,
                    Some(_) => Some(MalformedRequestError::InvalidApiVersion),
                }
            }
        },
        _ => Some(MalformedRequestError::MissingRequest),
    }
}

/// The text of a string value; empty for any other.
pub open spec fn str_text(v: Option<Json>) -> Seq<char> {
    match v {
        Some(Json::Str(s)) => s@,
        _ => Seq::empty(),
    }
}

/// The request's correlation token.
pub open spec fn uid_of(doc: Json) -> Seq<char> {
    str_text(request_of(doc).unwrap().field("uid"@))
}

/// The envelope's API version, or the default when it names none.
pub open spec fn api_version_of(doc: Json) -> Seq<char> {
    match doc.field("apiVersion"@) {
        Some(Json::Str(s)) => s@,
        _ => default_api_version(),
    }
}

/// The object under review.
pub open spec fn object_of(doc: Json) -> Option<Json> {
    request_of(doc).unwrap().field("object"@)
}

/// Whether `object.metadata.ownerReferences` is a non-empty array.
pub open spec fn has_owner_references(object: Option<Json>) -> bool {
    match object {
        Some(o) => match o.field("metadata"@) {
            Some(m) => match m.field("ownerReferences"@) {
                Some(Json::Array(refs)) => refs@.len() > 0,
                _ => false,
            },
            None => false,
        },
        None => false,
    }
}

/// The text of a string member, if `v` is one.
fn string_member(v: Option<&Json>) -> (r: Option<String>)
    ensures
        match v {
            Some(Json::Str(s)) => r == Some(*s),
            _ => r is None,
        },
{
    match v {
        Some(Json::Str(s)) => Some(s.clone()),
        _ => None,
    }
}

/// Reads an admission review envelope; fails on one that has no `request`
/// object or no correlation token.
pub fn parse_request(doc: Json) -> (r: Result<AdmissionRequest, MalformedRequestError>)
    ensures
        r is Err <==> envelope_error(doc) is Some,
        match r {
            Ok(req) => req.uid@ == uid_of(doc) && req.api_version@ == api_version_of(doc)
                && req.object == object_of(doc),
            Err(e) => envelope_error(doc) == Some(e),
        },
{
    let api_version = match doc.get("apiVersion") {
        None => String::from_str("v1"),
        Some(Json::Str(s)) => s.clone(),
        Some(_) => {
            if !is_request_with_uid(doc.get("request")) {
                return Err(first_request_error(doc.get("request")));
            }
            return Err(MalformedRequestError::InvalidApiVersion);
        },
    };
    proof {
        reveal_strlit("v1");
    }
    let request = match doc.into_field("request") {
        Some(request) => request,
        None => return Err(MalformedRequestError::MissingRequest),
    };
    match request {
        Json::Object(_) => {},
        _ => return Err(MalformedRequestError::MissingRequest),
    }
    let uid = match string_member(request.get("uid")) {
        Some(uid) => uid,
        None => return Err(MalformedRequestError::MissingUid),
    };
    if uid.as_str().unicode_len() == 0 {
        return Err(MalformedRequestError::MissingUid);
    }
    let object = request.into_field("object");
    Ok(AdmissionRequest { uid, api_version, object })
}

/// Whether `request` is an object with a non-empty string `uid`.
fn is_request_with_uid(request: Option<&Json>) -> (r: bool)
    ensures
        r == (match request {
            Some(Json::Object(_)) => is_nonempty_str((*request.unwrap()).field("uid"@)),
            _ => false,
        }),
{
    match request {
        Some(req) => match req {
            Json::Object(_) => match string_member(req.get("uid")) {
                Some(uid) => uid.as_str().unicode_len() > 0,
                None => false,
            },
            _ => false,
        },
        None => false,
    }
}

/// The error for a `request` member that is not an object with a `uid`.
fn first_request_error(request: Option<&Json>) -> (r: MalformedRequestError)
    ensures
        match request {
            Some(Json::Object(_)) => r == MalformedRequestError::MissingUid,
            _ => r == MalformedRequestError::MissingRequest,
        },
{
    match request {
        Some(Json::Object(_)) => MalformedRequestError::MissingUid,
        _ => MalformedRequestError::MissingRequest,
    }
}

/// Whether the object under review names an owner: `object.metadata.ownerReferences`
/// is an array with at least one entry. A missing level, an empty array or a
/// value of another kind means no owner.
pub fn has_owner(request: &AdmissionRequest) -> (r: bool)
    ensures
        r == has_owner_references(request.object),
{
    match &request.object {
        Some(object) => match object.get("metadata") {
            Some(metadata) => match metadata.get("ownerReferences") {
                Some(Json::Array(refs)) => refs.len() > 0,
                _ => false,
            },
            None => false,
        },
        None => false,
    }
}

} // verus!
