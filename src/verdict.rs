//! The admission review response that carries a verdict back.
use vstd::prelude::*;

verus! {

/// Status block of a response: a code and a human-readable justification.
#[derive(Debug)]
pub struct K8SStatus {
    pub code: i32,
    pub message: String,
}

/// The verdict on one request.
#[derive(Debug)]
pub struct K8SResponse {
    pub uid: String,
    pub allowed: bool,
    pub status: K8SStatus,
}

/// The response envelope.
#[derive(Debug)]
pub struct AdmissionReview {
    pub api_version: String,
    pub kind: String,
    pub response: K8SResponse,
}

/// A verdict as plain values.
pub struct VerdictView {
    pub api_version: Seq<char>,
    pub kind: Seq<char>,
    pub uid: Seq<char>,
    pub allowed: bool,
    pub code: int,
    pub message: Seq<char>,
}

impl View for AdmissionReview {
    type V = VerdictView;

    open spec fn view(&self) -> VerdictView {
        VerdictView {
            api_version: self.api_version@,
            kind: self.kind@,
            uid: self.response.uid@,
            allowed: self.response.allowed,
            code: self.response.status.code as int,
            message: self.response.status.message@,
        }
    }
}

/// The kind that every response envelope names.
pub open spec fn review_kind() -> Seq<char> {
    seq!['A', 'd', 'm', 'i', 's', 's', 'i', 'o', 'n', 'R', 'e', 'v', 'i', 'e', 'w']
}

/// The code that a verdict carries: 200 when it admits, else 403.
pub open spec fn status_code(allowed: bool) -> int {
    if allowed {
        200
    } else {
        403
    }
}

/// The verdict that echoes `uid` and `api_version` and carries `allowed` and
/// `message`.
pub open spec fn verdict(
    uid: Seq<char>,
    allowed: bool,
    api_version: Seq<char>,
    message: Seq<char>,
) -> VerdictView {
    VerdictView {
        api_version,
        kind: review_kind(),
        uid,
        allowed,
        code: status_code(allowed),
        message,
    }
}

/// Wraps a decision into a response envelope.
#[allow(non_snake_case)]
pub fn generateAdmission(uid: String, status: bool, apiVersion: String, message: String) -> (r:
    AdmissionReview)
    ensures
        r@ == verdict(uid@, status, apiVersion@, message@),
{
    let mut code: i32 = 403;
    if status {
        code = 200;
    }
    let kind = String::from_str("AdmissionReview");
    proof {
        reveal_strlit("AdmissionReview");
    }
    assert(kind@ =~= review_kind());
    AdmissionReview {
        api_version: apiVersion,
        kind,
        response: K8SResponse { uid, allowed: status, status: K8SStatus { code, message } },
    }
}

} // verus!
