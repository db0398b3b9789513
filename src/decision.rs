//! The decision engine: owner references first, then the exclusion calendar.
use crate::calendar::ExclusionCalendar;
use crate::json::Json;
use crate::request::{
    api_version_of, envelope_error, has_owner, has_owner_references, object_of, parse_request,
    uid_of, AdmissionRequest, MalformedRequestError,
};
use crate::verdict::{generateAdmission, verdict, AdmissionReview, VerdictView};
use crate::weekday::{day_label, Weekday};
use vstd::prelude::*;

verus! {

/// An allow or deny with its justification.
#[derive(Debug)]
pub struct Decision {
    pub allowed: bool,
    pub reason: String,
}

/// The words by which a reason says that an owned object was let through.
pub open spec fn automation_note() -> Seq<char> {
    "owner references found (automated job)"@
}

/// The reason given for an object that has an owner.
pub open spec fn owner_reason(instance: Seq<char>, uid: Seq<char>) -> Seq<char> {
    instance + ": Accepted request "@ + uid + ", "@ + automation_note() + "!"@
}

/// The reason given for an object without owner on `day`.
pub open spec fn day_reason(instance: Seq<char>, uid: Seq<char>, excluded: bool, day: Weekday) -> Seq<
    char,
> {
    instance + (if excluded {
        ": Rejected request "@
    } else {
        ": Accepted request "@
    }) + uid + ", ITS "@ + day_label(day.index()) + "!"@
}

/// Whether an object is admitted: it has an owner, or `day` is not excluded.
pub open spec fn admitted(object: Option<Json>, calendar: Set<int>, day: Weekday) -> bool {
    has_owner_references(object) || !calendar.contains(day.index())
}

/// The reason that goes with the decision on an object.
pub open spec fn reason_for(
    object: Option<Json>,
    uid: Seq<char>,
    calendar: Set<int>,
    day: Weekday,
    instance: Seq<char>,
) -> Seq<char> {
    if has_owner_references(object) {
        owner_reason(instance, uid)
    } else {
        day_reason(instance, uid, calendar.contains(day.index()), day)
    }
}

/// The verdict on a parsed request.
pub open spec fn verdict_of(
    request: AdmissionRequest,
    calendar: Set<int>,
    day: Weekday,
    instance: Seq<char>,
) -> VerdictView {
    verdict(
        request.uid@,
        admitted(request.object, calendar, day),
        request.api_version@,
        reason_for(request.object, request.uid@, calendar, day, instance),
    )
}

/// The outcome for a whole envelope: its verdict, or why it is malformed.
pub open spec fn review_of(doc: Json, calendar: Set<int>, day: Weekday, instance: Seq<char>) -> Result<
    VerdictView,
    MalformedRequestError,
> {
    match envelope_error(doc) {
        Some(e) => Err(e),
        None => Ok(
            verdict(
                uid_of(doc),
                admitted(object_of(doc), calendar, day),
                api_version_of(doc),
                reason_for(object_of(doc), uid_of(doc), calendar, day, instance),
            ),
        ),
    }
}

/// Whether `r` is the outcome that `review_of` gives for `doc`.
pub open spec fn review_matches(
    r: Result<AdmissionReview, MalformedRequestError>,
    doc: Json,
    calendar: Set<int>,
    day: Weekday,
    instance: Seq<char>,
) -> bool {
    match r {
        Ok(v) => review_of(doc, calendar, day, instance) == Ok::<VerdictView, MalformedRequestError>(
            v@,
        ),
        Err(e) => review_of(doc, calendar, day, instance) == Err::<VerdictView, MalformedRequestError>(
            e,
        ),
    }
}

/// Decides on a request: admitted when its object has an owner; otherwise
/// refused when `today` is in the calendar, admitted when it is not.
/// `instance` names this server in the reason.
pub fn decide(
    request: &AdmissionRequest,
    calendar: &ExclusionCalendar,
    today: Weekday,
    instance: &str,
) -> (r: Decision)
    ensures
        r.allowed == admitted(request.object, calendar@, today),
        r.reason@ == reason_for(request.object, request.uid@, calendar@, today, instance@),
{
    let mut reason = String::from_str(instance);
    if has_owner(request) {
        reason.append(": Accepted request ");
        reason.append(request.uid.as_str());
        reason.append(", ");
        reason.append("owner references found (automated job)");
        reason.append("!");
        return Decision { allowed: true, reason };
    }
    let excluded = calendar.is_excluded(today);
    if excluded {
        reason.append(": Rejected request ");
    } else {
        reason.append(": Accepted request ");
    }
    reason.append(request.uid.as_str());
    reason.append(", ITS ");
    let label = today.label();
    reason.append(label.as_str());
    reason.append("!");
    Decision { allowed: !excluded, reason }
}

/// The verdict on a parsed request, echoing its `uid` and API version.
pub fn evaluate(
    request: &AdmissionRequest,
    calendar: &ExclusionCalendar,
    today: Weekday,
    instance: &str,
) -> (r: AdmissionReview)
    ensures
        r@ == verdict_of(*request, calendar@, today, instance@),
{
    let decision = decide(request, calendar, today, instance);
    generateAdmission(
        request.uid.clone(),
        decision.allowed,
        request.api_version.clone(),
        decision.reason,
    )
}

/// Reads an admission review envelope and decides on it as of `today`;
/// a malformed envelope yields its error and no verdict.
pub fn review(doc: Json, calendar: &ExclusionCalendar, today: Weekday, instance: &str) -> (r:
    Result<AdmissionReview, MalformedRequestError>)
    ensures
        review_matches(r, doc, calendar@, today, instance@),
{
    match parse_request(doc) {
        Ok(request) => Ok(evaluate(&request, calendar, today, instance)),
        Err(e) => Err(e),
    }
}

/// Reads an admission review envelope and decides on it as of the weekday of
/// the server's local time.
pub fn review_now(doc: Json, calendar: &ExclusionCalendar, instance: &str) -> (r: Result<
    AdmissionReview,
    MalformedRequestError,
>)
    ensures
        match r {
            Ok(_) => exists|day: Weekday| review_matches(r, doc, calendar@, day, instance@),
            Err(e) => envelope_error(doc) == Some(e),
        },
{
    let today = Weekday::today();
    review(doc, calendar, today, instance)
}

} // verus!
