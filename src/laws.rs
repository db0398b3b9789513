//! Properties that every verdict has, stated over the models that the
//! functions' contracts use.
use crate::decision::{automation_note, review_matches, review_of, verdict_of};
use crate::json::Json;
use crate::request::{default_api_version, envelope_error, request_of, AdmissionRequest, has_owner_references, MalformedRequestError};
use crate::verdict::{AdmissionReview, VerdictView};
use crate::weekday::Weekday;
use vstd::prelude::*;

verus! {

/// Whether `words` occurs in `text`.
pub open spec fn mentions(text: Seq<char>, words: Seq<char>) -> bool {
    exists|i: int|
        0 <= i && i + words.len() <= text.len() && #[trigger] text.subrange(i, i + words.len())
            == words
}

/// A request whose object has an owner is admitted on every day, whatever the
/// calendar holds, and its message says that it came from automation.
pub proof fn owned_request_is_admitted(
    request: AdmissionRequest,
    calendar: Set<int>,
    day: Weekday,
    instance: Seq<char>,
)
    requires
        has_owner_references(request.object),
    ensures
        verdict_of(request, calendar, day, instance).allowed,
        mentions(verdict_of(request, calendar, day, instance).message, automation_note()),
{
    let v = verdict_of(request, calendar, day, instance);
    let i: int = (instance + ": Accepted request "@ + request.uid@ + ", "@).len() as int;
    assert(v.message.subrange(i, i + automation_note().len() as int) =~= automation_note());
}

/// A request whose object has no owner is admitted exactly when the calendar
/// does not list the day.
pub proof fn unowned_request_follows_calendar(
    request: AdmissionRequest,
    calendar: Set<int>,
    day: Weekday,
    instance: Seq<char>,
)
    requires
        !has_owner_references(request.object),
    ensures
        verdict_of(request, calendar, day, instance).allowed == !calendar.contains(day.index()),
{
}

/// The verdict on a well-formed envelope echoes its `uid` and its `apiVersion`,
/// or the default version where the envelope names none.
pub proof fn verdict_echoes_envelope(
    doc: Json,
    calendar: Set<int>,
    day: Weekday,
    instance: Seq<char>,
)
    requires
        envelope_error(doc) is None,
    ensures
        review_of(doc, calendar, day, instance) is Ok,
        match request_of(doc).unwrap().field("uid"@) {
            Some(Json::Str(uid)) => review_of(doc, calendar, day, instance)->Ok_0.uid == uid@,
            _ => false,
        },
        match doc.field("apiVersion"@) {
            Some(Json::Str(v)) => review_of(doc, calendar, day, instance)->Ok_0.api_version == v@,
            _ => review_of(doc, calendar, day, instance)->Ok_0.api_version
                == default_api_version(),
        },
{
}

/// Every verdict carries status code 200 when it admits and 403 when it
/// refuses.
pub proof fn status_code_follows_verdict(
    request: AdmissionRequest,
    calendar: Set<int>,
    day: Weekday,
    instance: Seq<char>,
)
    ensures
        verdict_of(request, calendar, day, instance).code == if verdict_of(
            request,
            calendar,
            day,
            instance,
        ).allowed {
            200int
        } else {
            403int
        },
{
}

/// Reviewing the same envelope twice with the same calendar on the same day
/// gives the same outcome.
pub proof fn review_is_deterministic(
    doc: Json,
    calendar: Set<int>,
    day: Weekday,
    instance: Seq<char>,
    first: Result<AdmissionReview, MalformedRequestError>,
    second: Result<AdmissionReview, MalformedRequestError>,
)
    requires
        review_matches(first, doc, calendar, day, instance),
        review_matches(second, doc, calendar, day, instance),
    ensures
        match (first, second) {
            (Ok(a), Ok(b)) => a@ == b@,
            (Err(a), Err(b)) => a == b,
            _ => false,
        },
{
}

} // verus!
