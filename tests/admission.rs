use weekday_admission::calendar::{parse_entry, ConfigurationError, ExclusionCalendar};
use weekday_admission::decision::{decide, evaluate, review, review_now};
use weekday_admission::json::{same_text, Json};
use weekday_admission::request::{has_owner, parse_request, AdmissionRequest, MalformedRequestError};
use weekday_admission::verdict::generateAdmission;
use weekday_admission::weekday::Weekday;

fn s(text: &str) -> String {
    text.to_string()
}

fn obj(members: Vec<(&str, Json)>) -> Json {
    Json::Object(members.into_iter().map(|(k, v)| (s(k), v)).collect())
}

fn owner_object(refs: Vec<Json>) -> Json {
    obj(vec![("metadata", obj(vec![("ownerReferences", Json::Array(refs))]))])
}

fn one_owner() -> Json {
    owner_object(vec![obj(vec![
        ("kind", Json::Str(s("CronJob"))),
        ("name", Json::Str(s("nightly"))),
    ])])
}

fn envelope(uid: Option<&str>, object: Option<Json>) -> Json {
    let mut request = Vec::new();
    if let Some(u) = uid {
        request.push(("uid", Json::Str(s(u))));
    }
    if let Some(o) = object {
        request.push(("object", o));
    }
    obj(vec![
        ("apiVersion", Json::Str(s("admission.k8s.io/v1"))),
        ("kind", Json::Str(s("AdmissionReview"))),
        ("request", obj(request)),
    ])
}

fn fridays() -> ExclusionCalendar {
    ExclusionCalendar::from_days(&vec![4]).unwrap()
}

fn request(uid: &str, object: Option<Json>) -> AdmissionRequest {
    AdmissionRequest { uid: s(uid), api_version: s("admission.k8s.io/v1"), object }
}

#[test]
fn owner_reference_admits_with_automation_note() {
    let v = review(envelope(Some("abc-1"), Some(one_owner())), &fridays(), Weekday::Fri, "pod-a")
        .unwrap();
    assert!(v.response.allowed);
    assert_eq!(v.response.status.code, 200);
    assert!(v.response.status.message.contains("owner references"));
    assert_eq!(
        v.response.status.message,
        "pod-a: Accepted request abc-1, owner references found (automated job)!"
    );
}

#[test]
fn no_object_on_excluded_friday_is_denied() {
    let v = review(envelope(Some("abc-2"), None), &fridays(), Weekday::Fri, "pod-a").unwrap();
    assert!(!v.response.allowed);
    assert_eq!(v.response.status.code, 403);
    assert_eq!(v.response.status.message, "pod-a: Rejected request abc-2, ITS Fri!");
}

#[test]
fn no_object_on_tuesday_is_admitted() {
    let v = review(envelope(Some("abc-3"), None), &fridays(), Weekday::Tue, "pod-a").unwrap();
    assert!(v.response.allowed);
    assert_eq!(v.response.status.code, 200);
    assert_eq!(v.response.status.message, "pod-a: Accepted request abc-3, ITS Tue!");
}

#[test]
fn missing_uid_is_malformed() {
    let r = review(envelope(None, None), &fridays(), Weekday::Tue, "pod-a");
    assert!(matches!(r, Err(MalformedRequestError::MissingUid)));
}

#[test]
fn calendar_with_nine_is_a_configuration_error() {
    assert!(matches!(
        ExclusionCalendar::from_days(&vec![4, 9]),
        Err(ConfigurationError::NotAWeekday)
    ));
    assert!(matches!(
        ExclusionCalendar::from_entries(&vec![s("4"), s("9")]),
        Err(ConfigurationError::NotAWeekday)
    ));
}

#[test]
fn owner_wins_on_every_excluded_day() {
    let all = ExclusionCalendar::from_days(&vec![0, 1, 2, 3, 4, 5, 6]).unwrap();
    for n in 0..7u32 {
        let day = Weekday::from_monday(n).unwrap();
        let v = evaluate(&request("u", Some(one_owner())), &all, day, "pod");
        assert!(v.response.allowed);
        assert!(v.response.status.message.contains("automated job"));
    }
}

#[test]
fn unowned_request_follows_calendar_membership() {
    let cal = ExclusionCalendar::from_days(&vec![5, 6]).unwrap();
    for n in 0..7u32 {
        let day = Weekday::from_monday(n).unwrap();
        let v = evaluate(&request("u", None), &cal, day, "pod");
        assert_eq!(v.response.allowed, n < 5);
    }
}

#[test]
fn verdict_echoes_uid_and_api_version() {
    let v = review(envelope(Some("7f0c-uid"), None), &fridays(), Weekday::Mon, "p").unwrap();
    assert_eq!(v.response.uid, "7f0c-uid");
    assert_eq!(v.api_version, "admission.k8s.io/v1");
    assert_eq!(v.kind, "AdmissionReview");
}

#[test]
fn missing_api_version_falls_back_to_v1() {
    let doc = obj(vec![("request", obj(vec![("uid", Json::Str(s("u9")))]))]);
    let v = review(doc, &fridays(), Weekday::Mon, "p").unwrap();
    assert_eq!(v.api_version, "v1");
    assert_eq!(v.response.uid, "u9");
}

#[test]
fn status_code_matches_allowed() {
    let allow = generateAdmission(s("u"), true, s("v1"), s("ok"));
    assert_eq!(allow.response.status.code, 200);
    assert!(allow.response.allowed);
    assert_eq!(allow.response.status.message, "ok");
    assert_eq!(allow.response.uid, "u");
    assert_eq!(allow.api_version, "v1");
    let deny = generateAdmission(s("u"), false, s("v1"), s("no"));
    assert_eq!(deny.response.status.code, 403);
    assert!(!deny.response.allowed);
}

#[test]
fn same_request_twice_gives_same_verdict() {
    let cal = fridays();
    let a = review(envelope(Some("u"), None), &cal, Weekday::Fri, "p").unwrap();
    let b = review(envelope(Some("u"), None), &cal, Weekday::Fri, "p").unwrap();
    assert_eq!(a.response.allowed, b.response.allowed);
    assert_eq!(a.response.status.code, b.response.status.code);
    assert_eq!(a.response.status.message, b.response.status.message);
    assert_eq!(a.response.uid, b.response.uid);
    assert_eq!(a.api_version, b.api_version);
}

#[test]
fn empty_or_odd_owner_references_mean_no_owner() {
    assert!(!has_owner(&request("u", Some(owner_object(vec![])))));
    let not_array = obj(vec![("metadata", obj(vec![("ownerReferences", Json::Str(s("x")))]))]);
    assert!(!has_owner(&request("u", Some(not_array))));
    assert!(!has_owner(&request("u", Some(obj(vec![])))));
    assert!(!has_owner(&request("u", Some(Json::Null))));
    assert!(!has_owner(&request("u", None)));
    assert!(has_owner(&request("u", Some(one_owner()))));
}

#[test]
fn envelope_errors() {
    assert!(matches!(parse_request(Json::Null), Err(MalformedRequestError::MissingRequest)));
    let no_request = obj(vec![("apiVersion", Json::Str(s("v1")))]);
    assert!(matches!(parse_request(no_request), Err(MalformedRequestError::MissingRequest)));
    let request_not_object = obj(vec![("request", Json::Array(vec![]))]);
    assert!(matches!(
        parse_request(request_not_object),
        Err(MalformedRequestError::MissingRequest)
    ));
    let empty_uid = envelope(Some(""), None);
    assert!(matches!(parse_request(empty_uid), Err(MalformedRequestError::MissingUid)));
    let numeric_uid = obj(vec![("request", obj(vec![("uid", Json::Number(s("5")))]))]);
    assert!(matches!(parse_request(numeric_uid), Err(MalformedRequestError::MissingUid)));
    let bad_version = obj(vec![
        ("apiVersion", Json::Bool(true)),
        ("request", obj(vec![("uid", Json::Str(s("u")))])),
    ]);
    assert!(matches!(
        parse_request(bad_version),
        Err(MalformedRequestError::InvalidApiVersion)
    ));
}

#[test]
fn parse_request_keeps_the_object() {
    let req = parse_request(envelope(Some("u1"), Some(one_owner()))).unwrap();
    assert_eq!(req.uid, "u1");
    assert_eq!(req.api_version, "admission.k8s.io/v1");
    assert!(has_owner(&req));
}

#[test]
fn configuration_entries() {
    assert_eq!(parse_entry("0").unwrap(), 0);
    assert_eq!(parse_entry("6").unwrap(), 6);
    assert_eq!(parse_entry("+3").unwrap(), 3);
    assert_eq!(parse_entry("0004").unwrap(), 4);
    assert!(matches!(parse_entry("7"), Err(ConfigurationError::NotAWeekday)));
    assert!(matches!(parse_entry("12345678901234567890"), Err(ConfigurationError::NotAWeekday)));
    assert!(matches!(parse_entry(""), Err(ConfigurationError::NotAnInteger)));
    assert!(matches!(parse_entry("+"), Err(ConfigurationError::NotAnInteger)));
    assert!(matches!(parse_entry(" 4"), Err(ConfigurationError::NotAnInteger)));
    assert!(matches!(parse_entry("fri"), Err(ConfigurationError::NotAnInteger)));
    assert!(matches!(parse_entry("-1"), Err(ConfigurationError::NotAnInteger)));
}

#[test]
fn first_bad_entry_decides_the_error() {
    assert!(matches!(
        ExclusionCalendar::from_entries(&vec![s("x"), s("9")]),
        Err(ConfigurationError::NotAnInteger)
    ));
    assert!(matches!(
        ExclusionCalendar::from_entries(&vec![s("9"), s("x")]),
        Err(ConfigurationError::NotAWeekday)
    ));
    let cal = ExclusionCalendar::from_entries(&vec![s("4"), s("+6")]).unwrap();
    assert!(cal.is_excluded(Weekday::Fri));
    assert!(cal.is_excluded(Weekday::Sun));
    assert!(!cal.is_excluded(Weekday::Sat));
}

#[test]
fn empty_calendar_excludes_nothing() {
    let cal = ExclusionCalendar::from_days(&vec![]).unwrap();
    for n in 0..7u32 {
        assert!(!cal.is_excluded(Weekday::from_monday(n).unwrap()));
    }
    let none = ExclusionCalendar::from_entries(&vec![]).unwrap();
    assert!(!none.is_excluded(Weekday::Mon));
}

#[test]
fn weekday_numbers_and_labels() {
    let labels = ["Mon", "Tue", "Wed", "Thu", "Fri", "Sat", "Sun"];
    for n in 0..7u32 {
        let d = Weekday::from_monday(n).unwrap();
        assert_eq!(d.num_days_from_monday(), n);
        assert_eq!(d.label(), labels[n as usize]);
    }
    assert!(Weekday::from_monday(7).is_none());
}

#[test]
fn decide_gives_reason() {
    let d = decide(&request("r1", None), &fridays(), Weekday::Wed, "node-7");
    assert!(d.allowed);
    assert_eq!(d.reason, "node-7: Accepted request r1, ITS Wed!");
}

#[test]
fn lookup_finds_first_member() {
    let doc = obj(vec![("a", Json::Str(s("one"))), ("a", Json::Str(s("two")))]);
    assert!(matches!(doc.get("a"), Some(Json::Str(t)) if t == "one"));
    assert!(doc.get("b").is_none());
    assert!(Json::Array(vec![]).get("a").is_none());
    assert!(same_text("metadata", "metadata"));
    assert!(!same_text("metadata", "metadat"));
    assert!(!same_text("abc", "abd"));
}

#[test]
fn review_now_uses_a_real_weekday() {
    let today = Weekday::today();
    assert!(today.num_days_from_monday() < 7);
    let v = review_now(envelope(Some("now-1"), None), &fridays(), "p").unwrap();
    let labels = ["Mon", "Tue", "Wed", "Thu", "Fri", "Sat", "Sun"];
    assert!(labels
        .iter()
        .any(|l| v.response.status.message == format!("p: Accepted request now-1, ITS {}!", l)
            || v.response.status.message == format!("p: Rejected request now-1, ITS {}!", l)));
    assert!(matches!(
        review_now(envelope(None, None), &fridays(), "p"),
        Err(MalformedRequestError::MissingUid)
    ));
}
