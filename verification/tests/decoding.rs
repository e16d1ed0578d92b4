use jenkins_sdk::decode_response;
use jenkins_sdk::jobs_from_value;
use jenkins_sdk::json::same_text;
use jenkins_sdk::DecodeError;
use jenkins_sdk::ExecutorsInfo;
use jenkins_sdk::FromJson;
use jenkins_sdk::JenkinsError;
use jenkins_sdk::Job;
use serde_json::Value;

fn parse(text: &str) -> Value {
    serde_json::from_str(text).unwrap()
}

fn decode<T: FromJson>(text: &str) -> Result<T, JenkinsError> {
    decode_response(Ok(text.to_string()))
}

fn missing<T: std::fmt::Debug>(r: Result<T, JenkinsError>) -> String {
    match r {
        Err(JenkinsError::Json(DecodeError::MissingField(name))) => name,
        other => panic!("{:?}", other),
    }
}

fn mismatch<T: std::fmt::Debug>(r: Result<T, JenkinsError>) -> String {
    match r {
        Err(JenkinsError::Json(DecodeError::TypeMismatch(place))) => place,
        other => panic!("{:?}", other),
    }
}

#[test]
fn executors_decode_leaves_idle_at_zero_until_recomputed() {
    let mut info: ExecutorsInfo = decode(r#"{"totalExecutors":10,"busyExecutors":4}"#).unwrap();
    assert_eq!(info.total_executors, 10);
    assert_eq!(info.busy_executors, 4);
    assert_eq!(info.idle_executors, 0);
    info.calculate_idle();
    assert_eq!(info.idle_executors, 6);
    assert_eq!(info.total_executors, 10);
    assert_eq!(info.busy_executors, 4);
}

#[test]
fn calculate_idle_is_total_minus_busy() {
    for (total, busy, idle) in [(0u32, 0u32, 0u32), (1, 0, 1), (1, 1, 0), (7, 3, 4), (u32::MAX, 0, u32::MAX), (u32::MAX, u32::MAX, 0), (u32::MAX, 1, u32::MAX - 1)] {
        let mut info = ExecutorsInfo { total_executors: total, busy_executors: busy, idle_executors: 99 };
        info.calculate_idle();
        assert_eq!(info, ExecutorsInfo { total_executors: total, busy_executors: busy, idle_executors: idle });
    }
}

#[test]
fn calculate_idle_twice_changes_nothing_more() {
    let mut info = ExecutorsInfo { total_executors: 8, busy_executors: 5, idle_executors: 0 };
    info.calculate_idle();
    let once = info;
    info.calculate_idle();
    assert_eq!(info, once);
}

#[test]
fn executors_decode_ignores_other_members() {
    let info: ExecutorsInfo = decode(
        r#"{"_class":"hudson.model.ComputerSet","busyExecutors":1,"computer":[{}],"displayName":"Nodes","idleExecutors":55,"totalExecutors":2}"#,
    )
    .unwrap();
    assert_eq!(info, ExecutorsInfo { total_executors: 2, busy_executors: 1, idle_executors: 0 });
}

#[test]
fn executors_decode_from_a_value() {
    let value = parse(r#"{"totalExecutors":4294967295,"busyExecutors":0}"#);
    let info = ExecutorsInfo::from_value(&value).unwrap();
    assert_eq!(info, ExecutorsInfo { total_executors: u32::MAX, busy_executors: 0, idle_executors: 0 });
}

#[test]
fn executors_decode_reports_the_missing_field() {
    assert_eq!(missing(decode::<ExecutorsInfo>(r#"{"busyExecutors":4}"#)), "totalExecutors");
    assert_eq!(missing(decode::<ExecutorsInfo>(r#"{"totalExecutors":4}"#)), "busyExecutors");
    assert_eq!(missing(decode::<ExecutorsInfo>(r#"{}"#)), "totalExecutors");
    assert_eq!(missing(decode::<ExecutorsInfo>(r#"{"total_executors":1,"busy_executors":1}"#)), "totalExecutors");
}

#[test]
fn executors_decode_reports_the_field_of_another_type() {
    assert_eq!(mismatch(decode::<ExecutorsInfo>(r#"{"totalExecutors":"10","busyExecutors":4}"#)), "totalExecutors");
    assert_eq!(mismatch(decode::<ExecutorsInfo>(r#"{"totalExecutors":10,"busyExecutors":null}"#)), "busyExecutors");
    assert_eq!(mismatch(decode::<ExecutorsInfo>(r#"{"totalExecutors":-1,"busyExecutors":4}"#)), "totalExecutors");
    assert_eq!(mismatch(decode::<ExecutorsInfo>(r#"{"totalExecutors":10.0,"busyExecutors":4}"#)), "totalExecutors");
    assert_eq!(mismatch(decode::<ExecutorsInfo>(r#"{"totalExecutors":1.5,"busyExecutors":4}"#)), "totalExecutors");
    assert_eq!(mismatch(decode::<ExecutorsInfo>(r#"{"totalExecutors":4294967296,"busyExecutors":4}"#)), "totalExecutors");
    assert_eq!(mismatch(decode::<ExecutorsInfo>(r#"{"totalExecutors":18446744073709551616,"busyExecutors":4}"#)), "totalExecutors");
    assert_eq!(mismatch(decode::<ExecutorsInfo>(r#"{"totalExecutors":1,"busyExecutors":[4]}"#)), "busyExecutors");
    assert_eq!(mismatch(decode::<ExecutorsInfo>(r#"{"totalExecutors":true,"busyExecutors":"x"}"#)), "totalExecutors");
}

#[test]
fn executors_decode_refuses_what_is_no_object() {
    assert_eq!(mismatch(decode::<ExecutorsInfo>("[10,4]")), "");
    assert_eq!(mismatch(decode::<ExecutorsInfo>("null")), "");
    assert_eq!(mismatch(decode::<ExecutorsInfo>("10")), "");
    assert_eq!(mismatch(decode::<ExecutorsInfo>(r#""text""#)), "");
}

#[test]
fn job_decodes_from_its_three_fields() {
    let value = parse(r#"{"name":"build-app","url":"http://jenkins.local/job/build-app/","color":"blue"}"#);
    let job = Job::from_value(&value).unwrap();
    assert_eq!(
        job,
        Job {
            name: "build-app".to_string(),
            url: "http://jenkins.local/job/build-app/".to_string(),
            color: "blue".to_string(),
        }
    );
}

#[test]
fn job_decode_requires_all_three_fields() {
    assert_eq!(missing(decode::<Job>(r#"{"url":"u","color":"c"}"#)), "name");
    assert_eq!(missing(decode::<Job>(r#"{"name":"n","color":"c"}"#)), "url");
    assert_eq!(missing(decode::<Job>(r#"{"name":"n","url":"u"}"#)), "color");
    assert_eq!(mismatch(decode::<Job>(r#"{"name":1,"url":"u","color":"c"}"#)), "name");
    assert_eq!(mismatch(decode::<Job>(r#"{"name":"n","url":"u","color":null}"#)), "color");
    assert_eq!(mismatch(decode::<Job>(r#"["n","u","c"]"#)), "");
}

#[test]
fn job_decode_keeps_unicode_and_escapes() {
    let job: Job = decode(r#"{"name":"bäu \"x\"","url":"","color":"red_anime","_class":"x"}"#).unwrap();
    assert_eq!(job.name, "bäu \"x\"");
    assert_eq!(job.url, "");
    assert_eq!(job.color, "red_anime");
}

#[test]
fn jobs_listing_decodes_in_order() {
    let jobs: Vec<Job> = decode(
        r#"{"_class":"hudson.model.Hudson","jobs":[{"name":"b","url":"u2","color":"red"},{"name":"a","url":"u1","color":"blue"}]}"#,
    )
    .unwrap();
    assert_eq!(
        jobs,
        vec![
            Job { name: "b".to_string(), url: "u2".to_string(), color: "red".to_string() },
            Job { name: "a".to_string(), url: "u1".to_string(), color: "blue".to_string() },
        ]
    );
}

#[test]
fn jobs_listing_may_be_empty() {
    let jobs: Vec<Job> = decode(r#"{"jobs":[]}"#).unwrap();
    assert_eq!(jobs, vec![]);
    assert_eq!(jobs_from_value(&parse(r#"{"jobs":[]}"#)).unwrap(), vec![]);
}

#[test]
fn jobs_listing_reports_what_is_wrong() {
    assert_eq!(missing(decode::<Vec<Job>>(r#"{"items":[]}"#)), "jobs");
    assert_eq!(mismatch(decode::<Vec<Job>>(r#"{"jobs":{}}"#)), "jobs");
    assert_eq!(mismatch(decode::<Vec<Job>>(r#"[]"#)), "");
    assert_eq!(
        missing(decode::<Vec<Job>>(r#"{"jobs":[{"name":"a","url":"u","color":"c"},{"name":"b","url":"u"}]}"#)),
        "color"
    );
    assert_eq!(
        mismatch(decode::<Vec<Job>>(r#"{"jobs":[{"name":"a","url":"u","color":"c"},7]}"#)),
        ""
    );
    assert_eq!(
        missing(decode::<Vec<Job>>(r#"{"jobs":[{"url":"u","color":"c"},{"name":1,"url":"u","color":"c"}]}"#)),
        "name"
    );
}

#[test]
fn queue_length_from_decoded_items() {
    let queue: Value = decode(r#"{"items":[{},{},{}]}"#).unwrap();
    assert_eq!(queue["items"].as_array().map_or(0, |items| items.len()), 3);
}

#[test]
fn value_decodes_any_document_as_it_is() {
    for text in ["null", "true", "0", "-3", "1.5", r#""s""#, "[]", "[1,[2,{}]]", r#"{"a":{"b":[null]}}"#] {
        let value: Value = decode(text).unwrap();
        assert_eq!(value, parse(text));
    }
}

#[test]
fn structured_decode_refuses_what_is_no_json() {
    for text in ["", "Started by user admin", "<html>", "{", r#"{"items":[}"#, "{} trailing", "nul", "'single'"] {
        assert!(matches!(decode::<Value>(text), Err(JenkinsError::Json(DecodeError::Syntax(_)))), "{:?}", text);
        assert!(matches!(decode::<ExecutorsInfo>(text), Err(JenkinsError::Json(DecodeError::Syntax(_)))), "{:?}", text);
        assert!(matches!(decode::<Job>(text), Err(JenkinsError::Json(DecodeError::Syntax(_)))), "{:?}", text);
        assert!(matches!(decode::<Vec<Job>>(text), Err(JenkinsError::Json(DecodeError::Syntax(_)))), "{:?}", text);
    }
}

#[test]
fn structured_decode_takes_the_last_of_repeated_members() {
    let info: ExecutorsInfo = decode(r#"{"totalExecutors":1,"busyExecutors":0,"totalExecutors":9}"#).unwrap();
    assert_eq!(info.total_executors, 9);
}

#[test]
fn decode_passes_a_transport_failure_on() {
    let r: Result<Value, JenkinsError> =
        decode_response(Err(JenkinsError::HttpStatus { status: 503, body: "busy".to_string() }));
    match r {
        Err(JenkinsError::HttpStatus { status, body }) => {
            assert_eq!(status, 503);
            assert_eq!(body, "busy");
        }
        other => panic!("{:?}", other),
    }
    let r: Result<ExecutorsInfo, JenkinsError> =
        decode_response(Err(JenkinsError::RequestError("timed out".to_string())));
    assert!(matches!(r, Err(JenkinsError::RequestError(m)) if m == "timed out"));
    let r: Result<Job, JenkinsError> =
        decode_response(Err(JenkinsError::InvalidParams("p".to_string())));
    assert!(matches!(r, Err(JenkinsError::InvalidParams(m)) if m == "p"));
}

#[test]
fn same_text_compares_character_by_character() {
    assert!(same_text("", ""));
    assert!(same_text("jobs", "jobs"));
    assert!(same_text("bäu", "bäu"));
    assert!(!same_text("jobs", "job"));
    assert!(!same_text("job", "jobs"));
    assert!(!same_text("jobs", "jobz"));
    assert!(!same_text("Jobs", "jobs"));
    assert!(!same_text("", "a"));
    assert!(!same_text("bäu", "bau"));
}
