use stitch::status;
use stitch::transport::HttpResponse;
use stitch::transport::Method;
use stitch::util::get_unix_timestamp_ms;
use stitch::util::into_future_trait;
use stitch::util::into_result;
use stitch::Error;
use stitch::PlainRecord;
use stitch::StitchClient;

fn testing(id: u32) -> PlainRecord {
    PlainRecord {
        table_name: String::from("table_name"),
        key_names: vec![String::from("id")],
        data_json: format!("{{\"id\":{}}}", id),
    }
}

#[test]
fn get_status() {
    let client = StitchClient::new(1, String::from("auth_token_1"));
    let req = client.get_status();
    assert_eq!(req.method, Method::Get);
    assert_eq!(req.url, "https://api.stitchdata.com/v2/import/status");
    assert!(req.bearer_token.is_none());
    assert!(req.body.is_none());
    // A healthy service answers in the success range.
    let res = into_result(HttpResponse { status: 200, body: Vec::new() });
    assert_eq!(res.is_ok(), true);
}

#[test]
fn validate_message_simple() {
    let client = StitchClient::new(1, String::from("auth_token_1"));
    let record = testing(1);
    let req = client.validate_batch(vec![record]);
    assert_eq!(req.url, "https://api.stitchdata.com/v2/import/validate");
    // A healthy endpoint accepts the batch and its body comes back
    // verbatim.
    let right = r#"{"status":"OK","message":"Batch is valid!"}"#;
    let answer = HttpResponse { status: 200, body: right.as_bytes().to_vec() };
    let res = into_result(answer).unwrap();
    assert_eq!(std::str::from_utf8(&res.body).unwrap(), right);
}

#[test]
fn success_iff_status_in_2xx() {
    for status in [200u16, 201, 204, 250, 299] {
        assert!(into_result(HttpResponse { status, body: Vec::new() }).is_ok());
    }
    for status in [100u16, 199, 300, 301, 400, 404, 500, 503] {
        let r = into_result(HttpResponse { status, body: Vec::new() });
        match r {
            Err(Error::HyperStatus(code)) => assert_eq!(code, status),
            _ => panic!("a non-2xx status must become a status error"),
        }
    }
}

#[test]
fn status_error_description_is_canonical_reason() {
    assert_eq!(Error::HyperStatus(503).description(), "Service Unavailable");
    assert_eq!(Error::HyperStatus(404).description(), "Not Found");
    assert_eq!(Error::HyperStatus(200).description(), "OK");
    assert_eq!(Error::HyperStatus(599).description(), "Unregistered Status Code");
    assert_eq!(Error::HyperStatus(99).description(), "Unregistered Status Code");
}

#[test]
fn carried_details_come_back_verbatim() {
    assert_eq!(Error::Buffer("Could not chunk stream").description(), "Could not chunk stream");
    assert_eq!(Error::Hyper(String::from("connection reset")).description(), "connection reset");
    assert_eq!(Error::HyperTls(String::from("bad certificate")).description(), "bad certificate");
}

#[test]
fn documented_statuses_round_trip() {
    let all = [
        status::Error::BadRequest,
        status::Error::Unauthorized,
        status::Error::Forbidden,
        status::Error::MethodNotAllowed,
        status::Error::RequestEntityTooLarge,
        status::Error::UnsupportedMediaType,
        status::Error::UnprocessableEntity,
        status::Error::ServiceUnavailable,
        status::Error::GatewayTimeout,
    ];
    for e in all {
        assert_eq!(status::Error::from_code(e.code()), Some(e));
    }
    assert_eq!(status::Error::from_code(503), Some(status::Error::ServiceUnavailable));
    assert_eq!(status::Error::from_code(200), None);
    assert_eq!(status::Error::from_code(418), None);
}

#[test]
fn errors_classify_against_documented_statuses() {
    assert_eq!(
        Error::HyperStatus(503).documented_status(),
        Some(status::Error::ServiceUnavailable)
    );
    assert_eq!(Error::HyperStatus(422).documented_status(), Some(status::Error::UnprocessableEntity));
    assert_eq!(Error::HyperStatus(200).documented_status(), None);
    assert_eq!(Error::HyperStatus(418).documented_status(), None);
    assert_eq!(Error::Buffer("Could not chunk stream").documented_status(), None);
    assert_eq!(Error::Hyper(String::from("connection reset")).documented_status(), None);
}

#[test]
fn resolved_task_hands_its_outcome_back() {
    let ok: Result<u32, Error> = Ok(7);
    assert_eq!(into_future_trait(ok).resolve().unwrap(), 7);
    let err: Result<u32, Error> = Err(Error::HyperStatus(503));
    match into_future_trait(err).resolve() {
        Err(Error::HyperStatus(code)) => assert_eq!(code, 503),
        _ => panic!("the outcome must come back unchanged"),
    }
}

#[test]
fn timestamps_are_recent_and_monotonic_enough() {
    let a = get_unix_timestamp_ms();
    let b = get_unix_timestamp_ms();
    // After 2020-01-01 in milliseconds.
    assert!(a > 1_577_836_800_000);
    assert!(b >= a);
}
