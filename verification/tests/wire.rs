use stitch::transport::Endpoint;
use stitch::transport::Method;
use stitch::PlainRecord;
use stitch::StitchClient;

fn payload(table: &str, keys: Vec<&str>, json: &str) -> PlainRecord {
    PlainRecord {
        table_name: String::from(table),
        key_names: keys.into_iter().map(String::from).collect(),
        data_json: String::from(json),
    }
}

fn simple(id: u32) -> PlainRecord {
    payload("table_name", vec!["id"], &format!("{{\"id\":{}}}", id))
}

fn body_text(client: &StitchClient, endpoint: Endpoint, batch: Vec<PlainRecord>, sequence: u64) -> String {
    let req = client.upsert_helper(endpoint, batch, sequence);
    String::from_utf8(req.body.unwrap()).unwrap()
}

#[test]
fn single_record_body_is_exact() {
    let client = StitchClient::new(1, String::from("tok"));
    let body = body_text(&client, Endpoint::Push, vec![simple(1)], 5);
    assert_eq!(
        body,
        "[{\"client_id\":1,\"sequence\":5,\"table_name\":\"table_name\",\
         \"action\":\"upsert\",\"key_names\":[\"id\"],\"data\":{\"id\":1}}]"
    );
}

#[test]
fn two_record_body_keeps_input_order() {
    let client = StitchClient::new(2, String::from("tok"));
    let body = body_text(&client, Endpoint::Push, vec![simple(7), simple(8)], 10);
    assert_eq!(
        body,
        "[{\"client_id\":2,\"sequence\":10,\"table_name\":\"table_name\",\
         \"action\":\"upsert\",\"key_names\":[\"id\"],\"data\":{\"id\":7}},\
         {\"client_id\":2,\"sequence\":10,\"table_name\":\"table_name\",\
         \"action\":\"upsert\",\"key_names\":[\"id\"],\"data\":{\"id\":8}}]"
    );
}

#[test]
fn empty_batch_body_is_empty_array() {
    let client = StitchClient::new(3, String::from("tok"));
    let body = body_text(&client, Endpoint::Validate, Vec::new(), 1);
    assert_eq!(body, "[]");
}

#[test]
fn largest_delivery_numbers_render_in_full() {
    let client = StitchClient::new(u32::MAX, String::from("tok"));
    let body = body_text(&client, Endpoint::Push, vec![simple(0)], u64::MAX);
    assert!(body.contains("\"client_id\":4294967295,"));
    assert!(body.contains("\"sequence\":18446744073709551615,"));
}

#[test]
fn string_fields_are_json_escaped() {
    let client = StitchClient::new(1, String::from("tok"));
    let record = payload("a\"b\\c", vec!["line\nbreak"], "{}");
    let body = body_text(&client, Endpoint::Push, vec![record], 1);
    assert!(body.contains("\"table_name\":\"a\\\"b\\\\c\""));
    assert!(body.contains("\"key_names\":[\"line\\u000abreak\"]"));
}

#[test]
fn non_ascii_field_text_stays_utf8() {
    let client = StitchClient::new(1, String::from("tok"));
    let record = payload("tablé", vec!["id"], "{}");
    let body = body_text(&client, Endpoint::Push, vec![record], 1);
    assert!(body.contains("\"table_name\":\"tablé\""));
}

#[test]
fn several_key_names_render_in_declared_order() {
    let client = StitchClient::new(1, String::from("tok"));
    let record = payload("t", vec!["id", "name", "kind"], "{}");
    let body = body_text(&client, Endpoint::Push, vec![record], 1);
    assert!(body.contains("\"key_names\":[\"id\",\"name\",\"kind\"]"));
}

#[test]
fn dispatch_request_carries_headers_and_length() {
    let client = StitchClient::new(1, String::from("secret-token"));
    let req = client.upsert_helper(Endpoint::Push, vec![simple(1)], 5);
    assert_eq!(req.method, Method::Post);
    assert_eq!(req.url, "https://api.stitchdata.com/v2/import/push");
    assert_eq!(req.bearer_token.as_deref(), Some("secret-token"));
    assert!(req.content_type_json);
    let body = req.body.unwrap();
    assert_eq!(req.content_length, Some(body.len() as u64));
}

#[test]
fn validate_and_push_hit_their_endpoints() {
    let client = StitchClient::new(1, String::from("tok"));
    let validate = client.validate_batch(vec![simple(1)]);
    assert_eq!(validate.url, "https://api.stitchdata.com/v2/import/validate");
    assert_eq!(validate.method, Method::Post);
    let push = client.upsert_batch(vec![simple(1)]);
    assert_eq!(push.url, "https://api.stitchdata.com/v2/import/push");
    assert_eq!(push.method, Method::Post);
}
