use stitch::batcher::BatcherState;
use stitch::batcher::StreamBatcher;
use stitch::transport::Endpoint;
use stitch::Message;
use stitch::PlainRecord;
use stitch::RawUpsertRequest;
use stitch::StitchClient;
use stitch::UpsertRequest;

fn test_record(id: u32, name: &str) -> PlainRecord {
    PlainRecord {
        table_name: String::from("test_integration"),
        key_names: vec![String::from("id"), String::from("name")],
        data_json: format!("{{\"id\":{},\"name\":\"{}\"}}", id, name),
    }
}

#[test]
fn envelope_action_is_always_upsert() {
    let record = test_record(1, "name_1");
    let raw = RawUpsertRequest::build(UpsertRequest::new(9, 42, record));
    assert_eq!(raw.action, "upsert");
}

#[test]
fn envelope_key_names_match_declared_keys() {
    let record = test_record(2, "name_2");
    let declared = record.get_keys();
    let raw = RawUpsertRequest::build(UpsertRequest::new(9, 42, record));
    assert_eq!(raw.key_names, declared);
    assert_eq!(raw.key_names, vec![String::from("id"), String::from("name")]);
}

#[test]
fn envelope_copies_delivery_numbers_and_table() {
    let record = test_record(3, "name_3");
    let raw = RawUpsertRequest::build(UpsertRequest::new(17, 123456, record));
    assert_eq!(raw.client_id, 17);
    assert_eq!(raw.sequence, 123456);
    assert_eq!(raw.table_name, "test_integration");
    assert_eq!(raw.data.data_json, "{\"id\":3,\"name\":\"name_3\"}");
}

#[test]
fn upsert_record_carries_client_identity() {
    let client = StitchClient::new(5, String::from("tok"));
    assert_eq!(client.client_id(), 5);
    let record = test_record(4, "name_4");
    let req = client.upsert_record(record);
    assert_eq!(req.client_id, 5);
    assert_eq!(req.data.table_name, "test_integration");
}

#[test]
pub fn test_buffered_stream() {
    let client = StitchClient::new(10, String::from("tok"));

    let records: Vec<PlainRecord> = (1..=7)
        .map(|i| {
            PlainRecord {
                table_name: String::from("test_integration"),
                key_names: vec![String::from("id"), String::from("name")],
                data_json: format!(
                    "{{\"id\":{},\"name\":\"name_{}\",\"inner\":{{\"description\":\"description_{}\"}}}}",
                    i, i, i
                ),
            }
        })
        .collect();

    // A validate request over the first two records is well-formed.
    let validate = client.upsert_helper(
        Endpoint::Validate,
        vec![
            client.upsert_record(records[0].clone()),
            client.upsert_record(records[1].clone()),
        ]
        .into_iter()
        .map(|r| r.data)
        .collect(),
        1,
    );
    assert!(validate.body.is_some());

    // The stream is consumed in batches of three, in order.
    let mut batcher: StreamBatcher<PlainRecord> = client.buffer_channel(3).unwrap();
    let mut seen: Vec<String> = Vec::new();
    let mut batch_sizes: Vec<usize> = Vec::new();
    for record in records {
        if let Some(full) = batcher.push(record) {
            batch_sizes.push(full.len());
            seen.extend(full.into_iter().map(|r| r.data_json));
            assert!(batcher.dispatch_resolved(Ok(Vec::new())).is_none());
        }
    }
    if let Some(partial) = batcher.close() {
        batch_sizes.push(partial.len());
        seen.extend(partial.into_iter().map(|r| r.data_json));
        assert!(batcher.dispatch_resolved(Ok(Vec::new())).is_none());
    }
    assert_eq!(batcher.state, BatcherState::Done);
    assert_eq!(batch_sizes, vec![3, 3, 1]);
    for (i, json) in seen.iter().enumerate() {
        assert!(json.contains(&format!("\"name\":\"name_{}\"", i + 1)));
        assert!(json.contains(&format!("\"description\":\"description_{}\"", i + 1)));
    }
}
