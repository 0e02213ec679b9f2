//! The user-facing client: shared transport state, single-shot batch
//! operations, and construction of the stream batcher.
//!
//! Every operation that talks to the service is split at the I/O
//! boundary: the client builds a fully specified [`HttpRequest`], the
//! surrounding I/O layer executes it, and the response comes back
//! through the classifiers in [`crate::util`].

use vstd::prelude::*;

use crate::batcher::BatcherState;
use crate::batcher::StreamBatcher;
use crate::error::Error;
use crate::json::spec_batch_body;
use crate::json::spec_batch_rest;
use crate::json::spec_envelope;
use crate::json::lemma_batch_rest_concat;
use crate::json::lemma_batch_rest_singleton;
use crate::json::COMMA;
use crate::json::LBRACKET;
use crate::json::RBRACKET;
use crate::message::Message;
use crate::message::RawUpsertRequest;
use crate::message::UpsertRequest;
use crate::transport::spec_status_url;
use crate::transport::status_url;
use crate::transport::Endpoint;
use crate::transport::HttpRequest;
use crate::transport::Method;
use crate::util::get_unix_timestamp_ms;

verus! {

/// The wire fields one record contributes to a batch body:
/// `(table, action, keys, data)`.
pub open spec fn wire_item<T: Message>(m: T) -> (Seq<char>, Seq<char>, Seq<Seq<char>>, Seq<
    char,
>) {
    (m.table_name_spec(), "upsert"@, m.keys_spec(), m.data_json_spec())
}

/// The wire fields of a whole batch, in order.
pub open spec fn wire_items<T: Message>(batch: Seq<T>) -> Seq<
    (Seq<char>, Seq<char>, Seq<Seq<char>>, Seq<char>),
> {
    batch.map_values(|m: T| wire_item(m))
}

/// The client: the identity assigned at construction and the bearer
/// token every authenticated request carries.  Nothing is mutated
/// after construction, so clones share freely.
#[derive(Clone)]
pub struct StitchClient {
    pub client_id: u32,
    pub auth_token: String,
}

/// What the builders promise of a batch dispatch request: a POST to
/// the endpoint's URL carrying the bearer token, a JSON content type,
/// the serialized batch body, and a content length equal to the
/// body's byte length.
pub open spec fn dispatch_request_ok(
    req: HttpRequest,
    client: StitchClient,
    endpoint: Endpoint,
    items: Seq<(Seq<char>, Seq<char>, Seq<Seq<char>>, Seq<char>)>,
    sequence: u64,
) -> bool {
    &&& req.method is Post
    &&& req.url@ == endpoint.spec_url()
    &&& (req.bearer_token matches Some(tok) && tok@ == client.auth_token@)
    &&& req.content_type_json
    &&& (req.body matches Some(body) && body@ == spec_batch_body(
        client.client_id,
        sequence,
        items,
    ))
    &&& (req.content_length matches Some(len) && len == spec_batch_body(
        client.client_id,
        sequence,
        items,
    ).len())
}

/// An envelope built for this dispatch: the delivery numbers it was
/// given, and wire fields read from this record.
spec fn raw_built<T: Message>(
    raw: RawUpsertRequest<T>,
    client_id: u32,
    sequence: u64,
    m: T,
) -> bool {
    &&& raw.client_id == client_id
    &&& raw.sequence == sequence
    &&& raw.data == m
    &&& raw.wf()
}

impl StitchClient {
    /// Creates a client with the given identity and bearer token.
    pub fn new(client_id: u32, auth_token: String) -> (c: Self)
        ensures
            c.client_id == client_id,
            c.auth_token == auth_token,
    {
        StitchClient { client_id, auth_token }
    }

    /// Returns the identity assigned at construction.
    pub fn client_id(&self) -> (r: u32)
        ensures
            r == self.client_id,
    {
        self.client_id
    }

    /// Wraps a single record for delivery.  The sequence value is
    /// taken from the wall clock in milliseconds, the service's
    /// ordering hint for conflict resolution.
    pub fn upsert_record<T: Message>(&self, data: T) -> (r: UpsertRequest<T>)
        ensures
            r.client_id == self.client_id,
            r.data == data,
    {
        let sequence = get_unix_timestamp_ms();
        UpsertRequest::new(self.client_id, sequence, data)
    }

    /// Builds the status-check request: an unauthenticated GET against
    /// the status endpoint, with no body.
    pub fn get_status(&self) -> (req: HttpRequest)
        ensures
            req.method is Get,
            req.url@ == spec_status_url(),
            req.bearer_token is None,
            !req.content_type_json,
            req.content_length is None,
            req.body is None,
    {
        HttpRequest {
            method: Method::Get,
            url: status_url(),
            bearer_token: None,
            content_type_json: false,
            content_length: None,
            body: None,
        }
    }

    /// Builds the dispatch request of one batch: every record is
    /// wrapped into an envelope under this client's identity and the
    /// given sequence value, the envelopes are serialized in order to
    /// the JSON batch body, and the request carries the headers the
    /// service expects.
    #[verifier::rlimit(100)]
    pub fn upsert_helper<T: Message>(&self, endpoint: Endpoint, batch: Vec<T>, sequence: u64) -> (req:
        HttpRequest)
        ensures
            dispatch_request_ok(req, *self, endpoint, wire_items(batch@), sequence),
    {
        let ghost batch0 = batch@;
        let ghost items = wire_items(batch0);
        let client_id = self.client_id;

        let mut raws: Vec<RawUpsertRequest<T>> = Vec::new();
        let mut rest = batch;
        proof {
            assert(rest@ =~= batch0.subrange(0, batch0.len() as int));
        }
        while rest.len() > 0
            invariant
                raws@.len() + rest@.len() == batch0.len(),
                rest@ == batch0.subrange(raws@.len() as int, batch0.len() as int),
                forall|j: int|
                    0 <= j < raws@.len() ==> raw_built(
                        #[trigger] raws@[j],
                        client_id,
                        sequence,
                        batch0[j],
                    ),
            decreases rest@.len(),
        {
            let ghost done = raws@.len() as int;
            let m = rest.remove(0);
            proof {
                assert(m == batch0[done]);
                assert(rest@ =~= batch0.subrange(done + 1, batch0.len() as int));
            }
            let raw = RawUpsertRequest::build(UpsertRequest::new(client_id, sequence, m));
            raws.push(raw);
        }

        let mut body: Vec<u8> = Vec::new();
        body.push(LBRACKET);
        let mut i: usize = 0;
        while i < raws.len()
            invariant
                i <= raws.len(),
                raws@.len() == batch0.len(),
                items == wire_items(batch0),
                items.len() == batch0.len(),
                forall|j: int|
                    0 <= j < raws@.len() ==> raw_built(
                        #[trigger] raws@[j],
                        client_id,
                        sequence,
                        batch0[j],
                    ),
                i == 0 ==> body@ == seq![LBRACKET],
                i > 0 ==> body@ == seq![LBRACKET] + spec_envelope(
                    client_id,
                    sequence,
                    items[0].0,
                    items[0].1,
                    items[0].2,
                    items[0].3,
                ) + spec_batch_rest(client_id, sequence, items.subrange(1, i as int)),
            decreases raws.len() - i,
        {
            proof {
                assert(items[i as int] == wire_item(batch0[i as int]));
            }
            if i > 0 {
                body.push(COMMA);
            }
            let ghost before = body@;
            raws[i].push_wire_json(&mut body);
            proof {
                let item = items[i as int];
                assert(raws@[i as int].spec_wire_json() == spec_envelope(
                    client_id,
                    sequence,
                    item.0,
                    item.1,
                    item.2,
                    item.3,
                ));
                if i == 0 {
                    assert(items.subrange(1, 1)
                        =~= Seq::<(Seq<char>, Seq<char>, Seq<Seq<char>>, Seq<char>)>::empty());
                } else {
                    let prefix = items.subrange(1, i as int);
                    let one = seq![item];
                    assert(items.subrange(1, i + 1) =~= prefix + one);
                    lemma_batch_rest_concat(client_id, sequence, prefix, one);
                    lemma_batch_rest_singleton(client_id, sequence, item);
                    assert(body@ =~= seq![LBRACKET] + spec_envelope(
                        client_id,
                        sequence,
                        items[0].0,
                        items[0].1,
                        items[0].2,
                        items[0].3,
                    ) + spec_batch_rest(client_id, sequence, items.subrange(1, i + 1)));
                }
            }
            i += 1;
        }
        body.push(RBRACKET);
        proof {
            if batch0.len() == 0 {
                assert(body@ =~= spec_batch_body(client_id, sequence, items));
            } else {
                assert(items.subrange(1, items.len() as int) =~= items.drop_first());
                assert(body@ =~= spec_batch_body(client_id, sequence, items));
            }
        }

        let content_length = body.len() as u64;
        HttpRequest {
            method: Method::Post,
            url: endpoint.url(),
            bearer_token: Some(self.auth_token.clone()),
            content_type_json: true,
            content_length: Some(content_length),
            body: Some(body),
        }
    }

    /// Builds the request that validates a batch against the service
    /// without ingesting it.  The sequence value is taken from the
    /// wall clock at call time.
    pub fn validate_batch<T: Message>(&self, record: Vec<T>) -> (req: HttpRequest)
        ensures
            exists|sequence: u64|
                dispatch_request_ok(req, *self, Endpoint::Validate, wire_items(record@), sequence),
    {
        let ghost r0 = record@;
        let sequence = get_unix_timestamp_ms();
        let req = self.upsert_helper(Endpoint::Validate, record, sequence);
        proof {
            assert(dispatch_request_ok(req, *self, Endpoint::Validate, wire_items(r0), sequence));
        }
        req
    }

    /// Builds the request that ingests a batch.  The sequence value is
    /// taken from the wall clock at call time.
    pub fn upsert_batch<T: Message>(&self, record: Vec<T>) -> (req: HttpRequest)
        ensures
            exists|sequence: u64|
                dispatch_request_ok(req, *self, Endpoint::Push, wire_items(record@), sequence),
    {
        let ghost r0 = record@;
        let sequence = get_unix_timestamp_ms();
        let req = self.upsert_helper(Endpoint::Push, record, sequence);
        proof {
            assert(dispatch_request_ok(req, *self, Endpoint::Push, wire_items(r0), sequence));
        }
        req
    }

    /// Creates the stream batcher for a long-running ingestion over
    /// this client.  A batch size of zero is rejected; the I/O layer
    /// then drives the batcher from its input queue.
    pub fn buffer_channel<T>(&self, batch_size: usize) -> (r: Result<StreamBatcher<T>, Error>)
        ensures
            batch_size == 0 ==> (r matches Err(e) && e matches Error::Buffer(msg) && msg@
                == "batch size must be at least 1"@),
            batch_size >= 1 ==> (r matches Ok(b) && b.wf() && b.batch_size == batch_size
                && b.state is Accumulating && b.buffer@ == Seq::<T>::empty()
                && b.history@ == Seq::<T>::empty() && b.batches@ == Seq::<Seq<T>>::empty()),
    {
        StreamBatcher::new(batch_size)
    }
}

} // verus!
