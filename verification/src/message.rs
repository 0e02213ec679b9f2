//! Records, delivery requests, and the wire envelope built from them.

use vstd::prelude::*;

use crate::json::spec_envelope;
use crate::json::push_envelope;
use crate::json::views_of;

verus! {

/// The capabilities a record must offer to be delivered: the table it
/// belongs to, its key field names, and its payload as JSON text.
///
/// A record is expected to keep all three stable for its lifetime;
/// they are read at envelope-build time, not cached earlier.
pub trait Message {
    /// The table name the record declares.
    spec fn table_name_spec(&self) -> Seq<char>;

    /// The ordered key field names the record declares.
    spec fn keys_spec(&self) -> Seq<Seq<char>>;

    /// The record's payload, as the JSON text it serializes to.
    spec fn data_json_spec(&self) -> Seq<char>;

    /// Returns the table name the record belongs to.
    fn get_table_name(&self) -> (r: String)
        ensures
            r@ == self.table_name_spec(),
    ;

    /// Returns the record's key field names, in order.
    fn get_keys(&self) -> (r: Vec<String>)
        ensures
            views_of(r@) == self.keys_spec(),
    ;

    /// Returns the record's payload rendered as JSON text.  With a
    /// serde-backed record type, implement this by serializing the
    /// payload.
    fn get_data_json(&self) -> (r: String)
        ensures
            r@ == self.data_json_spec(),
    ;
}

/// A ready-made record: its table name, key field names, and payload
/// JSON held as plain values.
///
/// Code outside this crate cannot implement [`Message`] itself, since
/// the trait's contracts are stated in specification functions; it
/// renders its payload to JSON up front and delivers a `PlainRecord`
/// instead.
#[derive(Debug, Clone)]
pub struct PlainRecord {
    pub table_name: String,
    pub key_names: Vec<String>,
    pub data_json: String,
}

impl Message for PlainRecord {
    open spec fn table_name_spec(&self) -> Seq<char> {
        self.table_name@
    }

    open spec fn keys_spec(&self) -> Seq<Seq<char>> {
        views_of(self.key_names@)
    }

    open spec fn data_json_spec(&self) -> Seq<char> {
        self.data_json@
    }

    fn get_table_name(&self) -> (r: String) {
        self.table_name.clone()
    }

    fn get_keys(&self) -> (r: Vec<String>) {
        let mut r: Vec<String> = Vec::new();
        let mut i: usize = 0;
        while i < self.key_names.len()
            invariant
                i <= self.key_names@.len(),
                r@ == self.key_names@.take(i as int),
            decreases self.key_names@.len() - i,
        {
            r.push(self.key_names[i].clone());
            proof {
                assert(r@ =~= self.key_names@.take(i + 1));
            }
            i += 1;
        }
        proof {
            assert(r@ =~= self.key_names@);
        }
        r
    }

    fn get_data_json(&self) -> (r: String) {
        self.data_json.clone()
    }
}

/// A record wrapped with its delivery metadata: the identity of the
/// producing client and a sequence value.
///
/// The sequence value is an ordering hint for the remote service's
/// conflict resolution: within one batching run it must not decrease,
/// and the wall clock in milliseconds is the usual source.
pub struct UpsertRequest<T: Message> {
    pub client_id: u32,
    pub sequence: u64,
    pub data: T,
}

impl<T: Message> UpsertRequest<T> {
    /// Wraps a record with its delivery metadata.
    pub fn new(client_id: u32, sequence: u64, data: T) -> (r: Self)
        ensures
            r.client_id == client_id,
            r.sequence == sequence,
            r.data == data,
    {
        UpsertRequest { client_id, sequence, data }
    }

    /// Every delivery request is an upsert.
    fn get_action(&self) -> (r: String)
        ensures
            r@ == "upsert"@,
    {
        String::from_str("upsert")
    }

    /// Returns the table name of the underlying record.
    fn get_table_name(&self) -> (r: String)
        ensures
            r@ == self.data.table_name_spec(),
    {
        self.data.get_table_name()
    }

    /// Returns the key field names of the underlying record.
    fn get_keys(&self) -> (r: Vec<String>)
        ensures
            views_of(r@) == self.data.keys_spec(),
    {
        self.data.get_keys()
    }
}

/// The wire-ready projection of an `UpsertRequest`: every envelope
/// field as a plain value, ready to serialize.  One-way; it exists for
/// the duration of one outbound request.
pub struct RawUpsertRequest<T: Message> {
    pub client_id: u32,
    pub sequence: u64,
    pub table_name: String,
    pub action: String,
    pub key_names: Vec<String>,
    pub data: T,
}

impl<T: Message> RawUpsertRequest<T> {
    /// The envelope fields agree with the record they were read from.
    pub open spec fn wf(self) -> bool {
        &&& self.table_name@ == self.data.table_name_spec()
        &&& self.action@ == "upsert"@
        &&& views_of(self.key_names@) == self.data.keys_spec()
    }

    /// The wire bytes of this envelope.
    pub open spec fn spec_wire_json(self) -> Seq<u8> {
        spec_envelope(
            self.client_id,
            self.sequence,
            self.table_name@,
            self.action@,
            views_of(self.key_names@),
            self.data.data_json_spec(),
        )
    }

    /// Builds the wire envelope of a delivery request: the delivery
    /// numbers are copied, the action is always `"upsert"`, and the
    /// table name and key names are read from the record at build
    /// time.
    pub fn build(req: UpsertRequest<T>) -> (r: Self)
        ensures
            r.client_id == req.client_id,
            r.sequence == req.sequence,
            r.table_name@ == req.data.table_name_spec(),
            r.action@ == "upsert"@,
            views_of(r.key_names@) == req.data.keys_spec(),
            r.data == req.data,
            r.wf(),
    {
        let table_name = req.get_table_name();
        let action = req.get_action();
        let key_names = req.get_keys();
        RawUpsertRequest {
            client_id: req.client_id,
            sequence: req.sequence,
            table_name,
            action,
            key_names,
            data: req.data,
        }
    }

    /// Appends this envelope's wire bytes.
    pub fn push_wire_json(&self, out: &mut Vec<u8>)
        ensures
            final(out)@ == old(out)@ + self.spec_wire_json(),
    {
        let data_json = self.data.get_data_json();
        push_envelope(
            out,
            self.client_id,
            self.sequence,
            self.table_name.as_str(),
            self.action.as_str(),
            &self.key_names,
            data_json.as_str(),
        );
    }
}

} // verus!
