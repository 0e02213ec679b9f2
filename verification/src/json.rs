//! The JSON wire format of the ingestion API, as byte-level
//! specifications with verified renderers.
//!
//! A wire envelope is one JSON object per record:
//! `{"client_id":<n>,"sequence":<n>,"table_name":<s>,"action":<s>,
//! "key_names":[<s>,...],"data":<record JSON>}`, and a batch body is a
//! JSON array of envelopes.  The record payload arrives as JSON text
//! from the record itself and is embedded verbatim as its UTF-8 bytes.

use vstd::prelude::*;
use vstd::utf8::char_is_scalar;
use vstd::utf8::encode_scalar;
use vstd::utf8::encode_utf8;

verus! {

/// ASCII `"`.
pub const QUOTE: u8 = 0x22;

/// ASCII `\`.
pub const BACKSLASH: u8 = 0x5C;

/// ASCII `,`.
pub const COMMA: u8 = 0x2C;

/// ASCII `[`.
pub const LBRACKET: u8 = 0x5B;

/// ASCII `]`.
pub const RBRACKET: u8 = 0x5D;

/// ASCII `u`.
pub const LETTER_U: u8 = 0x75;

/// ASCII `0`.
pub const DIGIT_ZERO: u8 = 0x30;

/// The ASCII digit for a value below ten.
pub open spec fn spec_digit_byte(d: nat) -> u8
    recommends
        d < 10,
{
    (0x30 + d) as u8
}

/// The shortest decimal rendering of a number, as ASCII bytes.
pub open spec fn spec_decimal(n: nat) -> Seq<u8>
    decreases n,
{
    if n < 10 {
        seq![spec_digit_byte(n)]
    } else {
        spec_decimal(n / 10).push(spec_digit_byte(n % 10))
    }
}

/// Appends the decimal rendering of `n`.
pub fn push_decimal(out: &mut Vec<u8>, n: u64)
    ensures
        final(out)@ == old(out)@ + spec_decimal(n as nat),
    decreases n,
{
    if n < 10 {
        out.push(0x30 + n as u8);
        assert(out@ =~= old(out)@ + spec_decimal(n as nat));
    } else {
        push_decimal(out, n / 10);
        out.push(0x30 + (n % 10) as u8);
        assert(out@ =~= old(out)@ + spec_decimal(n as nat));
    }
}

/// The lowercase ASCII hex digit for a value below sixteen.
pub open spec fn spec_hex_digit(v: u32) -> u8
    recommends
        v < 16,
{
    if v < 10 {
        (0x30 + v) as u8
    } else {
        (0x57 + v) as u8
    }
}

fn hex_digit(v: u32) -> (r: u8)
    requires
        v < 16,
    ensures
        r == spec_hex_digit(v),
{
    if v < 10 {
        0x30 + v as u8
    } else {
        0x57 + v as u8
    }
}

/// The bytes a character contributes to a JSON string literal: quote
/// and backslash get a backslash escape, other control characters a
/// `\u00XX` escape, everything else its plain UTF-8 encoding.
pub open spec fn spec_escape_char(c: char) -> Seq<u8> {
    if c == '"' {
        seq![BACKSLASH, QUOTE]
    } else if c == '\\' {
        seq![BACKSLASH, BACKSLASH]
    } else if (c as u32) < 0x20 {
        seq![
            BACKSLASH,
            LETTER_U,
            DIGIT_ZERO,
            DIGIT_ZERO,
            spec_hex_digit((c as u32) >> 4),
            spec_hex_digit((c as u32) & 0xF),
        ]
    } else {
        encode_scalar(c as u32)
    }
}

/// The escaped bytes of a whole character sequence.
pub open spec fn spec_escape(s: Seq<char>) -> Seq<u8>
    decreases s.len(),
{
    if s.len() == 0 {
        seq![]
    } else {
        spec_escape_char(s[0]) + spec_escape(s.drop_first())
    }
}

/// A JSON string literal: the escaped characters between quotes.
pub open spec fn spec_json_string(s: Seq<char>) -> Seq<u8> {
    seq![QUOTE] + spec_escape(s) + seq![QUOTE]
}

/// The escaped bytes of a single character stand alone.
pub proof fn lemma_escape_singleton(c: char)
    ensures
        spec_escape(seq![c]) == spec_escape_char(c),
{
    let one = seq![c];
    assert(one.len() == 1);
    assert(one[0] == c);
    assert(one.drop_first() =~= Seq::<char>::empty());
    assert(spec_escape(one.drop_first()).len() == 0);
    assert(spec_escape(one) =~= spec_escape_char(c));
}

/// Escaping distributes over concatenation.
pub proof fn lemma_escape_concat(a: Seq<char>, b: Seq<char>)
    ensures
        spec_escape(a + b) == spec_escape(a) + spec_escape(b),
    decreases a.len(),
{
    if a.len() == 0 {
        assert(a + b =~= b);
        assert(spec_escape(a + b) =~= spec_escape(a) + spec_escape(b));
    } else {
        assert((a + b)[0] == a[0]);
        assert((a + b).drop_first() =~= a.drop_first() + b);
        lemma_escape_concat(a.drop_first(), b);
        assert(spec_escape(a + b) =~= spec_escape(a) + spec_escape(b));
    }
}

/// Appends the plain UTF-8 encoding of one character.
fn push_char_utf8(out: &mut Vec<u8>, c: char)
    ensures
        final(out)@ == old(out)@ + encode_scalar(c as u32),
{
    proof {
        char_is_scalar(c);
    }
    let v = c as u32;
    if v < 0x80 {
        out.push((v & 0x7F) as u8);
    } else if v < 0x800 {
        out.push(0xC0 | ((v >> 6) & 0x1F) as u8);
        out.push(0x80 | (v & 0x3F) as u8);
    } else if v < 0x10000 {
        out.push(0xE0 | ((v >> 12) & 0x0F) as u8);
        out.push(0x80 | ((v >> 6) & 0x3F) as u8);
        out.push(0x80 | (v & 0x3F) as u8);
    } else {
        out.push(0xF0 | ((v >> 18) & 0x7) as u8);
        out.push(0x80 | ((v >> 12) & 0x3F) as u8);
        out.push(0x80 | ((v >> 6) & 0x3F) as u8);
        out.push(0x80 | (v & 0x3F) as u8);
    }
    assert(out@ =~= old(out)@ + encode_scalar(c as u32));
}

fn push_escaped_char(out: &mut Vec<u8>, c: char)
    ensures
        final(out)@ == old(out)@ + spec_escape_char(c),
{
    if c == '"' {
        out.push(BACKSLASH);
        out.push(QUOTE);
        assert(out@ =~= old(out)@ + spec_escape_char(c));
    } else if c == '\\' {
        out.push(BACKSLASH);
        out.push(BACKSLASH);
        assert(out@ =~= old(out)@ + spec_escape_char(c));
    } else {
        let v = c as u32;
        if v < 0x20 {
            proof {
                assert(v < 0x20 ==> (v >> 4) < 16 && (v & 0xF) < 16) by (bit_vector);
            }
            out.push(BACKSLASH);
            out.push(LETTER_U);
            out.push(DIGIT_ZERO);
            out.push(DIGIT_ZERO);
            out.push(hex_digit(v >> 4));
            out.push(hex_digit(v & 0xF));
            assert(out@ =~= old(out)@ + spec_escape_char(c));
        } else {
            push_char_utf8(out, c);
        }
    }
}

/// Appends a JSON string literal holding `s`.
pub fn push_json_string(out: &mut Vec<u8>, s: &str)
    ensures
        final(out)@ == old(out)@ + spec_json_string(s@),
{
    out.push(QUOTE);
    let len = s.unicode_len();
    let mut i: usize = 0;
    while i < len
        invariant
            i <= len,
            len == s@.len(),
            out@ == old(out)@ + seq![QUOTE] + spec_escape(s@.take(i as int)),
        decreases len - i,
    {
        let c = s.get_char(i);
        push_escaped_char(out, c);
        proof {
            assert(s@.take(i + 1) =~= s@.take(i as int) + seq![s@[i as int]]);
            lemma_escape_concat(s@.take(i as int), seq![s@[i as int]]);
            lemma_escape_singleton(s@[i as int]);
        }
        i += 1;
    }
    proof {
        assert(s@.take(len as int) =~= s@);
    }
    out.push(QUOTE);
    assert(out@ =~= old(out)@ + spec_json_string(s@));
}

/// Appends the plain UTF-8 bytes of `s`, unescaped.
pub fn push_str_bytes(out: &mut Vec<u8>, s: &str)
    ensures
        final(out)@ == old(out)@ + encode_utf8(s@),
{
    let mut bytes = s.as_bytes_vec();
    out.append(&mut bytes);
}

/// The views of a vector of strings.
pub open spec fn views_of(keys: Seq<String>) -> Seq<Seq<char>> {
    keys.map_values(|k: String| k@)
}

/// The continuation of a JSON array of string literals: a leading
/// comma before each remaining element.
pub open spec fn spec_string_list_rest(keys: Seq<Seq<char>>) -> Seq<u8>
    decreases keys.len(),
{
    if keys.len() == 0 {
        seq![]
    } else {
        seq![COMMA] + spec_json_string(keys[0]) + spec_string_list_rest(keys.drop_first())
    }
}

/// A JSON array of string literals.
pub open spec fn spec_string_list(keys: Seq<Seq<char>>) -> Seq<u8> {
    if keys.len() == 0 {
        seq![LBRACKET, RBRACKET]
    } else {
        seq![LBRACKET] + spec_json_string(keys[0]) + spec_string_list_rest(keys.drop_first())
            + seq![RBRACKET]
    }
}

/// The continuation bytes of a single element stand alone.
pub proof fn lemma_string_list_rest_singleton(k: Seq<char>)
    ensures
        spec_string_list_rest(seq![k]) == seq![COMMA] + spec_json_string(k),
{
    let one = seq![k];
    assert(one.len() == 1);
    assert(one[0] == k);
    assert(one.drop_first() =~= Seq::<Seq<char>>::empty());
    assert(spec_string_list_rest(one.drop_first()).len() == 0);
    assert(spec_string_list_rest(one) =~= seq![COMMA] + spec_json_string(k));
}

/// The array continuation distributes over concatenation.
pub proof fn lemma_string_list_rest_concat(a: Seq<Seq<char>>, b: Seq<Seq<char>>)
    ensures
        spec_string_list_rest(a + b) == spec_string_list_rest(a) + spec_string_list_rest(b),
    decreases a.len(),
{
    if a.len() == 0 {
        assert(a + b =~= b);
        assert(spec_string_list_rest(a + b) =~= spec_string_list_rest(a)
            + spec_string_list_rest(b));
    } else {
        assert((a + b)[0] == a[0]);
        assert((a + b).drop_first() =~= a.drop_first() + b);
        lemma_string_list_rest_concat(a.drop_first(), b);
        assert(spec_string_list_rest(a + b) =~= spec_string_list_rest(a)
            + spec_string_list_rest(b));
    }
}

/// Appends a JSON array holding the strings of `keys`, in order.
pub fn push_string_list(out: &mut Vec<u8>, keys: &Vec<String>)
    ensures
        final(out)@ == old(out)@ + spec_string_list(views_of(keys@)),
{
    let ghost views = views_of(keys@);
    out.push(LBRACKET);
    let mut i: usize = 0;
    while i < keys.len()
        invariant
            i <= keys.len(),
            views == views_of(keys@),
            views.len() == keys.len(),
            i == 0 ==> out@ == old(out)@ + seq![LBRACKET],
            i > 0 ==> out@ == old(out)@ + seq![LBRACKET] + spec_json_string(views[0])
                + spec_string_list_rest(views.subrange(1, i as int)),
        decreases keys.len() - i,
    {
        proof {
            assert(views[i as int] == keys@[i as int]@);
        }
        if i == 0 {
            push_json_string(out, keys[i].as_str());
            proof {
                assert(views.subrange(1, 1) =~= Seq::<Seq<char>>::empty());
            }
        } else {
            out.push(COMMA);
            push_json_string(out, keys[i].as_str());
            proof {
                let prefix = views.subrange(1, i as int);
                let one = seq![views[i as int]];
                assert(views.subrange(1, i + 1) =~= prefix + one);
                lemma_string_list_rest_concat(prefix, one);
                lemma_string_list_rest_singleton(views[i as int]);
            }
        }
        i += 1;
    }
    out.push(RBRACKET);
    if keys.len() == 0 {
        assert(out@ =~= old(out)@ + spec_string_list(views));
    } else {
        proof {
            assert(views.subrange(1, views.len() as int) =~= views.drop_first());
        }
        assert(out@ =~= old(out)@ + spec_string_list(views));
    }
}

/// The wire envelope of one record: its delivery numbers and the
/// record's own fields, in the fixed field order of the wire format.
pub open spec fn spec_envelope(
    client_id: u32,
    sequence: u64,
    table: Seq<char>,
    action: Seq<char>,
    keys: Seq<Seq<char>>,
    data: Seq<char>,
) -> Seq<u8> {
    encode_utf8("{\"client_id\":"@) + spec_decimal(client_id as nat) + encode_utf8(
        ",\"sequence\":"@,
    ) + spec_decimal(sequence as nat) + encode_utf8(",\"table_name\":"@) + spec_json_string(table)
        + encode_utf8(",\"action\":"@) + spec_json_string(action) + encode_utf8(
        ",\"key_names\":"@,
    ) + spec_string_list(keys) + encode_utf8(",\"data\":"@) + encode_utf8(data) + encode_utf8("}"@)
}

/// Appends the wire envelope of one record.
#[verifier::rlimit(100)]
pub fn push_envelope(
    out: &mut Vec<u8>,
    client_id: u32,
    sequence: u64,
    table: &str,
    action: &str,
    keys: &Vec<String>,
    data: &str,
)
    ensures
        final(out)@ == old(out)@ + spec_envelope(
            client_id,
            sequence,
            table@,
            action@,
            views_of(keys@),
            data@,
        ),
{
    push_str_bytes(out, "{\"client_id\":");
    push_decimal(out, client_id as u64);
    push_str_bytes(out, ",\"sequence\":");
    push_decimal(out, sequence);
    push_str_bytes(out, ",\"table_name\":");
    push_json_string(out, table);
    push_str_bytes(out, ",\"action\":");
    push_json_string(out, action);
    push_str_bytes(out, ",\"key_names\":");
    push_string_list(out, keys);
    push_str_bytes(out, ",\"data\":");
    push_str_bytes(out, data);
    push_str_bytes(out, "}");
    assert(out@ =~= old(out)@ + spec_envelope(
        client_id,
        sequence,
        table@,
        action@,
        views_of(keys@),
        data@,
    ));
}

/// The continuation of a batch body: a leading comma before each
/// remaining envelope.  An item carries a record's wire fields as
/// `(table, action, keys, data)`.
pub open spec fn spec_batch_rest(
    client_id: u32,
    sequence: u64,
    items: Seq<(Seq<char>, Seq<char>, Seq<Seq<char>>, Seq<char>)>,
) -> Seq<u8>
    decreases items.len(),
{
    if items.len() == 0 {
        seq![]
    } else {
        seq![COMMA] + spec_envelope(
            client_id,
            sequence,
            items[0].0,
            items[0].1,
            items[0].2,
            items[0].3,
        ) + spec_batch_rest(client_id, sequence, items.drop_first())
    }
}

/// A batch body: the JSON array of the envelopes of all items, in
/// order, all under the same client id and sequence value.
pub open spec fn spec_batch_body(
    client_id: u32,
    sequence: u64,
    items: Seq<(Seq<char>, Seq<char>, Seq<Seq<char>>, Seq<char>)>,
) -> Seq<u8> {
    if items.len() == 0 {
        seq![LBRACKET, RBRACKET]
    } else {
        seq![LBRACKET] + spec_envelope(
            client_id,
            sequence,
            items[0].0,
            items[0].1,
            items[0].2,
            items[0].3,
        ) + spec_batch_rest(client_id, sequence, items.drop_first()) + seq![RBRACKET]
    }
}

/// The batch continuation of a single item stands alone.
pub proof fn lemma_batch_rest_singleton(
    client_id: u32,
    sequence: u64,
    item: (Seq<char>, Seq<char>, Seq<Seq<char>>, Seq<char>),
)
    ensures
        spec_batch_rest(client_id, sequence, seq![item]) == seq![COMMA] + spec_envelope(
            client_id,
            sequence,
            item.0,
            item.1,
            item.2,
            item.3,
        ),
{
    let one = seq![item];
    assert(one.len() == 1);
    assert(one[0] == item);
    assert(one.drop_first() =~= Seq::<(Seq<char>, Seq<char>, Seq<Seq<char>>, Seq<char>)>::empty());
    assert(spec_batch_rest(client_id, sequence, one.drop_first()).len() == 0);
    assert(spec_batch_rest(client_id, sequence, one) =~= seq![COMMA] + spec_envelope(
        client_id,
        sequence,
        item.0,
        item.1,
        item.2,
        item.3,
    ));
}

/// The batch continuation distributes over concatenation.
pub proof fn lemma_batch_rest_concat(
    client_id: u32,
    sequence: u64,
    a: Seq<(Seq<char>, Seq<char>, Seq<Seq<char>>, Seq<char>)>,
    b: Seq<(Seq<char>, Seq<char>, Seq<Seq<char>>, Seq<char>)>,
)
    ensures
        spec_batch_rest(client_id, sequence, a + b) == spec_batch_rest(client_id, sequence, a)
            + spec_batch_rest(client_id, sequence, b),
    decreases a.len(),
{
    if a.len() == 0 {
        assert(a + b =~= b);
        assert(spec_batch_rest(client_id, sequence, a + b) =~= spec_batch_rest(
            client_id,
            sequence,
            a,
        ) + spec_batch_rest(client_id, sequence, b));
    } else {
        assert((a + b)[0] == a[0]);
        assert((a + b).drop_first() =~= a.drop_first() + b);
        lemma_batch_rest_concat(client_id, sequence, a.drop_first(), b);
        assert(spec_batch_rest(client_id, sequence, a + b) =~= spec_batch_rest(
            client_id,
            sequence,
            a,
        ) + spec_batch_rest(client_id, sequence, b));
    }
}

} // verus!
