//! Wire encoding of protocol messages.
//!
//! One encoding is fixed per builder and applied uniformly to the
//! invocation message and to every frame it spawns.  Two formats are
//! offered: a human-readable JSON text and a compact length-delimited
//! binary envelope.  In both, an argument or item payload travels as its
//! canonical JSON text; the formats differ only in the surrounding
//! representation, never in correlation semantics.

use vstd::prelude::*;
use vstd::string::*;
use vstd::utf8::encode_utf8;
use crate::protocol::{opt_text, opt_texts, Invocation, StreamInvocation};

verus! {

/// The wire encoding selected for one connection.
#[derive(Debug, Clone, Copy, PartialEq, Eq, Structural)]
pub enum MessageEncoding {
    /// Human-readable JSON text.
    Json,
    /// Compact length-delimited binary envelope.
    Binary,
}

/// One fully encoded outbound message.
#[derive(Debug, Clone, PartialEq, Eq)]
pub enum ClientMessage {
    Json(String),
    Binary(Vec<u8>),
}

/// The JSON string literal (quotes and escapes included) denoting the
/// characters `s`.
pub uninterp spec fn json_string_of(s: Seq<char>) -> Seq<char>;

/// Relies on `serde_json::to_string` on a string slice: the JSON string
/// literal is a function of the characters alone, and serializing a
/// string slice does not fail.
#[verifier::external_body]
fn encode_json_string(s: &str) -> (r: String)
    ensures
        r@ == json_string_of(s@),
{
    serde_json::to_string(s).unwrap()
}

// ---------------------------------------------------------------------
// JSON text form
// ---------------------------------------------------------------------

/// The items joined with a comma between each pair.
pub open spec fn comma_joined(items: Seq<Seq<char>>) -> Seq<char>
    decreases items.len(),
{
    if items.len() == 0 {
        Seq::empty()
    } else if items.len() == 1 {
        items[0]
    } else {
        comma_joined(items.drop_last()) + ","@ + items.last()
    }
}

/// Each id rendered as a JSON string literal.
pub open spec fn quoted_views(ids: Seq<Seq<char>>) -> Seq<Seq<char>> {
    ids.map_values(|s: Seq<char>| json_string_of(s))
}

/// The comma-joined list of the ids as JSON string literals.
pub open spec fn quoted_list_text(ids: Seq<Seq<char>>) -> Seq<char> {
    comma_joined(quoted_views(ids))
}

/// The `"invocationId"` member, present exactly when an id is present.
pub open spec fn invocation_id_segment_text(id: Option<Seq<char>>) -> Seq<char> {
    match id {
        Option::Some(i) => ",\"invocationId\":"@ + json_string_of(i),
        Option::None => Seq::<char>::empty(),
    }
}

/// The `"arguments"` member, absent exactly when no argument list is
/// carried.
pub open spec fn arguments_segment_text(arguments: Option<Seq<Seq<char>>>) -> Seq<char> {
    match arguments {
        Option::Some(a) => ",\"arguments\":["@ + comma_joined(a) + "]"@,
        Option::None => Seq::<char>::empty(),
    }
}

/// The JSON text of an invocation message.
pub open spec fn invocation_text(
    target: Seq<char>,
    arguments: Option<Seq<Seq<char>>>,
    invocation_id: Option<Seq<char>>,
    stream_ids: Seq<Seq<char>>,
) -> Seq<char> {
    "{\"type\":1"@ + invocation_id_segment_text(invocation_id) + ",\"target\":"@
        + json_string_of(target) + arguments_segment_text(arguments) + ",\"streamIds\":["@
        + quoted_list_text(stream_ids) + "]}"@
}

/// The JSON text of a stream-invocation message; the argument list is
/// always carried, even when empty.
pub open spec fn stream_invocation_text(
    invocation_id: Seq<char>,
    target: Seq<char>,
    arguments: Seq<Seq<char>>,
    stream_ids: Seq<Seq<char>>,
) -> Seq<char> {
    "{\"type\":4,\"invocationId\":"@ + json_string_of(invocation_id) + ",\"target\":"@
        + json_string_of(target) + ",\"arguments\":["@ + comma_joined(arguments) + "]"@
        + ",\"streamIds\":["@ + quoted_list_text(stream_ids) + "]}"@
}

/// The JSON text of one item frame of the stream `stream_id`.
pub open spec fn stream_item_text(stream_id: Seq<char>, item: Seq<char>) -> Seq<char> {
    "{\"type\":2,\"invocationId\":"@ + json_string_of(stream_id) + ",\"item\":"@ + item + "}"@
}

/// The JSON text of the completion frame of the stream `stream_id`.
pub open spec fn completion_text(stream_id: Seq<char>) -> Seq<char> {
    "{\"type\":3,\"invocationId\":"@ + json_string_of(stream_id) + "}"@
}

/// A fire-and-forget invocation with no plain arguments carries neither
/// an `invocationId` member nor an `arguments` member: its text is just
/// the type tag, the target and the stream ids.
pub proof fn lemma_fire_and_forget_text(target: Seq<char>, stream_ids: Seq<Seq<char>>)
    ensures
        invocation_text(target, Option::None, Option::None, stream_ids) =~= "{\"type\":1,\"target\":"@
            + json_string_of(target) + ",\"streamIds\":["@ + quoted_list_text(stream_ids) + "]}"@,
{
    reveal_strlit("{\"type\":1");
    reveal_strlit(",\"target\":");
    reveal_strlit("{\"type\":1,\"target\":");
}

// ---------------------------------------------------------------------
// Binary form
// ---------------------------------------------------------------------

/// `n` as eight little-endian bytes.
pub open spec fn le_u64(n: u64) -> Seq<u8> {
    seq![
        (n & 0xff) as u8,
        ((n >> 8) & 0xff) as u8,
        ((n >> 16) & 0xff) as u8,
        ((n >> 24) & 0xff) as u8,
        ((n >> 32) & 0xff) as u8,
        ((n >> 40) & 0xff) as u8,
        ((n >> 48) & 0xff) as u8,
        ((n >> 56) & 0xff) as u8,
    ]
}

/// The UTF-8 bytes of `s`, preceded by their count.
pub open spec fn text_block(s: Seq<char>) -> Seq<u8> {
    le_u64(encode_utf8(s).len() as u64) + encode_utf8(s)
}

/// The text blocks of the items, in order.
pub open spec fn text_blocks(items: Seq<Seq<char>>) -> Seq<u8>
    decreases items.len(),
{
    if items.len() == 0 {
        Seq::empty()
    } else {
        text_blocks(items.drop_last()) + text_block(items.last())
    }
}

/// The item count followed by the items' text blocks.
pub open spec fn list_block(items: Seq<Seq<char>>) -> Seq<u8> {
    le_u64(items.len() as u64) + text_blocks(items)
}

/// A presence byte, followed by a text block when the text is present.
pub open spec fn option_block(o: Option<Seq<char>>) -> Seq<u8> {
    match o {
        Option::Some(s) => seq![1u8] + text_block(s),
        Option::None => seq![0u8],
    }
}

/// A presence byte, followed by a list block when the list is present.
pub open spec fn option_list_block(o: Option<Seq<Seq<char>>>) -> Seq<u8> {
    match o {
        Option::Some(a) => seq![1u8] + list_block(a),
        Option::None => seq![0u8],
    }
}

/// The binary form of an invocation message.
pub open spec fn invocation_bytes(
    target: Seq<char>,
    arguments: Option<Seq<Seq<char>>>,
    invocation_id: Option<Seq<char>>,
    stream_ids: Seq<Seq<char>>,
) -> Seq<u8> {
    seq![1u8] + text_block(target) + option_block(invocation_id) + option_list_block(arguments)
        + list_block(stream_ids)
}

/// The binary form of a stream-invocation message.
pub open spec fn stream_invocation_bytes(
    invocation_id: Seq<char>,
    target: Seq<char>,
    arguments: Seq<Seq<char>>,
    stream_ids: Seq<Seq<char>>,
) -> Seq<u8> {
    seq![4u8] + text_block(invocation_id) + text_block(target) + list_block(arguments)
        + list_block(stream_ids)
}

/// The binary form of one item frame of the stream `stream_id`.
pub open spec fn stream_item_bytes(stream_id: Seq<char>, item: Seq<char>) -> Seq<u8> {
    seq![2u8] + text_block(stream_id) + text_block(item)
}

/// The binary form of the completion frame of the stream `stream_id`.
pub open spec fn completion_bytes(stream_id: Seq<char>) -> Seq<u8> {
    seq![3u8] + text_block(stream_id)
}

// ---------------------------------------------------------------------
// Message predicates
// ---------------------------------------------------------------------

/// `m` is the invocation message with the given content, in the format
/// `enc` selects.
pub open spec fn is_invocation_message(
    m: ClientMessage,
    enc: MessageEncoding,
    target: Seq<char>,
    arguments: Option<Seq<Seq<char>>>,
    invocation_id: Option<Seq<char>>,
    stream_ids: Seq<Seq<char>>,
) -> bool {
    match m {
        ClientMessage::Json(t) => enc == MessageEncoding::Json && t@ == invocation_text(
            target,
            arguments,
            invocation_id,
            stream_ids,
        ),
        ClientMessage::Binary(b) => enc == MessageEncoding::Binary && b@ == invocation_bytes(
            target,
            arguments,
            invocation_id,
            stream_ids,
        ),
    }
}

/// `m` is the stream-invocation message with the given content, in the
/// format `enc` selects.
pub open spec fn is_stream_invocation_message(
    m: ClientMessage,
    enc: MessageEncoding,
    invocation_id: Seq<char>,
    target: Seq<char>,
    arguments: Seq<Seq<char>>,
    stream_ids: Seq<Seq<char>>,
) -> bool {
    match m {
        ClientMessage::Json(t) => enc == MessageEncoding::Json && t@ == stream_invocation_text(
            invocation_id,
            target,
            arguments,
            stream_ids,
        ),
        ClientMessage::Binary(b) => enc == MessageEncoding::Binary && b@ == stream_invocation_bytes(
            invocation_id,
            target,
            arguments,
            stream_ids,
        ),
    }
}

/// `m` is an item frame of the stream `stream_id` carrying payload
/// `item`, in the format `enc` selects.
pub open spec fn is_stream_item_message(
    m: ClientMessage,
    enc: MessageEncoding,
    stream_id: Seq<char>,
    item: Seq<char>,
) -> bool {
    match m {
        ClientMessage::Json(t) => enc == MessageEncoding::Json && t@ == stream_item_text(
            stream_id,
            item,
        ),
        ClientMessage::Binary(b) => enc == MessageEncoding::Binary && b@ == stream_item_bytes(
            stream_id,
            item,
        ),
    }
}

/// `m` is an item frame of the stream `stream_id` carrying some payload,
/// in the format `enc` selects.
pub open spec fn is_stream_item_message_of(
    m: ClientMessage,
    enc: MessageEncoding,
    stream_id: Seq<char>,
) -> bool {
    exists|item: Seq<char>| is_stream_item_message(m, enc, stream_id, item)
}

/// `m` is the completion frame of the stream `stream_id`, in the format
/// `enc` selects.
pub open spec fn is_completion_message(
    m: ClientMessage,
    enc: MessageEncoding,
    stream_id: Seq<char>,
) -> bool {
    match m {
        ClientMessage::Json(t) => enc == MessageEncoding::Json && t@ == completion_text(stream_id),
        ClientMessage::Binary(b) => enc == MessageEncoding::Binary && b@ == completion_bytes(
            stream_id,
        ),
    }
}

// ---------------------------------------------------------------------
// JSON text builders
// ---------------------------------------------------------------------

proof fn lemma_comma_joined_step(items: Seq<Seq<char>>, i: int)
    requires
        0 <= i < items.len(),
    ensures
        comma_joined(items.take(i + 1)) == if i == 0 {
            items[0]
        } else {
            comma_joined(items.take(i)) + ","@ + items[i]
        },
{
    assert(items.take(i + 1).drop_last() =~= items.take(i));
    assert(items.take(i + 1).last() == items[i]);
    if i == 0 {
        assert(items.take(1)[0] == items[0]);
    }
}

/// Joins the items with commas, in order.
fn join_comma(items: &Vec<String>) -> (r: String)
    ensures
        r@ == comma_joined(items.deep_view()),
{
    let mut out = String::new();
    let mut i: usize = 0;
    while i < items.len()
        invariant
            i <= items@.len(),
            out@ == comma_joined(items.deep_view().take(i as int)),
        decreases items@.len() - i,
    {
        if i > 0 {
            out.append(",");
        }
        out.append(items[i].as_str());
        proof {
            lemma_comma_joined_step(items.deep_view(), i as int);
            assert(items.deep_view()[i as int] == items@[i as int]@);
            if i == 0 {
                assert(out@ =~= items.deep_view()[0]);
            }
        }
        i += 1;
    }
    proof {
        assert(items.deep_view().take(items.deep_view().len() as int) =~= items.deep_view());
    }
    out
}

/// Renders each id as a JSON string literal and joins them with commas.
fn join_quoted(ids: &Vec<String>) -> (r: String)
    ensures
        r@ == quoted_list_text(ids.deep_view()),
{
    let mut quoted: Vec<String> = Vec::new();
    let mut i: usize = 0;
    while i < ids.len()
        invariant
            i <= ids@.len(),
            quoted@.len() == i,
            forall|j: int|
                0 <= j < i ==> quoted.deep_view()[j] == json_string_of(ids.deep_view()[j]),
        decreases ids@.len() - i,
    {
        let ghost prev = quoted;
        quoted.push(encode_json_string(ids[i].as_str()));
        proof {
            assert(ids.deep_view()[i as int] == ids@[i as int]@);
            assert forall|j: int| 0 <= j < i + 1 implies quoted.deep_view()[j] == json_string_of(
                ids.deep_view()[j],
            ) by {
                if j < i {
                    assert(quoted@[j] == prev@[j]);
                    assert(prev.deep_view()[j] == json_string_of(ids.deep_view()[j]));
                } else {
                    assert(quoted@[j]@ == json_string_of(ids@[i as int]@));
                }
            }
        }
        i += 1;
    }
    proof {
        assert(quoted.deep_view() =~= quoted_views(ids.deep_view()));
    }
    join_comma(&quoted)
}

/// The `"invocationId"` member for `id`, empty when `id` is absent.
fn invocation_id_segment(id: &Option<String>) -> (r: String)
    ensures
        r@ == invocation_id_segment_text(opt_text(*id)),
{
    match id {
        Some(i) => {
            let mut s = ",\"invocationId\":".to_owned();
            s.append(encode_json_string(i.as_str()).as_str());
            s
        },
        None => String::new(),
    }
}

/// The `"arguments"` member for `arguments`, empty when absent.
fn arguments_segment(arguments: &Option<Vec<String>>) -> (r: String)
    ensures
        r@ == arguments_segment_text(opt_texts(*arguments)),
{
    match arguments {
        Some(a) => {
            let mut s = ",\"arguments\":[".to_owned();
            s.append(join_comma(a).as_str());
            s.append("]");
            s
        },
        None => String::new(),
    }
}

/// The JSON text of `inv`.
fn json_invocation(inv: &Invocation) -> (r: String)
    ensures
        r@ == invocation_text(
            inv.target@,
            opt_texts(inv.arguments),
            opt_text(inv.invocation_id),
            inv.stream_ids.deep_view(),
        ),
{
    let mut out = "{\"type\":1".to_owned();
    out.append(invocation_id_segment(&inv.invocation_id).as_str());
    out.append(",\"target\":");
    out.append(encode_json_string(inv.target.as_str()).as_str());
    out.append(arguments_segment(&inv.arguments).as_str());
    out.append(",\"streamIds\":[");
    out.append(join_quoted(&inv.stream_ids).as_str());
    out.append("]}");
    out
}

/// The argument list of a stream invocation: always present on the wire.
pub open spec fn args_or_empty(arguments: Option<Seq<Seq<char>>>) -> Seq<Seq<char>> {
    match arguments {
        Option::Some(a) => a,
        Option::None => Seq::empty(),
    }
}

/// The JSON text of `inv`.
fn json_stream_invocation(inv: &StreamInvocation) -> (r: String)
    ensures
        r@ == stream_invocation_text(
            inv.invocation_id@,
            inv.target@,
            args_or_empty(opt_texts(inv.arguments)),
            inv.stream_ids.deep_view(),
        ),
{
    let mut out = "{\"type\":4,\"invocationId\":".to_owned();
    out.append(encode_json_string(inv.invocation_id.as_str()).as_str());
    out.append(",\"target\":");
    out.append(encode_json_string(inv.target.as_str()).as_str());
    out.append(",\"arguments\":[");
    match &inv.arguments {
        Some(a) => out.append(join_comma(a).as_str()),
        None => (),
    }
    out.append("]");
    out.append(",\"streamIds\":[");
    out.append(join_quoted(&inv.stream_ids).as_str());
    out.append("]}");
    proof {
        if inv.arguments is None {
            assert(comma_joined(args_or_empty(opt_texts(inv.arguments))) == Seq::<char>::empty());
            assert(out@ =~= stream_invocation_text(
                inv.invocation_id@,
                inv.target@,
                args_or_empty(opt_texts(inv.arguments)),
                inv.stream_ids.deep_view(),
            ));
        }
    }
    out
}

// ---------------------------------------------------------------------
// Binary builders
// ---------------------------------------------------------------------

/// Appends `n` as eight little-endian bytes.
fn push_le_u64(out: &mut Vec<u8>, n: u64)
    ensures
        final(out)@ == old(out)@ + le_u64(n),
{
    out.push((n & 0xff) as u8);
    out.push(((n >> 8) & 0xff) as u8);
    out.push(((n >> 16) & 0xff) as u8);
    out.push(((n >> 24) & 0xff) as u8);
    out.push(((n >> 32) & 0xff) as u8);
    out.push(((n >> 40) & 0xff) as u8);
    out.push(((n >> 48) & 0xff) as u8);
    out.push(((n >> 56) & 0xff) as u8);
    proof {
        assert(out@ =~= old(out)@ + le_u64(n));
    }
}

/// Appends the text block of `s`.
fn push_text_block(out: &mut Vec<u8>, s: &String)
    ensures
        final(out)@ == old(out)@ + text_block(s@),
{
    let mut bytes = s.as_str().as_bytes_vec();
    push_le_u64(out, bytes.len() as u64);
    out.append(&mut bytes);
    proof {
        assert(out@ =~= old(out)@ + text_block(s@));
    }
}

proof fn lemma_text_blocks_step(items: Seq<Seq<char>>, i: int)
    requires
        0 <= i < items.len(),
    ensures
        text_blocks(items.take(i + 1)) == text_blocks(items.take(i)) + text_block(items[i]),
{
    assert(items.take(i + 1).drop_last() =~= items.take(i));
    assert(items.take(i + 1).last() == items[i]);
}

/// Appends the list block of the items.
fn push_list_block(out: &mut Vec<u8>, items: &Vec<String>)
    ensures
        final(out)@ == old(out)@ + list_block(items.deep_view()),
{
    push_le_u64(out, items.len() as u64);
    let ghost mid = out@;
    let mut i: usize = 0;
    while i < items.len()
        invariant
            i <= items@.len(),
            out@ == mid + text_blocks(items.deep_view().take(i as int)),
        decreases items@.len() - i,
    {
        proof {
            lemma_text_blocks_step(items.deep_view(), i as int);
            assert(items.deep_view()[i as int] == items@[i as int]@);
        }
        push_text_block(out, &items[i]);
        proof {
            assert(out@ =~= mid + text_blocks(items.deep_view().take(i + 1)));
        }
        i += 1;
    }
    proof {
        assert(items.deep_view().take(items.deep_view().len() as int) =~= items.deep_view());
        assert(out@ =~= old(out)@ + list_block(items.deep_view()));
    }
}

/// The binary form of `inv`.
fn bin_invocation(inv: &Invocation) -> (r: Vec<u8>)
    ensures
        r@ == invocation_bytes(
            inv.target@,
            opt_texts(inv.arguments),
            opt_text(inv.invocation_id),
            inv.stream_ids.deep_view(),
        ),
{
    let mut out: Vec<u8> = Vec::new();
    out.push(1u8);
    push_text_block(&mut out, &inv.target);
    match &inv.invocation_id {
        Some(id) => {
            out.push(1u8);
            push_text_block(&mut out, id);
        },
        None => out.push(0u8),
    }
    match &inv.arguments {
        Some(a) => {
            out.push(1u8);
            push_list_block(&mut out, a);
        },
        None => out.push(0u8),
    }
    push_list_block(&mut out, &inv.stream_ids);
    proof {
        assert(out@ =~= invocation_bytes(
            inv.target@,
            opt_texts(inv.arguments),
            opt_text(inv.invocation_id),
            inv.stream_ids.deep_view(),
        ));
    }
    out
}

/// The binary form of `inv`.
fn bin_stream_invocation(inv: &StreamInvocation) -> (r: Vec<u8>)
    ensures
        r@ == stream_invocation_bytes(
            inv.invocation_id@,
            inv.target@,
            args_or_empty(opt_texts(inv.arguments)),
            inv.stream_ids.deep_view(),
        ),
{
    let mut out: Vec<u8> = Vec::new();
    out.push(4u8);
    push_text_block(&mut out, &inv.invocation_id);
    push_text_block(&mut out, &inv.target);
    match &inv.arguments {
        Some(a) => push_list_block(&mut out, a),
        None => {
            let empty: Vec<String> = Vec::new();
            push_list_block(&mut out, &empty);
            proof {
                assert(empty.deep_view() =~= args_or_empty(opt_texts(inv.arguments)));
            }
        },
    }
    push_list_block(&mut out, &inv.stream_ids);
    proof {
        assert(out@ =~= stream_invocation_bytes(
            inv.invocation_id@,
            inv.target@,
            args_or_empty(opt_texts(inv.arguments)),
            inv.stream_ids.deep_view(),
        ));
    }
    out
}

// ---------------------------------------------------------------------
// Serialization entry points
// ---------------------------------------------------------------------

impl MessageEncoding {
    /// Encodes an invocation message in this format.
    pub fn serialize_invocation(&self, inv: &Invocation) -> (r: ClientMessage)
        ensures
            is_invocation_message(
                r,
                *self,
                inv.target@,
                opt_texts(inv.arguments),
                opt_text(inv.invocation_id),
                inv.stream_ids.deep_view(),
            ),
    {
        match self {
            MessageEncoding::Json => ClientMessage::Json(json_invocation(inv)),
            MessageEncoding::Binary => ClientMessage::Binary(bin_invocation(inv)),
        }
    }

    /// Encodes a stream-invocation message in this format.
    pub fn serialize_stream_invocation(&self, inv: &StreamInvocation) -> (r: ClientMessage)
        ensures
            is_stream_invocation_message(
                r,
                *self,
                inv.invocation_id@,
                inv.target@,
                args_or_empty(opt_texts(inv.arguments)),
                inv.stream_ids.deep_view(),
            ),
    {
        match self {
            MessageEncoding::Json => ClientMessage::Json(json_stream_invocation(inv)),
            MessageEncoding::Binary => ClientMessage::Binary(bin_stream_invocation(inv)),
        }
    }

    /// Encodes one item frame of the stream `stream_id` in this format.
    pub fn serialize_stream_item(&self, stream_id: &String, item: &String) -> (r: ClientMessage)
        ensures
            is_stream_item_message(r, *self, stream_id@, item@),
    {
        match self {
            MessageEncoding::Json => {
                let mut out = "{\"type\":2,\"invocationId\":".to_owned();
                out.append(encode_json_string(stream_id.as_str()).as_str());
                out.append(",\"item\":");
                out.append(item.as_str());
                out.append("}");
                ClientMessage::Json(out)
            },
            MessageEncoding::Binary => {
                let mut out: Vec<u8> = Vec::new();
                out.push(2u8);
                push_text_block(&mut out, stream_id);
                push_text_block(&mut out, item);
                proof {
                    assert(out@ =~= stream_item_bytes(stream_id@, item@));
                }
                ClientMessage::Binary(out)
            },
        }
    }

    /// Encodes the completion frame of the stream `stream_id` in this
    /// format.
    pub fn serialize_completion(&self, stream_id: &String) -> (r: ClientMessage)
        ensures
            is_completion_message(r, *self, stream_id@),
    {
        match self {
            MessageEncoding::Json => {
                let mut out = "{\"type\":3,\"invocationId\":".to_owned();
                out.append(encode_json_string(stream_id.as_str()).as_str());
                out.append("}");
                ClientMessage::Json(out)
            },
            MessageEncoding::Binary => {
                let mut out: Vec<u8> = Vec::new();
                out.push(3u8);
                push_text_block(&mut out, stream_id);
                proof {
                    assert(out@ =~= completion_bytes(stream_id@));
                }
                ClientMessage::Binary(out)
            },
        }
    }
}

} // verus!
