//! Propagation encoder.

use crate::common::base64_codec::{b64_decode_spec, b64_encode, b64_encode_spec, is_b64_char};
use crate::common::strings::{push_char, push_str};
use crate::common::text::{
    free_of, int_text, int_to_text, join_spec, lemma_int_text_roundtrip, lemma_split_join,
    split_spec,
};
use crate::trace::propagation::context::PropagationContextView;
use crate::trace::propagation::decoder::{
    decode_propagation_spec, decoded_text, parent_span_id, sample_status,
};
use crate::trace::trace_context::{TracingContext, TracingContextView};
use vstd::prelude::*;
use vstd::utf8::{decode_utf8, encode_utf8, valid_utf8};

verus! {

/// The base64 (standard alphabet, padded) text of the UTF-8 bytes of `t`.
pub open spec fn b64_text(t: Seq<char>) -> Seq<char> {
    b64_encode_spec(encode_utf8(t))
}

/// The UTF-8 bytes of `t` are few enough for their base64 length to fit in a
/// `usize`.
pub open spec fn encodable(t: Seq<char>) -> bool {
    encode_utf8(t).len() <= usize::MAX / 2
}

/// The span id that a context hands on: that of its active span, or 0.
pub open spec fn propagated_span_id(v: TracingContextView) -> int {
    if v.active.len() == 0 {
        0
    } else {
        v.active.last().span_id
    }
}

/// The 8 parts of the `sw8` header for context `v`, the destination
/// `endpoint` and `address`.
pub open spec fn propagation_parts(
    v: TracingContextView,
    endpoint: Seq<char>,
    address: Seq<char>,
) -> Seq<Seq<char>> {
    seq![
        seq!['1'],
        b64_text(v.trace_id),
        b64_text(v.trace_segment_id),
        int_text(propagated_span_id(v)),
        b64_text(v.service),
        b64_text(v.service_instance),
        b64_text(endpoint),
        b64_text(address),
    ]
}

/// The `sw8` header for context `v`: its parts joined by `-`.
pub open spec fn encode_propagation_spec(
    v: TracingContextView,
    endpoint: Seq<char>,
    address: Seq<char>,
) -> Seq<char> {
    join_spec(propagation_parts(v, endpoint, address), '-')
}

/// What the receiving side reads from the header of context `v`.
pub open spec fn propagated_view(
    v: TracingContextView,
    endpoint: Seq<char>,
    address: Seq<char>,
) -> PropagationContextView {
    PropagationContextView {
        do_sample: true,
        parent_trace_id: v.trace_id,
        parent_trace_segment_id: v.trace_segment_id,
        parent_span_id: propagated_span_id(v) as i32,
        parent_service: v.service,
        parent_service_instance: v.service_instance,
        destination_endpoint: endpoint,
        destination_address: address,
    }
}

/// The base64 text of a string: free of `-`, and read back as the string.
pub(crate) fn b64_of_str(s: &str) -> (r: String)
    requires
        encodable(s@),
    ensures
        r@ == b64_text(s@),
        free_of(r@, '-'),
        decoded_text(r@) == Some(s@),
{
    let r = b64_encode(s.as_bytes());
    proof {
        broadcast use vstd::utf8::encode_utf8_valid_utf8, vstd::utf8::encode_utf8_decode_utf8;

        assert(valid_utf8(encode_utf8(s@)));
        assert(decode_utf8(encode_utf8(s@)) == s@);
        assert forall|i: int| 0 <= i < r@.len() implies r@[i] != '-' by {
            assert(is_b64_char(r@[i]));
        }
        assert(b64_decode_spec(r@) == Some(encode_utf8(s@)));
    }
    r
}

/// Encode TracingContext to carry current trace info to the destination of RPC
/// call. In general, the output of this function will be packed in `sw8` header
/// in HTTP call.
///
/// Decoding the header gives back what was encoded: the sample flag set, the
/// trace ids, the span id, the service and instance of the context, and the
/// destination.
pub fn encode_propagation(context: &TracingContext, endpoint: &str, address: &str) -> (r: String)
    requires
        context@.wf(),
        encodable(context@.trace_id),
        encodable(context@.trace_segment_id),
        encodable(context@.service),
        encodable(context@.service_instance),
        encodable(endpoint@),
        encodable(address@),
    ensures
        r@ == encode_propagation_spec(context@, endpoint@, address@),
        decode_propagation_spec(r@) == Ok::<PropagationContextView, &'static str>(
            propagated_view(context@, endpoint@, address@),
        ),
{
    let trace_id = b64_of_str(context.trace_id());
    let segment_id = b64_of_str(context.trace_segment_id());
    let span_id: i32 = match context.peek_active_span_id() {
        Some(id) => id,
        None => 0,
    };
    let span_text = int_to_text(span_id as i64);
    let service = b64_of_str(context.service());
    let instance = b64_of_str(context.service_instance());
    let endpoint_text = b64_of_str(endpoint);
    let address_text = b64_of_str(address);

    let ghost v = context@;
    let ghost parts = propagation_parts(v, endpoint@, address@);
    assert(span_id as int == propagated_span_id(v)) by {
        if v.active.len() > 0 {
            assert(0 <= v.active[v.active.len() - 1].span_id < v.next_span_id);
        }
    }

    let mut r = String::new();
    push_char(&mut r, '1');
    assert(r@ =~= join_spec(parts.take(1), '-'));
    push_char(&mut r, '-');
    push_str(&mut r, trace_id.as_str());
    assert(parts.take(2).drop_last() =~= parts.take(1));
    assert(r@ =~= join_spec(parts.take(2), '-'));
    push_char(&mut r, '-');
    push_str(&mut r, segment_id.as_str());
    assert(parts.take(3).drop_last() =~= parts.take(2));
    assert(r@ =~= join_spec(parts.take(3), '-'));
    push_char(&mut r, '-');
    push_str(&mut r, span_text.as_str());
    assert(parts.take(4).drop_last() =~= parts.take(3));
    assert(r@ =~= join_spec(parts.take(4), '-'));
    push_char(&mut r, '-');
    push_str(&mut r, service.as_str());
    assert(parts.take(5).drop_last() =~= parts.take(4));
    assert(r@ =~= join_spec(parts.take(5), '-'));
    push_char(&mut r, '-');
    push_str(&mut r, instance.as_str());
    assert(parts.take(6).drop_last() =~= parts.take(5));
    assert(r@ =~= join_spec(parts.take(6), '-'));
    push_char(&mut r, '-');
    push_str(&mut r, endpoint_text.as_str());
    assert(parts.take(7).drop_last() =~= parts.take(6));
    assert(r@ =~= join_spec(parts.take(7), '-'));
    push_char(&mut r, '-');
    push_str(&mut r, address_text.as_str());
    assert(parts.take(8).drop_last() =~= parts.take(7));
    assert(parts.take(8) =~= parts);
    assert(r@ =~= join_spec(parts, '-'));

    proof {
        lemma_encoded_header_decodes(v, endpoint@, address@);
    }
    r
}

/// The header of a context decodes to what the context hands on.
proof fn lemma_encoded_header_decodes(v: TracingContextView, endpoint: Seq<char>, address: Seq<char>)
    requires
        v.wf(),
        0 <= propagated_span_id(v) <= i32::MAX,
        decoded_text(b64_text(v.trace_id)) == Some(v.trace_id),
        decoded_text(b64_text(v.trace_segment_id)) == Some(v.trace_segment_id),
        decoded_text(b64_text(v.service)) == Some(v.service),
        decoded_text(b64_text(v.service_instance)) == Some(v.service_instance),
        decoded_text(b64_text(endpoint)) == Some(endpoint),
        decoded_text(b64_text(address)) == Some(address),
        free_of(b64_text(v.trace_id), '-'),
        free_of(b64_text(v.trace_segment_id), '-'),
        free_of(b64_text(v.service), '-'),
        free_of(b64_text(v.service_instance), '-'),
        free_of(b64_text(endpoint), '-'),
        free_of(b64_text(address), '-'),
    ensures
        decode_propagation_spec(encode_propagation_spec(v, endpoint, address)) == Ok::<
            PropagationContextView,
            &'static str,
        >(propagated_view(v, endpoint, address)),
{
    let parts = propagation_parts(v, endpoint, address);
    let id = propagated_span_id(v);
    lemma_int_text_roundtrip(id);
    assert(free_of(seq!['1'], '-'));
    assert forall|i: int| 0 <= i < parts.len() implies free_of(#[trigger] parts[i], '-') by {}
    lemma_split_join(parts, '-');
    let p = split_spec(encode_propagation_spec(v, endpoint, address), '-');
    assert(p == parts);
    assert(p[0] == seq!['1']);
    assert(p[0] != seq!['0']) by {
        assert(p[0][0] != seq!['0'][0]);
    }
    assert(sample_status(p[0]) == Some(true));
    assert(parent_span_id(p[3]) == Some(id as i32));
}

} // verus!
