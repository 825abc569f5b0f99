//! Propagation decoder.

use crate::common::base64_codec::{b64_decode, b64_decode_spec};
use crate::common::strings::string_from_utf8;
use crate::common::text::{parse_int, parse_int_spec, split_spec, split_str, views};
use crate::trace::propagation::context::{PropagationContext, PropagationContextView};
use vstd::prelude::*;
use vstd::utf8::{decode_utf8, valid_utf8};

verus! {

/// The error where the header does not have 8 parts.
pub const ERR_PROPERTIES: &'static str = "failed to parse propagation context: it must have 8 properties.";

/// The error where the parent span id is not an `i32`.
pub const ERR_SPAN_ID: &'static str = "failed to parse span id from parent.";

/// The error where the sample status is neither `0` nor `1`.
pub const ERR_SAMPLE: &'static str = "failed to parse sample status.";

/// The error where a part is not base64 of UTF-8 text.
pub const ERR_DECODE: &'static str = "failed to decode value.";

/// The text that a part of the header carries: base64 of its UTF-8 bytes.
pub open spec fn decoded_text(part: Seq<char>) -> Option<Seq<char>> {
    match b64_decode_spec(part) {
        Some(b) => if valid_utf8(b) {
            Some(decode_utf8(b))
        } else {
            None
        },
        None => None,
    }
}

/// The sample status that a part of the header carries: `0` or `1`.
pub open spec fn sample_status(part: Seq<char>) -> Option<bool> {
    if part == seq!['0'] {
        Some(false)
    } else if part == seq!['1'] {
        Some(true)
    } else {
        None
    }
}

/// The parent span id that a part of the header carries, as `i32::from_str`
/// reads it.
pub open spec fn parent_span_id(part: Seq<char>) -> Option<i32> {
    match parse_int_spec(part, i32::MIN as int, i32::MAX as int) {
        Some(v) => Some(v as i32),
        None => None,
    }
}

/// What the `sw8` header `h` decodes to: its 8 parts, separated by `-`, are
/// the sample status, the parent trace id, segment id, span id, service and
/// instance, and the destination endpoint and address, each text base64 of
/// its UTF-8 bytes. The first part, in that order, that does not read gives
/// the error.
pub open spec fn decode_propagation_spec(h: Seq<char>) -> Result<
    PropagationContextView,
    &'static str,
> {
    let p = split_spec(h, '-');
    if p.len() != 8 {
        Err(ERR_PROPERTIES)
    } else if sample_status(p[0]) is None {
        Err(ERR_SAMPLE)
    } else if decoded_text(p[1]) is None || decoded_text(p[2]) is None {
        Err(ERR_DECODE)
    } else if parent_span_id(p[3]) is None {
        Err(ERR_SPAN_ID)
    } else if decoded_text(p[4]) is None || decoded_text(p[5]) is None || decoded_text(p[6]) is None
        || decoded_text(p[7]) is None {
        Err(ERR_DECODE)
    } else {
        Ok(
            PropagationContextView {
                do_sample: sample_status(p[0])->0,
                parent_trace_id: decoded_text(p[1])->0,
                parent_trace_segment_id: decoded_text(p[2])->0,
                parent_span_id: parent_span_id(p[3])->0,
                parent_service: decoded_text(p[4])->0,
                parent_service_instance: decoded_text(p[5])->0,
                destination_endpoint: decoded_text(p[6])->0,
                destination_address: decoded_text(p[7])->0,
            },
        )
    }
}

/// Decode context value packed in `sw8` header.
pub fn decode_propagation(header_value: &str) -> (r: Result<PropagationContext, &'static str>)
    ensures
        match decode_propagation_spec(header_value@) {
            Ok(v) => r matches Ok(c) && c@ == v,
            Err(e) => r == Err::<PropagationContext, &'static str>(e),
        },
{
    let pieces = split_str(header_value, '-');
    let ghost p = split_spec(header_value@, '-');
    assert(views(pieces@) == p);
    if pieces.len() != 8 {
        return Err(ERR_PROPERTIES);
    }
    assert(forall|i: int| 0 <= i < 8 ==> #[trigger] pieces@[i]@ == p[i]);
    assert(pieces@[0]@ == p[0]);
    assert(pieces@[1]@ == p[1]);
    assert(pieces@[2]@ == p[2]);
    assert(pieces@[3]@ == p[3]);
    assert(pieces@[4]@ == p[4]);
    assert(pieces@[5]@ == p[5]);
    assert(pieces@[6]@ == p[6]);
    assert(pieces@[7]@ == p[7]);

    let do_sample = try_parse_sample_status(pieces[0].as_str())?;
    let parent_trace_id = b64_encoded_into_string(pieces[1].as_str())?;
    let parent_trace_segment_id = b64_encoded_into_string(pieces[2].as_str())?;
    let parent_span_id: i32 = try_parse_parent_span_id(pieces[3].as_str())?;
    let parent_service = b64_encoded_into_string(pieces[4].as_str())?;
    let parent_service_instance = b64_encoded_into_string(pieces[5].as_str())?;
    let destination_endpoint = b64_encoded_into_string(pieces[6].as_str())?;
    let destination_address = b64_encoded_into_string(pieces[7].as_str())?;

    let context = PropagationContext::new(
        do_sample,
        parent_trace_id,
        parent_trace_segment_id,
        parent_span_id,
        parent_service,
        parent_service_instance,
        destination_endpoint,
        destination_address,
    );

    Ok(context)
}

/// Read the parent span id.
pub fn try_parse_parent_span_id(id: &str) -> (r: Result<i32, &'static str>)
    ensures
        match parent_span_id(id@) {
            Some(v) => r == Ok::<i32, &'static str>(v),
            None => r == Err::<i32, &'static str>(ERR_SPAN_ID),
        },
{
    match parse_int(id, i32::MIN as i64, i32::MAX as i64) {
        Some(v) => Ok(v as i32),
        None => Err(ERR_SPAN_ID),
    }
}

/// Read the sample status: `0` or `1`.
pub fn try_parse_sample_status(status: &str) -> (r: Result<bool, &'static str>)
    ensures
        match sample_status(status@) {
            Some(v) => r == Ok::<bool, &'static str>(v),
            None => r == Err::<bool, &'static str>(ERR_SAMPLE),
        },
{
    let cs = crate::common::strings::chars_of(status);
    if cs.len() == 1 && cs[0] == '0' {
        assert(cs@ =~= seq!['0']);
        Ok(false)
    } else if cs.len() == 1 && cs[0] == '1' {
        assert(cs@ =~= seq!['1']);
        Ok(true)
    } else {
        assert(cs@ != seq!['0']) by {
            if cs@ == seq!['0'] {
                assert(cs@.len() == 1 && cs@[0] == '0');
            }
        }
        assert(cs@ != seq!['1']) by {
            if cs@ == seq!['1'] {
                assert(cs@.len() == 1 && cs@[0] == '1');
            }
        }
        Err(ERR_SAMPLE)
    }
}

/// The text that a part of the header carries.
pub fn b64_encoded_into_string(enc: &str) -> (r: Result<String, &'static str>)
    ensures
        match decoded_text(enc@) {
            Some(t) => r matches Ok(s) && s@ == t,
            None => r == Err::<String, &'static str>(ERR_DECODE),
        },
{
    if let Some(result) = b64_decode(enc) {
        if let Some(decoded_str) = string_from_utf8(result) {
            return Ok(decoded_str);
        }
    }
    Err(ERR_DECODE)
}

} // verus!
