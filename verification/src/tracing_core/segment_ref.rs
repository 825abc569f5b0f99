//! The reference from a segment to its parent, carried across processes in
//! the `sw6` header: nine parts separated by `-`.

use crate::common::strings::{owned, push_char, push_str};
use crate::common::text::{
    free_of, int_text, int_to_text, is_digit, join_spec, lemma_int_text_roundtrip,
    lemma_split_join, parse_int, parse_int_spec, split_spec, split_str, views,
};
use crate::trace::propagation::decoder::{b64_encoded_into_string, decoded_text};
use crate::trace::propagation::encoder::{b64_of_str, b64_text, encodable};
use crate::tracing_core::id::{id_text, lemma_id_text_roundtrip, parse_id, ID};
use vstd::prelude::*;

verus! {

/// Whether the reference crosses a process or a thread.
#[allow(non_camel_case_types)]
#[derive(Debug, Clone, Copy, PartialEq, Eq, Structural)]
pub enum SegmentRefType {
    CROSS_PROCESS,
    CROSS_THREAD,
}

/// The view of a [SegmentRef].
pub struct SegmentRefView {
    pub ref_type: SegmentRefType,
    pub trace_id: ID,
    pub segment_id: ID,
    pub span_id: i32,
    pub parent_service_instance_id: i32,
    pub entry_service_instance_id: i32,
    pub network_address: Option<Seq<char>>,
    pub network_address_id: i32,
    pub entry_endpoint: Option<Seq<char>>,
    pub entry_endpoint_id: i32,
    pub parent_endpoint: Option<Seq<char>>,
    pub parent_endpoint_id: i32,
}

/// The view of an optional string.
pub open spec fn opt_text(o: Option<String>) -> Option<Seq<char>> {
    match o {
        Some(s) => Some(s@),
        None => None,
    }
}

/// A reference from a segment to the segment and span it continues.
#[derive(Debug, Clone)]
pub struct SegmentRef {
    ref_type: SegmentRefType,
    trace_id: ID,
    segment_id: ID,
    span_id: i32,
    parent_service_instance_id: i32,
    entry_service_instance_id: i32,
    network_address: Option<String>,
    network_address_id: i32,
    entry_endpoint: Option<String>,
    entry_endpoint_id: i32,
    parent_endpoint: Option<String>,
    parent_endpoint_id: i32,
}

impl View for SegmentRef {
    type V = SegmentRefView;

    closed spec fn view(&self) -> SegmentRefView {
        SegmentRefView {
            ref_type: self.ref_type,
            trace_id: self.trace_id,
            segment_id: self.segment_id,
            span_id: self.span_id,
            parent_service_instance_id: self.parent_service_instance_id,
            entry_service_instance_id: self.entry_service_instance_id,
            network_address: opt_text(self.network_address),
            network_address_id: self.network_address_id,
            entry_endpoint: opt_text(self.entry_endpoint),
            entry_endpoint_id: self.entry_endpoint_id,
            parent_endpoint: opt_text(self.parent_endpoint),
            parent_endpoint_id: self.parent_endpoint_id,
        }
    }
}

/// The identifier a part of the header carries: base64 of the UTF-8 text of
/// the identifier.
pub open spec fn id_of_part(part: Seq<char>) -> Option<ID> {
    match decoded_text(part) {
        Some(t) => parse_id(t),
        None => None,
    }
}

/// An `i32` in decimal.
pub open spec fn i32_of(part: Seq<char>) -> Option<i32> {
    match parse_int_spec(part, i32::MIN as int, i32::MAX as int) {
        Some(v) => Some(v as i32),
        None => None,
    }
}

/// A name or an id that a part of the header carries, base64-encoded: a name
/// is written after `#` (the text up to a following `#`, if any), an id in
/// decimal; the id of a name is 0.
pub open spec fn string_or_id_of_part(part: Seq<char>) -> Option<(Option<Seq<char>>, i32)> {
    match decoded_text(part) {
        Some(t) => if t.len() > 0 && t[0] == '#' {
            Some((Some(split_spec(t, '#')[1]), 0i32))
        } else {
            match i32_of(t) {
                Some(id) => Some((None, id)),
                None => None,
            }
        },
        None => None,
    }
}

/// The text that carries a name or an id: `#` and the name, or the id in
/// decimal.
pub open spec fn string_or_id_text(text: Option<Seq<char>>, id: i32) -> Seq<char> {
    match text {
        Some(t) => seq!['#'] + t,
        None => int_text(id as int),
    }
}

/// The reference that the `sw6` header `h` denotes: nine parts separated by
/// `-`; the first is not read; then the trace and segment ids, the span id,
/// the parent and entry instance ids, and the network address, entry endpoint
/// and parent endpoint, each a name or an id. `None` where any part does not
/// read.
pub open spec fn from_text_spec(h: Seq<char>) -> Option<SegmentRefView> {
    let p = split_spec(h, '-');
    if p.len() != 9 {
        None
    } else {
        match (
            id_of_part(p[1]),
            id_of_part(p[2]),
            i32_of(p[3]),
            i32_of(p[4]),
            i32_of(p[5]),
            string_or_id_of_part(p[6]),
            string_or_id_of_part(p[7]),
            string_or_id_of_part(p[8]),
        ) {
            (
                Some(trace_id),
                Some(segment_id),
                Some(span_id),
                Some(parent_service_instance_id),
                Some(entry_service_instance_id),
                Some(network),
                Some(entry),
                Some(parent),
            ) => Some(
                SegmentRefView {
                    ref_type: SegmentRefType::CROSS_PROCESS,
                    trace_id,
                    segment_id,
                    span_id,
                    parent_service_instance_id,
                    entry_service_instance_id,
                    network_address: network.0,
                    network_address_id: network.1,
                    entry_endpoint: entry.0,
                    entry_endpoint_id: entry.1,
                    parent_endpoint: parent.0,
                    parent_endpoint_id: parent.1,
                },
            ),
            _ => None,
        }
    }
}

/// The nine parts of the header of reference `r`.
pub open spec fn serialized_parts(r: SegmentRefView) -> Seq<Seq<char>> {
    seq![
        seq!['1'],
        b64_text(id_text(r.trace_id)),
        b64_text(id_text(r.segment_id)),
        int_text(r.span_id as int),
        int_text(r.parent_service_instance_id as int),
        int_text(r.entry_service_instance_id as int),
        b64_text(string_or_id_text(r.network_address, r.network_address_id)),
        b64_text(string_or_id_text(r.entry_endpoint, r.entry_endpoint_id)),
        b64_text(string_or_id_text(r.parent_endpoint, r.parent_endpoint_id)),
    ]
}

/// The header of reference `r`: its parts joined by `-`.
pub open spec fn serialize_spec(r: SegmentRefView) -> Seq<char> {
    join_spec(serialized_parts(r), '-')
}

/// A name or an id that reads back from its text: a name without `#` and an
/// id of 0.
pub open spec fn round_trips(text: Option<Seq<char>>, id: i32) -> bool {
    match text {
        Some(t) => id == 0 && free_of(t, '#'),
        None => true,
    }
}

/// The references that read back from their header: crossing a process, with
/// span and instance ids that are not negative (a `-` in them would split the
/// header), and names and ids that read back.
pub open spec fn serializable(r: SegmentRefView) -> bool {
    &&& r.ref_type == SegmentRefType::CROSS_PROCESS
    &&& r.span_id >= 0
    &&& r.parent_service_instance_id >= 0
    &&& r.entry_service_instance_id >= 0
    &&& round_trips(r.network_address, r.network_address_id)
    &&& round_trips(r.entry_endpoint, r.entry_endpoint_id)
    &&& round_trips(r.parent_endpoint, r.parent_endpoint_id)
}

/// The texts of the names and ids of `r` are short enough to encode.
pub open spec fn encodable_ref(r: SegmentRefView) -> bool {
    &&& encodable(id_text(r.trace_id))
    &&& encodable(id_text(r.segment_id))
    &&& encodable(string_or_id_text(r.network_address, r.network_address_id))
    &&& encodable(string_or_id_text(r.entry_endpoint, r.entry_endpoint_id))
    &&& encodable(string_or_id_text(r.parent_endpoint, r.parent_endpoint_id))
}

/// The first reference of a context, as much as a new reference takes from
/// it: its entry endpoint and entry instance.
pub open spec fn ref_entry(r: Option<SegmentRefView>) -> Option<(Option<Seq<char>>, i32, i32)> {
    match r {
        Some(v) => Some((v.entry_endpoint, v.entry_endpoint_id, v.entry_service_instance_id)),
        None => None,
    }
}

impl SegmentRef {
    /// Read the reference from the `sw6` header.
    pub fn from_text(value: &str) -> (r: Option<Self>)
        ensures
            match from_text_spec(value@) {
                Some(v) => r matches Some(x) && x@ == v,
                None => r is None,
            },
    {
        let strings = split_str(value, '-');
        let ghost p = split_spec(value@, '-');
        assert(views(strings@) == p);
        if strings.len() != 9 {
            return None;
        }
        assert(forall|i: int| 0 <= i < 9 ==> #[trigger] strings@[i]@ == p[i]) by {
            assert forall|i: int| 0 <= i < 9 implies #[trigger] strings@[i]@ == p[i] by {
                assert(views(strings@)[i] == strings@[i]@);
            }
        }
        let trace_id = SegmentRef::string_to_id(strings[1].as_str());
        let segment_id = SegmentRef::string_to_id(strings[2].as_str());
        let span_id = parse_i32(strings[3].as_str());
        let parent_service_instance_id = parse_i32(strings[4].as_str());
        let entry_service_instance_id = parse_i32(strings[5].as_str());
        let network = SegmentRef::decode_base64_to_string_or_id(strings[6].as_str());
        let entry = SegmentRef::decode_base64_to_string_or_id(strings[7].as_str());
        let parent = SegmentRef::decode_base64_to_string_or_id(strings[8].as_str());
        match (
            trace_id,
            segment_id,
            span_id,
            parent_service_instance_id,
            entry_service_instance_id,
            network,
            entry,
            parent,
        ) {
            (
                Some(trace_id),
                Some(segment_id),
                Some(span_id),
                Some(parent_service_instance_id),
                Some(entry_service_instance_id),
                Some((network_address, network_address_id)),
                Some((entry_endpoint, entry_endpoint_id)),
                Some((parent_endpoint, parent_endpoint_id)),
            ) => Some(
                SegmentRef {
                    ref_type: SegmentRefType::CROSS_PROCESS,
                    trace_id,
                    segment_id,
                    span_id,
                    parent_service_instance_id,
                    entry_service_instance_id,
                    network_address,
                    network_address_id,
                    entry_endpoint,
                    entry_endpoint_id,
                    parent_endpoint,
                    parent_endpoint_id,
                },
            ),
            _ => None,
        }
    }

    /// The reference that an exit span hands on to the process it calls: the
    /// trace and segment of the context, the exit span, the peer as network
    /// address; the entry endpoint and instance of the context's first
    /// reference, or, without one, the context's own entry endpoint (id 0, or
    /// no endpoint and id -1) and instance; and the context's entry endpoint
    /// as parent endpoint.
    pub fn for_across_process(
        trace_id: ID,
        segment_id: ID,
        exit_span_id: i32,
        service_instance_id: i32,
        first_ref: Option<&SegmentRef>,
        entry_endpoint_name: Option<&str>,
        peer: &str,
    ) -> (r: Self)
        ensures
            r@.ref_type == SegmentRefType::CROSS_PROCESS,
            r@.trace_id == trace_id,
            r@.segment_id == segment_id,
            r@.span_id == exit_span_id,
            r@.network_address == Some(peer@),
            r@.network_address_id == 0,
            r@.parent_service_instance_id == service_instance_id,
            match first_ref {
                Some(f) => {
                    &&& r@.entry_service_instance_id == f@.entry_service_instance_id
                    &&& r@.entry_endpoint == f@.entry_endpoint
                    &&& r@.entry_endpoint_id == (if f@.entry_endpoint is Some {
                        0
                    } else {
                        f@.entry_endpoint_id
                    })
                },
                None => {
                    &&& r@.entry_service_instance_id == service_instance_id
                    &&& r@.entry_endpoint == (match entry_endpoint_name {
                        Some(e) => Some(e@),
                        None => None,
                    })
                    &&& r@.entry_endpoint_id == (if entry_endpoint_name is Some {
                        0i32
                    } else {
                        -1i32
                    })
                },
            },
            r@.parent_endpoint == (match entry_endpoint_name {
                Some(e) => Some(e@),
                None => None,
            }),
            r@.parent_endpoint_id == (if entry_endpoint_name is Some {
                0i32
            } else {
                -1i32
            }),
    {
        // -1 represent the object doesn't exist.
        let inexistence: i32 = -1;
        let (entry_endpoint, entry_endpoint_id) = match first_ref {
            None => match entry_endpoint_name {
                None => (None, inexistence),
                Some(endpoint) => (Some(owned(endpoint)), 0),
            },
            Some(reference) => match &reference.entry_endpoint {
                None => (None, reference.entry_endpoint_id),
                Some(endpoint) => (Some(endpoint.clone()), 0),
            },
        };
        let (parent_endpoint, parent_endpoint_id) = match entry_endpoint_name {
            None => (None, inexistence),
            Some(endpoint) => (Some(owned(endpoint)), 0),
        };
        let entry_service_instance_id = match first_ref {
            None => service_instance_id,
            Some(reference) => reference.entry_service_instance_id,
        };
        SegmentRef {
            ref_type: SegmentRefType::CROSS_PROCESS,
            trace_id,
            segment_id,
            span_id: exit_span_id,
            network_address: Some(owned(peer)),
            // No network address register, the id always be 0
            network_address_id: 0,
            entry_service_instance_id,
            parent_service_instance_id: service_instance_id,
            entry_endpoint,
            entry_endpoint_id,
            parent_endpoint,
            parent_endpoint_id,
        }
    }

    /// The `sw6` header of the reference. Reading it back gives the reference
    /// where it is [serializable].
    pub fn serialize(&self) -> (r: String)
        requires
            encodable_ref(self@),
        ensures
            r@ == serialize_spec(self@),
            serializable(self@) ==> from_text_spec(r@) == Some(self@),
    {
        let ghost v = self@;
        let ghost parts = serialized_parts(v);
        let trace_text = self.trace_id.to_string();
        let segment_text = self.segment_id.to_string();
        let p1 = b64_of_str(trace_text.as_str());
        let p2 = b64_of_str(segment_text.as_str());
        let p3 = int_to_text(self.span_id as i64);
        let p4 = int_to_text(self.parent_service_instance_id as i64);
        let p5 = int_to_text(self.entry_service_instance_id as i64);
        let p6 = SegmentRef::string_or_id_to_encode_base64(&self.network_address, self.network_address_id);
        let p7 = SegmentRef::string_or_id_to_encode_base64(&self.entry_endpoint, self.entry_endpoint_id);
        let p8 = SegmentRef::string_or_id_to_encode_base64(&self.parent_endpoint, self.parent_endpoint_id);

        let mut r = owned("1");
        proof {
            reveal_strlit("1");
        }
        assert(r@ =~= join_spec(parts.take(1), '-'));
        push_char(&mut r, '-');
        push_str(&mut r, p1.as_str());
        assert(parts.take(2).drop_last() =~= parts.take(1));
        assert(r@ =~= join_spec(parts.take(2), '-'));
        push_char(&mut r, '-');
        push_str(&mut r, p2.as_str());
        assert(parts.take(3).drop_last() =~= parts.take(2));
        assert(r@ =~= join_spec(parts.take(3), '-'));
        push_char(&mut r, '-');
        push_str(&mut r, p3.as_str());
        assert(parts.take(4).drop_last() =~= parts.take(3));
        assert(r@ =~= join_spec(parts.take(4), '-'));
        push_char(&mut r, '-');
        push_str(&mut r, p4.as_str());
        assert(parts.take(5).drop_last() =~= parts.take(4));
        assert(r@ =~= join_spec(parts.take(5), '-'));
        push_char(&mut r, '-');
        push_str(&mut r, p5.as_str());
        assert(parts.take(6).drop_last() =~= parts.take(5));
        assert(r@ =~= join_spec(parts.take(6), '-'));
        push_char(&mut r, '-');
        push_str(&mut r, p6.as_str());
        assert(parts.take(7).drop_last() =~= parts.take(6));
        assert(r@ =~= join_spec(parts.take(7), '-'));
        push_char(&mut r, '-');
        push_str(&mut r, p7.as_str());
        assert(parts.take(8).drop_last() =~= parts.take(7));
        assert(r@ =~= join_spec(parts.take(8), '-'));
        push_char(&mut r, '-');
        push_str(&mut r, p8.as_str());
        assert(parts.take(9).drop_last() =~= parts.take(8));
        assert(parts.take(9) =~= parts);
        assert(r@ =~= join_spec(parts, '-'));
        proof {
            if serializable(v) {
                lemma_serialized_reads_back(v);
            }
        }
        r
    }

    /// Get the trace id.
    pub fn get_trace_id(&self) -> (r: ID)
        ensures
            r == self@.trace_id,
    {
        self.trace_id
    }

    /// Whether the reference crosses a process or a thread.
    pub fn ref_type(&self) -> (r: SegmentRefType)
        ensures
            r == self@.ref_type,
    {
        self.ref_type
    }

    /// The segment id.
    pub fn segment_id(&self) -> (r: ID)
        ensures
            r == self@.segment_id,
    {
        self.segment_id
    }

    /// The span id.
    pub fn span_id(&self) -> (r: i32)
        ensures
            r == self@.span_id,
    {
        self.span_id
    }

    /// The instance of the parent segment.
    pub fn parent_service_instance_id(&self) -> (r: i32)
        ensures
            r == self@.parent_service_instance_id,
    {
        self.parent_service_instance_id
    }

    /// The instance where the trace entered.
    pub fn entry_service_instance_id(&self) -> (r: i32)
        ensures
            r == self@.entry_service_instance_id,
    {
        self.entry_service_instance_id
    }

    /// The network address of the peer, by name.
    pub fn network_address(&self) -> (r: Option<&str>)
        ensures
            match r {
                Some(s) => self@.network_address == Some(s@),
                None => self@.network_address is None,
            },
    {
        match &self.network_address {
            Some(s) => Some(s.as_str()),
            None => None,
        }
    }

    /// The network address of the peer, by id.
    pub fn network_address_id(&self) -> (r: i32)
        ensures
            r == self@.network_address_id,
    {
        self.network_address_id
    }

    /// The endpoint where the trace entered, by name.
    pub fn entry_endpoint(&self) -> (r: Option<&str>)
        ensures
            match r {
                Some(s) => self@.entry_endpoint == Some(s@),
                None => self@.entry_endpoint is None,
            },
    {
        match &self.entry_endpoint {
            Some(s) => Some(s.as_str()),
            None => None,
        }
    }

    /// The endpoint where the trace entered, by id.
    pub fn entry_endpoint_id(&self) -> (r: i32)
        ensures
            r == self@.entry_endpoint_id,
    {
        self.entry_endpoint_id
    }

    /// The endpoint of the parent segment, by name.
    pub fn parent_endpoint(&self) -> (r: Option<&str>)
        ensures
            match r {
                Some(s) => self@.parent_endpoint == Some(s@),
                None => self@.parent_endpoint is None,
            },
    {
        match &self.parent_endpoint {
            Some(s) => Some(s.as_str()),
            None => None,
        }
    }

    /// The endpoint of the parent segment, by id.
    pub fn parent_endpoint_id(&self) -> (r: i32)
        ensures
            r == self@.parent_endpoint_id,
    {
        self.parent_endpoint_id
    }

    /// The identifier a part of the header carries.
    fn string_to_id(text: &str) -> (r: Option<ID>)
        ensures
            r == id_of_part(text@),
    {
        match b64_encoded_into_string(text) {
            Ok(s) => ID::from(s.as_str()),
            Err(_) => None,
        }
    }

    /// The name or id a part of the header carries.
    fn decode_base64_to_string_or_id(text: &str) -> (r: Option<(Option<String>, i32)>)
        ensures
            match string_or_id_of_part(text@) {
                Some(v) => r matches Some(x) && opt_text(x.0) == v.0 && x.1 == v.1,
                None => r is None,
            },
    {
        match b64_encoded_into_string(text) {
            Ok(s) => {
                let cs = crate::common::strings::chars_of(s.as_str());
                if cs.len() > 0 && cs[0] == '#' {
                    let network = split_str(s.as_str(), '#');
                    proof {
                        lemma_split_after_first_sep(s@);
                    }
                    assert(views(network@)[1] == network@[1]@);
                    Some((Some(network[1].clone()), 0))
                } else {
                    match parse_i32(s.as_str()) {
                        Some(id) => Some((None, id)),
                        None => None,
                    }
                }
            },
            Err(_) => None,
        }
    }

    /// The base64 text of a name (after `#`) or an id.
    fn string_or_id_to_encode_base64(text: &Option<String>, id: i32) -> (r: String)
        requires
            encodable(string_or_id_text(opt_text(*text), id)),
        ensures
            r@ == b64_text(string_or_id_text(opt_text(*text), id)),
            free_of(r@, '-'),
            decoded_text(r@) == Some(string_or_id_text(opt_text(*text), id)),
    {
        let plain = match text {
            None => int_to_text(id as i64),
            Some(t) => {
                let mut network = owned("#");
                proof {
                    reveal_strlit("#");
                }
                push_str(&mut network, t.as_str());
                assert(network@ =~= seq!['#'] + t@);
                network
            },
        };
        b64_of_str(plain.as_str())
    }
}

/// An `i32` in decimal (`str::parse::<i32>`).
fn parse_i32(s: &str) -> (r: Option<i32>)
    ensures
        r == i32_of(s@),
{
    match parse_int(s, i32::MIN as i64, i32::MAX as i64) {
        Some(v) => Some(v as i32),
        None => None,
    }
}

/// Text that starts with a separator splits into at least two pieces.
proof fn lemma_split_after_first_sep(t: Seq<char>)
    requires
        t.len() > 0,
        t[0] == '#',
    ensures
        split_spec(t, '#').len() >= 2,
    decreases t.len(),
{
    if t.len() == 1 {
        assert(t.drop_last().len() == 0);
        assert(t.last() == '#');
    } else {
        lemma_split_after_first_sep(t.drop_last());
        crate::common::text::lemma_split_nonempty(t.drop_last(), '#');
    }
}

/// A name or an id reads back from its text.
proof fn lemma_string_or_id_reads_back(text: Option<Seq<char>>, id: i32)
    requires
        round_trips(text, id),
        decoded_text(b64_text(string_or_id_text(text, id))) == Some(string_or_id_text(text, id)),
    ensures
        string_or_id_of_part(b64_text(string_or_id_text(text, id))) == Some((text, id)),
{
    let t = string_or_id_text(text, id);
    match text {
        Some(name) => {
            let parts = seq![Seq::<char>::empty(), name];
            assert(free_of(Seq::<char>::empty(), '#'));
            assert forall|i: int| 0 <= i < parts.len() implies free_of(#[trigger] parts[i], '#') by {}
            lemma_split_join(parts, '#');
            assert(join_spec(parts, '#') =~= t) by {
                assert(parts.drop_last() =~= seq![Seq::<char>::empty()]);
                assert(join_spec(parts.drop_last(), '#') == Seq::<char>::empty());
                assert(parts.last() == name);
                assert(Seq::<char>::empty().push('#') =~= seq!['#']);
            }
        },
        None => {
            lemma_int_text_roundtrip(id as int);
            assert(t[0] != '#') by {
                crate::common::text::lemma_nat_digits(if id < 0 {
                    (-id) as nat
                } else {
                    id as nat
                });
                if id >= 0 {
                    assert(is_digit(t[0]));
                }
            }
        },
    }
}

/// The header of a serializable reference reads back as the reference.
proof fn lemma_serialized_reads_back(v: SegmentRefView)
    requires
        serializable(v),
        decoded_text(b64_text(id_text(v.trace_id))) == Some(id_text(v.trace_id)),
        decoded_text(b64_text(id_text(v.segment_id))) == Some(id_text(v.segment_id)),
        decoded_text(b64_text(string_or_id_text(v.network_address, v.network_address_id)))
            == Some(string_or_id_text(v.network_address, v.network_address_id)),
        decoded_text(b64_text(string_or_id_text(v.entry_endpoint, v.entry_endpoint_id)))
            == Some(string_or_id_text(v.entry_endpoint, v.entry_endpoint_id)),
        decoded_text(b64_text(string_or_id_text(v.parent_endpoint, v.parent_endpoint_id)))
            == Some(string_or_id_text(v.parent_endpoint, v.parent_endpoint_id)),
        free_of(b64_text(id_text(v.trace_id)), '-'),
        free_of(b64_text(id_text(v.segment_id)), '-'),
        free_of(b64_text(string_or_id_text(v.network_address, v.network_address_id)), '-'),
        free_of(b64_text(string_or_id_text(v.entry_endpoint, v.entry_endpoint_id)), '-'),
        free_of(b64_text(string_or_id_text(v.parent_endpoint, v.parent_endpoint_id)), '-'),
    ensures
        from_text_spec(serialize_spec(v)) == Some(v),
{
    let parts = serialized_parts(v);
    lemma_int_text_roundtrip(v.span_id as int);
    lemma_int_text_roundtrip(v.parent_service_instance_id as int);
    lemma_int_text_roundtrip(v.entry_service_instance_id as int);
    lemma_id_text_roundtrip(v.trace_id);
    lemma_id_text_roundtrip(v.segment_id);
    lemma_string_or_id_reads_back(v.network_address, v.network_address_id);
    lemma_string_or_id_reads_back(v.entry_endpoint, v.entry_endpoint_id);
    lemma_string_or_id_reads_back(v.parent_endpoint, v.parent_endpoint_id);
    assert(free_of(seq!['1'], '-'));
    assert forall|i: int| 0 <= i < parts.len() implies free_of(#[trigger] parts[i], '-') by {}
    lemma_split_join(parts, '-');
    let p = split_spec(serialize_spec(v), '-');
    assert(p == parts);
}

} // verus!
