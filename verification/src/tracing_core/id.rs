//! Identifiers of traces and segments: three integers, written `a.b.c`.

use crate::common::strings::{push_char, push_str};
use crate::common::system_time::{clock_reading, read_clock, TimePeriod};
use crate::common::text::{
    int_text, int_to_text, join_spec, lemma_int_text_free_of_sep, lemma_int_text_roundtrip,
    lemma_split_join, parse_int, parse_int_spec, split_spec, split_str, views,
};
use vstd::prelude::*;

verus! {

/// An identifier: three integers.
#[derive(Debug, Clone, Copy, PartialEq, Eq, Structural)]
pub struct ID {
    part1: i64,
    part2: i64,
    part3: i64,
}

/// The text of an identifier: its parts in decimal, joined by `.`.
pub closed spec fn id_text(id: ID) -> Seq<char> {
    join_spec(seq![int_text(id.part1 as int), int_text(id.part2 as int), int_text(id.part3 as int)], '.')
}

/// The identifier that a text denotes: three parts separated by `.`, each an
/// `i64` in decimal.
pub closed spec fn parse_id(s: Seq<char>) -> Option<ID> {
    let p = split_spec(s, '.');
    if p.len() != 3 {
        None
    } else {
        match (
            parse_int_spec(p[0], i64::MIN as int, i64::MAX as int),
            parse_int_spec(p[1], i64::MIN as int, i64::MAX as int),
            parse_int_spec(p[2], i64::MIN as int, i64::MAX as int),
        ) {
            (Some(a), Some(b), Some(c)) => Some(ID { part1: a as i64, part2: b as i64, part3: c as i64 }),
            _ => None,
        }
    }
}

impl ID {
    /// The first part.
    pub closed spec fn spec_part1(&self) -> i64 {
        self.part1
    }

    /// The second part.
    pub closed spec fn spec_part2(&self) -> i64 {
        self.part2
    }

    /// The third part.
    pub closed spec fn spec_part3(&self) -> i64 {
        self.part3
    }

    /// An identifier of three parts.
    pub fn new(part1: i64, part2: i64, part3: i64) -> (r: Self)
        ensures
            r.spec_part1() == part1,
            r.spec_part2() == part2,
            r.spec_part3() == part3,
    {
        ID { part1, part2, part3 }
    }

    /// Read an identifier from its text `a.b.c`; `None` where the text is not
    /// three `i64` parts separated by `.`.
    pub fn from(text: &str) -> (r: Option<ID>)
        ensures
            r == parse_id(text@),
    {
        let parts = split_str(text, '.');
        let ghost p = split_spec(text@, '.');
        if parts.len() != 3 {
            return None;
        }
        assert(parts@[0]@ == p[0] && parts@[1]@ == p[1] && parts@[2]@ == p[2]) by {
            assert(views(parts@)[0] == parts@[0]@);
            assert(views(parts@)[1] == parts@[1]@);
            assert(views(parts@)[2] == parts@[2]@);
        }
        let a = parse_int(parts[0].as_str(), i64::MIN, i64::MAX);
        let b = parse_int(parts[1].as_str(), i64::MIN, i64::MAX);
        let c = parse_int(parts[2].as_str(), i64::MIN, i64::MAX);
        match (a, b, c) {
            (Some(a), Some(b), Some(c)) => Some(ID { part1: a, part2: b, part3: c }),
            _ => None,
        }
    }

    /// The text `a.b.c` of the identifier; [ID::from] reads it back.
    pub fn to_string(&self) -> (r: String)
        ensures
            r@ == id_text(*self),
            parse_id(r@) == Some(*self),
    {
        proof {
            lemma_id_text_roundtrip(*self);
        }
        let ghost parts = seq![
            int_text(self.part1 as int),
            int_text(self.part2 as int),
            int_text(self.part3 as int),
        ];
        let mut r = int_to_text(self.part1);
        assert(r@ =~= join_spec(parts.take(1), '.'));
        push_char(&mut r, '.');
        let t2 = int_to_text(self.part2);
        push_str(&mut r, t2.as_str());
        assert(parts.take(2).drop_last() =~= parts.take(1));
        assert(r@ =~= join_spec(parts.take(2), '.'));
        push_char(&mut r, '.');
        let t3 = int_to_text(self.part3);
        push_str(&mut r, t3.as_str());
        assert(parts.take(3).drop_last() =~= parts.take(2));
        assert(parts.take(3) =~= parts);
        r
    }
}

/// The text of an identifier reads back as the identifier.
pub proof fn lemma_id_text_roundtrip(id: ID)
    ensures
        parse_id(id_text(id)) == Some(id),
{
    let parts = seq![int_text(id.part1 as int), int_text(id.part2 as int), int_text(id.part3 as int)];
    lemma_int_text_free_of_sep(id.part1 as int, '.');
    lemma_int_text_free_of_sep(id.part2 as int, '.');
    lemma_int_text_free_of_sep(id.part3 as int, '.');
    lemma_int_text_roundtrip(id.part1 as int);
    lemma_int_text_roundtrip(id.part2 as int);
    lemma_int_text_roundtrip(id.part3 as int);
    assert forall|i: int| 0 <= i < parts.len() implies crate::common::text::free_of(
        #[trigger] parts[i],
        '.',
    ) by {}
    lemma_split_join(parts, '.');
    assert(split_spec(id_text(id), '.') == parts);
}

/// Generates the identifiers of new traces.
pub struct IDGenerator {}

impl IDGenerator {
    /// A new identifier for a trace started by the service instance
    /// `service_instance_id`: the instance id, the current time in
    /// milliseconds, and 0.
    pub fn new_id(service_instance_id: i32) -> (r: ID)
        ensures
            r.spec_part1() == service_instance_id,
            clock_reading(TimePeriod::Start, r.spec_part2()),
            r.spec_part3() == 0,
    {
        ID { part1: service_instance_id as i64, part2: read_clock(TimePeriod::Start), part3: 0 }
    }
}

} // verus!
