//! The root span of one request: a write-only bag of attributes with a fixed
//! severity level, open from the start of the request until its end.

use vstd::prelude::*;
use crate::attribute::{Attribute, AttributeView, Value, ValueView};

verus! {

/// Severity with which a span is tagged when it is created.
#[derive(Clone, Copy, Debug, PartialEq, Eq, Structural)]
pub enum Level {
    Trace,
    Debug,
    Info,
    Warn,
    Error,
}

/// Where a span stands in the life of its request. A span comes into being
/// when the request starts, and is ended exactly once.
#[derive(Clone, Copy, Debug, PartialEq, Eq, Structural)]
pub enum Phase {
    Started,
    Ended,
}

/// The attribute bag that a sequence of writes leaves behind: under each
/// name, the value of the latest write to it.
pub open spec fn fields_of(writes: Seq<AttributeView>) -> Map<Seq<char>, ValueView>
    decreases writes.len(),
{
    if writes.len() == 0 {
        Map::empty()
    } else {
        fields_of(writes.drop_last()).insert(writes.last().name, writes.last().value)
    }
}

/// How many of the writes go to the field `name`.
pub open spec fn count_writes(writes: Seq<AttributeView>, name: Seq<char>) -> nat
    decreases writes.len(),
{
    if writes.len() == 0 {
        0
    } else {
        count_writes(writes.drop_last(), name) + if writes.last().name == name {
            1nat
        } else {
            0nat
        }
    }
}

/// A further write overwrites the field it names and leaves the others alone.
pub proof fn lemma_fields_of_push(writes: Seq<AttributeView>, write: AttributeView)
    ensures
        fields_of(writes.push(write)) == fields_of(writes).insert(write.name, write.value),
{
    assert(writes.push(write).drop_last() =~= writes);
}

/// A field that no write names is not set.
pub proof fn lemma_fields_of_unset(writes: Seq<AttributeView>, name: Seq<char>)
    requires
        forall|j: int| 0 <= j < writes.len() ==> (#[trigger] writes[j]).name != name,
    ensures
        !fields_of(writes).contains_key(name),
    decreases writes.len(),
{
    if writes.len() > 0 {
        let front = writes.drop_last();
        assert forall|j: int| 0 <= j < front.len() implies (#[trigger] front[j]).name != name by {
            assert(writes[j].name != name);
        }
        lemma_fields_of_unset(front, name);
        assert(writes[writes.len() - 1].name != name);
    }
}

/// A field holds the value of the last write that names it.
pub proof fn lemma_fields_of_latest(writes: Seq<AttributeView>, name: Seq<char>, i: int)
    requires
        0 <= i < writes.len(),
        writes[i].name == name,
        forall|j: int| i < j < writes.len() ==> (#[trigger] writes[j]).name != name,
    ensures
        fields_of(writes).contains_key(name),
        fields_of(writes)[name] == writes[i].value,
    decreases writes.len(),
{
    if i < writes.len() - 1 {
        let front = writes.drop_last();
        assert forall|j: int| i < j < front.len() implies (#[trigger] front[j]).name != name by {
            assert(writes[j].name != name);
        }
        lemma_fields_of_latest(front, name, i);
        assert(writes[writes.len() - 1].name != name);
    }
}

/// The root span of one request, as the attributes written to it so far.
#[derive(Clone, Debug, PartialEq, Eq)]
pub struct RootSpan {
    level: Level,
    phase: Phase,
    writes: Vec<Attribute>,
}

/// The models of a sequence of writes, in the same order.
pub open spec fn views_of(writes: Seq<Attribute>) -> Seq<AttributeView> {
    writes.map_values(|write: Attribute| write@)
}

impl View for RootSpan {
    type V = Seq<AttributeView>;

    /// The writes made to the span, oldest first.
    closed spec fn view(&self) -> Seq<AttributeView> {
        views_of(self.writes@)
    }
}

impl RootSpan {
    /// The level the span was created with.
    pub closed spec fn spec_level(&self) -> Level {
        self.level
    }

    /// The phase the span is in.
    pub closed spec fn spec_phase(&self) -> Phase {
        self.phase
    }

    /// The attribute bag: under each name, the value of the latest write.
    pub open spec fn fields(&self) -> Map<Seq<char>, ValueView> {
        fields_of(self@)
    }

    /// A span of the given level, started and with nothing written to it.
    pub fn new(level: Level) -> (span: RootSpan)
        ensures
            span.level() == level,
            span.phase() == Phase::Started,
            span@ == Seq::<AttributeView>::empty(),
    {
        let span = RootSpan { level, phase: Phase::Started, writes: Vec::new() };
        assert(span@ =~= Seq::<AttributeView>::empty());
        span
    }

    /// The level the span was created with.
    #[verifier::when_used_as_spec(spec_level)]
    pub fn level(&self) -> (level: Level)
        ensures
            level == self.level(),
    {
        self.level
    }

    /// The phase the span is in.
    #[verifier::when_used_as_spec(spec_phase)]
    pub fn phase(&self) -> (phase: Phase)
        ensures
            phase == self.phase(),
    {
        self.phase
    }

    /// The writes made to the span, oldest first.
    pub fn writes(&self) -> (all: &Vec<Attribute>)
        ensures
            views_of(all@) == self@,
    {
        &self.writes
    }

    /// Writes `value` under `name`. The write is appended to those made
    /// before it; none of them is lost.
    pub fn record(&mut self, name: &str, value: Value)
        requires
            old(self).phase() == Phase::Started,
        ensures
            final(self)@ == old(self)@.push(AttributeView { name: name@, value: value@ }),
            final(self).level() == old(self).level(),
            final(self).phase() == Phase::Started,
    {
        let write = Attribute { name: name.to_owned(), value };
        self.writes.push(write);
        assert(self@ =~= old(self)@.push(AttributeView { name: name@, value: value@ }));
    }

    /// Ends the span. Nothing is written to it afterwards.
    pub fn end(&mut self)
        requires
            old(self).phase() == Phase::Started,
        ensures
            final(self)@ == old(self)@,
            final(self).level() == old(self).level(),
            final(self).phase() == Phase::Ended,
    {
        self.phase = Phase::Ended;
    }

    /// The value that the field `name` holds, if any write has set it.
    pub fn get(&self, name: &str) -> (value: Option<&Value>)
        ensures
            match value {
                Some(v) => self.fields().contains_key(name@) && self.fields()[name@] == v@,
                None => !self.fields().contains_key(name@),
            },
    {
        let key = name.to_owned();
        let mut i: usize = self.writes.len();
        while i > 0
            invariant
                i <= self.writes.len(),
                key@ == name@,
                forall|j: int| i <= j < self@.len() ==> (#[trigger] self@[j]).name != name@,
            decreases i,
        {
            i = i - 1;
            if self.writes[i].name == key {
                proof {
                    lemma_fields_of_latest(self@, name@, i as int);
                }
                return Some(&self.writes[i].value);
            }
        }
        proof {
            lemma_fields_of_unset(self@, name@);
        }
        None
    }

    /// Whether any write has set the field `name`.
    pub fn contains(&self, name: &str) -> (found: bool)
        ensures
            found == self.fields().contains_key(name@),
    {
        self.get(name).is_some()
    }
}

} // verus!
