//! The name registry: names for sections and spans that do not keep them alive.

use vstd::prelude::*;
use crate::section::Section;
use crate::span::Span;
use crate::span::SpanTrait;

verus! {

/// One registration: a name and the identifier it stands for.
struct Entry {
    name: String,
    id: u64,
}

/// What `name` stands for in a list of registrations: a later registration
/// hides an earlier one of the same name.
pub open spec fn spec_lookup(entries: Seq<(Seq<char>, u64)>, name: Seq<char>) -> Option<u64>
    decreases entries.len(),
{
    if entries.len() == 0 {
        None
    } else if entries.last().0 == name {
        Some(entries.last().1)
    } else {
        spec_lookup(entries.drop_last(), name)
    }
}

/// The mathematical content of the registry.
pub struct StateView {
    /// The registered sections, by name.
    pub sections: Map<Seq<char>, u64>,
    /// The registered spans, by name.
    pub spans: Map<Seq<char>, u64>,
    /// The identifier that the next node gets.
    pub next: u64,
    /// The identifiers of the nodes that are gone.
    pub dropped: Set<u64>,
}

impl StateView {
    /// Whether the node with this identifier was made and is not gone.
    pub open spec fn is_live(self, id: u64) -> bool {
        id < self.next && !self.dropped.contains(id)
    }

    pub open spec fn with_section(self, name: Seq<char>, id: u64) -> StateView {
        StateView { sections: self.sections.insert(name, id), ..self }
    }

    pub open spec fn with_span(self, name: Seq<char>, id: u64) -> StateView {
        StateView { spans: self.spans.insert(name, id), ..self }
    }

    /// The registry once the nodes with the identifiers `ids` are gone.
    pub open spec fn without(self, ids: Seq<u64>) -> StateView {
        StateView { dropped: self.dropped.union(ids.to_set()), ..self }
    }

    /// What a lookup of a section by `name` answers.
    pub open spec fn section(self, name: Seq<char>) -> Option<u64> {
        if self.sections.contains_key(name) && self.is_live(self.sections[name]) {
            Some(self.sections[name])
        } else {
            None
        }
    }

    /// What a lookup of a span by `name` answers.
    pub open spec fn span(self, name: Seq<char>) -> Option<u64> {
        if self.spans.contains_key(name) && self.is_live(self.spans[name]) {
            Some(self.spans[name])
        } else {
            None
        }
    }
}

spec fn pairs(entries: Seq<Entry>) -> Seq<(Seq<char>, u64)> {
    Seq::new(entries.len(), |i: int| (entries[i].name@, entries[i].id))
}

spec fn table(entries: Seq<Entry>) -> Map<Seq<char>, u64> {
    Map::new(
        |n: Seq<char>| spec_lookup(pairs(entries), n) is Some,
        |n: Seq<char>| spec_lookup(pairs(entries), n)->0,
    )
}

fn find(entries: &Vec<Entry>, name: &String) -> (found: Option<u64>)
    ensures
        found == spec_lookup(pairs(entries@), name@),
{
    let mut i: usize = entries.len();
    assert(pairs(entries@).take(i as int) =~= pairs(entries@));
    while i > 0
        invariant
            i <= entries.len(),
            spec_lookup(pairs(entries@), name@) == spec_lookup(pairs(entries@).take(i as int), name@),
        decreases i,
    {
        let ghost head = pairs(entries@).take(i as int);
        assert(head.last() == pairs(entries@)[i - 1]);
        assert(head.drop_last() =~= pairs(entries@).take(i - 1));
        i -= 1;
        if entries[i].name == *name {
            return Some(entries[i].id);
        }
    }
    assert(pairs(entries@).take(0).len() == 0);
    None
}

fn enter(entries: &mut Vec<Entry>, name: String, id: u64)
    ensures
        table(final(entries)@) == table(old(entries)@).insert(name@, id),
{
    let ghost before = pairs(entries@);
    let ghost n = name@;
    entries.push(Entry { name, id });
    proof {
        let after = pairs(entries@);
        assert(after.last() == (n, id));
        assert(after.drop_last() =~= before);
        assert(table(entries@) =~= table(old(entries)@).insert(n, id));
    }
}

/// The registry of names. It holds no node: it knows identifiers, and which of
/// them belong to nodes that are gone.
pub struct StateProto {
    sections: Vec<Entry>,
    spans: Vec<Entry>,
    issued: u64,
    dropped: Vec<u64>,
}

impl View for StateProto {
    type V = StateView;

    closed spec fn view(&self) -> StateView {
        StateView {
            sections: table(self.sections@),
            spans: table(self.spans@),
            next: self.issued,
            dropped: self.dropped@.to_set(),
        }
    }
}

impl StateProto {
    /// The identifier that the next node gets.
    pub open spec fn next_id(&self) -> u64 {
        self@.next
    }

    /// Whether there is an identifier left for another node.
    pub open spec fn can_issue(&self) -> bool {
        self@.next < u64::MAX
    }

    /// This registry is `before` after one identifier was handed out.
    pub open spec fn issued_from(&self, before: &StateProto) -> bool {
        self@ == (StateView { next: (before@.next + 1) as u64, ..before@ })
    }

    /// The content of an empty registry.
    pub open spec fn spec_new() -> StateView {
        StateView { sections: Map::empty(), spans: Map::empty(), next: 0, dropped: Set::empty() }
    }

    /// An empty registry.
    pub fn new() -> (state: StateProto)
        ensures
            state@ == StateProto::spec_new(),
    {
        let state = StateProto { sections: Vec::new(), spans: Vec::new(), issued: 0, dropped: Vec::new() };
        proof {
            assert(pairs(state.sections@) =~= Seq::empty());
            assert(table(state.sections@) =~= Map::empty());
            assert(table(state.spans@) =~= Map::empty());
            assert(state.dropped@.to_set() =~= Set::empty());
        }
        state
    }

    /// Whether another identifier can be handed out.
    pub fn has_room(&self) -> (room: bool)
        ensures
            room == self.can_issue(),
    {
        self.issued < u64::MAX
    }

    /// Hands out the identifier for a new node. The node is live until it is
    /// released.
    pub fn issue(&mut self) -> (id: u64)
        requires
            old(self).can_issue(),
        ensures
            id == old(self).next_id(),
            final(self).issued_from(old(self)),
    {
        let id = self.issued;
        self.issued = id + 1;
        id
    }

    /// Marks the node with this identifier as gone: no lookup answers it any
    /// more.
    pub fn release(&mut self, id: u64)
        ensures
            final(self)@ == (StateView { dropped: old(self)@.dropped.insert(id), ..old(self)@ }),
    {
        self.dropped.push(id);
        proof {
            let before = old(self).dropped@;
            assert(self.dropped@ == before.push(id));
            assert(self.dropped@.to_set() =~= before.to_set().insert(id)) by {
                assert forall|v: u64| self.dropped@.to_set().contains(v) implies before.to_set().insert(
                    id,
                ).contains(v) by {
                    let k = choose|k: int| 0 <= k < self.dropped@.len() && self.dropped@[k] == v;
                    if k < before.len() {
                        assert(before[k] == v);
                    }
                }
                assert forall|v: u64| before.to_set().insert(id).contains(v) implies self.dropped@.to_set().contains(
                    v,
                ) by {
                    if v == id {
                        assert(self.dropped@[before.len() as int] == id);
                    } else {
                        let k = choose|k: int| 0 <= k < before.len() && before[k] == v;
                        assert(self.dropped@[k] == v);
                    }
                }
            }
        }
    }

    /// Marks the nodes with these identifiers as gone.
    pub fn release_all(&mut self, ids: &Vec<u64>)
        ensures
            final(self)@ == old(self)@.without(ids@),
    {
        let mut i: usize = 0;
        assert(self@.dropped =~= old(self)@.dropped.union(ids@.take(0).to_set()));
        while i < ids.len()
            invariant
                i <= ids.len(),
                self@ == old(self)@.without(ids@.take(i as int)),
            decreases ids.len() - i,
        {
            self.release(ids[i]);
            proof {
                let head = ids@.take(i as int);
                let next = ids@.take(i as int + 1);
                assert(next =~= head.push(ids@[i as int]));
                assert(next.to_set() =~= head.to_set().insert(ids@[i as int])) by {
                    assert forall|v: u64| next.to_set().contains(v) implies head.to_set().insert(
                        ids@[i as int],
                    ).contains(v) by {
                        let k = choose|k: int| 0 <= k < next.len() && next[k] == v;
                        if k < head.len() {
                            assert(head[k] == v);
                        }
                    }
                    assert forall|v: u64| head.to_set().insert(ids@[i as int]).contains(v) implies next.to_set().contains(
                        v,
                    ) by {
                        if v == ids@[i as int] {
                            assert(next[i as int] == v);
                        } else {
                            let k = choose|k: int| 0 <= k < head.len() && head[k] == v;
                            assert(next[k] == v);
                        }
                    }
                }
                assert(self@.dropped =~= old(self)@.dropped.union(next.to_set()));
            }
            i += 1;
        }
        proof {
            assert(ids@.take(ids.len() as int) =~= ids@);
        }
    }

    /// Registers the section under its name. An earlier registration of the
    /// name is replaced.
    pub fn register_section(&mut self, section: &Section)
        ensures
            final(self)@ == old(self)@.with_section(section@.name, section@.id),
    {
        enter(&mut self.sections, section.get_name().to_owned(), section.get_id());
    }

    /// Registers the span under its name. An earlier registration of the name
    /// is replaced.
    pub fn register_span(&mut self, span: &Span)
        ensures
            final(self)@ == old(self)@.with_span(span@.name, span@.id),
    {
        enter(&mut self.spans, span.get_name().to_owned(), span.get_id());
    }

    fn gone(&self, id: u64) -> (gone: bool)
        ensures
            gone == !self@.is_live(id),
    {
        if id >= self.issued {
            return true;
        }
        let mut i: usize = 0;
        while i < self.dropped.len()
            invariant
                i <= self.dropped.len(),
                forall|j: int| 0 <= j < i ==> self.dropped@[j] != id,
            decreases self.dropped.len() - i,
        {
            if self.dropped[i] == id {
                return true;
            }
            i += 1;
        }
        false
    }

    /// The identifier of the live section registered under `name`, if there is
    /// one. A name whose section is gone gives `None`.
    pub fn fetch_section(&self, name: &str) -> (found: Option<u64>)
        ensures
            found == self@.section(name@),
    {
        match find(&self.sections, &name.to_owned()) {
            Some(id) => if self.gone(id) { None } else { Some(id) },
            None => None,
        }
    }

    /// The identifier of the live span registered under `name`, if there is
    /// one. A name whose span is gone gives `None`.
    pub fn fetch_span(&self, name: &str) -> (found: Option<u64>)
        ensures
            found == self@.span(name@),
    {
        match find(&self.spans, &name.to_owned()) {
            Some(id) => if self.gone(id) { None } else { Some(id) },
            None => None,
        }
    }
}

} // verus!
