//! Contexts: a named set of attributes.
//!
//! The attributes are kept in a vector in which no pair of name and value
//! occurs twice, so the vector stands for a finite set of such pairs.

use crate::attributes::Attribute;
use vstd::prelude::*;

verus! {

/// The pairs of name and value that a sequence of attributes stands for, in order.
pub open spec fn pairs(attributes: Seq<Attribute>) -> Seq<(Seq<char>, Seq<char>)> {
    attributes.map_values(|attribute: Attribute| attribute@)
}

/// What a context is, mathematically: its name and the set of its attributes.
#[verifier::ext_equal]
pub struct ContextView {
    pub name: Seq<char>,
    pub attributes: Set<(Seq<char>, Seq<char>)>,
}

/// What the assistant currently knows or assumes: a named set of attributes.
#[derive(Debug)]
pub struct Context {
    name: String,
    attributes: Vec<Attribute>,
}

impl View for Context {
    type V = ContextView;

    closed spec fn view(&self) -> ContextView {
        ContextView { name: self.name@, attributes: pairs(self.attributes@).to_set() }
    }
}

impl Default for Context {
    /// The context named "default", with no attribute.
    fn default() -> (context: Self)
        ensures
            context@.name == "default"@,
            context@.attributes == Set::<(Seq<char>, Seq<char>)>::empty(),
    {
        let context = Context { name: "default".to_string(), attributes: Vec::new() };
        assert(context@.attributes =~= Set::<(Seq<char>, Seq<char>)>::empty());
        context
    }
}

impl Context {
    /// No pair of name and value is stored twice.
    #[verifier::type_invariant]
    spec fn distinct(&self) -> bool {
        pairs(self.attributes@).no_duplicates()
    }

    /// The stored pairs in the order in which they were first added.
    pub closed spec fn entries(&self) -> Seq<(Seq<char>, Seq<char>)> {
        pairs(self.attributes@)
    }

    /// A context of the given name with no attribute.
    pub fn new(name: String) -> (context: Self)
        ensures
            context@.name == name@,
            context@.attributes == Set::<(Seq<char>, Seq<char>)>::empty(),
    {
        let context = Context { name, attributes: Vec::new() };
        assert(context@.attributes =~= Set::<(Seq<char>, Seq<char>)>::empty());
        context
    }

    /// The context's name.
    pub fn name(&self) -> (name: &String)
        ensures
            name@ == self@.name,
    {
        &self.name
    }

    /// The number of attributes in the set.
    pub fn len(&self) -> (count: usize)
        ensures
            self@.attributes.finite(),
            count == self@.attributes.len(),
            count == self.entries().len(),
    {
        proof {
            use_type_invariant(self);
            self.entries().unique_seq_to_set();
            vstd::seq_lib::seq_to_set_is_finite(self.entries());
        }
        self.attributes.len()
    }

    /// Whether the set holds no attribute.
    pub fn is_empty(&self) -> (empty: bool)
        ensures
            empty == (self@.attributes.len() == 0),
            empty == (self@.attributes == Set::<(Seq<char>, Seq<char>)>::empty()),
    {
        proof {
            use_type_invariant(self);
            self.entries().unique_seq_to_set();
            vstd::seq_lib::seq_to_set_is_finite(self.entries());
            if self@.attributes.len() == 0 {
                self@.attributes.lemma_len0_is_empty();
            }
        }
        self.attributes.len() == 0
    }

    /// Where in the store the attribute lies, if it is there.
    fn position(&self, attribute: &Attribute) -> (found: Option<usize>)
        ensures
            match found {
                Some(at) => at < self.attributes@.len() && self.attributes@[at as int]@
                    == attribute@,
                None => !pairs(self.attributes@).contains(attribute@),
            },
    {
        let mut at: usize = 0;
        while at < self.attributes.len()
            invariant
                at <= self.attributes@.len(),
                forall|k: int| 0 <= k < at ==> pairs(self.attributes@)[k] != attribute@,
            decreases self.attributes@.len() - at,
        {
            if self.attributes[at].eq(attribute) {
                return Some(at);
            }
            at += 1;
        }
        None
    }

    /// Whether the attribute is in the set.
    pub fn contains(&self, attribute: &Attribute) -> (member: bool)
        ensures
            member == self@.attributes.contains(attribute@),
    {
        let found = self.position(attribute);
        proof {
            if let Some(at) = found {
                assert(pairs(self.attributes@)[at as int] == attribute@);
            }
        }
        found.is_some()
    }

    /// The attributes of the set, each once, in the order in which they were
    /// first added.
    pub fn attributes(&self) -> (list: Vec<Attribute>)
        ensures
            pairs(list@) == self.entries(),
            pairs(list@).no_duplicates(),
            pairs(list@).to_set() == self@.attributes,
    {
        proof {
            use_type_invariant(self);
        }
        let mut list: Vec<Attribute> = Vec::new();
        let mut at: usize = 0;
        while at < self.attributes.len()
            invariant
                at <= self.attributes@.len(),
                list@.len() == at,
                forall|k: int| 0 <= k < at ==> list@[k] == self.attributes@[k],
            decreases self.attributes@.len() - at,
        {
            list.push(self.attributes[at].clone());
            at += 1;
        }
        assert(pairs(list@) =~= pairs(self.attributes@));
        list
    }

    /// Puts the attribute into the set. Adding one that is already there
    /// changes nothing.
    pub fn add_attribute(&mut self, attribute: Attribute)
        ensures
            final(self)@.name == old(self)@.name,
            final(self)@.attributes == old(self)@.attributes.insert(attribute@),
    {
        proof {
            use_type_invariant(&*self);
        }
        let found = self.position(&attribute);
        if found.is_none() {
            let ghost before = self.attributes@;
            let mut store: Vec<Attribute> = Vec::new();
            std::mem::swap(&mut store, &mut self.attributes);
            store.push(attribute);
            proof {
                assert(pairs(store@) =~= pairs(before).push(attribute@));
                assert(pairs(store@).to_set() =~= pairs(before).to_set().insert(attribute@)) by {
                    assert forall|p: (Seq<char>, Seq<char>)|
                        pairs(store@).contains(p) <==> (pairs(before).contains(p) || p
                            == attribute@) by {
                        if pairs(before).contains(p) {
                            let k = choose|k: int|
                                0 <= k < pairs(before).len() && pairs(before)[k] == p;
                            assert(pairs(store@)[k] == p);
                        }
                        if p == attribute@ {
                            assert(pairs(store@)[before.len() as int] == p);
                        }
                    }
                }
            }
            self.attributes = store;
        } else {
            proof {
                let at = found.unwrap();
                assert(pairs(self.attributes@)[at as int] == attribute@);
                assert(old(self)@.attributes.insert(attribute@) =~= old(self)@.attributes);
            }
        }
    }

    /// Takes the attribute out of the set. Removing one that is not there
    /// changes nothing.
    pub fn remove_attribute(&mut self, attribute: Attribute)
        ensures
            final(self)@.name == old(self)@.name,
            final(self)@.attributes == old(self)@.attributes.remove(attribute@),
    {
        proof {
            use_type_invariant(&*self);
        }
        match self.position(&attribute) {
            Some(at) => {
                let ghost before = self.attributes@;
                let mut store: Vec<Attribute> = Vec::new();
                std::mem::swap(&mut store, &mut self.attributes);
                store.remove(at);
                proof {
                    let gone = at as int;
                    assert(store@ == before.remove(gone));
                    assert(pairs(store@) =~= pairs(before).remove(gone));
                    assert(pairs(before)[gone] == attribute@);
                    assert forall|i: int, j: int|
                        0 <= i < pairs(store@).len() && 0 <= j < pairs(store@).len() && i
                            != j implies pairs(store@)[i] != pairs(store@)[j] by {
                        let i0 = if i < gone { i } else { i + 1 };
                        let j0 = if j < gone { j } else { j + 1 };
                        assert(pairs(store@)[i] == pairs(before)[i0]);
                        assert(pairs(store@)[j] == pairs(before)[j0]);
                    }
                    assert(pairs(store@).to_set() =~= pairs(before).to_set().remove(
                        attribute@,
                    )) by {
                        assert forall|p: (Seq<char>, Seq<char>)|
                            pairs(store@).contains(p) <==> (pairs(before).contains(p) && p
                                != attribute@) by {
                            if pairs(store@).contains(p) {
                                let k = choose|k: int|
                                    0 <= k < pairs(store@).len() && pairs(store@)[k] == p;
                                let k0 = if k < gone { k } else { k + 1 };
                                assert(pairs(before)[k0] == p);
                            }
                            if pairs(before).contains(p) && p != attribute@ {
                                let k = choose|k: int|
                                    0 <= k < pairs(before).len() && pairs(before)[k] == p;
                                let k1 = if k < gone { k } else { k - 1 };
                                assert(pairs(store@)[k1] == p);
                            }
                        }
                    }
                }
                self.attributes = store;
            },
            None => {
                proof {
                    assert(old(self)@.attributes.remove(attribute@) =~= old(self)@.attributes);
                }
            },
        }
    }

    /// Puts each of the attributes into the set, in order. One that is already
    /// there, or that comes twice in the list, is in the set once.
    pub fn add_attributes(&mut self, attributes: Vec<Attribute>)
        ensures
            final(self)@.name == old(self)@.name,
            final(self)@.attributes == old(self)@.attributes.union(pairs(attributes@).to_set()),
    {
        let ghost all = pairs(attributes@);
        for attribute in iter: attributes
            invariant
                iter.seq() == attributes@,
                all == pairs(attributes@),
                self@.name == old(self)@.name,
                self@.attributes == old(self)@.attributes.union(
                    all.take(iter.index() as int).to_set(),
                ),
        {
            let ghost done = iter.index() as int;
            proof {
                assert(all[done] == attribute@);
                assert(all.take(done + 1) =~= all.take(done).push(attribute@));
                lemma_to_set_push(all.take(done), attribute@);
                assert(old(self)@.attributes.union(all.take(done).to_set()).insert(attribute@)
                    =~= old(self)@.attributes.union(all.take(done + 1).to_set()));
            }
            self.add_attribute(attribute);
        }
        proof {
            assert(all.take(all.len() as int) =~= all);
        }
    }

    /// Takes each of the attributes out of the set, in order. One that is not
    /// there is passed over.
    pub fn remove_attributes(&mut self, attributes: Vec<Attribute>)
        ensures
            final(self)@.name == old(self)@.name,
            final(self)@.attributes == old(self)@.attributes.difference(
                pairs(attributes@).to_set(),
            ),
    {
        let ghost all = pairs(attributes@);
        for attribute in iter: attributes
            invariant
                iter.seq() == attributes@,
                all == pairs(attributes@),
                self@.name == old(self)@.name,
                self@.attributes == old(self)@.attributes.difference(
                    all.take(iter.index() as int).to_set(),
                ),
        {
            let ghost done = iter.index() as int;
            proof {
                assert(all[done] == attribute@);
                assert(all.take(done + 1) =~= all.take(done).push(attribute@));
                lemma_to_set_push(all.take(done), attribute@);
                assert(old(self)@.attributes.difference(all.take(done).to_set()).remove(
                    attribute@,
                ) =~= old(self)@.attributes.difference(all.take(done + 1).to_set()));
            }
            self.remove_attribute(attribute);
        }
        proof {
            assert(all.take(all.len() as int) =~= all);
        }
    }
}

/// The members of a sequence with one more item at its end are the members
/// of the sequence and that item.
pub proof fn lemma_to_set_push<A>(items: Seq<A>, item: A)
    ensures
        items.push(item).to_set() == items.to_set().insert(item),
{
    assert forall|a: A| #[trigger]
        items.push(item).to_set().contains(a) <==> items.to_set().insert(item).contains(a) by {
        if items.contains(a) {
            let k = choose|k: int| 0 <= k < items.len() && items[k] == a;
            assert(items.push(item)[k] == a);
        }
        if a == item {
            assert(items.push(item)[items.len() as int] == a);
        }
    }
    assert(items.push(item).to_set() =~= items.to_set().insert(item));
}

} // verus!
