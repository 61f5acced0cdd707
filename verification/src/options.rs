//! Maps from option names to option values.
use crate::text::same_text;
use vstd::prelude::*;

verus! {

/// The map that a row of entries stands for; a later entry replaces an earlier one.
pub open spec fn map_of(entries: Seq<(Seq<char>, Seq<char>)>) -> Map<Seq<char>, Seq<char>>
    decreases entries.len(),
{
    if entries.len() == 0 {
        Map::empty()
    } else {
        map_of(entries.drop_last()).insert(entries.last().0, entries.last().1)
    }
}

/// Whether no name occurs twice.
pub open spec fn names_distinct(entries: Seq<(Seq<char>, Seq<char>)>) -> bool {
    forall|i: int, j: int|
        0 <= i < j < entries.len() ==> (#[trigger] entries[i]).0 != (#[trigger] entries[j]).0
}

/// A map from option names to option values, walked in the order of insertion.
/// No name occurs twice in it.
pub struct OptionMap {
    items: Vec<(String, String)>,
}

impl View for OptionMap {
    type V = Map<Seq<char>, Seq<char>>;

    open spec fn view(&self) -> Map<Seq<char>, Seq<char>> {
        map_of(self.entries())
    }
}

spec fn pairs(items: Seq<(String, String)>) -> Seq<(Seq<char>, Seq<char>)> {
    Seq::new(items.len(), |i: int| (items[i].0@, items[i].1@))
}

/// A row of distinct names holds exactly the names of its map, each with its value.
proof fn lemma_map_of(entries: Seq<(Seq<char>, Seq<char>)>)
    ensures
        forall|name: Seq<char>| #[trigger]
            map_of(entries).contains_key(name) ==> exists|i: int|
                0 <= i < entries.len() && (#[trigger] entries[i]).0 == name,
        forall|i: int|
            0 <= i < entries.len() ==> map_of(entries).contains_key((#[trigger] entries[i]).0),
        names_distinct(entries) ==> forall|i: int|
            0 <= i < entries.len() ==> map_of(entries)[(#[trigger] entries[i]).0] == entries[i].1,
    decreases entries.len(),
{
    if entries.len() > 0 {
        let rest = entries.drop_last();
        lemma_map_of(rest);
        assert forall|name: Seq<char>| #[trigger] map_of(entries).contains_key(name) implies exists|
            i: int,
        |
            0 <= i < entries.len() && (#[trigger] entries[i]).0 == name by {
            if name == entries.last().0 {
                assert(entries[entries.len() - 1].0 == name);
            } else {
                assert(map_of(rest).contains_key(name));
                let i = choose|i: int| 0 <= i < rest.len() && (#[trigger] rest[i]).0 == name;
                assert(entries[i].0 == name);
            }
        }
        assert forall|i: int| 0 <= i < entries.len() implies map_of(entries).contains_key(
            (#[trigger] entries[i]).0,
        ) by {
            if i < rest.len() {
                assert(rest[i] == entries[i]);
            }
        }
        if names_distinct(entries) {
            assert(names_distinct(rest)) by {
                assert forall|i: int, j: int| 0 <= i < j < rest.len() implies (
                #[trigger] rest[i]).0 != (#[trigger] rest[j]).0 by {
                    assert(rest[i] == entries[i] && rest[j] == entries[j]);
                }
            }
            assert forall|i: int| 0 <= i < entries.len() implies map_of(entries)[(
            #[trigger] entries[i]).0] == entries[i].1 by {
                if i < rest.len() {
                    assert(rest[i] == entries[i]);
                    assert(entries[i].0 != entries[entries.len() - 1].0);
                }
            }
        }
    }
}

impl OptionMap {
    /// The entries, in order.
    pub closed spec fn entries(&self) -> Seq<(Seq<char>, Seq<char>)> {
        pairs(self.items@)
    }

    #[verifier::type_invariant]
    spec fn well_formed(&self) -> bool {
        names_distinct(pairs(self.items@))
    }

    /// The empty map.
    pub fn new() -> (r: OptionMap)
        ensures
            r@ == Map::<Seq<char>, Seq<char>>::empty(),
            r.entries().len() == 0,
    {
        let r = OptionMap { items: Vec::new() };
        assert(r.entries().len() == 0);
        r
    }

    /// How many options the map holds.
    pub fn len(&self) -> (r: usize)
        ensures
            r == self.entries().len(),
            names_distinct(self.entries()),
    {
        proof {
            use_type_invariant(self);
        }
        self.items.len()
    }

    /// The name at a position.
    pub fn name_at(&self, i: usize) -> (r: &String)
        requires
            i < self.entries().len(),
        ensures
            r@ == self.entries()[i as int].0,
    {
        &self.items[i].0
    }

    /// The value at a position.
    pub fn value_at(&self, i: usize) -> (r: &String)
        requires
            i < self.entries().len(),
        ensures
            r@ == self.entries()[i as int].1,
    {
        &self.items[i].1
    }

    fn position(&self, name: &str) -> (r: Option<usize>)
        ensures
            match r {
                Some(i) => i < self.entries().len() && self.entries()[i as int].0 == name@,
                None => !self@.contains_key(name@),
            },
    {
        let mut i: usize = 0;
        while i < self.items.len()
            invariant
                i <= self.entries().len(),
                self.entries().len() == self.items@.len(),
                forall|j: int| 0 <= j < i ==> (#[trigger] self.entries()[j]).0 != name@,
            decreases self.items@.len() - i,
        {
            if same_text(self.items[i].0.as_str(), name) {
                return Some(i);
            }
            i = i + 1;
        }
        proof {
            lemma_map_of(self.entries());
        }
        None
    }

    /// The value of an option, if it is set.
    pub fn get(&self, name: &str) -> (r: Option<&String>)
        ensures
            match r {
                Some(value) => self@.contains_key(name@) && self@[name@] == value@,
                None => !self@.contains_key(name@),
            },
    {
        match self.position(name) {
            Some(i) => {
                proof {
                    use_type_invariant(self);
                    lemma_map_of(self.entries());
                }
                Some(&self.items[i].1)
            },
            None => None,
        }
    }

    /// Whether an option is set.
    pub fn contains_key(&self, name: &str) -> (r: bool)
        ensures
            r == self@.contains_key(name@),
    {
        proof {
            lemma_map_of(self.entries());
        }
        match self.position(name) {
            Some(_) => true,
            None => false,
        }
    }

    /// Sets an option.
    pub fn insert(&mut self, name: &str, value: &str)
        ensures
            final(self)@ == old(self)@.insert(name@, value@),
    {
        let mut next = self.without(name);
        next.add_new(name, value);
        proof {
            assert(self@.remove(name@).insert(name@, value@) =~= self@.insert(name@, value@));
        }
        *self = next;
    }

    /// Takes an option out.
    pub fn remove(&mut self, name: &str)
        ensures
            final(self)@ == old(self)@.remove(name@),
    {
        let next = self.without(name);
        *self = next;
    }

    fn add_new(&mut self, name: &str, value: &str)
        requires
            !old(self)@.contains_key(name@),
        ensures
            final(self)@ == old(self)@.insert(name@, value@),
            final(self).entries() == old(self).entries().push((name@, value@)),
    {
        proof {
            use_type_invariant(&*self);
        }
        let ghost before = self.entries();
        let mut items: Vec<(String, String)> = Vec::new();
        std::mem::swap(&mut items, &mut self.items);
        items.push((name.to_owned(), value.to_owned()));
        proof {
            lemma_map_of(before);
            let after = pairs(items@);
            assert(after =~= before.push((name@, value@)));
            assert(after.drop_last() =~= before);
            assert(names_distinct(after)) by {
                assert forall|i: int, j: int| 0 <= i < j < after.len() implies (
                #[trigger] after[i]).0 != (#[trigger] after[j]).0 by {
                    assert(after[i] == before[i]);
                    if j < before.len() {
                        assert(after[j] == before[j]);
                    }
                }
            }
        }
        self.items = items;
    }

    fn without(&self, name: &str) -> (r: OptionMap)
        ensures
            r@ == self@.remove(name@),
    {
        let mut r = OptionMap::new();
        let ghost entries = self.entries();
        proof {
            use_type_invariant(self);
            assert(entries.take(0) =~= Seq::empty());
            assert(map_of(entries.take(0)).remove(name@) =~= Map::empty());
        }
        let mut i: usize = 0;
        while i < self.items.len()
            invariant
                entries == self.entries(),
                names_distinct(entries),
                entries.len() == self.items@.len(),
                i <= entries.len(),
                r@ == map_of(entries.take(i as int)).remove(name@),
            decreases entries.len() - i,
        {
            let ghost shorter = entries.take(i as int);
            let ghost longer = entries.take(i + 1);
            proof {
                assert(longer.drop_last() =~= shorter);
                assert(longer.last() == entries[i as int]);
                lemma_map_of(shorter);
                assert(!map_of(shorter).contains_key(entries[i as int].0)) by {
                    if map_of(shorter).contains_key(entries[i as int].0) {
                        let k = choose|k: int|
                            0 <= k < shorter.len() && (#[trigger] shorter[k]).0
                                == entries[i as int].0;
                        assert(shorter[k] == entries[k]);
                    }
                }
            }
            if !same_text(self.items[i].0.as_str(), name) {
                r.add_new(self.items[i].0.as_str(), self.items[i].1.as_str());
                assert(r@ =~= map_of(longer).remove(name@));
            } else {
                assert(r@ =~= map_of(longer).remove(name@));
            }
            i = i + 1;
        }
        proof {
            assert(entries.take(i as int) =~= entries);
        }
        r
    }
}

impl Clone for OptionMap {
    fn clone(&self) -> (r: OptionMap)
        ensures
            r.entries() == self.entries(),
    {
        let mut r = OptionMap::new();
        let ghost entries = self.entries();
        proof {
            use_type_invariant(self);
            assert(entries.take(0) =~= r.entries());
        }
        let mut i: usize = 0;
        while i < self.items.len()
            invariant
                entries == self.entries(),
                names_distinct(entries),
                entries.len() == self.items@.len(),
                i <= entries.len(),
                r.entries() == entries.take(i as int),
            decreases entries.len() - i,
        {
            proof {
                lemma_map_of(entries.take(i as int));
                assert(entries.take(i + 1) =~= entries.take(i as int).push(entries[i as int]));
            }
            r.add_new(self.items[i].0.as_str(), self.items[i].1.as_str());
            i = i + 1;
        }
        assert(entries.take(i as int) =~= entries);
        r
    }
}

}
