//! A map from names to values, kept as two lists side by side.
//!
//! Rooms keep their devices in one and homes their rooms. A name occurs at
//! most once, so a name stands for at most one value; an insertion under a
//! name that is already there replaces the value.

use vstd::prelude::*;

verus! {

/// No two entries of `names` spell the same text.
spec fn distinct(names: Seq<String>) -> bool {
    forall|i: int, j: int|
        0 <= i < names.len() && 0 <= j < names.len() && i != j ==> names[i]@ != names[j]@
}

/// Some entry of `names` spells `name`.
spec fn listed(names: Seq<String>, name: Seq<char>) -> bool {
    exists|i: int| 0 <= i < names.len() && names[i]@ == name
}

/// Where `names` spells `name`.
spec fn position(names: Seq<String>, name: Seq<char>) -> int {
    choose|i: int| 0 <= i < names.len() && names[i]@ == name
}

/// The map that takes each listed name to the value beside it.
spec fn bindings<V>(names: Seq<String>, values: Seq<V>) -> Map<Seq<char>, V> {
    Map::new(
        |name: Seq<char>| listed(names, name),
        |name: Seq<char>| values[position(names, name)],
    )
}

/// The texts that `names` spells, in order.
spec fn texts(names: Seq<String>) -> Seq<Seq<char>> {
    names.map_values(|name: String| name@)
}

/// Where names are distinct, a name is listed at one place only.
proof fn lemma_position(names: Seq<String>, i: int)
    requires
        distinct(names),
        0 <= i < names.len(),
    ensures
        listed(names, names[i]@),
        position(names, names[i]@) == i,
{
}

/// Replacing the value beside a name puts that value under the name.
proof fn lemma_replace<V>(names: Seq<String>, values: Seq<V>, i: int)
    requires
        distinct(names),
        names.len() == values.len(),
        0 <= i < names.len(),
    ensures
        forall|value: V|
            bindings(names, #[trigger] values.update(i, value)) == bindings(names, values).insert(
                names[i]@,
                value,
            ),
{
    assert forall|value: V|
        bindings(names, #[trigger] values.update(i, value)) == bindings(names, values).insert(
            names[i]@,
            value,
        ) by {
        lemma_position(names, i);
        assert forall|name: Seq<char>| listed(names, name) implies bindings(
            names,
            values.update(i, value),
        )[name] == bindings(names, values).insert(names[i]@, value)[name] by {
            lemma_position(names, position(names, name));
        }
        assert(bindings(names, values.update(i, value)) =~= bindings(names, values).insert(
            names[i]@,
            value,
        ));
    }
}

/// Appending a name that is not listed, with a value, puts that value
/// under the name and keeps the names distinct.
proof fn lemma_append<V>(names: Seq<String>, values: Seq<V>, name: String, value: V)
    requires
        distinct(names),
        names.len() == values.len(),
        !listed(names, name@),
    ensures
        distinct(names.push(name)),
        bindings(names.push(name), values.push(value)) == bindings(names, values).insert(
            name@,
            value,
        ),
{
    let longer = names.push(name);
    assert(distinct(longer)) by {
        assert forall|i: int| 0 <= i < names.len() implies names[i]@ == longer[i]@ by {}
    }
    assert forall|key: Seq<char>| listed(longer, key) <==> (listed(names, key) || key
        == name@) by {
        if listed(names, key) {
            assert(longer[position(names, key)]@ == key);
        }
        if key == name@ {
            assert(longer[names.len() as int]@ == key);
        }
    }
    assert forall|key: Seq<char>| listed(longer, key) implies bindings(
        longer,
        values.push(value),
    )[key] == bindings(names, values).insert(name@, value)[key] by {
        let p = position(longer, key);
        lemma_position(longer, p);
        if key == name@ {
            lemma_position(longer, names.len() as int);
        } else {
            lemma_position(names, p);
        }
    }
}

/// Taking out a name and the value beside it takes the name out of the map
/// and keeps the names distinct.
proof fn lemma_delete<V>(names: Seq<String>, values: Seq<V>, i: int)
    requires
        distinct(names),
        names.len() == values.len(),
        0 <= i < names.len(),
    ensures
        distinct(names.remove(i)),
        bindings(names.remove(i), values.remove(i)) == bindings(names, values).remove(names[i]@),
{
    let shorter = names.remove(i);
    let rest = values.remove(i);
    let gone = names[i]@;
    assert forall|key: Seq<char>| listed(shorter, key) <==> (listed(names, key) && key
        != gone) by {
        if listed(names, key) && key != gone {
            let p = position(names, key);
            assert(shorter[if p < i { p } else { p - 1 }]@ == key);
        }
    }
    assert forall|key: Seq<char>| listed(shorter, key) implies bindings(shorter, rest)[key]
        == bindings(names, values).remove(gone)[key] by {
        let p = position(shorter, key);
        lemma_position(names, if p < i { p } else { p + 1 });
    }
}

/// Where names are distinct, the map has as many names as the list.
proof fn lemma_count<V>(names: Seq<String>, values: Seq<V>)
    requires
        distinct(names),
    ensures
        bindings(names, values).dom().finite(),
        bindings(names, values).dom().len() == names.len(),
{
    let spelled = texts(names);
    spelled.unique_seq_to_set();
    assert(bindings(names, values).dom() =~= spelled.to_set()) by {
        assert forall|key: Seq<char>| listed(names, key) implies spelled.contains(key) by {
            assert(spelled[position(names, key)] == key);
        }
    }
}

/// `str`'s `==`: two string slices are equal exactly when they spell the
/// same text.
#[verifier::external_body]
fn same_text(a: &str, b: &str) -> (same: bool)
    ensures
        same == (a@ == b@),
{
    a == b
}

/// What a list of pairs comes to when it is read in order and a later pair
/// replaces an earlier one of the same name.
pub open spec fn collected<V>(pairs: Seq<(String, V)>) -> Map<Seq<char>, V>
    decreases pairs.len(),
{
    if pairs.len() == 0 {
        Map::empty()
    } else {
        collected(pairs.drop_last()).insert(pairs.last().0@, pairs.last().1)
    }
}

/// A map from names to values.
pub struct NameMap<V> {
    names: Vec<String>,
    values: Vec<V>,
}

impl<V> View for NameMap<V> {
    type V = Map<Seq<char>, V>;

    closed spec fn view(&self) -> Map<Seq<char>, V> {
        bindings(self.names@, self.values@)
    }
}

impl<V> NameMap<V> {
    #[verifier::type_invariant]
    spec fn inv(self) -> bool {
        self.names@.len() == self.values@.len() && distinct(self.names@)
    }

    /// A map is finite.
    pub proof fn lemma_finite(&self)
        ensures
            self@.dom().finite(),
    {
        let spelled = texts(self.names@);
        assert(self@.dom().subset_of(spelled.to_set())) by {
            assert forall|key: Seq<char>| self@.dom().contains(key) implies spelled.to_set().contains(
                key,
            ) by {
                assert(spelled[position(self.names@, key)] == key);
            }
        }
        vstd::seq_lib::seq_to_set_is_finite(spelled);
        vstd::set_lib::lemma_len_subset(self@.dom(), spelled.to_set());
    }

    /// The empty map.
    pub fn new() -> (map: Self)
        ensures
            map@ == Map::<Seq<char>, V>::empty(),
    {
        NameMap { names: Vec::new(), values: Vec::new() }
    }

    /// Takes the two lists out and leaves the map empty.
    fn take(&mut self) -> (parts: (Vec<String>, Vec<V>))
        ensures
            parts.0 == old(self).names,
            parts.1 == old(self).values,
            parts.0@.len() == parts.1@.len(),
            distinct(parts.0@),
    {
        proof {
            use_type_invariant(&*self);
        }
        let mut taken = NameMap::new();
        std::mem::swap(self, &mut taken);
        (taken.names, taken.values)
    }

    /// Where `name` is listed, if it is.
    fn find(&self, name: &str) -> (place: Option<usize>)
        ensures
            match place {
                Some(i) => i < self.names@.len() && self.names@[i as int]@ == name@,
                None => !listed(self.names@, name@),
            },
    {
        let mut i: usize = 0;
        while i < self.names.len()
            invariant
                i <= self.names@.len(),
                forall|k: int| 0 <= k < i ==> self.names@[k]@ != name@,
            decreases self.names@.len() - i,
        {
            if same_text(self.names[i].as_str(), name) {
                return Some(i);
            }
            i += 1;
        }
        None
    }

    /// How many names the map holds.
    pub fn len(&self) -> (count: usize)
        ensures
            self@.dom().finite(),
            count == self@.len(),
    {
        proof {
            use_type_invariant(self);
            lemma_count(self.names@, self.values@);
        }
        self.names.len()
    }

    /// Whether the map holds no name.
    pub fn is_empty(&self) -> (empty: bool)
        ensures
            empty == (self@ == Map::<Seq<char>, V>::empty()),
    {
        proof {
            use_type_invariant(self);
            lemma_count(self.names@, self.values@);
            if self.names@.len() == 0 {
                assert(self@ =~= Map::<Seq<char>, V>::empty());
            }
        }
        self.names.len() == 0
    }

    /// Whether the map holds `name`.
    pub fn contains_key(&self, name: &str) -> (held: bool)
        ensures
            held == self@.contains_key(name@),
    {
        self.find(name).is_some()
    }

    /// The value under `name`, if the map holds the name.
    pub fn get(&self, name: &str) -> (found: Option<&V>)
        ensures
            match found {
                Some(value) => self@.contains_key(name@) && *value == self@[name@],
                None => !self@.contains_key(name@),
            },
    {
        proof {
            use_type_invariant(self);
        }
        match self.find(name) {
            Some(i) => {
                proof {
                    lemma_position(self.names@, i as int);
                }
                Some(&self.values[i])
            },
            None => None,
        }
    }

    /// The value under `name`, to be changed in place, if the map holds the
    /// name. Whatever the caller leaves there is the value under `name`
    /// afterwards; nothing else changes.
    pub fn get_mut(&mut self, name: &str) -> (found: Option<&mut V>)
        ensures
            match found {
                Some(value) => {
                    &&& old(self)@.contains_key(name@)
                    &&& *value == old(self)@[name@]
                    &&& final(self)@ == old(self)@.insert(name@, *final(value))
                },
                None => !old(self)@.contains_key(name@) && *final(self) == *old(self),
            },
    {
        proof {
            use_type_invariant(&*self);
        }
        match self.find(name) {
            Some(i) => {
                proof {
                    lemma_position(self.names@, i as int);
                    lemma_replace(self.names@, self.values@, i as int);
                }
                Some(&mut self.values[i])
            },
            None => None,
        }
    }

    /// Puts `value` under `name`, in place of the value that was there if
    /// the map held the name already.
    pub fn insert(&mut self, name: String, value: V)
        ensures
            final(self)@ == old(self)@.insert(name@, value),
            old(self)@.contains_key(name@) ==> final(self)@.len() == old(self)@.len(),
            !old(self)@.contains_key(name@) ==> final(self)@.len() == old(self)@.len() + 1,
    {
        proof {
            use_type_invariant(&*self);
            lemma_count(self.names@, self.values@);
        }
        match self.find(name.as_str()) {
            Some(i) => {
                proof {
                    lemma_position(self.names@, i as int);
                    lemma_replace(self.names@, self.values@, i as int);
                }
                self.values[i] = value;
            },
            None => {
                let (mut names, mut values) = self.take();
                proof {
                    lemma_append(names@, values@, name, value);
                }
                names.push(name);
                values.push(value);
                *self = NameMap { names, values };
            },
        }
    }

    /// Takes `name` and its value out; a name that the map does not hold
    /// changes nothing.
    pub fn remove(&mut self, name: &str)
        ensures
            final(self)@ == old(self)@.remove(name@),
            !old(self)@.contains_key(name@) ==> final(self)@ == old(self)@,
            old(self)@.contains_key(name@) ==> final(self)@.len() == old(self)@.len() - 1,
    {
        proof {
            use_type_invariant(&*self);
            lemma_count(self.names@, self.values@);
        }
        if let Some(i) = self.find(name) {
            let (mut names, mut values) = self.take();
            proof {
                lemma_delete(names@, values@, i as int);
            }
            names.remove(i);
            values.remove(i);
            *self = NameMap { names, values };
        }
    }

    /// Every name with its value, each name once, in no particular order.
    pub fn entries(&self) -> (all: Vec<(&String, &V)>)
        ensures
            self@.dom().finite(),
            all@.len() == self@.len(),
            forall|i: int|
                0 <= i < all@.len() ==> self@.contains_key((#[trigger] all@[i]).0@) && self@[all@[i].0@]
                    == *all@[i].1,
            forall|i: int, j: int|
                0 <= i < all@.len() && 0 <= j < all@.len() && i != j ==> all@[i].0@ != all@[j].0@,
    {
        proof {
            use_type_invariant(self);
            lemma_count(self.names@, self.values@);
        }
        let mut all: Vec<(&String, &V)> = Vec::new();
        let mut i: usize = 0;
        while i < self.names.len()
            invariant
                i <= self.names@.len(),
                self.names@.len() == self.values@.len(),
                distinct(self.names@),
                all@.len() == i,
                forall|k: int|
                    0 <= k < i ==> *(#[trigger] all@[k]).0 == self.names@[k] && *all@[k].1
                        == self.values@[k],
            decreases self.names@.len() - i,
        {
            all.push((&self.names[i], &self.values[i]));
            i += 1;
        }
        proof {
            assert forall|k: int| 0 <= k < all@.len() implies self@.contains_key(
                (#[trigger] all@[k]).0@,
            ) && self@[all@[k].0@] == *all@[k].1 by {
                lemma_position(self.names@, k);
            }
        }
        all
    }

    /// The map that `pairs` comes to when it is read in order and a later
    /// pair replaces an earlier one of the same name.
    pub fn from_pairs(pairs: Vec<(String, V)>) -> (map: Self)
        ensures
            map@ == collected(pairs@),
    {
        let mut rest = pairs;
        let mut map = NameMap::new();
        while rest.len() > 0
            invariant
                collected(rest@).union_prefer_right(map@) == collected(pairs@),
            decreases rest@.len(),
        {
            let ghost before = rest@;
            let ghost kept = map@;
            let (name, value) = rest.pop().unwrap();
            if !map.contains_key(name.as_str()) {
                map.insert(name, value);
            }
            assert(collected(rest@).union_prefer_right(map@) =~= collected(
                before,
            ).union_prefer_right(kept));
        }
        map
    }
}

/// A pair that is read last puts its value under its name, whatever was
/// there, and leaves every other name as it was.
pub proof fn lemma_later_pair_wins<V>(pairs: Seq<(String, V)>, name: String, value: V)
    ensures
        collected(pairs.push((name, value))) == collected(pairs).insert(name@, value),
{
    assert(pairs.push((name, value)).drop_last() =~= pairs);
}

} // verus!
