//! DynamoDB attribute values and items (maps from attribute names to values).

use vstd::prelude::*;

verus! {

/// A DynamoDB attribute value, variant for variant as the service knows them.
pub enum AttributeValue {
    /// Binary data.
    B(Vec<u8>),
    /// A boolean.
    Bool(bool),
    /// A set of binary values.
    Bs(Vec<Vec<u8>>),
    /// A list of values.
    L(Vec<AttributeValue>),
    /// A map of named values, as name/value pairs.
    M(Vec<(String, AttributeValue)>),
    /// A number, in its decimal text form.
    N(String),
    /// A set of numbers.
    Ns(Vec<String>),
    /// The null marker.
    Null(bool),
    /// A string.
    S(String),
    /// A set of strings.
    Ss(Vec<String>),
}

/// `a` is the string attribute holding the text `s`.
pub open spec fn is_string_attr(a: AttributeValue, s: Seq<char>) -> bool {
    a matches AttributeValue::S(t) && t@ == s
}

/// `a` is the boolean attribute holding `b`.
pub open spec fn is_bool_attr(a: AttributeValue, b: bool) -> bool {
    a matches AttributeValue::Bool(c) && c == b
}

/// The map that a list of name/value pairs denotes when the pairs are
/// written in order: a later pair overrides an earlier one with the same name.
pub open spec fn entries_map(s: Seq<(String, AttributeValue)>) -> Map<Seq<char>, AttributeValue>
    decreases s.len(),
{
    if s.len() == 0 {
        Map::empty()
    } else {
        entries_map(s.drop_last()).insert(s.last().0@, s.last().1)
    }
}

/// No attribute name occurs twice in `s`.
pub open spec fn names_distinct(s: Seq<(String, AttributeValue)>) -> bool {
    forall|i: int, j: int| 0 <= i < j < s.len() ==> s[i].0@ != s[j].0@
}

/// The names of `entries_map(s)` are exactly the names that occur in `s`.
pub proof fn lemma_entries_map_dom(s: Seq<(String, AttributeValue)>, k: Seq<char>)
    ensures
        entries_map(s).dom().contains(k) <==> exists|i: int| 0 <= i < s.len() && s[i].0@ == k,
    decreases s.len(),
{
    if s.len() > 0 {
        lemma_entries_map_dom(s.drop_last(), k);
        if exists|i: int| 0 <= i < s.len() && s[i].0@ == k {
            let i = choose|i: int| 0 <= i < s.len() && s[i].0@ == k;
            if i < s.len() - 1 {
                assert(s.drop_last()[i].0@ == k);
            }
        }
        if exists|i: int| 0 <= i < s.len() - 1 && s.drop_last()[i].0@ == k {
            let i = choose|i: int| 0 <= i < s.len() - 1 && s.drop_last()[i].0@ == k;
            assert(s[i].0@ == k);
        }
    }
}

/// Where the names are distinct, each pair is what the map holds under its name.
pub proof fn lemma_entries_map_index(s: Seq<(String, AttributeValue)>, i: int)
    requires
        names_distinct(s),
        0 <= i < s.len(),
    ensures
        entries_map(s).dom().contains(s[i].0@),
        entries_map(s)[s[i].0@] == s[i].1,
    decreases s.len(),
{
    if i < s.len() - 1 {
        let t = s.drop_last();
        assert(t[i] == s[i]);
        assert(names_distinct(t));
        lemma_entries_map_index(t, i);
    }
}

/// Replacing the value of a pair whose name is unique is an insert into the map.
pub proof fn lemma_entries_map_update(s: Seq<(String, AttributeValue)>, i: int, v: AttributeValue)
    requires
        names_distinct(s),
        0 <= i < s.len(),
    ensures
        entries_map(s.update(i, (s[i].0, v))) == entries_map(s).insert(s[i].0@, v),
    decreases s.len(),
{
    let u = s.update(i, (s[i].0, v));
    let k = s[i].0@;
    if i == s.len() - 1 {
        assert(u.drop_last() =~= s.drop_last());
        assert(entries_map(u) =~= entries_map(s).insert(k, v));
    } else {
        let t = s.drop_last();
        assert(t[i] == s[i]);
        assert(names_distinct(t));
        lemma_entries_map_update(t, i, v);
        assert(u.drop_last() =~= t.update(i, (t[i].0, v)));
        assert(s.last().0@ != k);
        assert(entries_map(u) =~= entries_map(s).insert(k, v));
    }
}

/// Appending a pair with a new name keeps the names distinct.
pub proof fn lemma_push_distinct(s: Seq<(String, AttributeValue)>, p: (String, AttributeValue))
    requires
        names_distinct(s),
        forall|i: int| 0 <= i < s.len() ==> s[i].0@ != p.0@,
    ensures
        names_distinct(s.push(p)),
{
    assert forall|i: int, j: int| 0 <= i < j < s.push(p).len() implies s.push(p)[i].0@ != s.push(
        p,
    )[j].0@ by {
        if j == s.len() {
            assert(s.push(p)[i] == s[i]);
        } else {
            assert(s.push(p)[i] == s[i]);
            assert(s.push(p)[j] == s[j]);
        }
    }
}

/// Where the attribute `name` stands in `entries`, if it does.
fn position(entries: &Vec<(String, AttributeValue)>, name: &String) -> (pos: Option<usize>)
    ensures
        match pos {
            Some(i) => i < entries@.len() && entries@[i as int].0@ == name@,
            None => forall|i: int| 0 <= i < entries@.len() ==> entries@[i].0@ != name@,
        },
{
    let mut i: usize = 0;
    while i < entries.len()
        invariant
            i <= entries@.len(),
            forall|j: int| 0 <= j < i ==> entries@[j].0@ != name@,
        decreases entries@.len() - i,
    {
        if entries[i].0 == *name {
            return Some(i);
        }
        i = i + 1;
    }
    None
}

/// Reading an attribute after writing it gives the value written, and writing
/// leaves every other attribute as it was.
pub proof fn lemma_read_after_write(
    item: Map<Seq<char>, AttributeValue>,
    name: Seq<char>,
    value: AttributeValue,
    other: Seq<char>,
)
    ensures
        item.insert(name, value).dom().contains(name),
        item.insert(name, value)[name] == value,
        other != name ==> (item.insert(name, value).dom().contains(other) <==> item.dom().contains(other)),
        other != name && item.dom().contains(other) ==> item.insert(name, value)[other] == item[other],
{
}

/// A DynamoDB item: attribute names mapped to values.
pub struct Item {
    entries: Vec<(String, AttributeValue)>,
}

impl View for Item {
    type V = Map<Seq<char>, AttributeValue>;

    /// The attributes of the item, by name.
    closed spec fn view(&self) -> Map<Seq<char>, AttributeValue> {
        entries_map(self.entries@)
    }
}

impl Item {
    #[verifier::type_invariant]
    spec fn names_unique(self) -> bool {
        names_distinct(self.entries@)
    }

    /// The item with no attributes.
    pub fn new() -> (item: Item)
        ensures
            item.view() == Map::<Seq<char>, AttributeValue>::empty(),
    {
        Item { entries: Vec::new() }
    }

    /// Sets the attribute `name` to `value`, replacing any value it had.
    pub fn insert(&mut self, name: String, value: AttributeValue)
        ensures
            final(self).view() == old(self).view().insert(name@, value),
    {
        proof {
            use_type_invariant(&*self);
        }
        let mut entries: Vec<(String, AttributeValue)> = Vec::new();
        std::mem::swap(&mut entries, &mut self.entries);
        let ghost s = entries@;
        match position(&entries, &name) {
            Some(i) => {
                let key = entries[i].0.clone();
                proof {
                    lemma_entries_map_update(s, i as int, value);
                }
                entries.set(i, (key, value));
                proof {
                    assert(entries@ =~= s.update(i as int, (s[i as int].0, value)));
                    assert forall|a: int, b: int| 0 <= a < b < entries@.len() implies entries@[a].0@
                        != entries@[b].0@ by {
                        assert(entries@[a].0@ == s[a].0@);
                        assert(entries@[b].0@ == s[b].0@);
                    }
                }
            },
            None => {
                proof {
                    lemma_push_distinct(s, (name, value));
                }
                entries.push((name, value));
                proof {
                    assert(entries@.drop_last() =~= s);
                }
            },
        }
        self.entries = entries;
    }

    /// The value of the attribute `name`, if the item has one.
    pub fn get(&self, name: &str) -> (value: Option<&AttributeValue>)
        ensures
            match value {
                Some(v) => self.view().dom().contains(name@) && self.view()[name@] == *v,
                None => !self.view().dom().contains(name@),
            },
    {
        proof {
            use_type_invariant(self);
        }
        let key = name.to_owned();
        match position(&self.entries, &key) {
            Some(i) => {
                proof {
                    lemma_entries_map_index(self.entries@, i as int);
                }
                Some(&self.entries[i].1)
            },
            None => {
                proof {
                    lemma_entries_map_dom(self.entries@, name@);
                }
                None
            },
        }
    }

    /// The item that writing the pairs of `entries` in order gives: a later
    /// pair overrides an earlier one with the same name.
    pub fn from_entries(entries: Vec<(String, AttributeValue)>) -> (item: Item)
        ensures
            item.view() == entries_map(entries@),
    {
        let mut item = Item::new();
        let mut rest = entries;
        let ghost all = rest@;
        let ghost mut n: int = 0;
        while rest.len() > 0
            invariant
                0 <= n <= all.len(),
                rest@ == all.subrange(n, all.len() as int),
                item.view() == entries_map(all.take(n)),
            decreases rest@.len(),
        {
            let (name, value) = rest.remove(0);
            proof {
                assert(all.take(n + 1).drop_last() =~= all.take(n));
                assert(all.take(n + 1).last() == all[n]);
            }
            item.insert(name, value);
            proof {
                n = n + 1;
                assert(rest@ =~= all.subrange(n, all.len() as int));
            }
        }
        proof {
            assert(all.take(n) =~= all);
        }
        item
    }
    /// Writes every attribute of `other` into the item, replacing the values
    /// of names it already has.
    pub fn extend(&mut self, other: Item)
        ensures
            final(self).view() == old(self).view().union_prefer_right(other.view()),
    {
        let ghost base = self.view();
        let mut rest = other.into_entries();
        let ghost all = rest@;
        let ghost mut n: int = 0;
        proof {
            assert(base.union_prefer_right(entries_map(all.take(0))) =~= base);
        }
        while rest.len() > 0
            invariant
                0 <= n <= all.len(),
                rest@ == all.subrange(n, all.len() as int),
                self.view() == base.union_prefer_right(entries_map(all.take(n))),
            decreases rest@.len(),
        {
            let (name, value) = rest.remove(0);
            proof {
                assert(all.take(n + 1).drop_last() =~= all.take(n));
                assert(all.take(n + 1).last() == all[n]);
                assert(base.union_prefer_right(entries_map(all.take(n + 1))) =~= base.union_prefer_right(
                    entries_map(all.take(n)),
                ).insert(name@, value));
            }
            self.insert(name, value);
            proof {
                n = n + 1;
                assert(rest@ =~= all.subrange(n, all.len() as int));
            }
        }
        proof {
            assert(all.take(n) =~= all);
        }
    }

    /// The attributes as name/value pairs, each name once.
    pub fn into_entries(self) -> (entries: Vec<(String, AttributeValue)>)
        ensures
            entries_map(entries@) == self.view(),
            names_distinct(entries@),
    {
        proof {
            use_type_invariant(&self);
        }
        self.entries
    }
}

} // verus!
