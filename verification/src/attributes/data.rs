//! The `data-*` attributes of an element, held together as one attribute.
use vstd::prelude::*;

verus! {

/// All the `data-*` attributes of a tag: pairs of a key and a value, kept in
/// the order in which the keys were first inserted. It expands to one
/// `data-key="value"` fact for each pair, in that order.
pub struct Attribute(pub Vec<(String, String)>);

impl View for Attribute {
    type V = Seq<(Seq<char>, Seq<char>)>;

    /// The pairs as text, in their order.
    open spec fn view(&self) -> Self::V {
        self.0@.map_values(|pair: (String, String)| (pair.0@, pair.1@))
    }
}

/// The text of one pair: `data-key="value"`, with nothing escaped.
pub open spec fn entry_markup(key: Seq<char>, value: Seq<char>) -> Seq<char> {
    "data-"@ + key + "=\""@ + value + "\""@
}

/// The text of a sequence of pairs: their facts in order, with one space
/// between two neighbours and none at either end.
pub open spec fn entries_markup(entries: Seq<(Seq<char>, Seq<char>)>) -> Seq<char>
    decreases entries.len(),
{
    if entries.len() == 0 {
        Seq::empty()
    } else if entries.len() == 1 {
        entry_markup(entries[0].0, entries[0].1)
    } else {
        entries_markup(entries.drop_last()) + " "@ + entry_markup(
            entries.last().0,
            entries.last().1,
        )
    }
}

/// Whether some pair of `entries` has the key `key`.
pub open spec fn has_key(entries: Seq<(Seq<char>, Seq<char>)>, key: Seq<char>) -> bool {
    exists|i: int| 0 <= i < entries.len() && #[trigger] entries[i].0 == key
}

/// The place of a pair with the key `key`, where [`has_key`] holds. Where no
/// key occurs twice there is one such place.
pub open spec fn key_position(entries: Seq<(Seq<char>, Seq<char>)>, key: Seq<char>) -> int {
    choose|i: int| 0 <= i < entries.len() && #[trigger] entries[i].0 == key
}

/// The pairs after `key` was given `value`: where the key is present its pair
/// keeps its place and takes the new value; where it is not, a new pair
/// stands at the end.
pub open spec fn inserted(
    entries: Seq<(Seq<char>, Seq<char>)>,
    key: Seq<char>,
    value: Seq<char>,
) -> Seq<(Seq<char>, Seq<char>)> {
    if has_key(entries, key) {
        entries.update(key_position(entries, key), (key, value))
    } else {
        entries.push((key, value))
    }
}

impl Attribute {
    /// No key occurs twice.
    pub open spec fn well_formed(&self) -> bool {
        forall|i: int, j: int|
            0 <= i < j < self@.len() ==> (#[trigger] self@[i]).0 != (#[trigger] self@[j]).0
    }

    /// An attribute without pairs; it renders as the empty text.
    pub fn new() -> (attribute: Self)
        ensures
            attribute@ == Seq::<(Seq<char>, Seq<char>)>::empty(),
            attribute.well_formed(),
    {
        let attribute = Attribute(Vec::new());
        assert(attribute@ =~= Seq::<(Seq<char>, Seq<char>)>::empty());
        attribute
    }

    /// Gives `key` the value `value`, as a map does: a key that is present
    /// keeps its place, a new one goes to the end.
    pub fn insert(&mut self, key: String, value: String)
        requires
            old(self).well_formed(),
        ensures
            final(self).well_formed(),
            final(self)@ == inserted(old(self)@, key@, value@),
    {
        let ghost before = self@;
        let mut i: usize = 0;
        while i < self.0.len()
            invariant
                i <= self.0.len(),
                self@ == before,
                before == old(self)@,
                self.well_formed(),
                forall|j: int| 0 <= j < i ==> (#[trigger] before[j]).0 != key@,
            decreases self.0.len() - i,
        {
            if self.0[i].0 == key {
                self.0.set(i, (key, value));
                proof {
                    assert(before[i as int].0 == key@);
                    assert(has_key(before, key@));
                    let at = key_position(before, key@);
                    assert(0 <= at < before.len() && before[at].0 == key@);
                    assert(at == i) by {
                        if at < i {
                            assert(before[at].0 != before[i as int].0);
                        }
                        if i < at {
                            assert(before[i as int].0 != before[at].0);
                        }
                    }
                    assert(self@ =~= before.update(i as int, (key@, value@)));
                    assert(inserted(before, key@, value@) == before.update(i as int, (key@, value@)));
                    assert forall|a: int, b: int| 0 <= a < b < self@.len() implies (#[trigger] self@[a]).0
                        != (#[trigger] self@[b]).0 by {
                        assert(self@[a].0 == before[a].0);
                        assert(self@[b].0 == before[b].0);
                    }
                }
                return;
            }
            i += 1;
        }
        self.0.push((key, value));
        proof {
            assert(!has_key(before, key@));
            assert(self@ =~= before.push((key@, value@)));
            assert forall|a: int, b: int| 0 <= a < b < self@.len() implies (#[trigger] self@[a]).0
                != (#[trigger] self@[b]).0 by {
                if b < before.len() {
                    assert(self@[a].0 == before[a].0);
                    assert(self@[b].0 == before[b].0);
                } else {
                    assert(self@[a].0 == before[a].0);
                }
            }
        }
    }
}

impl crate::attributes::Base for Attribute {
    open spec fn markup(&self) -> Seq<char> {
        entries_markup(self@)
    }

    fn to_string(&self) -> (s: String) {
        let mut s = String::new();
        let mut i: usize = 0;
        while i < self.0.len()
            invariant
                i <= self.0.len(),
                s@ == entries_markup(self@.take(i as int)),
            decreases self.0.len() - i,
        {
            if i > 0 {
                s.append(" ");
            }
            s.append("data-");
            s.append(self.0[i].0.as_str());
            s.append("=\"");
            s.append(self.0[i].1.as_str());
            s.append("\"");
            proof {
                let next = self@.take(i + 1);
                assert(next.drop_last() =~= self@.take(i as int));
                assert(next.last() == self@[i as int]);
                if i == 0 {
                    assert(next[0] == self@[0]);
                }
                assert(s@ =~= entries_markup(next));
            }
            i += 1;
        }
        assert(self@.take(self.0.len() as int) =~= self@);
        s
    }
}

} // verus!
