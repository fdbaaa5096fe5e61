//! The ingredients of a recipe: each ingredient's name with its measure, a
//! name at most once.

use vstd::prelude::*;
use vstd::string::StrSliceExecFns;

verus! {

/// The map of a list of (name, measure) entries; a later entry for a name
/// overrides an earlier one.
pub open spec fn entries_map(entries: Seq<(String, String)>) -> Map<Seq<char>, Seq<char>>
    decreases entries.len(),
{
    if entries.len() == 0 {
        Map::empty()
    } else {
        entries_map(entries.drop_last()).insert(entries.last().0@, entries.last().1@)
    }
}

/// No name occurs twice among `entries`.
pub open spec fn unique_names(entries: Seq<(String, String)>) -> bool {
    forall|i: int, j: int|
        0 <= i < j < entries.len() ==> (#[trigger] entries[i]).0@ != (#[trigger] entries[j]).0@
}

/// Ingredient names with their measures.
pub struct Ingredients {
    entries: Vec<(String, String)>,
}

impl View for Ingredients {
    type V = Map<Seq<char>, Seq<char>>;

    closed spec fn view(&self) -> Map<Seq<char>, Seq<char>> {
        entries_map(self.entries@)
    }
}

proof fn lemma_entries_map_dom(entries: Seq<(String, String)>)
    ensures
        forall|k: Seq<char>|
            entries_map(entries).contains_key(k) <==> exists|i: int|
                0 <= i < entries.len() && (#[trigger] entries[i]).0@ == k,
        entries_map(entries).dom().finite(),
    decreases entries.len(),
{
    if entries.len() > 0 {
        let prev = entries.drop_last();
        lemma_entries_map_dom(prev);
        assert forall|k: Seq<char>|
            entries_map(entries).contains_key(k) <==> exists|i: int|
                0 <= i < entries.len() && (#[trigger] entries[i]).0@ == k by {
            if entries_map(entries).contains_key(k) && k != entries.last().0@ {
                let i = choose|i: int| 0 <= i < prev.len() && (#[trigger] prev[i]).0@ == k;
                assert(entries[i] == prev[i]);
            }
            if exists|i: int| 0 <= i < entries.len() && (#[trigger] entries[i]).0@ == k {
                let i = choose|i: int| 0 <= i < entries.len() && (#[trigger] entries[i]).0@ == k;
                if i < entries.len() - 1 {
                    assert(prev[i] == entries[i]);
                }
            }
        }
    }
}

/// With unique names, an entry gives the measure of its name.
proof fn lemma_entries_map_value(entries: Seq<(String, String)>, i: int)
    requires
        unique_names(entries),
        0 <= i < entries.len(),
    ensures
        entries_map(entries).contains_key(entries[i].0@),
        entries_map(entries)[entries[i].0@] == entries[i].1@,
    decreases entries.len(),
{
    if i < entries.len() - 1 {
        let prev = entries.drop_last();
        assert(prev[i] == entries[i]);
        assert(entries[i].0@ != entries.last().0@);
        lemma_entries_map_value(prev, i);
    }
}

/// Replacing the measure of an entry with unique names updates the map.
proof fn lemma_entries_map_update(entries: Seq<(String, String)>, j: int, e: (String, String))
    requires
        unique_names(entries),
        0 <= j < entries.len(),
        entries[j].0@ == e.0@,
    ensures
        entries_map(entries.update(j, e)) == entries_map(entries).insert(e.0@, e.1@),
    decreases entries.len(),
{
    let u = entries.update(j, e);
    if j == entries.len() - 1 {
        assert(u.drop_last() =~= entries.drop_last());
        assert(entries_map(entries).insert(e.0@, e.1@) =~= entries_map(entries.drop_last()).insert(
            e.0@,
            e.1@,
        ));
    } else {
        let prev = entries.drop_last();
        assert(u.drop_last() =~= prev.update(j, e));
        assert(prev[j] == entries[j]);
        lemma_entries_map_update(prev, j, e);
        assert(entries.last().0@ != e.0@);
        assert(entries_map(u) =~= entries_map(entries).insert(e.0@, e.1@));
    }
}

/// `a` comes before `b` in the order of `str`'s `Ord`: character by character
/// by code point, a proper prefix first (the order of UTF-8 bytes).
pub open spec fn name_before(a: Seq<char>, b: Seq<char>) -> bool
    decreases a.len(),
{
    if b.len() == 0 {
        false
    } else if a.len() == 0 {
        true
    } else if a[0] != b[0] {
        a[0] < b[0]
    } else {
        name_before(a.drop_first(), b.drop_first())
    }
}

/// The names of `entries` increase strictly in `name_before` order.
pub open spec fn by_name(entries: Seq<(String, String)>) -> bool {
    forall|i: int, j: int|
        0 <= i < j < entries.len() ==> name_before((#[trigger] entries[i]).0@, (#[trigger] entries[j]).0@)
}

proof fn lemma_before_irreflexive(a: Seq<char>)
    ensures
        !name_before(a, a),
    decreases a.len(),
{
    if a.len() > 0 {
        lemma_before_irreflexive(a.drop_first());
    }
}

proof fn lemma_before_transitive(a: Seq<char>, b: Seq<char>, c: Seq<char>)
    requires
        name_before(a, b),
        name_before(b, c),
    ensures
        name_before(a, c),
    decreases a.len(),
{
    if a.len() > 0 && b.len() > 0 && c.len() > 0 && a[0] == b[0] && b[0] == c[0] {
        lemma_before_transitive(a.drop_first(), b.drop_first(), c.drop_first());
    }
}

proof fn lemma_before_total(a: Seq<char>, b: Seq<char>)
    requires
        a != b,
    ensures
        name_before(a, b) || name_before(b, a),
    decreases a.len(),
{
    if a.len() == 0 && b.len() == 0 {
        assert(a =~= b);
    } else if a.len() > 0 && b.len() > 0 && a[0] == b[0] {
        if a.drop_first() == b.drop_first() {
            assert(a.drop_first().len() == b.drop_first().len());
            assert(a.len() == b.len());
            assert(a =~= b) by {
                assert forall|i: int| 0 <= i < a.len() implies a[i] == b[i] by {
                    if i > 0 {
                        assert(a[i] == a.drop_first()[i - 1]);
                        assert(b[i] == b.drop_first()[i - 1]);
                    }
                }
            }
        }
        lemma_before_total(a.drop_first(), b.drop_first());
    } else if a.len() > 0 && b.len() > 0 {
        assert(a[0] < b[0] || b[0] < a[0]);
    }
}

/// Names in increasing order are distinct.
proof fn lemma_by_name_unique(entries: Seq<(String, String)>)
    requires
        by_name(entries),
    ensures
        unique_names(entries),
{
    assert forall|i: int, j: int|
        0 <= i < j < entries.len() implies (#[trigger] entries[i]).0@ != (#[trigger] entries[j]).0@ by {
        if entries[i].0@ == entries[j].0@ {
            lemma_before_irreflexive(entries[i].0@);
        }
    }
}

/// Whether `a` comes before `b` (`a < b` on `str`).
pub fn name_is_before(a: &str, b: &str) -> (r: bool)
    ensures
        r == name_before(a@, b@),
{
    let la = a.unicode_len();
    let lb = b.unicode_len();
    let mut i: usize = 0;
    assert(a@.skip(0) =~= a@);
    assert(b@.skip(0) =~= b@);
    while i < la && i < lb
        invariant
            la == a@.len(),
            lb == b@.len(),
            i <= la,
            i <= lb,
            name_before(a@, b@) == name_before(a@.skip(i as int), b@.skip(i as int)),
        decreases la - i,
    {
        let ca = a.get_char(i);
        let cb = b.get_char(i);
        assert(a@.skip(i as int)[0] == ca);
        assert(b@.skip(i as int)[0] == cb);
        if ca != cb {
            return ca < cb;
        }
        assert(a@.skip(i as int).drop_first() =~= a@.skip(i + 1));
        assert(b@.skip(i as int).drop_first() =~= b@.skip(i + 1));
        i = i + 1;
    }
    i < lb
}

/// Putting an entry whose name is new among unique names anywhere adds it
/// to the map.
proof fn lemma_entries_map_insert_at(s: Seq<(String, String)>, j: int, e: (String, String))
    requires
        0 <= j <= s.len(),
        unique_names(s.insert(j, e)),
    ensures
        entries_map(s.insert(j, e)) == entries_map(s).insert(e.0@, e.1@),
{
    let t = s.insert(j, e);
    assert forall|a: int, b: int| 0 <= a < b < s.len() implies (#[trigger] s[a]).0@ != (#[trigger] s[b]).0@ by {
        let ta = if a < j { a } else { a + 1 };
        let tb = if b < j { b } else { b + 1 };
        assert(t[ta] == s[a] && t[tb] == s[b]);
    }
    lemma_entries_map_dom(s);
    lemma_entries_map_dom(t);
    let m1 = entries_map(t);
    let m2 = entries_map(s).insert(e.0@, e.1@);
    assert(t[j] == e);
    assert forall|k: Seq<char>| m1.contains_key(k) <==> m2.contains_key(k) by {
        if m1.contains_key(k) && k != e.0@ {
            let i = choose|i: int| 0 <= i < t.len() && (#[trigger] t[i]).0@ == k;
            let si = if i < j { i } else { i - 1 };
            assert(s[si] == t[i]);
        }
        if m2.contains_key(k) && k != e.0@ {
            let i = choose|i: int| 0 <= i < s.len() && (#[trigger] s[i]).0@ == k;
            let ti = if i < j { i } else { i + 1 };
            assert(t[ti] == s[i]);
        }
    }
    assert forall|k: Seq<char>| m1.contains_key(k) implies m1[k] == m2[k] by {
        if k == e.0@ {
            lemma_entries_map_value(t, j);
        } else {
            let i = choose|i: int| 0 <= i < s.len() && (#[trigger] s[i]).0@ == k;
            lemma_entries_map_value(s, i);
            let ti = if i < j { i } else { i + 1 };
            assert(t[ti] == s[i]);
            lemma_entries_map_value(t, ti);
        }
    }
    assert(m1 =~= m2);
}

impl Ingredients {
    /// The names increase: each name once, in name order.
    #[verifier::type_invariant]
    spec fn names_in_order(&self) -> bool {
        by_name(self.entries@)
    }

    /// The entries, each name once, by name (as a `BTreeMap` iterates).
    pub closed spec fn entries(&self) -> Seq<(String, String)> {
        self.entries@
    }

    /// No ingredients.
    pub fn new() -> (r: Self)
        ensures
            r@ == Map::<Seq<char>, Seq<char>>::empty(),
            r.entries() == Seq::<(String, String)>::empty(),
    {
        Ingredients { entries: Vec::new() }
    }

    /// Sets the measure of `name`, replacing any measure it had.
    pub fn insert(&mut self, name: String, measure: String)
        ensures
            final(self)@ == old(self)@.insert(name@, measure@),
    {
        proof {
            use_type_invariant(&*self);
        }
        let mut entries: Vec<(String, String)> = Vec::new();
        std::mem::swap(&mut entries, &mut self.entries);
        let ghost start = entries@;
        assert(start == old(self).entries@);
        proof {
            lemma_by_name_unique(start);
        }
        let mut j: usize = 0;
        while j < entries.len() && name_is_before(entries[j].0.as_str(), name.as_str())
            invariant
                j <= entries@.len(),
                entries@ == start,
                by_name(start),
                forall|k: int| 0 <= k < j ==> name_before((#[trigger] entries@[k]).0@, name@),
            decreases entries@.len() - j,
        {
            j = j + 1;
        }
        if j < entries.len() && entries[j].0 == name {
            proof {
                lemma_entries_map_update(start, j as int, (name, measure));
            }
            entries.set(j, (name, measure));
            assert(entries@ == start.update(j as int, (name, measure)));
            assert forall|a: int, b: int|
                0 <= a < b < entries@.len() implies name_before(
                    (#[trigger] entries@[a]).0@,
                    (#[trigger] entries@[b]).0@,
                ) by {
                assert(entries@[a].0@ == start[a].0@ && entries@[b].0@ == start[b].0@);
            }
            self.entries = entries;
            return;
        }
        let ghost e = (name, measure);
        proof {
            // every name from `j` on comes after `name`
            if j < start.len() {
                lemma_before_total(start[j as int].0@, name@);
            }
            assert forall|k: int| j <= k < start.len() implies name_before(name@, (#[trigger] start[k]).0@) by {
                if k > j {
                    lemma_before_transitive(name@, start[j as int].0@, start[k].0@);
                }
            }
        }
        entries.insert(j, (name, measure));
        let ghost t = entries@;
        assert(t == start.insert(j as int, e));
        assert forall|a: int, b: int| 0 <= a < b < t.len() implies name_before(
            (#[trigger] t[a]).0@,
            (#[trigger] t[b]).0@,
        ) by {
            if b < j {
                assert(t[a] == start[a] && t[b] == start[b]);
            } else if b == j {
                assert(t[a] == start[a]);
            } else if a < j {
                assert(t[a] == start[a] && t[b] == start[b - 1]);
                lemma_before_transitive(start[a].0@, name@, start[b - 1].0@);
            } else if a == j {
                assert(t[b] == start[b - 1]);
            } else {
                assert(t[a] == start[a - 1] && t[b] == start[b - 1]);
            }
        }
        proof {
            lemma_by_name_unique(t);
            lemma_entries_map_insert_at(start, j as int, e);
        }
        self.entries = entries;
    }

    /// The number of ingredients.
    pub fn len(&self) -> (n: usize)
        ensures
            n == self@.len(),
            n == self.entries().len(),
    {
        proof {
            use_type_invariant(self);
            lemma_by_name_unique(self.entries@);
            lemma_unique_map_len(self.entries@);
        }
        self.entries.len()
    }

    /// The ingredients as (name, measure) pairs, each name once, by name.
    pub fn pairs(&self) -> (r: &Vec<(String, String)>)
        ensures
            r@ == self.entries(),
            by_name(r@),
            unique_names(r@),
            forall|i: int|
                0 <= i < r@.len() ==> self@.contains_key((#[trigger] r@[i]).0@) && self@[r@[i].0@]
                    == r@[i].1@,
            forall|k: Seq<char>|
                self@.contains_key(k) ==> exists|i: int| 0 <= i < r@.len() && (#[trigger] r@[i]).0@ == k,
    {
        proof {
            use_type_invariant(self);
            lemma_by_name_unique(self.entries@);
            lemma_entries_map_dom(self.entries@);
            assert forall|i: int|
                0 <= i < self.entries@.len() implies self@.contains_key(
                    (#[trigger] self.entries@[i]).0@,
                ) && self@[self.entries@[i].0@] == self.entries@[i].1@ by {
                lemma_entries_map_value(self.entries@, i);
            }
        }
        &self.entries
    }
}

/// With unique names, there are as many ingredients as entries.
proof fn lemma_unique_map_len(entries: Seq<(String, String)>)
    requires
        unique_names(entries),
    ensures
        entries_map(entries).len() == entries.len(),
        entries_map(entries).dom().finite(),
    decreases entries.len(),
{
    lemma_entries_map_dom(entries);
    if entries.len() > 0 {
        let prev = entries.drop_last();
        assert(unique_names(prev)) by {
            assert forall|i: int, j: int|
                0 <= i < j < prev.len() implies (#[trigger] prev[i]).0@ != (#[trigger] prev[j]).0@ by {
                assert(prev[i] == entries[i] && prev[j] == entries[j]);
            }
        }
        lemma_unique_map_len(prev);
        lemma_entries_map_dom(prev);
        assert(!entries_map(prev).contains_key(entries.last().0@)) by {
            if entries_map(prev).contains_key(entries.last().0@) {
                let i = choose|i: int| 0 <= i < prev.len() && (#[trigger] prev[i]).0@ == entries.last().0@;
                assert(entries[i] == prev[i]);
            }
        }
    }
}

} // verus!
