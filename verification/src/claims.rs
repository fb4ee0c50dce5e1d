//! The claims of a token: a finite mapping from claim names to text values.
//!
//! A `Claims` value keeps its entries in the order in which their names were
//! first inserted and never holds a name twice. Contracts speak of its view,
//! a `Map` from names to values.

use vstd::prelude::*;

verus! {

/// One entry of a claims mapping.
#[derive(Debug)]
pub struct Claim {
    pub name: String,
    pub value: String,
}

/// No two entries of `s` carry the same name.
pub open spec fn distinct_names(s: Seq<Claim>) -> bool {
    forall|i: int, j: int| 0 <= i < j < s.len() ==> (#[trigger] s[i]).name@ != (#[trigger] s[j]).name@
}

/// Some entry of `s` carries the name `name`.
pub open spec fn has_name(s: Seq<Claim>, name: Seq<char>) -> bool {
    exists|i: int| 0 <= i < s.len() && (#[trigger] s[i]).name@ == name
}

/// The position of an entry of `s` that carries the name `name`.
pub open spec fn index_of_name(s: Seq<Claim>, name: Seq<char>) -> int {
    choose|i: int| 0 <= i < s.len() && (#[trigger] s[i]).name@ == name
}

/// The mapping that the entries `s` stand for.
pub open spec fn claims_map(s: Seq<Claim>) -> Map<Seq<char>, Seq<char>> {
    Map::new(|name: Seq<char>| has_name(s, name), |name: Seq<char>| s[index_of_name(s, name)].value@)
}

/// The entries `s` after `c` is put among them: in the place of the entry of
/// the same name, or at the end where there is none.
pub open spec fn put(s: Seq<Claim>, c: Claim) -> Seq<Claim> {
    if has_name(s, c.name@) {
        s.update(index_of_name(s, c.name@), c)
    } else {
        s.push(c)
    }
}

/// Where names are distinct, each entry is what the mapping holds under its
/// name.
pub proof fn lemma_entry_in_map(s: Seq<Claim>, i: int)
    requires
        distinct_names(s),
        0 <= i < s.len(),
    ensures
        claims_map(s).contains_key(s[i].name@),
        claims_map(s)[s[i].name@] == s[i].value@,
{
    let name = s[i].name@;
    assert(has_name(s, name));
    let j = index_of_name(s, name);
    assert(0 <= j < s.len() && s[j].name@ == name);
    if i < j {
        assert(s[i].name@ != s[j].name@);
    } else if j < i {
        assert(s[j].name@ != s[i].name@);
    }
}

/// Appending an entry under a new name inserts it into the mapping.
pub proof fn lemma_push_inserts(s: Seq<Claim>, c: Claim)
    requires
        distinct_names(s),
        !has_name(s, c.name@),
    ensures
        distinct_names(s.push(c)),
        claims_map(s.push(c)) == claims_map(s).insert(c.name@, c.value@),
{
    let t = s.push(c);
    assert forall|i: int, j: int| 0 <= i < j < t.len() implies (#[trigger] t[i]).name@ != (
    #[trigger] t[j]).name@ by {
        if j < s.len() {
            assert(s[i].name@ != s[j].name@);
        } else {
            assert(t[i] == s[i]);
        }
    }
    let before = claims_map(s);
    let after = claims_map(t);
    let expected = before.insert(c.name@, c.value@);
    assert forall|name: Seq<char>| after.contains_key(name) <==> expected.contains_key(name) by {
        if has_name(t, name) {
            let i = index_of_name(t, name);
            if i < s.len() {
                assert(s[i].name@ == name);
            }
        }
        if has_name(s, name) {
            let i = index_of_name(s, name);
            assert(t[i].name@ == name);
        }
        if name == c.name@ {
            assert(t[s.len() as int].name@ == name);
        }
    }
    assert forall|name: Seq<char>| after.contains_key(name) implies after[name] == expected[name] by {
        let i = index_of_name(t, name);
        lemma_entry_in_map(t, i);
        if i < s.len() {
            assert(s[i] == t[i]);
            lemma_entry_in_map(s, i);
        }
    }
    assert(after =~= expected);
}

/// Replacing the value of an entry replaces it in the mapping.
pub proof fn lemma_update_inserts(s: Seq<Claim>, i: int, c: Claim)
    requires
        distinct_names(s),
        0 <= i < s.len(),
        s[i].name@ == c.name@,
    ensures
        distinct_names(s.update(i, c)),
        claims_map(s.update(i, c)) == claims_map(s).insert(c.name@, c.value@),
{
    let t = s.update(i, c);
    assert forall|a: int, b: int| 0 <= a < b < t.len() implies (#[trigger] t[a]).name@ != (
    #[trigger] t[b]).name@ by {
        assert(s[a].name@ != s[b].name@);
    }
    let before = claims_map(s);
    let after = claims_map(t);
    let expected = before.insert(c.name@, c.value@);
    assert forall|name: Seq<char>| after.contains_key(name) <==> expected.contains_key(name) by {
        if has_name(t, name) {
            let j = index_of_name(t, name);
            assert(s[j].name@ == name);
        }
        if has_name(s, name) {
            let j = index_of_name(s, name);
            assert(t[j].name@ == name);
        }
        if name == c.name@ {
            assert(t[i].name@ == name);
        }
    }
    assert forall|name: Seq<char>| after.contains_key(name) implies after[name] == expected[name] by {
        let j = index_of_name(t, name);
        lemma_entry_in_map(t, j);
        if j != i {
            assert(s[j] == t[j]);
            lemma_entry_in_map(s, j);
        }
    }
    assert(after =~= expected);
}

/// Where names are distinct, they are so among all entries but the last,
/// and none of those carries the name of the last.
pub proof fn lemma_last_is_new(s: Seq<Claim>)
    requires
        distinct_names(s),
        s.len() > 0,
    ensures
        distinct_names(s.drop_last()),
        !has_name(s.drop_last(), s.last().name@),
{
    let shorter = s.drop_last();
    assert forall|i: int, j: int| 0 <= i < j < shorter.len() implies (#[trigger] shorter[i]).name@
        != (#[trigger] shorter[j]).name@ by {
        assert(s[i].name@ != s[j].name@);
    }
    if has_name(shorter, s.last().name@) {
        let i = index_of_name(shorter, s.last().name@);
        assert(s[i].name@ != s[s.len() - 1].name@);
    }
}

/// Where names are distinct, the mapping has as many names as there are
/// entries.
pub proof fn lemma_map_size(s: Seq<Claim>)
    requires
        distinct_names(s),
    ensures
        claims_map(s).dom().finite(),
        claims_map(s).dom().len() == s.len(),
    decreases s.len(),
{
    if s.len() == 0 {
        assert(claims_map(s).dom() =~= Set::<Seq<char>>::empty());
    } else {
        let shorter = s.drop_last();
        let c = s.last();
        lemma_last_is_new(s);
        lemma_map_size(shorter);
        lemma_push_inserts(shorter, c);
        assert(shorter.push(c) =~= s);
        assert(claims_map(s).dom() =~= claims_map(shorter).dom().insert(c.name@));
    }
}

/// The mapping that inserting the entries `s` one after the other makes.
pub open spec fn inserted_in_order(s: Seq<Claim>) -> Map<Seq<char>, Seq<char>>
    decreases s.len(),
{
    if s.len() == 0 {
        Map::empty()
    } else {
        inserted_in_order(s.drop_last()).insert(s.last().name@, s.last().value@)
    }
}

/// Where names are distinct, inserting the entries in order makes the
/// mapping that they stand for.
pub proof fn lemma_inserted_in_order(s: Seq<Claim>)
    requires
        distinct_names(s),
    ensures
        inserted_in_order(s) == claims_map(s),
    decreases s.len(),
{
    if s.len() == 0 {
        assert(claims_map(s) =~= Map::<Seq<char>, Seq<char>>::empty());
    } else {
        let shorter = s.drop_last();
        let c = s.last();
        lemma_last_is_new(s);
        lemma_inserted_in_order(shorter);
        lemma_push_inserts(shorter, c);
        assert(shorter.push(c) =~= s);
    }
}

/// A finite mapping from claim names to text values.
#[derive(Debug)]
pub struct Claims {
    pub(crate) entries: Vec<Claim>,
}

impl View for Claims {
    type V = Map<Seq<char>, Seq<char>>;

    closed spec fn view(&self) -> Map<Seq<char>, Seq<char>> {
        claims_map(self.entries@)
    }
}

impl Claims {
    #[verifier::type_invariant]
    spec fn nothing_twice(&self) -> bool {
        distinct_names(self.entries@)
    }

    /// The entries behind the mapping, in insertion order.
    pub closed spec fn listing(&self) -> Seq<Claim> {
        self.entries@
    }

    /// The view is the mapping of the listing.
    pub proof fn lemma_view_of_listing(&self)
        ensures
            self@ == claims_map(self.listing()),
    {
    }

    /// An empty mapping.
    pub fn new() -> (r: Claims)
        ensures
            r@ == Map::<Seq<char>, Seq<char>>::empty(),
            r.listing() == Seq::<Claim>::empty(),
    {
        let r = Claims { entries: Vec::new() };
        assert(r@ =~= Map::<Seq<char>, Seq<char>>::empty());
        r
    }

    /// The mapping of the given entries. Where a name comes twice, the later
    /// entry counts.
    pub fn from_entries(entries: Vec<Claim>) -> (r: Claims)
        ensures
            r@ == inserted_in_order(entries@),
            distinct_names(entries@) ==> r@ == claims_map(entries@),
    {
        let mut r = Claims::new();
        let n = entries.len();
        let mut i: usize = 0;
        assert(entries@.take(0) =~= Seq::<Claim>::empty());
        while i < n
            invariant
                n == entries@.len(),
                i <= n,
                r@ == inserted_in_order(entries@.take(i as int)),
            decreases n - i,
        {
            proof {
                assert(entries@.take(i + 1).drop_last() =~= entries@.take(i as int));
            }
            r.insert(entries[i].name.clone(), entries[i].value.clone());
            i += 1;
        }
        proof {
            assert(entries@.take(n as int) =~= entries@);
            if distinct_names(entries@) {
                lemma_inserted_in_order(entries@);
            }
        }
        r
    }

    /// The entries, in insertion order.
    pub fn entries(&self) -> (r: &Vec<Claim>)
        ensures
            r@ == self.listing(),
            distinct_names(r@),
            claims_map(r@) == self@,
    {
        proof {
            use_type_invariant(self);
        }
        &self.entries
    }

    /// The number of names.
    pub fn len(&self) -> (r: usize)
        ensures
            self@.dom().finite(),
            r == self@.dom().len(),
    {
        proof {
            use_type_invariant(self);
            lemma_map_size(self.entries@);
        }
        self.entries.len()
    }

    /// Whether the mapping holds no name.
    pub fn is_empty(&self) -> (r: bool)
        ensures
            r == (self@ == Map::<Seq<char>, Seq<char>>::empty()),
    {
        proof {
            use_type_invariant(self);
            if self.entries@.len() == 0 {
                assert(self@ =~= Map::<Seq<char>, Seq<char>>::empty());
            } else {
                lemma_entry_in_map(self.entries@, 0);
            }
        }
        self.entries.len() == 0
    }

    /// The position of the entry named `name`, if there is one.
    fn position(&self, name: &String) -> (r: Option<usize>)
        ensures
            match r {
                Some(i) => i < self.entries@.len() && self.entries@[i as int].name@ == name@,
                None => !has_name(self.entries@, name@),
            },
    {
        let n = self.entries.len();
        let mut i: usize = 0;
        while i < n
            invariant
                n == self.entries@.len(),
                i <= n,
                forall|j: int| 0 <= j < i ==> (#[trigger] self.entries@[j]).name@ != name@,
            decreases n - i,
        {
            if self.entries[i].name == *name {
                return Some(i);
            }
            i += 1;
        }
        None
    }

    /// Whether the mapping holds `name`.
    pub fn contains_key(&self, name: &str) -> (r: bool)
        ensures
            r == self@.contains_key(name@),
    {
        let key = name.to_owned();
        self.position(&key).is_some()
    }

    /// The value under `name`, if the mapping holds that name.
    pub fn get(&self, name: &str) -> (r: Option<&String>)
        ensures
            match r {
                Some(value) => self@.contains_key(name@) && value@ == self@[name@],
                None => !self@.contains_key(name@),
            },
    {
        let key = name.to_owned();
        match self.position(&key) {
            Some(i) => {
                proof {
                    use_type_invariant(self);
                    lemma_entry_in_map(self.entries@, i as int);
                }
                Some(&self.entries[i].value)
            },
            None => None,
        }
    }

    /// Puts `value` under `name`, in place of what may have been there. A
    /// name that is new comes last in the order of the entries; one that was
    /// there keeps its place.
    pub fn insert(&mut self, name: String, value: String)
        ensures
            final(self)@ == old(self)@.insert(name@, value@),
            final(self).listing() == put(old(self).listing(), Claim { name, value }),
    {
        proof {
            use_type_invariant(&*self);
        }
        let found = self.position(&name);
        let claim = Claim { name, value };
        let mut entries: Vec<Claim> = Vec::new();
        std::mem::swap(&mut self.entries, &mut entries);
        match found {
            Some(i) => {
                proof {
                    lemma_update_inserts(entries@, i as int, claim);
                    let j = index_of_name(entries@, claim.name@);
                    if i < j {
                        assert(entries@[i as int].name@ != entries@[j].name@);
                    } else if j < i {
                        assert(entries@[j].name@ != entries@[i as int].name@);
                    }
                }
                entries.set(i, claim);
            },
            None => {
                proof {
                    lemma_push_inserts(entries@, claim);
                }
                entries.push(claim);
            },
        }
        std::mem::swap(&mut self.entries, &mut entries);
    }
}

} // verus!
