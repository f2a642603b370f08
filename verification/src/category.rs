//! Budget categories and the registry that holds them.

use crate::error::ValidationError;
use crate::sorted::lemma_increasing_listing_unique;
use std::collections::BTreeMap;
use vstd::prelude::*;
use vstd::std_specs::cmp::OrdSpec;
use vstd::std_specs::iter::IteratorSpec;

verus! {

/// What tells one category from another. It stays the same when the category
/// is given a new name.
#[derive(Debug, Clone, Copy, PartialEq, Eq, PartialOrd, Ord, Hash, Structural)]
pub struct BudgetCategoryId(pub u32);

/// A budget category, known by its name.
#[derive(Debug, Clone)]
pub struct BudgetCategory(pub String);

/// The categories, each under its identifier, in the order of the identifiers.
#[derive(Debug)]
pub struct BudgetCategories(pub BTreeMap<u32, BudgetCategory>);

/// Whether `n` is the identifier that comes after all of `ids`: one more than
/// the greatest of them, or 0 where there is none.
pub open spec fn is_next_id(ids: Set<u32>, n: int) -> bool {
    &&& 0 <= n <= u32::MAX + 1
    &&& forall|id: u32| ids.contains(id) ==> id < n
    &&& n > 0 ==> ids.contains((n - 1) as u32)
}

/// The identifier that comes after all of `ids`.
pub open spec fn next_id_after(ids: Set<u32>) -> int {
    choose|n: int| is_next_id(ids, n)
}

/// What renaming the category `id` to `name` comes to: refused where another
/// category has the name, and where there is no category `id`.
pub open spec fn rename_outcome(names: Map<u32, Seq<char>>, id: u32, name: Seq<char>) -> Result<
    (),
    ValidationError,
> {
    if name_taken_by_other(names, id, name) {
        Err(ValidationError::DuplicateName)
    } else if !names.contains_key(id) {
        Err(ValidationError::UnknownCategory)
    } else {
        Ok(())
    }
}

/// Whether `order` lists the members of `ids`, each once, from the least to
/// the greatest.
pub open spec fn is_increasing_order_of(order: Seq<u32>, ids: Set<u32>) -> bool {
    &&& order.to_set() == ids
    &&& forall|i: int, j: int| 0 <= i < j < order.len() ==> order[i] < order[j]
}

/// The members of `ids` from the least to the greatest.
pub open spec fn increasing_order(ids: Set<u32>) -> Seq<u32> {
    choose|order: Seq<u32>| is_increasing_order_of(order, ids)
}

/// Whether a category other than `id` has the name `name`.
pub open spec fn name_taken_by_other(names: Map<u32, Seq<char>>, id: u32, name: Seq<char>) -> bool {
    exists|other: u32| other != id && #[trigger] names.contains_key(other) && names[other] == name
}

/// Whether some category has the name `name`.
pub open spec fn name_in_use(names: Map<u32, Seq<char>>, name: Seq<char>) -> bool {
    exists|id: u32| #[trigger] names.contains_key(id) && names[id] == name
}

/// Only one identifier comes after all of `ids`.
pub proof fn lemma_next_id_unique(ids: Set<u32>, a: int, b: int)
    requires
        is_next_id(ids, a),
        is_next_id(ids, b),
    ensures
        a == b,
        a == next_id_after(ids),
{
    if a > 0 {
        assert(ids.contains((a - 1) as u32));
    }
    if b > 0 {
        assert(ids.contains((b - 1) as u32));
    }
    let n = next_id_after(ids);
    if n > 0 {
        assert(ids.contains((n - 1) as u32));
    }
}

/// A set has one increasing order only.
pub proof fn lemma_increasing_order_unique(a: Seq<u32>, b: Seq<u32>, ids: Set<u32>)
    requires
        is_increasing_order_of(a, ids),
        is_increasing_order_of(b, ids),
    ensures
        a == b,
{
    lemma_increasing_listing_unique(a, b, |id: u32| id as int);
}

impl BudgetCategories {
    /// The name of each category, by identifier.
    pub open spec fn names(&self) -> Map<u32, Seq<char>> {
        self.0@.map_values(|c: BudgetCategory| c.0@)
    }

    /// The identifiers in use, from the least to the greatest.
    pub open spec fn ordered_ids(&self) -> Seq<u32> {
        increasing_order(self.names().dom())
    }

    /// A registry without categories.
    pub fn new() -> (r: Self)
        ensures
            r.names() == Map::<u32, Seq<char>>::empty(),
    {
        let r = BudgetCategories(BTreeMap::new());
        assert(r.names() =~= Map::<u32, Seq<char>>::empty());
        r
    }

    /// The identifiers in use, from the least to the greatest.
    pub fn ids(&self) -> (ids: Vec<u32>)
        ensures
            ids@ == self.ordered_ids(),
            is_increasing_order_of(ids@, self.names().dom()),
    {
        let mut ids: Vec<u32> = Vec::new();
        let keys = self.0.keys();
        let ghost all = vstd::std_specs::btree::into_iter_keys(keys);
        assert(forall|i: int, j: int| 0 <= i < j < all.len() ==> all[i] < all[j]) by {
            let s = keys.remaining();
            vstd::std_specs::btree::axiom_increasing_seq_meaning::<&u32>(s);
            assert forall|i: int, j: int| 0 <= i < j < all.len() implies all[i] < all[j] by {
                assert(OrdSpec::cmp_spec(&s[i], &s[j]) is Less);
                assert(all[i] == *s[i] && all[j] == *s[j]);
            }
        }
        for k in it: keys
            invariant
                all == it.seq().unref(),
                ids@ == all.take(it.index()),
        {
            assert(all.take(it.index() + 1) == all.take(it.index()).push(*k));
            ids.push(*k);
        }
        proof {
            assert(ids@ == all);
            assert(self.names().dom() =~= self.0@.dom());
            lemma_increasing_order_unique(ids@, self.ordered_ids(), self.names().dom());
        }
        ids
    }

    /// How many categories there are.
    pub fn len(&self) -> (n: usize)
        ensures
            n == self.names().dom().len(),
    {
        assert(self.names().dom() =~= self.0@.dom());
        self.0.len()
    }

    /// The category with identifier `id`, where there is one.
    pub fn get(&self, id: BudgetCategoryId) -> (r: Option<&BudgetCategory>)
        ensures
            match r {
                Some(category) => self.names().contains_key(id.0) && category.0@
                    == self.names()[id.0],
                None => !self.names().contains_key(id.0),
            },
    {
        self.0.get(&id.0)
    }

    /// Whether the greatest identifier there can be is in use, so that no
    /// category can be added.
    pub fn is_full(&self) -> (r: bool)
        ensures
            r == self.names().contains_key(u32::MAX),
    {
        self.0.contains_key(&u32::MAX)
    }

    /// The identifier that the next category gets: one more than the greatest
    /// in use, or 0 in an empty registry.
    pub fn next_id(&self) -> (r: BudgetCategoryId)
        requires
            !self.names().contains_key(u32::MAX),
        ensures
            is_next_id(self.names().dom(), r.0 as int),
            r.0 == next_id_after(self.names().dom()),
            !self.names().contains_key(r.0),
    {
        let ids = self.ids();
        let n = ids.len();
        if n == 0 {
            proof {
                assert forall|id: u32| !self.names().dom().contains(id) by {
                    assert(!ids@.to_set().contains(id));
                }
                lemma_next_id_unique(self.names().dom(), 0, 0);
            }
            BudgetCategoryId(0)
        } else {
            let top = ids[n - 1];
            proof {
                assert(ids@.to_set().contains(top));
                assert forall|id: u32| self.names().dom().contains(id) implies id <= top by {
                    assert(ids@.to_set().contains(id));
                }
                lemma_next_id_unique(self.names().dom(), top + 1, top + 1);
            }
            BudgetCategoryId(top + 1)
        }
    }

    /// Adds a category named `name` under the next identifier, and returns
    /// that identifier.
    pub fn add(&mut self, name: String) -> (id: BudgetCategoryId)
        requires
            !old(self).names().contains_key(u32::MAX),
        ensures
            is_next_id(old(self).names().dom(), id.0 as int),
            id.0 == next_id_after(old(self).names().dom()),
            !old(self).names().contains_key(id.0),
            final(self).names() == old(self).names().insert(id.0, name@),
    {
        let id = self.next_id();
        self.0.insert(id.0, BudgetCategory(name));
        assert(self.names() =~= old(self).names().insert(id.0, name@));
        id
    }

    /// Whether some category has the name `name`.
    pub fn has_name(&self, name: &str) -> (r: bool)
        ensures
            r == name_in_use(self.names(), name@),
    {
        self.find_by_name(name).is_some()
    }

    /// The category with the least identifier among those named `name`.
    pub fn find_by_name(&self, name: &str) -> (r: Option<BudgetCategoryId>)
        ensures
            match r {
                Some(id) => {
                    &&& self.names().contains_key(id.0)
                    &&& self.names()[id.0] == name@
                    &&& forall|other: u32|
                        other < id.0 && #[trigger] self.names().contains_key(other)
                            ==> self.names()[other] != name@
                },
                None => !name_in_use(self.names(), name@),
            },
    {
        let wanted = name.to_owned();
        let ids = self.ids();
        let mut i: usize = 0;
        while i < ids.len()
            invariant
                i <= ids.len(),
                wanted@ == name@,
                is_increasing_order_of(ids@, self.names().dom()),
                forall|k: int|
                    0 <= k < i ==> self.names()[#[trigger] ids@[k]] != name@,
            decreases ids.len() - i,
        {
            let id = ids[i];
            assert(ids@.to_set().contains(id));
            match self.0.get(&id) {
                Some(category) => {
                    if category.0 == wanted {
                        proof {
                            assert forall|other: u32|
                                other < id && #[trigger] self.names().contains_key(
                                    other,
                                ) implies self.names()[other] != name@ by {
                                assert(ids@.to_set().contains(other));
                                let k = choose|k: int| 0 <= k < ids@.len() && ids@[k] == other;
                                assert(k < i);
                            }
                        }
                        return Some(BudgetCategoryId(id));
                    }
                },
                None => {},
            }
            i += 1;
        }
        proof {
            assert forall|id: u32| #[trigger]
                self.names().contains_key(id) implies self.names()[id] != name@ by {
                assert(ids@.to_set().contains(id));
                let k = choose|k: int| 0 <= k < ids@.len() && ids@[k] == id;
                assert(self.names()[ids@[k]] != name@);
            }
        }
        None
    }

    /// Whether a category other than `id` has the name `name`.
    pub fn is_name_taken_by_other(&self, id: BudgetCategoryId, name: &str) -> (r: bool)
        ensures
            r == name_taken_by_other(self.names(), id.0, name@),
    {
        let wanted = name.to_owned();
        let ids = self.ids();
        let mut i: usize = 0;
        while i < ids.len()
            invariant
                i <= ids.len(),
                wanted@ == name@,
                is_increasing_order_of(ids@, self.names().dom()),
                forall|k: int|
                    0 <= k < i && ids@[k] != id.0 ==> self.names()[#[trigger] ids@[k]] != name@,
            decreases ids.len() - i,
        {
            let other = ids[i];
            assert(ids@.to_set().contains(other));
            if other != id.0 {
                match self.0.get(&other) {
                    Some(category) => {
                        if category.0 == wanted {
                            assert(self.names().contains_key(other));
                            return true;
                        }
                    },
                    None => {},
                }
            }
            i += 1;
        }
        proof {
            assert forall|other: u32|
                other != id.0 && #[trigger] self.names().contains_key(
                    other,
                ) implies self.names()[other] != name@ by {
                assert(ids@.to_set().contains(other));
                let k = choose|k: int| 0 <= k < ids@.len() && ids@[k] == other;
                assert(self.names()[ids@[k]] != name@);
            }
        }
        false
    }

    /// Gives the category `id` the name `new_name`. The identifier stays.
    ///
    /// Refused where another category has that name already, and where there
    /// is no category `id`; the registry is then left as it was.
    pub fn rename(&mut self, id: BudgetCategoryId, new_name: String) -> (r: Result<
        (),
        ValidationError,
    >)
        ensures
            r == rename_outcome(old(self).names(), id.0, new_name@),
            final(self).names() == if r is Ok {
                old(self).names().insert(id.0, new_name@)
            } else {
                old(self).names()
            },
    {
        if self.is_name_taken_by_other(id, new_name.as_str()) {
            return Err(ValidationError::DuplicateName);
        }
        if !self.0.contains_key(&id.0) {
            return Err(ValidationError::UnknownCategory);
        }
        self.0.insert(id.0, BudgetCategory(new_name));
        assert(self.names() =~= old(self).names().insert(id.0, new_name@));
        Ok(())
    }

    /// Takes the category `id` out of the registry and returns it, where there
    /// is one.
    pub fn remove(&mut self, id: BudgetCategoryId) -> (r: Option<BudgetCategory>)
        ensures
            final(self).names() == old(self).names().remove(id.0),
            match r {
                Some(category) => old(self).names().contains_key(id.0) && category.0@
                    == old(self).names()[id.0],
                None => !old(self).names().contains_key(id.0),
            },
    {
        let r = self.0.remove(&id.0);
        assert(self.names() =~= old(self).names().remove(id.0));
        r
    }

    /// The identifier of the category in row `row`, the rows being counted
    /// from 0 in the order of the identifiers.
    pub fn id_at(&self, row: usize) -> (r: Option<BudgetCategoryId>)
        ensures
            r == if row < self.ordered_ids().len() {
                Some(BudgetCategoryId(self.ordered_ids()[row as int]))
            } else {
                None::<BudgetCategoryId>
            },
            r is Some ==> self.names().contains_key(r.unwrap().0),
    {
        let ids = self.ids();
        if row < ids.len() {
            assert(ids@.to_set().contains(ids@[row as int]));
            Some(BudgetCategoryId(ids[row]))
        } else {
            None
        }
    }

    /// Every category with its identifier, in the order of the identifiers.
    pub fn all(&self) -> (r: Vec<(BudgetCategoryId, BudgetCategory)>)
        ensures
            r@.len() == self.ordered_ids().len(),
            forall|i: int|
                0 <= i < r@.len() ==> {
                    &&& (#[trigger] r@[i]).0.0 == self.ordered_ids()[i]
                    &&& r@[i].1.0@ == self.names()[self.ordered_ids()[i]]
                },
    {
        let ids = self.ids();
        let mut r: Vec<(BudgetCategoryId, BudgetCategory)> = Vec::new();
        let mut i: usize = 0;
        while i < ids.len()
            invariant
                i <= ids.len(),
                ids@ == self.ordered_ids(),
                is_increasing_order_of(ids@, self.names().dom()),
                r@.len() == i,
                forall|k: int|
                    0 <= k < i ==> {
                        &&& (#[trigger] r@[k]).0.0 == ids@[k]
                        &&& r@[k].1.0@ == self.names()[ids@[k]]
                    },
            decreases ids.len() - i,
        {
            let id = ids[i];
            assert(ids@.to_set().contains(id));
            match self.0.get(&id) {
                Some(category) => {
                    r.push((BudgetCategoryId(id), BudgetCategory(category.0.clone())));
                },
                None => {
                    assert(false);
                },
            }
            i += 1;
        }
        r
    }
}

impl Default for BudgetCategories {
    /// A registry without categories.
    fn default() -> (r: Self)
        ensures
            r.names() == Map::<u32, Seq<char>>::empty(),
    {
        BudgetCategories::new()
    }
}

} // verus!
