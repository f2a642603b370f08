//! The ledger of one month: what each category was given, and what was spent.

use crate::calendar::Day;
use crate::category::{BudgetCategories, BudgetCategory, BudgetCategoryId};
use crate::money::{Money, MoneyAmount};
use std::collections::HashMap;
use vstd::prelude::*;

verus! {

/// What a category was given for the month, in cents.
#[derive(Debug, Clone, Copy, PartialEq, Eq, Hash, Structural)]
pub struct BudgetAmount(pub i32);

/// One spending. It keeps the identifier and the name that its category had
/// when the spending was entered, so that a later change of the registry does
/// not rewrite it.
#[derive(Debug)]
pub struct Spending {
    pub name: String,
    pub budget_category_id: BudgetCategoryId,
    pub budget_category_name: BudgetCategory,
    pub amount: MoneyAmount,
    pub day: Day,
}

/// The spendings of a month, in the order in which they were entered.
#[derive(Debug)]
pub struct Spendings(pub Vec<Spending>);

/// The ledger of one month.
#[derive(Debug)]
pub struct MonthlyBudget {
    pub budgets: HashMap<u32, BudgetAmount>,
    pub spendings: Spendings,
}

/// The value of a spending.
pub struct SpendingView {
    pub name: Seq<char>,
    pub category_id: u32,
    pub category_name: Seq<char>,
    pub amount: Money,
    pub day: i32,
}

impl View for Spending {
    type V = SpendingView;

    open spec fn view(&self) -> SpendingView {
        SpendingView {
            name: self.name@,
            category_id: self.budget_category_id.0,
            category_name: self.budget_category_name.0@,
            amount: self.amount@,
            day: self.day.0,
        }
    }
}

impl View for Spendings {
    type V = Seq<SpendingView>;

    open spec fn view(&self) -> Seq<SpendingView> {
        self.0@.map_values(|s: Spending| s@)
    }
}

/// How a spending's category stands against the registry.
#[derive(Debug, Clone, Copy, PartialEq, Eq, Hash, Structural)]
pub enum CategoryState {
    /// The registry has the category under the name that the spending keeps.
    Unchanged,
    /// The registry has the category under another name.
    Renamed,
    /// The registry has no such category.
    OrphanedCategory,
}

/// The category to show for a spending.
#[derive(Debug)]
pub struct DisplayCategory {
    pub state: CategoryState,
    pub name: BudgetCategory,
}

/// The sum, in cents, of the spendings whose category is `id`.
pub open spec fn spent_on(spendings: Seq<SpendingView>, id: u32) -> int
    decreases spendings.len(),
{
    if spendings.len() == 0 {
        0
    } else {
        spent_on(spendings.drop_last(), id) + if spendings.last().category_id == id {
            spendings.last().amount.minor_units()
        } else {
            0
        }
    }
}

/// The sum, in cents, of all the spendings.
pub open spec fn total_spent(spendings: Seq<SpendingView>) -> int
    decreases spendings.len(),
{
    if spendings.len() == 0 {
        0
    } else {
        total_spent(spendings.drop_last()) + spendings.last().amount.minor_units()
    }
}

/// What the category `id` was given, in cents: 0 where it was given nothing.
pub open spec fn allocated(allocations: Map<u32, int>, id: u32) -> int {
    if allocations.contains_key(id) {
        allocations[id]
    } else {
        0
    }
}

/// What is left for the category `id`: what it was given, and the spendings
/// under it added to that. A spending that is a debit makes it less.
pub open spec fn balance(allocations: Map<u32, int>, spendings: Seq<SpendingView>, id: u32) -> int {
    allocated(allocations, id) + spent_on(spendings, id)
}

/// How the spending `spending` stands against the names `names`.
pub open spec fn reconciled_state(spending: SpendingView, names: Map<u32, Seq<char>>) -> CategoryState {
    if !names.contains_key(spending.category_id) {
        CategoryState::OrphanedCategory
    } else if names[spending.category_id] == spending.category_name {
        CategoryState::Unchanged
    } else {
        CategoryState::Renamed
    }
}

/// The category name to show for `spending`: the name in `names` where the
/// category is there, else the name that the spending keeps.
pub open spec fn reconciled_name(spending: SpendingView, names: Map<u32, Seq<char>>) -> Seq<char> {
    if names.contains_key(spending.category_id) {
        names[spending.category_id]
    } else {
        spending.category_name
    }
}

/// The spendings `spendings`, those under the category `id` now keeping the
/// name `name`.
pub open spec fn renamed(spendings: Seq<SpendingView>, id: u32, name: Seq<char>) -> Seq<SpendingView> {
    spendings.map_values(
        |s: SpendingView|
            if s.category_id == id {
                SpendingView { category_name: name, ..s }
            } else {
                s
            },
    )
}

/// `n` where it is a signed 32-bit number.
pub open spec fn as_i32(n: int) -> Option<i32> {
    if i32::MIN <= n <= i32::MAX {
        Some(n as i32)
    } else {
        None
    }
}

/// Classifies the category of `spending` against `registry`, and picks the
/// name to show. Nothing is changed.
pub fn reconcile(spending: &Spending, registry: &BudgetCategories) -> (r: DisplayCategory)
    ensures
        r.state == reconciled_state(spending@, registry.names()),
        r.name.0@ == reconciled_name(spending@, registry.names()),
{
    match registry.get(spending.budget_category_id) {
        Some(current) => {
            if current.0 == spending.budget_category_name.0 {
                DisplayCategory {
                    state: CategoryState::Unchanged,
                    name: BudgetCategory(spending.budget_category_name.0.clone()),
                }
            } else {
                DisplayCategory {
                    state: CategoryState::Renamed,
                    name: BudgetCategory(current.0.clone()),
                }
            }
        },
        None => DisplayCategory {
            state: CategoryState::OrphanedCategory,
            name: BudgetCategory(spending.budget_category_name.0.clone()),
        },
    }
}

impl MonthlyBudget {
    /// What each category was given, in cents, by identifier.
    pub open spec fn allocations(&self) -> Map<u32, int> {
        self.budgets@.map_values(|a: BudgetAmount| a.0 as int)
    }

    /// A ledger with nothing given and nothing spent.
    pub fn new() -> (r: Self)
        ensures
            r.allocations() == Map::<u32, int>::empty(),
            r.spendings@ == Seq::<SpendingView>::empty(),
    {
        let r = MonthlyBudget { budgets: HashMap::new(), spendings: Spendings(Vec::new()) };
        assert(r.allocations() =~= Map::<u32, int>::empty());
        assert(r.spendings@ =~= Seq::<SpendingView>::empty());
        r
    }

    /// What the category `id` was given, in cents.
    pub fn allocation_of(&self, id: BudgetCategoryId) -> (r: i32)
        ensures
            r == allocated(self.allocations(), id.0),
    {
        match self.budgets.get(&id.0) {
            Some(amount) => amount.0,
            None => 0,
        }
    }

    /// What is left for the category `id`, in cents, where that number can be
    /// held. Every spending under `id` counts, whether or not a registry still
    /// knows the category.
    pub fn balance_of(&self, id: BudgetCategoryId) -> (r: Option<i32>)
        ensures
            r == as_i32(balance(self.allocations(), self.spendings@, id.0)),
    {
        let mut sum: i128 = self.allocation_of(id) as i128;
        let ghost given = sum as int;
        let mut i: usize = 0;
        while i < self.spendings.0.len()
            invariant
                i <= self.spendings.0.len(),
                sum == given + spent_on(self.spendings@.take(i as int), id.0),
                i32::MIN <= given <= i32::MAX,
                -(i * 0x80_0000_0000) <= sum - given <= i * 0x80_0000_0000,
            decreases self.spendings.0.len() - i,
        {
            let spending = &self.spendings.0[i];
            proof {
                let next = self.spendings@.take(i + 1);
                assert(next.drop_last() == self.spendings@.take(i as int));
                assert(next.last() == spending@);
            }
            if spending.budget_category_id.0 == id.0 {
                sum = sum + spending.amount.to_i64() as i128;
            }
            i += 1;
        }
        assert(self.spendings@.take(i as int) == self.spendings@);
        if -0x8000_0000 <= sum && sum <= 0x7fff_ffff {
            Some(sum as i32)
        } else {
            None
        }
    }

    /// The sum of all the spendings of the month, in cents, where that number
    /// can be held.
    pub fn total_for_month(&self) -> (r: Option<i32>)
        ensures
            r == as_i32(total_spent(self.spendings@)),
    {
        let mut sum: i128 = 0;
        let mut i: usize = 0;
        while i < self.spendings.0.len()
            invariant
                i <= self.spendings.0.len(),
                sum == total_spent(self.spendings@.take(i as int)),
                -(i * 0x80_0000_0000) <= sum <= i * 0x80_0000_0000,
            decreases self.spendings.0.len() - i,
        {
            let spending = &self.spendings.0[i];
            proof {
                let next = self.spendings@.take(i + 1);
                assert(next.drop_last() == self.spendings@.take(i as int));
                assert(next.last() == spending@);
            }
            sum = sum + spending.amount.to_i64() as i128;
            i += 1;
        }
        assert(self.spendings@.take(i as int) == self.spendings@);
        if -0x8000_0000 <= sum && sum <= 0x7fff_ffff {
            Some(sum as i32)
        } else {
            None
        }
    }

    /// Gives the category `id` the amount `amount` for the month.
    pub fn set_allocation(&mut self, id: BudgetCategoryId, amount: BudgetAmount)
        ensures
            final(self).allocations() == old(self).allocations().insert(id.0, amount.0 as int),
            final(self).spendings == old(self).spendings,
    {
        self.budgets.insert(id.0, amount);
        assert(self.allocations() =~= old(self).allocations().insert(id.0, amount.0 as int));
    }

    /// How many spendings the month has.
    pub fn spending_count(&self) -> (n: usize)
        ensures
            n == self.spendings@.len(),
    {
        self.spendings.0.len()
    }

    /// Enters `spending` after the spendings that are there.
    pub fn add_spending(&mut self, spending: Spending)
        ensures
            final(self).spendings@ == old(self).spendings@.push(spending@),
            final(self).budgets == old(self).budgets,
    {
        self.spendings.0.push(spending);
        assert(self.spendings@ =~= old(self).spendings@.push(spending@));
    }

    /// Gives the spending in row `row` the name `name`.
    pub fn set_spending_name(&mut self, row: usize, name: String)
        requires
            row < old(self).spendings@.len(),
        ensures
            final(self).spendings@ == old(self).spendings@.update(
                row as int,
                SpendingView { name: name@, ..old(self).spendings@[row as int] },
            ),
            final(self).budgets == old(self).budgets,
    {
        self.spendings.0[row].name = name;
        assert(self.spendings@ =~= old(self).spendings@.update(
            row as int,
            SpendingView { name: name@, ..old(self).spendings@[row as int] },
        ));
    }

    /// Gives the spending in row `row` the amount `amount`.
    pub fn set_spending_amount(&mut self, row: usize, amount: MoneyAmount)
        requires
            row < old(self).spendings@.len(),
        ensures
            final(self).spendings@ == old(self).spendings@.update(
                row as int,
                SpendingView { amount: amount@, ..old(self).spendings@[row as int] },
            ),
            final(self).budgets == old(self).budgets,
    {
        self.spendings.0[row].amount = amount;
        assert(self.spendings@ =~= old(self).spendings@.update(
            row as int,
            SpendingView { amount: amount@, ..old(self).spendings@[row as int] },
        ));
    }

    /// Gives the spending in row `row` the day `day`.
    pub fn set_spending_day(&mut self, row: usize, day: Day)
        requires
            row < old(self).spendings@.len(),
        ensures
            final(self).spendings@ == old(self).spendings@.update(
                row as int,
                SpendingView { day: day.0, ..old(self).spendings@[row as int] },
            ),
            final(self).budgets == old(self).budgets,
    {
        self.spendings.0[row].day = day;
        assert(self.spendings@ =~= old(self).spendings@.update(
            row as int,
            SpendingView { day: day.0, ..old(self).spendings@[row as int] },
        ));
    }

    /// Puts the spending in row `row` under the category `id`, which it keeps
    /// under the name `name`.
    pub fn set_spending_category(&mut self, row: usize, id: BudgetCategoryId, name: String)
        requires
            row < old(self).spendings@.len(),
        ensures
            final(self).spendings@ == old(self).spendings@.update(
                row as int,
                SpendingView {
                    category_id: id.0,
                    category_name: name@,
                    ..old(self).spendings@[row as int]
                },
            ),
            final(self).budgets == old(self).budgets,
    {
        self.spendings.0[row].budget_category_id = id;
        self.spendings.0[row].budget_category_name = BudgetCategory(name);
        assert(self.spendings@ =~= old(self).spendings@.update(
            row as int,
            SpendingView {
                category_id: id.0,
                category_name: name@,
                ..old(self).spendings@[row as int]
            },
        ));
    }

    /// Gives every spending under the category `id` the name `new_name` to
    /// keep. Nothing else changes.
    pub fn apply_rename(&mut self, id: BudgetCategoryId, new_name: &str)
        ensures
            final(self).spendings@ == renamed(old(self).spendings@, id.0, new_name@),
            final(self).budgets == old(self).budgets,
    {
        let mut i: usize = 0;
        while i < self.spendings.0.len()
            invariant
                i <= self.spendings.0.len(),
                self.spendings.0.len() == old(self).spendings.0.len(),
                self.budgets == old(self).budgets,
                forall|k: int|
                    0 <= k < i ==> (#[trigger] self.spendings.0@[k])@ == renamed(
                        old(self).spendings@,
                        id.0,
                        new_name@,
                    )[k],
                forall|k: int|
                    i <= k < self.spendings.0.len() ==> (#[trigger] self.spendings.0@[k])
                        == old(self).spendings.0@[k],
            decreases self.spendings.0.len() - i,
        {
            if self.spendings.0[i].budget_category_id.0 == id.0 {
                self.spendings.0[i].budget_category_name = BudgetCategory(new_name.to_owned());
            }
            i += 1;
        }
        assert(self.spendings@ =~= renamed(old(self).spendings@, id.0, new_name@));
    }
}

impl Default for MonthlyBudget {
    /// A ledger with nothing given and nothing spent.
    fn default() -> (r: Self)
        ensures
            r.allocations() == Map::<u32, int>::empty(),
            r.spendings@ == Seq::<SpendingView>::empty(),
    {
        MonthlyBudget::new()
    }
}

/// Once a category has its new name in the registry and the spendings under
/// it were given that name to keep, each of them is found unchanged.
pub proof fn lemma_renamed_spendings_are_unchanged(
    spendings: Seq<SpendingView>,
    names: Map<u32, Seq<char>>,
    id: u32,
    name: Seq<char>,
    i: int,
)
    requires
        names.contains_key(id),
        names[id] == name,
        0 <= i < spendings.len(),
        spendings[i].category_id == id,
    ensures
        reconciled_state(renamed(spendings, id, name)[i], names) == CategoryState::Unchanged,
        reconciled_name(renamed(spendings, id, name)[i], names) == name,
{
}

/// Giving spendings a new category name to keep touches nothing but that
/// name: a spending under another category stays as it was, and every
/// spending keeps its own name, its category, its amount and its day.
pub proof fn lemma_renamed_keeps_the_rest(
    spendings: Seq<SpendingView>,
    id: u32,
    name: Seq<char>,
    i: int,
)
    requires
        0 <= i < spendings.len(),
    ensures
        renamed(spendings, id, name).len() == spendings.len(),
        spendings[i].category_id != id ==> renamed(spendings, id, name)[i] == spendings[i],
        renamed(spendings, id, name)[i] == (SpendingView {
            category_name: renamed(spendings, id, name)[i].category_name,
            ..spendings[i]
        }),
{
}

/// Giving spendings a new category name to keep changes no balance and no
/// total.
pub proof fn lemma_renamed_keeps_sums(
    spendings: Seq<SpendingView>,
    id: u32,
    name: Seq<char>,
    of: u32,
)
    ensures
        spent_on(renamed(spendings, id, name), of) == spent_on(spendings, of),
        total_spent(renamed(spendings, id, name)) == total_spent(spendings),
    decreases spendings.len(),
{
    if spendings.len() > 0 {
        lemma_renamed_keeps_sums(spendings.drop_last(), id, name, of);
        assert(renamed(spendings, id, name).drop_last() == renamed(
            spendings.drop_last(),
            id,
            name,
        ));
    }
}

/// A spending counts in the balance of the category whose identifier it
/// keeps, and in no other, whatever a registry says of that category: the
/// balance is made from the ledger alone.
pub proof fn lemma_balance_counts_spending(
    allocations: Map<u32, int>,
    spendings: Seq<SpendingView>,
    spending: SpendingView,
    id: u32,
)
    ensures
        balance(allocations, spendings.push(spending), id) == balance(allocations, spendings, id)
            + if spending.category_id == id {
            spending.amount.minor_units()
        } else {
            0
        },
        total_spent(spendings.push(spending)) == total_spent(spendings)
            + spending.amount.minor_units(),
{
    assert(spendings.push(spending).drop_last() == spendings);
}

/// A spending whose category the registry has lost still counts in the
/// balance under the identifier that it keeps.
pub proof fn lemma_orphaned_spending_counts(
    allocations: Map<u32, int>,
    spendings: Seq<SpendingView>,
    spending: SpendingView,
    names: Map<u32, Seq<char>>,
)
    requires
        reconciled_state(spending, names) == CategoryState::OrphanedCategory,
    ensures
        balance(allocations, spendings.push(spending), spending.category_id) == balance(
            allocations,
            spendings,
            spending.category_id,
        ) + spending.amount.minor_units(),
{
    lemma_balance_counts_spending(allocations, spendings, spending, spending.category_id);
}

} // verus!
