//! The rows that a window shows for the ledger and the registry.
//!
//! A row holds what is shown and in which colour. Rows are made from the
//! ledger and never change it. A placeholder row lets a user start a new
//! entry: it stands for nothing in the ledger, so it counts in no balance and
//! no total.

use crate::budget::{
    allocated, balance, reconciled_name, reconciled_state, reconcile, CategoryState,
    MonthlyBudget, SpendingView,
};
use crate::calendar::{days_in_month, last_day, Day, Month, Year};
use crate::category::BudgetCategories;
use crate::decimal::{decimal_digits, u32_to_string};
use crate::money::{Money, MoneyAmount};
use crate::sorted::{is_increasing_by, lemma_increasing_listing_unique};
use vstd::prelude::*;
use vstd::string::*;

verus! {

/// The colour behind a cell that has nothing to tell.
pub const BACKGROUND_COLOR_NORMAL: &'static str = "#ffffff";

/// The colour behind the cells of a placeholder row.
pub const BACKGROUND_COLOR_IS_DEFAULT: &'static str = "#ddddee";

/// The colour behind the name of a category that the registry has lost.
pub const BACKGROUND_COLOR_WRONG_BUDGET_CATEGORY: &'static str = "#eedddd";

/// The colour behind the name of a category that was renamed since.
pub const BACKGROUND_COLOR_RENAMED_BUDGET_CATEGORY: &'static str = "#ddeedd";

/// The colour behind an amount below zero.
pub const BACKGROUND_COLOR_DEBIT: &'static str = "#f00";

/// The colour behind an amount above zero.
pub const BACKGROUND_COLOR_CREDIT: &'static str = "#0f0";

/// The colour behind an amount of zero.
pub const BACKGROUND_COLOR_NULL: &'static str = "#ff0";

/// The colour behind an amount of `amount` cents.
pub open spec fn color_for(amount: int) -> Seq<char> {
    if amount > 0 {
        BACKGROUND_COLOR_CREDIT@
    } else if amount == 0 {
        BACKGROUND_COLOR_NULL@
    } else {
        BACKGROUND_COLOR_DEBIT@
    }
}

/// The colour behind a category name that stands in state `state`.
pub open spec fn color_for_state(state: CategoryState) -> Seq<char> {
    match state {
        CategoryState::Unchanged => BACKGROUND_COLOR_NORMAL@,
        CategoryState::Renamed => BACKGROUND_COLOR_RENAMED_BUDGET_CATEGORY@,
        CategoryState::OrphanedCategory => BACKGROUND_COLOR_WRONG_BUDGET_CATEGORY@,
    }
}

fn wide_amount_to_color(amount: i64) -> (color: &'static str)
    ensures
        color@ == color_for(amount as int),
{
    if amount > 0 {
        BACKGROUND_COLOR_CREDIT
    } else if amount == 0 {
        BACKGROUND_COLOR_NULL
    } else {
        BACKGROUND_COLOR_DEBIT
    }
}

/// The colour behind an amount of `amount` cents: one for a credit, one for
/// zero, one for a debit.
pub fn amount_to_color(amount: i32) -> (color: &'static str)
    ensures
        color@ == color_for(amount as int),
{
    wide_amount_to_color(amount as i64)
}

/// The colour behind a category name that stands in state `state`.
pub fn state_to_color(state: CategoryState) -> (color: &'static str)
    ensures
        color@ == color_for_state(state),
{
    match state {
        CategoryState::Unchanged => BACKGROUND_COLOR_NORMAL,
        CategoryState::Renamed => BACKGROUND_COLOR_RENAMED_BUDGET_CATEGORY,
        CategoryState::OrphanedCategory => BACKGROUND_COLOR_WRONG_BUDGET_CATEGORY,
    }
}

/// Whether the spending at place `a` is shown before the one at place `b`: by
/// day, and for one day in the order of entry.
pub open spec fn comes_before(days: Seq<i32>, a: int, b: int) -> bool {
    days[a] < days[b] || (days[a] == days[b] && a < b)
}

/// Whether `order` lists every place of `days` once, the places in the order
/// in which they are shown.
pub open spec fn is_day_order(order: Seq<usize>, days: Seq<i32>) -> bool {
    &&& order.len() == days.len()
    &&& forall|i: int| 0 <= i < order.len() ==> #[trigger] order[i] < days.len()
    &&& forall|k: usize| k < days.len() ==> order.contains(k)
    &&& forall|i: int, j: int|
        0 <= i < j < order.len() ==> comes_before(days, order[i] as int, order[j] as int)
}

/// The places of `days` in the order in which they are shown.
pub open spec fn day_order(days: Seq<i32>) -> Seq<usize> {
    choose|order: Seq<usize>| is_day_order(order, days)
}

/// A number that grows as `comes_before` says.
spec fn day_key(days: Seq<i32>, place: usize) -> int {
    days[place as int] * 0x1_0000_0000_0000_0000 + place
}

/// Days have one order only.
pub proof fn lemma_day_order_unique(a: Seq<usize>, b: Seq<usize>, days: Seq<i32>)
    requires
        is_day_order(a, days),
        is_day_order(b, days),
    ensures
        a == b,
{
    let key = |place: usize| day_key(days, place);
    assert forall|x: usize| a.to_set().contains(x) <==> b.to_set().contains(x) by {
        if a.to_set().contains(x) {
            let i = choose|i: int| 0 <= i < a.len() && a[i] == x;
            assert(a[i] < days.len());
            assert(b.contains(x));
        }
        if b.to_set().contains(x) {
            let i = choose|i: int| 0 <= i < b.len() && b[i] == x;
            assert(b[i] < days.len());
            assert(a.contains(x));
        }
    }
    assert(a.to_set() =~= b.to_set());
    assert forall|i: int, j: int| 0 <= i < j < a.len() implies key(a[i]) < key(a[j]) by {
        assert(comes_before(days, a[i] as int, a[j] as int));
    }
    assert forall|i: int, j: int| 0 <= i < j < b.len() implies key(b[i]) < key(b[j]) by {
        assert(comes_before(days, b[i] as int, b[j] as int));
    }
    lemma_increasing_listing_unique(a, b, key);
}

/// The order in which spendings of the days `days` are shown: by day, and
/// for one day in the order of entry. The result gives, for each row, the
/// place of its spending in `days`.
pub fn order_spendings_by_day(days: &Vec<i32>) -> (order: Vec<usize>)
    ensures
        is_day_order(order@, days@),
        order@ == day_order(days@),
{
    let mut order: Vec<usize> = Vec::new();
    let mut i: usize = 0;
    while i < days.len()
        invariant
            i <= days.len(),
            is_day_order(order@, days@.take(i as int)),
        decreases days.len() - i,
    {
        let day = days[i];
        let ghost before = order@;
        let ghost seen = days@.take(i as int);
        let mut p: usize = order.len();
        while p > 0 && days[order[p - 1]] > day
            invariant
                p <= order.len(),
                order@ == before,
                i < days.len(),
                day == days@[i as int],
                seen == days@.take(i as int),
                is_day_order(order@, seen),
                forall|q: int| p <= q < order.len() ==> days@[order@[q] as int] > day,
            decreases p,
        {
            p -= 1;
        }
        order.insert(p, i);
        proof {
            let after = order@;
            let longer = days@.take(i + 1);
            assert(after == before.insert(p as int, i));
            assert forall|q: int| 0 <= q < p implies days@[before[q] as int] <= day by {
                if q < p - 1 {
                    assert(comes_before(seen, before[q] as int, before[p - 1] as int));
                }
            }
            assert forall|k: usize| k < longer.len() implies after.contains(k) by {
                if k < i {
                    assert(before.contains(k));
                    let at = choose|at: int| 0 <= at < before.len() && before[at] == k;
                    if at < p {
                        assert(after[at] == k);
                    } else {
                        assert(after[at + 1] == k);
                    }
                } else {
                    assert(after[p as int] == k);
                }
            }
            assert forall|a: int, b: int| 0 <= a < b < after.len() implies comes_before(
                longer,
                after[a] as int,
                after[b] as int,
            ) by {
                let from_a = if a < p {
                    a
                } else {
                    a - 1
                };
                let from_b = if b < p {
                    b
                } else {
                    b - 1
                };
                if a != p && b != p {
                    assert(comes_before(seen, before[from_a] as int, before[from_b] as int));
                } else if a == p {
                    assert(days@[before[from_b] as int] > day);
                } else {
                    assert(days@[before[from_a] as int] <= day);
                    assert(before[from_a] < seen.len());
                }
            }
        }
        i += 1;
    }
    proof {
        assert(days@.take(i as int) == days@);
        lemma_day_order_unique(order@, day_order(days@), days@);
    }
    order
}

/// The column of the model that lists the days of a month.
#[derive(Debug, Clone, Copy, PartialEq, Eq, Hash, Structural)]
pub enum SpendingDayComboBoxIds {
    Day,
}

/// The column of the model that lists the category names.
#[derive(Debug, Clone, Copy, PartialEq, Eq, Hash, Structural)]
pub enum BudgetCategoryComboBoxIds {
    Name,
}

/// The columns of the model of the categories.
#[derive(Debug, Clone, Copy, PartialEq, Eq, Hash, Structural)]
pub enum BudgetCategoriesListStoreIds {
    Name,
    Amount,
    Balance,
    NameBackgroundColor,
    AmountBackgroundColor,
    BalanceBackgroundColor,
}

/// The columns of the model of the spendings.
#[derive(Debug, Clone, Copy, PartialEq, Eq, Hash, Structural)]
pub enum SpendingsGtkModelIds {
    Name,
    CategoryName,
    Amount,
    Day,
    NameBackgroundColor,
    CategoryNameBackgroundColor,
    AmountBackgroundColor,
    DayBackgroundColor,
}

impl SpendingDayComboBoxIds {
    /// The number of the column, counted from 0.
    pub open spec fn column(self) -> int {
        0
    }

    /// The number of the column, counted from 0.
    pub fn index(self) -> (r: u32)
        ensures
            r == self.column(),
    {
        0
    }
}

impl BudgetCategoryComboBoxIds {
    /// The number of the column, counted from 0.
    pub open spec fn column(self) -> int {
        0
    }

    /// The number of the column, counted from 0.
    pub fn index(self) -> (r: u32)
        ensures
            r == self.column(),
    {
        0
    }
}

impl BudgetCategoriesListStoreIds {
    /// The number of the column, counted from 0.
    pub open spec fn column(self) -> int {
        match self {
            BudgetCategoriesListStoreIds::Name => 0,
            BudgetCategoriesListStoreIds::Amount => 1,
            BudgetCategoriesListStoreIds::Balance => 2,
            BudgetCategoriesListStoreIds::NameBackgroundColor => 3,
            BudgetCategoriesListStoreIds::AmountBackgroundColor => 4,
            BudgetCategoriesListStoreIds::BalanceBackgroundColor => 5,
        }
    }

    /// The number of the column, counted from 0.
    pub fn index(self) -> (r: u32)
        ensures
            r == self.column(),
    {
        match self {
            BudgetCategoriesListStoreIds::Name => 0,
            BudgetCategoriesListStoreIds::Amount => 1,
            BudgetCategoriesListStoreIds::Balance => 2,
            BudgetCategoriesListStoreIds::NameBackgroundColor => 3,
            BudgetCategoriesListStoreIds::AmountBackgroundColor => 4,
            BudgetCategoriesListStoreIds::BalanceBackgroundColor => 5,
        }
    }
}

impl SpendingsGtkModelIds {
    /// The number of the column, counted from 0.
    pub open spec fn column(self) -> int {
        match self {
            SpendingsGtkModelIds::Name => 0,
            SpendingsGtkModelIds::CategoryName => 1,
            SpendingsGtkModelIds::Amount => 2,
            SpendingsGtkModelIds::Day => 3,
            SpendingsGtkModelIds::NameBackgroundColor => 4,
            SpendingsGtkModelIds::CategoryNameBackgroundColor => 5,
            SpendingsGtkModelIds::AmountBackgroundColor => 6,
            SpendingsGtkModelIds::DayBackgroundColor => 7,
        }
    }

    /// The number of the column, counted from 0.
    pub fn index(self) -> (r: u32)
        ensures
            r == self.column(),
    {
        match self {
            SpendingsGtkModelIds::Name => 0,
            SpendingsGtkModelIds::CategoryName => 1,
            SpendingsGtkModelIds::Amount => 2,
            SpendingsGtkModelIds::Day => 3,
            SpendingsGtkModelIds::NameBackgroundColor => 4,
            SpendingsGtkModelIds::CategoryNameBackgroundColor => 5,
            SpendingsGtkModelIds::AmountBackgroundColor => 6,
            SpendingsGtkModelIds::DayBackgroundColor => 7,
        }
    }
}

impl From<SpendingDayComboBoxIds> for i32 {
    fn from(id: SpendingDayComboBoxIds) -> (r: i32) {
        id.index() as i32
    }
}

impl vstd::std_specs::convert::FromSpecImpl<SpendingDayComboBoxIds> for i32 {
    open spec fn obeys_from_spec() -> bool {
        true
    }

    open spec fn from_spec(id: SpendingDayComboBoxIds) -> i32 {
        id.column() as i32
    }
}

impl From<SpendingDayComboBoxIds> for u32 {
    fn from(id: SpendingDayComboBoxIds) -> (r: u32) {
        id.index() as u32
    }
}

impl vstd::std_specs::convert::FromSpecImpl<SpendingDayComboBoxIds> for u32 {
    open spec fn obeys_from_spec() -> bool {
        true
    }

    open spec fn from_spec(id: SpendingDayComboBoxIds) -> u32 {
        id.column() as u32
    }
}

impl From<BudgetCategoryComboBoxIds> for i32 {
    fn from(id: BudgetCategoryComboBoxIds) -> (r: i32) {
        id.index() as i32
    }
}

impl vstd::std_specs::convert::FromSpecImpl<BudgetCategoryComboBoxIds> for i32 {
    open spec fn obeys_from_spec() -> bool {
        true
    }

    open spec fn from_spec(id: BudgetCategoryComboBoxIds) -> i32 {
        id.column() as i32
    }
}

impl From<BudgetCategoryComboBoxIds> for u32 {
    fn from(id: BudgetCategoryComboBoxIds) -> (r: u32) {
        id.index() as u32
    }
}

impl vstd::std_specs::convert::FromSpecImpl<BudgetCategoryComboBoxIds> for u32 {
    open spec fn obeys_from_spec() -> bool {
        true
    }

    open spec fn from_spec(id: BudgetCategoryComboBoxIds) -> u32 {
        id.column() as u32
    }
}

impl From<BudgetCategoriesListStoreIds> for i32 {
    fn from(id: BudgetCategoriesListStoreIds) -> (r: i32) {
        id.index() as i32
    }
}

impl vstd::std_specs::convert::FromSpecImpl<BudgetCategoriesListStoreIds> for i32 {
    open spec fn obeys_from_spec() -> bool {
        true
    }

    open spec fn from_spec(id: BudgetCategoriesListStoreIds) -> i32 {
        id.column() as i32
    }
}

impl From<BudgetCategoriesListStoreIds> for u32 {
    fn from(id: BudgetCategoriesListStoreIds) -> (r: u32) {
        id.index() as u32
    }
}

impl vstd::std_specs::convert::FromSpecImpl<BudgetCategoriesListStoreIds> for u32 {
    open spec fn obeys_from_spec() -> bool {
        true
    }

    open spec fn from_spec(id: BudgetCategoriesListStoreIds) -> u32 {
        id.column() as u32
    }
}

impl From<SpendingsGtkModelIds> for i32 {
    fn from(id: SpendingsGtkModelIds) -> (r: i32) {
        id.index() as i32
    }
}

impl vstd::std_specs::convert::FromSpecImpl<SpendingsGtkModelIds> for i32 {
    open spec fn obeys_from_spec() -> bool {
        true
    }

    open spec fn from_spec(id: SpendingsGtkModelIds) -> i32 {
        id.column() as i32
    }
}

impl From<SpendingsGtkModelIds> for u32 {
    fn from(id: SpendingsGtkModelIds) -> (r: u32) {
        id.index() as u32
    }
}

impl vstd::std_specs::convert::FromSpecImpl<SpendingsGtkModelIds> for u32 {
    open spec fn obeys_from_spec() -> bool {
        true
    }

    open spec fn from_spec(id: SpendingsGtkModelIds) -> u32 {
        id.column() as u32
    }
}

/// A row of the table of categories.
#[derive(Debug)]
pub struct BudgetCategoryRow {
    pub name: String,
    /// What the category was given; none in a placeholder row.
    pub amount: Option<MoneyAmount>,
    /// What is left for the category; none in a placeholder row.
    pub balance: Option<MoneyAmount>,
    pub name_background_color: &'static str,
    pub amount_background_color: &'static str,
    pub balance_background_color: &'static str,
}

/// A row of the table of spendings.
#[derive(Debug)]
pub struct SpendingRow {
    pub name: String,
    pub category_name: String,
    /// What was spent; none in a placeholder row.
    pub amount: Option<MoneyAmount>,
    pub day: i32,
    pub name_background_color: &'static str,
    pub category_name_background_color: &'static str,
    pub amount_background_color: &'static str,
    pub day_background_color: &'static str,
}

/// The value of a row of the table of categories.
pub struct BudgetCategoryRowView {
    pub name: Seq<char>,
    pub amount: Option<Money>,
    pub balance: Option<Money>,
    pub name_background_color: Seq<char>,
    pub amount_background_color: Seq<char>,
    pub balance_background_color: Seq<char>,
}

/// The value of a row of the table of spendings.
pub struct SpendingRowView {
    pub name: Seq<char>,
    pub category_name: Seq<char>,
    pub amount: Option<Money>,
    pub day: i32,
    pub name_background_color: Seq<char>,
    pub category_name_background_color: Seq<char>,
    pub amount_background_color: Seq<char>,
    pub day_background_color: Seq<char>,
}

/// The value of an amount that may be missing.
pub open spec fn amount_view(amount: Option<MoneyAmount>) -> Option<Money> {
    match amount {
        Some(m) => Some(m@),
        None => None,
    }
}

impl View for BudgetCategoryRow {
    type V = BudgetCategoryRowView;

    open spec fn view(&self) -> BudgetCategoryRowView {
        BudgetCategoryRowView {
            name: self.name@,
            amount: amount_view(self.amount),
            balance: amount_view(self.balance),
            name_background_color: self.name_background_color@,
            amount_background_color: self.amount_background_color@,
            balance_background_color: self.balance_background_color@,
        }
    }
}

impl View for SpendingRow {
    type V = SpendingRowView;

    open spec fn view(&self) -> SpendingRowView {
        SpendingRowView {
            name: self.name@,
            category_name: self.category_name@,
            amount: amount_view(self.amount),
            day: self.day,
            name_background_color: self.name_background_color@,
            category_name_background_color: self.category_name_background_color@,
            amount_background_color: self.amount_background_color@,
            day_background_color: self.day_background_color@,
        }
    }
}

impl BudgetCategoryRow {
    /// Whether the row stands for no category yet.
    pub open spec fn is_placeholder_row(&self) -> bool {
        self.amount is None
    }

    /// Whether the row stands for no category yet.
    pub fn is_placeholder(&self) -> (r: bool)
        ensures
            r == self.is_placeholder_row(),
    {
        self.amount.is_none()
    }
}

impl SpendingRow {
    /// Whether the row stands for no spending yet.
    pub open spec fn is_placeholder_row(&self) -> bool {
        self.amount is None
    }

    /// Whether the row stands for no spending yet.
    pub fn is_placeholder(&self) -> (r: bool)
        ensures
            r == self.is_placeholder_row(),
    {
        self.amount.is_none()
    }
}

/// The row of a category named `name` that was given `given` cents and has
/// `left` cents left.
pub open spec fn category_row(name: Seq<char>, given: int, left: int) -> BudgetCategoryRowView {
    BudgetCategoryRowView {
        name,
        amount: Some(Money::from_minor_units(given)),
        balance: Some(Money::from_minor_units(left)),
        name_background_color: BACKGROUND_COLOR_NORMAL@,
        amount_background_color: BACKGROUND_COLOR_NORMAL@,
        balance_background_color: color_for(left),
    }
}

/// The row of the spending `spending`, its category shown as the names
/// `names` have it.
pub open spec fn spending_row(spending: SpendingView, names: Map<u32, Seq<char>>) -> SpendingRowView {
    SpendingRowView {
        name: spending.name,
        category_name: reconciled_name(spending, names),
        amount: Some(spending.amount),
        day: spending.day,
        name_background_color: BACKGROUND_COLOR_NORMAL@,
        category_name_background_color: color_for_state(reconciled_state(spending, names)),
        amount_background_color: color_for(spending.amount.minor_units()),
        day_background_color: BACKGROUND_COLOR_NORMAL@,
    }
}

/// The placeholder row of the table of categories.
pub open spec fn default_category_row() -> BudgetCategoryRowView {
    BudgetCategoryRowView {
        name: "New category"@,
        amount: None,
        balance: None,
        name_background_color: BACKGROUND_COLOR_IS_DEFAULT@,
        amount_background_color: BACKGROUND_COLOR_IS_DEFAULT@,
        balance_background_color: BACKGROUND_COLOR_IS_DEFAULT@,
    }
}

/// The placeholder row of the table of spendings, on the day `today`.
pub open spec fn default_spending_row(today: Day) -> SpendingRowView {
    SpendingRowView {
        name: "New spending"@,
        category_name: Seq::<char>::empty(),
        amount: None,
        day: today.0,
        name_background_color: BACKGROUND_COLOR_IS_DEFAULT@,
        category_name_background_color: BACKGROUND_COLOR_IS_DEFAULT@,
        amount_background_color: BACKGROUND_COLOR_IS_DEFAULT@,
        day_background_color: BACKGROUND_COLOR_IS_DEFAULT@,
    }
}

/// The days of the spendings `spendings`, in the order of entry.
pub open spec fn days_of(spendings: Seq<SpendingView>) -> Seq<i32> {
    spendings.map_values(|s: SpendingView| s.day)
}

/// The rows of the table of categories: one for each category of
/// `budget_categories`, in the order of the identifiers, with what
/// `monthly_budget` gave it and what is left of that.
///
/// There are no rows where what is left for some category is more than a
/// signed 32-bit number of cents can hold.
pub fn get_model_from_budget_categories_and_monthly_budget(
    budget_categories: &BudgetCategories,
    monthly_budget: &MonthlyBudget,
) -> (r: Option<Vec<BudgetCategoryRow>>)
    ensures
        match r {
            Some(rows) => {
                &&& rows@.len() == budget_categories.ordered_ids().len()
                &&& forall|i: int|
                    0 <= i < rows@.len() ==> {
                        let id = budget_categories.ordered_ids()[i];
                        let left = balance(
                            monthly_budget.allocations(),
                            monthly_budget.spendings@,
                            id,
                        );
                        &&& i32::MIN <= left <= i32::MAX
                        &&& (#[trigger] rows@[i])@ == category_row(
                            budget_categories.names()[id],
                            allocated(monthly_budget.allocations(), id),
                            left,
                        )
                    }
            },
            None => exists|i: int|
                0 <= i < budget_categories.ordered_ids().len() && !(i32::MIN <= balance(
                    monthly_budget.allocations(),
                    monthly_budget.spendings@,
                    #[trigger] budget_categories.ordered_ids()[i],
                ) <= i32::MAX),
        },
{
    let all = budget_categories.all();
    let mut rows: Vec<BudgetCategoryRow> = Vec::new();
    let mut i: usize = 0;
    while i < all.len()
        invariant
            i <= all.len(),
            all@.len() == budget_categories.ordered_ids().len(),
            forall|k: int|
                0 <= k < all@.len() ==> {
                    &&& (#[trigger] all@[k]).0.0 == budget_categories.ordered_ids()[k]
                    &&& all@[k].1.0@ == budget_categories.names()[budget_categories.ordered_ids()[k]]
                },
            rows@.len() == i,
            forall|k: int|
                0 <= k < i ==> {
                    let id = budget_categories.ordered_ids()[k];
                    let left = balance(
                        monthly_budget.allocations(),
                        monthly_budget.spendings@,
                        id,
                    );
                    &&& i32::MIN <= left <= i32::MAX
                    &&& (#[trigger] rows@[k])@ == category_row(
                        budget_categories.names()[id],
                        allocated(monthly_budget.allocations(), id),
                        left,
                    )
                },
        decreases all.len() - i,
    {
        let id = all[i].0;
        let given = monthly_budget.allocation_of(id);
        let left = match monthly_budget.balance_of(id) {
            Some(left) => left,
            None => {
                return None;
            },
        };
        rows.push(
            BudgetCategoryRow {
                name: all[i].1.0.clone(),
                amount: Some(MoneyAmount::from_i32(given)),
                balance: Some(MoneyAmount::from_i32(left)),
                name_background_color: BACKGROUND_COLOR_NORMAL,
                amount_background_color: BACKGROUND_COLOR_NORMAL,
                balance_background_color: amount_to_color(left),
            },
        );
        i += 1;
    }
    Some(rows)
}

/// The names of the categories, in the order of the identifiers.
pub fn category_names(budget_categories: &BudgetCategories) -> (names: Vec<String>)
    ensures
        names@.len() == budget_categories.ordered_ids().len(),
        forall|i: int|
            0 <= i < names@.len() ==> (#[trigger] names@[i])@
                == budget_categories.names()[budget_categories.ordered_ids()[i]],
{
    let all = budget_categories.all();
    let mut names: Vec<String> = Vec::new();
    let mut i: usize = 0;
    while i < all.len()
        invariant
            i <= all.len(),
            all@.len() == budget_categories.ordered_ids().len(),
            forall|k: int|
                0 <= k < all@.len() ==> (#[trigger] all@[k]).1.0@
                    == budget_categories.names()[budget_categories.ordered_ids()[k]],
            names@.len() == i,
            forall|k: int|
                0 <= k < i ==> (#[trigger] names@[k])@
                    == budget_categories.names()[budget_categories.ordered_ids()[k]],
        decreases all.len() - i,
    {
        names.push(all[i].1.0.clone());
        i += 1;
    }
    names
}

/// The rows of the table of spendings: one for each spending of
/// `monthly_budget`, by day, and for one day in the order of entry. Each
/// category is shown as `budget_categories` has it now.
pub fn get_spendings_model(
    monthly_budget: &MonthlyBudget,
    budget_categories: &BudgetCategories,
) -> (rows: Vec<SpendingRow>)
    ensures
        rows@.len() == monthly_budget.spendings@.len(),
        forall|i: int|
            0 <= i < rows@.len() ==> (#[trigger] rows@[i])@ == spending_row(
                monthly_budget.spendings@[day_order(days_of(monthly_budget.spendings@))[i] as int],
                budget_categories.names(),
            ),
        forall|i: int| 0 <= i < rows@.len() ==> !(#[trigger] rows@[i]).is_placeholder_row(),
{
    let spendings = &monthly_budget.spendings.0;
    let days = spending_days(monthly_budget);
    let order = order_spendings_by_day(&days);
    let mut rows: Vec<SpendingRow> = Vec::new();
    let mut k: usize = 0;
    while k < order.len()
        invariant
            k <= order.len(),
            spendings == &monthly_budget.spendings.0,
            days@ == days_of(monthly_budget.spendings@),
            order@ == day_order(days@),
            is_day_order(order@, days@),
            rows@.len() == k,
            forall|i: int|
                0 <= i < k ==> (#[trigger] rows@[i])@ == spending_row(
                    monthly_budget.spendings@[order@[i] as int],
                    budget_categories.names(),
                ),
            forall|i: int| 0 <= i < k ==> !(#[trigger] rows@[i]).is_placeholder_row(),
        decreases order.len() - k,
    {
        let spending = &spendings[order[k]];
        let shown = reconcile(spending, budget_categories);
        rows.push(
            SpendingRow {
                name: spending.name.clone(),
                category_name: shown.name.0,
                amount: Some(spending.amount),
                day: spending.day.0,
                name_background_color: BACKGROUND_COLOR_NORMAL,
                category_name_background_color: state_to_color(shown.state),
                amount_background_color: wide_amount_to_color(spending.amount.to_i64()),
                day_background_color: BACKGROUND_COLOR_NORMAL,
            },
        );
        k += 1;
    }
    rows
}

/// The days of the spendings of `monthly_budget`, in the order of entry.
pub fn spending_days(monthly_budget: &MonthlyBudget) -> (days: Vec<i32>)
    ensures
        days@ == days_of(monthly_budget.spendings@),
{
    let spendings = &monthly_budget.spendings.0;
    let mut days: Vec<i32> = Vec::new();
    let mut i: usize = 0;
    while i < spendings.len()
        invariant
            i <= spendings.len(),
            spendings == &monthly_budget.spendings.0,
            days@ == days_of(monthly_budget.spendings@).take(i as int),
        decreases spendings.len() - i,
    {
        proof {
            let all = days_of(monthly_budget.spendings@);
            assert(all.take(i + 1) == all.take(i as int).push(spendings@[i as int].day.0));
        }
        days.push(spendings[i].day.0);
        i += 1;
    }
    assert(days@ == days_of(monthly_budget.spendings@));
    days
}

/// The place, in the order of entry, of the spending that row `row` of the
/// table of spendings shows. A row after the last spending is the
/// placeholder row and keeps its number.
pub fn shown_row_to_place(monthly_budget: &MonthlyBudget, row: usize) -> (place: usize)
    ensures
        place == if row < monthly_budget.spendings@.len() {
            day_order(days_of(monthly_budget.spendings@))[row as int]
        } else {
            row
        },
        row < monthly_budget.spendings@.len() ==> place < monthly_budget.spendings@.len(),
{
    let days = spending_days(monthly_budget);
    let order = order_spendings_by_day(&days);
    if row < order.len() {
        order[row]
    } else {
        row
    }
}

/// The days of `month` in `year`, each written in base ten, in order.
pub fn list_model_from_month_year(month: Month, year: Year) -> (labels: Vec<String>)
    ensures
        labels@.len() == days_in_month(month, year),
        forall|i: int| 0 <= i < labels@.len() ==> (#[trigger] labels@[i])@ == decimal_digits((i + 1) as nat),
{
    let max_day = last_day(month, year) as u32;
    let mut labels: Vec<String> = Vec::new();
    let mut day: u32 = 1;
    while day <= max_day
        invariant
            1 <= day <= max_day + 1,
            max_day <= 31,
            labels@.len() == day - 1,
            forall|i: int| 0 <= i < labels@.len() ==> (#[trigger] labels@[i])@ == decimal_digits((i + 1) as nat),
        decreases max_day + 1 - day,
    {
        labels.push(u32_to_string(day));
        day += 1;
    }
    labels
}


/// Adds the placeholder row to the rows of the table of spendings, on the day
/// `today`.
pub fn add_default_spending(model: &mut Vec<SpendingRow>, today: Day)
    ensures
        final(model)@.len() == old(model)@.len() + 1,
        forall|i: int| 0 <= i < old(model)@.len() ==> final(model)@[i] == old(model)@[i],
        final(model)@.last()@ == default_spending_row(today),
        final(model)@.last().is_placeholder_row(),
{
    proof {
        reveal_strlit("");
    }
    let row = SpendingRow {
        name: String::from_str("New spending"),
        category_name: String::from_str(""),
        amount: None,
        day: today.0,
        name_background_color: BACKGROUND_COLOR_IS_DEFAULT,
        category_name_background_color: BACKGROUND_COLOR_IS_DEFAULT,
        amount_background_color: BACKGROUND_COLOR_IS_DEFAULT,
        day_background_color: BACKGROUND_COLOR_IS_DEFAULT,
    };
    assert(row.category_name@ =~= Seq::<char>::empty());
    model.push(row);
}

/// Adds the placeholder row to the rows of the table of categories.
pub fn add_default_budget_category(model: &mut Vec<BudgetCategoryRow>)
    ensures
        final(model)@.len() == old(model)@.len() + 1,
        forall|i: int| 0 <= i < old(model)@.len() ==> final(model)@[i] == old(model)@[i],
        final(model)@.last()@ == default_category_row(),
        final(model)@.last().is_placeholder_row(),
{
    let row = BudgetCategoryRow {
        name: String::from_str("New category"),
        amount: None,
        balance: None,
        name_background_color: BACKGROUND_COLOR_IS_DEFAULT,
        amount_background_color: BACKGROUND_COLOR_IS_DEFAULT,
        balance_background_color: BACKGROUND_COLOR_IS_DEFAULT,
    };
    model.push(row);
}

} // verus!
