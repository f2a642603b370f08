//! What an edit in the window does to the ledger and the registry.
//!
//! The window hands over each edit as a message. `MoneyzModel::update` changes
//! the data as the edit asks and says what has to be saved and shown again.
//! An edit that is refused changes nothing.

use crate::budget::{renamed, BudgetAmount, MonthlyBudget, Spending, SpendingView};
use crate::calendar::{Day, Month, Year};
use crate::category::{
    increasing_order, name_in_use, next_id_after, BudgetCategories, BudgetCategory,
    BudgetCategoryId,
};
use crate::config::Config;
use crate::error::{Error, ParseError, ValidationError};
use crate::money::{parsed_amount, Money, MoneyAmount};
use vstd::prelude::*;
use vstd::string::*;

verus! {

/// The name of a category that is made by giving the placeholder row an
/// amount.
pub const NEW_CATEGORY_NAME: &'static str = "default new category_name";

/// The name of a spending that is made by giving the placeholder row an
/// amount.
pub const NEW_SPENDING_NAME_FOR_AMOUNT: &'static str = "Default spending name";

/// The name of a spending that is made by giving the placeholder row a day or
/// a category.
pub const NEW_SPENDING_NAME: &'static str = "default_spending_name";

/// The category name that a spending keeps while it has no category.
pub const UNSET_CATEGORY_NAME: &'static str = "default budget_category_name";

/// The category identifier that a spending keeps while it has no category.
pub const UNSET_CATEGORY_ID: u32 = 0xffff_ffff;

/// The data behind the window.
#[derive(Debug)]
pub struct MoneyzModel {
    pub selected_month: Month,
    pub selected_year: Year,
    pub today: Day,
    pub budget_categories: BudgetCategories,
    pub monthly_budget: MonthlyBudget,
    pub config: Config,
}

/// An edit in the window. A row is counted from 0, in the order in which the
/// table of categories or of spendings is kept, not in which it is shown.
#[derive(Debug)]
pub enum MoneyzMsg {
    /// A month and a year were picked, where the lists had one picked.
    ChangeSelectedDate(Option<Month>, Option<Year>),
    /// A language was picked, where the list had one picked.
    LanguageChanged(Option<String>),
    BudgetCategoriesDeleteKeyPressed,
    SpendingsDeleteKeyPressed,
    SpendingCategoryCellChanged(usize, String),
    SpendingNameCellChanged(usize, String),
    SpendingAmountCellChanged(usize, String),
    SpendingDayCellChanged(usize, String),
    CategoryNameChanged(usize, String),
    BudgetAmountChanged(usize, String),
    Quit,
}

/// What the window has to do after an edit.
#[derive(Debug, Clone, Copy, PartialEq, Eq, Hash, Structural)]
pub struct Update {
    /// Load the ledger of the month and year that are now selected.
    pub load_monthly_budget: bool,
    pub save_budget_categories: bool,
    pub save_monthly_budget: bool,
    pub save_config: bool,
    pub refresh_budget_categories: bool,
    pub refresh_spendings: bool,
    pub refresh_total: bool,
    /// Show again the categories that a spending can be put under.
    pub refresh_category_choices: bool,
    /// Show again the days that a spending can be put on.
    pub refresh_day_choices: bool,
    /// Tell the user that the new language shows after a restart.
    pub announce_restart: bool,
    pub quit: bool,
}

/// The value of the data behind the window.
pub struct ModelView {
    pub selected_month: Month,
    pub selected_year: Year,
    pub today: Day,
    pub names: Map<u32, Seq<char>>,
    pub allocations: Map<u32, int>,
    pub spendings: Seq<SpendingView>,
    pub language: Seq<char>,
}

impl View for MoneyzModel {
    type V = ModelView;

    open spec fn view(&self) -> ModelView {
        ModelView {
            selected_month: self.selected_month,
            selected_year: self.selected_year,
            today: self.today,
            names: self.budget_categories.names(),
            allocations: self.monthly_budget.allocations(),
            spendings: self.monthly_budget.spendings@,
            language: self.config.language@,
        }
    }
}

impl Update {
    /// Nothing to do.
    pub open spec fn nothing() -> Update {
        Update {
            load_monthly_budget: false,
            save_budget_categories: false,
            save_monthly_budget: false,
            save_config: false,
            refresh_budget_categories: false,
            refresh_spendings: false,
            refresh_total: false,
            refresh_category_choices: false,
            refresh_day_choices: false,
            announce_restart: false,
            quit: false,
        }
    }

    /// Nothing to do.
    pub fn none() -> (r: Update)
        ensures
            r == Update::nothing(),
    {
        Update {
            load_monthly_budget: false,
            save_budget_categories: false,
            save_monthly_budget: false,
            save_config: false,
            refresh_budget_categories: false,
            refresh_spendings: false,
            refresh_total: false,
            refresh_category_choices: false,
            refresh_day_choices: false,
            announce_restart: false,
            quit: false,
        }
    }
}

/// Whether an edit ended as `expected` says: with the data and the answer
/// that it gives, or refused with its error and the data as they were.
pub open spec fn ends_as(
    expected: Result<(ModelView, Update), Error>,
    before: ModelView,
    after: ModelView,
    answer: Result<Update, Error>,
) -> bool {
    match expected {
        Ok((data, update)) => after == data && answer == Ok::<Update, Error>(update),
        Err(error) => after == before && answer == Err::<Update, Error>(error),
    }
}

/// The spending that a placeholder row becomes.
pub open spec fn new_spending(
    name: Seq<char>,
    category_id: u32,
    category_name: Seq<char>,
    amount: Money,
    day: Day,
) -> SpendingView {
    SpendingView { name, category_id, category_name, amount, day: day.0 }
}

/// What a new amount `value` in row `row` of the table of categories does.
///
/// A row of a category gives that category the amount for the month. The
/// placeholder row makes a new category and gives it nothing.
pub open spec fn budget_amount_changed(
    model: ModelView,
    row: int,
    value: Seq<char>,
    decimal_separator: Seq<char>,
) -> Result<(ModelView, Update), Error> {
    let ids = increasing_order(model.names.dom());
    match parsed_amount(value, decimal_separator) {
        None => Err(Error::Parse(ParseError::Amount)),
        Some(amount) => if row < ids.len() {
            if i32::MIN <= amount.minor_units() <= i32::MAX {
                Ok(
                    (
                        ModelView {
                            allocations: model.allocations.insert(ids[row], amount.minor_units()),
                            ..model
                        },
                        Update {
                            save_monthly_budget: true,
                            refresh_budget_categories: true,
                            ..Update::nothing()
                        },
                    ),
                )
            } else {
                Err(Error::Validation(ValidationError::AmountTooLarge))
            }
        } else if model.names.contains_key(u32::MAX) {
            Err(Error::Validation(ValidationError::RegistryFull))
        } else {
            Ok(
                (
                    ModelView {
                        names: model.names.insert(
                            next_id_after(model.names.dom()) as u32,
                            NEW_CATEGORY_NAME@,
                        ),
                        ..model
                    },
                    Update {
                        save_budget_categories: true,
                        save_monthly_budget: true,
                        refresh_budget_categories: true,
                        ..Update::nothing()
                    },
                ),
            )
        },
    }
}

/// What a new name `value` in row `row` of the table of categories does.
///
/// A name that some category has is refused. A row of a category renames
/// that category, in the registry and in every spending under it. The
/// placeholder row makes a new category.
pub open spec fn category_name_changed(model: ModelView, row: int, value: Seq<char>) -> Result<
    (ModelView, Update),
    Error,
> {
    let ids = increasing_order(model.names.dom());
    let update = Update {
        save_budget_categories: true,
        save_monthly_budget: true,
        refresh_budget_categories: true,
        refresh_spendings: true,
        refresh_category_choices: true,
        ..Update::nothing()
    };
    if name_in_use(model.names, value) {
        Err(Error::Validation(ValidationError::DuplicateName))
    } else if row < ids.len() {
        Ok(
            (
                ModelView {
                    names: model.names.insert(ids[row], value),
                    spendings: renamed(model.spendings, ids[row], value),
                    ..model
                },
                update,
            ),
        )
    } else if model.names.contains_key(u32::MAX) {
        Err(Error::Validation(ValidationError::RegistryFull))
    } else {
        Ok(
            (
                ModelView {
                    names: model.names.insert(next_id_after(model.names.dom()) as u32, value),
                    ..model
                },
                update,
            ),
        )
    }
}

/// What a new amount `value` in row `row` of the table of spendings does.
pub open spec fn spending_amount_changed(
    model: ModelView,
    row: int,
    value: Seq<char>,
    decimal_separator: Seq<char>,
) -> Result<(ModelView, Update), Error> {
    match parsed_amount(value, decimal_separator) {
        None => Err(Error::Parse(ParseError::Amount)),
        Some(amount) => Ok(
            (
                ModelView {
                    spendings: if row < model.spendings.len() {
                        model.spendings.update(row, SpendingView { amount, ..model.spendings[row] })
                    } else {
                        model.spendings.push(
                            new_spending(
                                NEW_SPENDING_NAME_FOR_AMOUNT@,
                                UNSET_CATEGORY_ID,
                                UNSET_CATEGORY_NAME@,
                                amount,
                                model.today,
                            ),
                        )
                    },
                    ..model
                },
                Update {
                    save_monthly_budget: true,
                    refresh_budget_categories: true,
                    refresh_total: true,
                    refresh_spendings: true,
                    ..Update::nothing()
                },
            ),
        ),
    }
}

/// What a new name `value` in row `row` of the table of spendings does.
pub open spec fn spending_name_changed(model: ModelView, row: int, value: Seq<char>) -> Result<
    (ModelView, Update),
    Error,
> {
    Ok(
        (
            ModelView {
                spendings: if row < model.spendings.len() {
                    model.spendings.update(row, SpendingView { name: value, ..model.spendings[row] })
                } else {
                    model.spendings.push(
                        new_spending(
                            value,
                            UNSET_CATEGORY_ID,
                            UNSET_CATEGORY_NAME@,
                            Money::from_minor_units(0),
                            model.today,
                        ),
                    )
                },
                ..model
            },
            Update { save_monthly_budget: true, refresh_spendings: true, ..Update::nothing() },
        ),
    )
}

/// What a new day `value` in row `row` of the table of spendings does. The
/// day is one of the selected month and year.
pub open spec fn spending_day_changed(model: ModelView, row: int, value: Seq<char>) -> Result<
    (ModelView, Update),
    Error,
> {
    match Day::parsed(value, model.selected_month, model.selected_year) {
        Err(error) => Err(error),
        Ok(day) => Ok(
            (
                ModelView {
                    spendings: if row < model.spendings.len() {
                        model.spendings.update(
                            row,
                            SpendingView { day: day.0, ..model.spendings[row] },
                        )
                    } else {
                        model.spendings.push(
                            new_spending(
                                NEW_SPENDING_NAME@,
                                UNSET_CATEGORY_ID,
                                UNSET_CATEGORY_NAME@,
                                Money::from_minor_units(0),
                                day,
                            ),
                        )
                    },
                    ..model
                },
                Update { save_monthly_budget: true, refresh_spendings: true, ..Update::nothing() },
            ),
        ),
    }
}

/// The least identifier of a category named `name`.
pub open spec fn first_named(names: Map<u32, Seq<char>>, name: Seq<char>) -> u32 {
    choose|id: u32|
        names.contains_key(id) && names[id] == name && forall|other: u32|
            other < id && #[trigger] names.contains_key(other) ==> names[other] != name
}

/// What picking the category named `value` in row `row` of the table of
/// spendings does. The spending keeps the identifier of the category and the
/// name that it has now.
pub open spec fn spending_category_changed(model: ModelView, row: int, value: Seq<char>) -> Result<
    (ModelView, Update),
    Error,
> {
    if !name_in_use(model.names, value) {
        Err(Error::Validation(ValidationError::UnknownCategory))
    } else {
        let id = first_named(model.names, value);
        Ok(
            (
                ModelView {
                    spendings: if row < model.spendings.len() {
                        model.spendings.update(
                            row,
                            SpendingView {
                                category_id: id,
                                category_name: value,
                                ..model.spendings[row]
                            },
                        )
                    } else {
                        model.spendings.push(
                            new_spending(
                                NEW_SPENDING_NAME@,
                                id,
                                value,
                                Money::from_minor_units(0),
                                model.today,
                            ),
                        )
                    },
                    ..model
                },
                Update {
                    refresh_spendings: true,
                    refresh_budget_categories: true,
                    ..Update::nothing()
                },
            ),
        )
    }
}

/// What picking a month and a year does. Without a month nothing happens.
/// With a month and no year the month is taken and nothing else happens.
pub open spec fn selected_date_changed(model: ModelView, month: Option<Month>, year: Option<Year>) -> (
    ModelView,
    Update,
) {
    match (month, year) {
        (None, _) => (model, Update::nothing()),
        (Some(month), None) => (ModelView { selected_month: month, ..model }, Update::nothing()),
        (Some(month), Some(year)) => (
            ModelView { selected_month: month, selected_year: year, ..model },
            Update {
                load_monthly_budget: true,
                refresh_budget_categories: true,
                refresh_spendings: true,
                refresh_total: true,
                refresh_day_choices: true,
                ..Update::nothing()
            },
        ),
    }
}

/// What picking a language does. The language that is set already, or none,
/// changes nothing.
pub open spec fn language_changed(model: ModelView, language: Option<Seq<char>>) -> (
    ModelView,
    Update,
) {
    match language {
        Some(language) if language != model.language => (
            ModelView { language, ..model },
            Update { save_config: true, announce_restart: true, ..Update::nothing() },
        ),
        _ => (model, Update::nothing()),
    }
}

/// What the edit `event` does.
pub open spec fn step(model: ModelView, event: MoneyzMsg, decimal_separator: Seq<char>) -> Result<
    (ModelView, Update),
    Error,
> {
    match event {
        MoneyzMsg::ChangeSelectedDate(month, year) => Ok(
            selected_date_changed(model, month, year),
        ),
        MoneyzMsg::LanguageChanged(language) => Ok(
            language_changed(
                model,
                match language {
                    Some(language) => Some(language@),
                    None => None,
                },
            ),
        ),
        MoneyzMsg::BudgetCategoriesDeleteKeyPressed => Ok((model, Update::nothing())),
        MoneyzMsg::SpendingsDeleteKeyPressed => Ok((model, Update::nothing())),
        MoneyzMsg::SpendingCategoryCellChanged(row, value) => spending_category_changed(
            model,
            row as int,
            value@,
        ),
        MoneyzMsg::SpendingNameCellChanged(row, value) => spending_name_changed(
            model,
            row as int,
            value@,
        ),
        MoneyzMsg::SpendingAmountCellChanged(row, value) => spending_amount_changed(
            model,
            row as int,
            value@,
            decimal_separator,
        ),
        MoneyzMsg::SpendingDayCellChanged(row, value) => spending_day_changed(
            model,
            row as int,
            value@,
        ),
        MoneyzMsg::CategoryNameChanged(row, value) => category_name_changed(
            model,
            row as int,
            value@,
        ),
        MoneyzMsg::BudgetAmountChanged(row, value) => budget_amount_changed(
            model,
            row as int,
            value@,
            decimal_separator,
        ),
        MoneyzMsg::Quit => Ok((model, Update { quit: true, ..Update::nothing() })),
    }
}

impl MoneyzModel {
    /// The data of a window that was just opened: the day, the month and the
    /// year of today, the settings, and no category and no spending yet.
    pub fn new(today: Day, selected_month: Month, selected_year: Year, config: Config) -> (r: Self)
        ensures
            r@ == (ModelView {
                selected_month,
                selected_year,
                today,
                names: Map::<u32, Seq<char>>::empty(),
                allocations: Map::<u32, int>::empty(),
                spendings: Seq::<SpendingView>::empty(),
                language: config.language@,
            }),
    {
        MoneyzModel {
            selected_month,
            selected_year,
            today,
            budget_categories: BudgetCategories::new(),
            monthly_budget: MonthlyBudget::new(),
            config,
        }
    }

    /// Takes a new amount for the category in row `row` of the table of
    /// categories.
    pub fn on_budget_amount_changed(
        &mut self,
        row: usize,
        value: &str,
        decimal_separator: &str,
    ) -> (r: Result<Update, Error>)
        ensures
            ends_as(
                budget_amount_changed(old(self)@, row as int, value@, decimal_separator@),
                old(self)@,
                final(self)@,
                r,
            ),
    {
        let amount = match MoneyAmount::from_string(value, decimal_separator) {
            Some(amount) => amount,
            None => {
                return Err(Error::Parse(ParseError::Amount));
            },
        };
        match self.budget_categories.id_at(row) {
            Some(id) => {
                if !amount.fits_i32() {
                    return Err(Error::Validation(ValidationError::AmountTooLarge));
                }
                self.monthly_budget.set_allocation(id, BudgetAmount(amount.to_i32()));
                Ok(
                    Update {
                        load_monthly_budget: false,
                        save_budget_categories: false,
                        save_monthly_budget: true,
                        save_config: false,
                        refresh_budget_categories: true,
                        refresh_spendings: false,
                        refresh_total: false,
                        refresh_category_choices: false,
                        refresh_day_choices: false,
                        announce_restart: false,
                        quit: false,
                    },
                )
            },
            None => {
                if self.budget_categories.is_full() {
                    return Err(Error::Validation(ValidationError::RegistryFull));
                }
                self.budget_categories.add(String::from_str(NEW_CATEGORY_NAME));
                Ok(
                    Update {
                        load_monthly_budget: false,
                        save_budget_categories: true,
                        save_monthly_budget: true,
                        save_config: false,
                        refresh_budget_categories: true,
                        refresh_spendings: false,
                        refresh_total: false,
                        refresh_category_choices: false,
                        refresh_day_choices: false,
                        announce_restart: false,
                        quit: false,
                    },
                )
            },
        }
    }

    /// Takes a new name for the category in row `row` of the table of
    /// categories.
    pub fn on_category_name_changed(&mut self, row: usize, value: String) -> (r: Result<
        Update,
        Error,
    >)
        ensures
            ends_as(category_name_changed(old(self)@, row as int, value@), old(self)@, final(self)@, r),
    {
        if self.budget_categories.has_name(value.as_str()) {
            return Err(Error::Validation(ValidationError::DuplicateName));
        }
        match self.budget_categories.id_at(row) {
            Some(id) => {
                match self.budget_categories.rename(id, value.clone()) {
                    Ok(()) => {},
                    Err(error) => {
                        return Err(Error::Validation(error));
                    },
                }
                self.monthly_budget.apply_rename(id, value.as_str());
            },
            None => {
                if self.budget_categories.is_full() {
                    return Err(Error::Validation(ValidationError::RegistryFull));
                }
                self.budget_categories.add(value);
            },
        }
        Ok(
            Update {
                load_monthly_budget: false,
                save_budget_categories: true,
                save_monthly_budget: true,
                save_config: false,
                refresh_budget_categories: true,
                refresh_spendings: true,
                refresh_total: false,
                refresh_category_choices: true,
                refresh_day_choices: false,
                announce_restart: false,
                quit: false,
            },
        )
    }

    /// Takes a new amount for the spending in row `row` of the table of
    /// spendings.
    pub fn on_spending_amount_cell_changed(
        &mut self,
        row: usize,
        value: &str,
        decimal_separator: &str,
    ) -> (r: Result<Update, Error>)
        ensures
            ends_as(
                spending_amount_changed(old(self)@, row as int, value@, decimal_separator@),
                old(self)@,
                final(self)@,
                r,
            ),
    {
        let amount = match MoneyAmount::from_string(value, decimal_separator) {
            Some(amount) => amount,
            None => {
                return Err(Error::Parse(ParseError::Amount));
            },
        };
        if row < self.monthly_budget.spending_count() {
            self.monthly_budget.set_spending_amount(row, amount);
        } else {
            self.monthly_budget.add_spending(
                Spending {
                    name: String::from_str(NEW_SPENDING_NAME_FOR_AMOUNT),
                    budget_category_id: BudgetCategoryId(UNSET_CATEGORY_ID),
                    budget_category_name: BudgetCategory(String::from_str(UNSET_CATEGORY_NAME)),
                    amount,
                    day: self.today,
                },
            );
        }
        Ok(
            Update {
                load_monthly_budget: false,
                save_budget_categories: false,
                save_monthly_budget: true,
                save_config: false,
                refresh_budget_categories: true,
                refresh_spendings: true,
                refresh_total: true,
                refresh_category_choices: false,
                refresh_day_choices: false,
                announce_restart: false,
                quit: false,
            },
        )
    }

    /// Takes a new name for the spending in row `row` of the table of
    /// spendings.
    pub fn on_spending_name_cell_changed(&mut self, row: usize, value: String) -> (r: Result<
        Update,
        Error,
    >)
        ensures
            ends_as(spending_name_changed(old(self)@, row as int, value@), old(self)@, final(self)@, r),
    {
        if row < self.monthly_budget.spending_count() {
            self.monthly_budget.set_spending_name(row, value);
        } else {
            self.monthly_budget.add_spending(
                Spending {
                    name: value,
                    budget_category_id: BudgetCategoryId(UNSET_CATEGORY_ID),
                    budget_category_name: BudgetCategory(String::from_str(UNSET_CATEGORY_NAME)),
                    amount: MoneyAmount::default(),
                    day: self.today,
                },
            );
        }
        Ok(
            Update {
                load_monthly_budget: false,
                save_budget_categories: false,
                save_monthly_budget: true,
                save_config: false,
                refresh_budget_categories: false,
                refresh_spendings: true,
                refresh_total: false,
                refresh_category_choices: false,
                refresh_day_choices: false,
                announce_restart: false,
                quit: false,
            },
        )
    }

    /// Takes a new day for the spending in row `row` of the table of
    /// spendings.
    pub fn on_spending_day_cell_changed(&mut self, row: usize, value: &str) -> (r: Result<
        Update,
        Error,
    >)
        ensures
            ends_as(spending_day_changed(old(self)@, row as int, value@), old(self)@, final(self)@, r),
    {
        let day = match Day::from_string(value, self.selected_month, self.selected_year) {
            Ok(day) => day,
            Err(error) => {
                return Err(error);
            },
        };
        if row < self.monthly_budget.spending_count() {
            self.monthly_budget.set_spending_day(row, day);
        } else {
            self.monthly_budget.add_spending(
                Spending {
                    name: String::from_str(NEW_SPENDING_NAME),
                    budget_category_id: BudgetCategoryId(UNSET_CATEGORY_ID),
                    budget_category_name: BudgetCategory(String::from_str(UNSET_CATEGORY_NAME)),
                    amount: MoneyAmount::default(),
                    day,
                },
            );
        }
        Ok(
            Update {
                load_monthly_budget: false,
                save_budget_categories: false,
                save_monthly_budget: true,
                save_config: false,
                refresh_budget_categories: false,
                refresh_spendings: true,
                refresh_total: false,
                refresh_category_choices: false,
                refresh_day_choices: false,
                announce_restart: false,
                quit: false,
            },
        )
    }

    /// Puts the spending in row `row` of the table of spendings under the
    /// category named `value`.
    pub fn on_spending_category_cell_changed(&mut self, row: usize, value: String) -> (r: Result<
        Update,
        Error,
    >)
        ensures
            ends_as(
                spending_category_changed(old(self)@, row as int, value@),
                old(self)@,
                final(self)@,
                r,
            ),
    {
        let id = match self.budget_categories.find_by_name(value.as_str()) {
            Some(id) => id,
            None => {
                return Err(Error::Validation(ValidationError::UnknownCategory));
            },
        };
        assert(id.0 == first_named(self@.names, value@));
        if row < self.monthly_budget.spending_count() {
            self.monthly_budget.set_spending_category(row, id, value);
        } else {
            self.monthly_budget.add_spending(
                Spending {
                    name: String::from_str(NEW_SPENDING_NAME),
                    budget_category_id: id,
                    budget_category_name: BudgetCategory(value),
                    amount: MoneyAmount::default(),
                    day: self.today,
                },
            );
        }
        Ok(
            Update {
                load_monthly_budget: false,
                save_budget_categories: false,
                save_monthly_budget: false,
                save_config: false,
                refresh_budget_categories: true,
                refresh_spendings: true,
                refresh_total: false,
                refresh_category_choices: false,
                refresh_day_choices: false,
                announce_restart: false,
                quit: false,
            },
        )
    }

    /// Takes the month and the year that were picked.
    pub fn on_change_selected_date(&mut self, month: Option<Month>, year: Option<Year>) -> (r:
        Update)
        ensures
            (final(self)@, r) == selected_date_changed(old(self)@, month, year),
    {
        let month = match month {
            Some(month) => month,
            None => {
                return Update::none();
            },
        };
        self.selected_month = month;
        let year = match year {
            Some(year) => year,
            None => {
                return Update::none();
            },
        };
        self.selected_year = year;
        Update {
            load_monthly_budget: true,
            save_budget_categories: false,
            save_monthly_budget: false,
            save_config: false,
            refresh_budget_categories: true,
            refresh_spendings: true,
            refresh_total: true,
            refresh_category_choices: false,
            refresh_day_choices: true,
            announce_restart: false,
            quit: false,
        }
    }

    /// Takes the language that was picked.
    pub fn on_language_changed(&mut self, language: Option<String>) -> (r: Update)
        ensures
            (final(self)@, r) == language_changed(
                old(self)@,
                match language {
                    Some(language) => Some(language@),
                    None => None,
                },
            ),
    {
        let language = match language {
            Some(language) => language,
            None => {
                return Update::none();
            },
        };
        if language == self.config.language {
            return Update::none();
        }
        self.config.language = language;
        Update {
            load_monthly_budget: false,
            save_budget_categories: false,
            save_monthly_budget: false,
            save_config: true,
            refresh_budget_categories: false,
            refresh_spendings: false,
            refresh_total: false,
            refresh_category_choices: false,
            refresh_day_choices: false,
            announce_restart: true,
            quit: false,
        }
    }

    /// Puts the ledger `monthly_budget` in the place of the one that is
    /// there, as after loading the ledger of the selected month.
    pub fn set_monthly_budget(&mut self, monthly_budget: MonthlyBudget)
        ensures
            final(self)@ == (ModelView {
                allocations: monthly_budget.allocations(),
                spendings: monthly_budget.spendings@,
                ..old(self)@
            }),
    {
        self.monthly_budget = monthly_budget;
    }

    /// Puts the registry `budget_categories` in the place of the one that is
    /// there, as after loading the categories.
    pub fn set_budget_categories(&mut self, budget_categories: BudgetCategories)
        ensures
            final(self)@ == (ModelView { names: budget_categories.names(), ..old(self)@ }),
    {
        self.budget_categories = budget_categories;
    }

    /// Changes the data as the edit `event` asks, and says what the window
    /// has to do then. Amounts are read with `decimal_separator` between the
    /// whole units and the cents. An edit that is refused changes nothing.
    pub fn update(&mut self, event: MoneyzMsg, decimal_separator: &str) -> (r: Result<
        Update,
        Error,
    >)
        ensures
            ends_as(step(old(self)@, event, decimal_separator@), old(self)@, final(self)@, r),
    {
        match event {
            MoneyzMsg::BudgetAmountChanged(row, value) => self.on_budget_amount_changed(
                row,
                value.as_str(),
                decimal_separator,
            ),
            MoneyzMsg::CategoryNameChanged(row, value) => self.on_category_name_changed(row, value),
            MoneyzMsg::SpendingAmountCellChanged(row, value) => {
                self.on_spending_amount_cell_changed(row, value.as_str(), decimal_separator)
            },
            MoneyzMsg::SpendingNameCellChanged(row, value) => self.on_spending_name_cell_changed(
                row,
                value,
            ),
            MoneyzMsg::SpendingDayCellChanged(row, value) => self.on_spending_day_cell_changed(
                row,
                value.as_str(),
            ),
            MoneyzMsg::SpendingCategoryCellChanged(row, value) => {
                self.on_spending_category_cell_changed(row, value)
            },
            MoneyzMsg::ChangeSelectedDate(month, year) => Ok(
                self.on_change_selected_date(month, year),
            ),
            MoneyzMsg::LanguageChanged(language) => Ok(self.on_language_changed(language)),
            MoneyzMsg::BudgetCategoriesDeleteKeyPressed => Ok(Update::none()),
            MoneyzMsg::SpendingsDeleteKeyPressed => Ok(Update::none()),
            MoneyzMsg::Quit => Ok(
                Update {
                    load_monthly_budget: false,
                    save_budget_categories: false,
                    save_monthly_budget: false,
                    save_config: false,
                    refresh_budget_categories: false,
                    refresh_spendings: false,
                    refresh_total: false,
                    refresh_category_choices: false,
                    refresh_day_choices: false,
                    announce_restart: false,
                    quit: true,
                },
            ),
        }
    }
}

} // verus!
