use moneyz::budget::{BudgetAmount, Spending};
use moneyz::calendar::{Day, Month, Year};
use moneyz::category::{BudgetCategory, BudgetCategoryId};
use moneyz::config::Config;
use moneyz::error::{Error, ParseError, ValidationError};
use moneyz::money::MoneyAmount;
use moneyz::session::{
    MoneyzModel, MoneyzMsg, Update, NEW_CATEGORY_NAME, NEW_SPENDING_NAME,
    NEW_SPENDING_NAME_FOR_AMOUNT, UNSET_CATEGORY_ID, UNSET_CATEGORY_NAME,
};

fn nothing() -> Update {
    Update::none()
}

fn model() -> MoneyzModel {
    let mut model = MoneyzModel::new(Day(17), Month::Feb, Year(2024), Config::default());
    model.budget_categories.add("Food".to_string());
    model.budget_categories.add("Rent".to_string());
    model.monthly_budget.budgets.insert(0, BudgetAmount(10000));
    model.monthly_budget.spendings.0.push(Spending {
        name: "bread".to_string(),
        budget_category_id: BudgetCategoryId(0),
        budget_category_name: BudgetCategory("Food".to_string()),
        amount: MoneyAmount::from_i32(-250),
        day: Day(3),
    });
    model.monthly_budget.spendings.0.push(Spending {
        name: "rent".to_string(),
        budget_category_id: BudgetCategoryId(1),
        budget_category_name: BudgetCategory("Rent".to_string()),
        amount: MoneyAmount::from_i32(-50000),
        day: Day(1),
    });
    model
}

fn categories(model: &MoneyzModel) -> Vec<(u32, String)> {
    model.budget_categories.all().into_iter().map(|(id, c)| (id.0, c.0)).collect()
}

fn spendings(model: &MoneyzModel) -> Vec<(String, u32, String, i64, i32)> {
    model
        .monthly_budget
        .spendings
        .0
        .iter()
        .map(|s| {
            (
                s.name.clone(),
                s.budget_category_id.0,
                s.budget_category_name.0.clone(),
                s.amount.to_i64(),
                s.day.0,
            )
        })
        .collect()
}

fn allocations(model: &MoneyzModel) -> Vec<(u32, i32)> {
    let mut all: Vec<(u32, i32)> =
        model.monthly_budget.budgets.iter().map(|(id, a)| (*id, a.0)).collect();
    all.sort();
    all
}

fn state(model: &MoneyzModel) -> String {
    format!(
        "{:?} {:?} {:?} {:?} {:?} {:?} {:?}",
        model.selected_month,
        model.selected_year,
        model.today,
        categories(model),
        allocations(model),
        spendings(model),
        model.config.language
    )
}

#[test]
fn a_new_model_is_empty() {
    let model = MoneyzModel::new(Day(17), Month::Feb, Year(2024), Config::default());
    assert_eq!(model.selected_month, Month::Feb);
    assert_eq!(model.selected_year, Year(2024));
    assert_eq!(model.today, Day(17));
    assert_eq!(model.budget_categories.len(), 0);
    assert_eq!(model.monthly_budget.spending_count(), 0);
    assert!(model.monthly_budget.budgets.is_empty());
    assert_eq!(model.config.language, "en_GB");
}

#[test]
fn budget_amount_is_set_for_the_category_of_the_row() {
    let mut m = model();
    let update = m.on_budget_amount_changed(1, "500.00", ".").unwrap();
    assert_eq!(
        update,
        Update { save_monthly_budget: true, refresh_budget_categories: true, ..nothing() }
    );
    assert_eq!(allocations(&m), vec![(0, 10000), (1, 50000)]);
    let update = m.on_budget_amount_changed(0, "-1,5", ",").unwrap();
    assert!(update.save_monthly_budget);
    assert_eq!(allocations(&m), vec![(0, -105), (1, 50000)]);
    assert_eq!(spendings(&m), spendings(&model()));
    assert_eq!(categories(&m), categories(&model()));
}

#[test]
fn budget_amount_that_is_no_amount_is_refused() {
    let mut m = model();
    let before = state(&m);
    assert_eq!(m.on_budget_amount_changed(0, "abc", "."), Err(Error::Parse(ParseError::Amount)));
    assert_eq!(m.on_budget_amount_changed(9, "1.2.3", "."), Err(Error::Parse(ParseError::Amount)));
    assert_eq!(m.on_budget_amount_changed(0, "1,5", "."), Err(Error::Parse(ParseError::Amount)));
    assert_eq!(state(&m), before);
}

#[test]
fn budget_amount_that_is_too_large_is_refused() {
    let mut m = model();
    let before = state(&m);
    assert_eq!(
        m.on_budget_amount_changed(0, "21474836.48", "."),
        Err(Error::Validation(ValidationError::AmountTooLarge))
    );
    assert_eq!(state(&m), before);
    assert!(m.on_budget_amount_changed(0, "21474836.47", ".").is_ok());
    assert!(m.on_budget_amount_changed(9, "30000000", ".").is_ok());
}

#[test]
fn budget_amount_in_the_placeholder_row_makes_a_category() {
    let mut m = model();
    let update = m.on_budget_amount_changed(2, "12.00", ".").unwrap();
    assert_eq!(
        update,
        Update {
            save_budget_categories: true,
            save_monthly_budget: true,
            refresh_budget_categories: true,
            ..nothing()
        }
    );
    assert_eq!(
        categories(&m),
        vec![
            (0, "Food".to_string()),
            (1, "Rent".to_string()),
            (2, NEW_CATEGORY_NAME.to_string())
        ]
    );
    assert_eq!(NEW_CATEGORY_NAME, "default new category_name");
    assert_eq!(allocations(&m), vec![(0, 10000)]);
}

#[test]
fn category_name_renames_the_category_and_its_spendings() {
    let mut m = model();
    let update = m.on_category_name_changed(0, "Groceries".to_string()).unwrap();
    assert_eq!(
        update,
        Update {
            save_budget_categories: true,
            save_monthly_budget: true,
            refresh_budget_categories: true,
            refresh_spendings: true,
            refresh_category_choices: true,
            ..nothing()
        }
    );
    assert_eq!(categories(&m), vec![(0, "Groceries".to_string()), (1, "Rent".to_string())]);
    assert_eq!(
        spendings(&m),
        vec![
            ("bread".to_string(), 0, "Groceries".to_string(), -250, 3),
            ("rent".to_string(), 1, "Rent".to_string(), -50000, 1)
        ]
    );
    assert_eq!(allocations(&m), vec![(0, 10000)]);
}

#[test]
fn category_name_that_is_in_use_is_refused() {
    let mut m = model();
    let before = state(&m);
    for row in [0, 1, 2, 100] {
        assert_eq!(
            m.on_category_name_changed(row, "Rent".to_string()),
            Err(Error::Validation(ValidationError::DuplicateName))
        );
    }
    assert_eq!(state(&m), before);
}

#[test]
fn category_name_in_the_placeholder_row_makes_a_category() {
    let mut m = model();
    let update = m.on_category_name_changed(2, "Fun".to_string()).unwrap();
    assert!(update.save_budget_categories && update.refresh_category_choices);
    assert_eq!(
        categories(&m),
        vec![(0, "Food".to_string()), (1, "Rent".to_string()), (2, "Fun".to_string())]
    );
    assert_eq!(spendings(&m), spendings(&model()));
    let mut empty = MoneyzModel::new(Day(1), Month::Jan, Year(2024), Config::default());
    assert!(empty.on_category_name_changed(0, "First".to_string()).is_ok());
    assert_eq!(categories(&empty), vec![(0, "First".to_string())]);
}

#[test]
fn no_category_is_made_in_a_full_registry() {
    let mut m = model();
    m.budget_categories.0.insert(u32::MAX, BudgetCategory("Last".to_string()));
    let before = state(&m);
    assert_eq!(
        m.on_category_name_changed(3, "Fun".to_string()),
        Err(Error::Validation(ValidationError::RegistryFull))
    );
    assert_eq!(
        m.on_budget_amount_changed(3, "1", "."),
        Err(Error::Validation(ValidationError::RegistryFull))
    );
    assert_eq!(state(&m), before);
    assert!(m.on_category_name_changed(2, "Final".to_string()).is_ok());
    assert_eq!(m.budget_categories.get(BudgetCategoryId(u32::MAX)).unwrap().0, "Final");
}

#[test]
fn spending_amount_is_set_in_the_row() {
    let mut m = model();
    let update = m.on_spending_amount_cell_changed(1, "-480.50", ".").unwrap();
    assert_eq!(
        update,
        Update {
            save_monthly_budget: true,
            refresh_budget_categories: true,
            refresh_total: true,
            refresh_spendings: true,
            ..nothing()
        }
    );
    assert_eq!(
        spendings(&m),
        vec![
            ("bread".to_string(), 0, "Food".to_string(), -250, 3),
            ("rent".to_string(), 1, "Rent".to_string(), -48050, 1)
        ]
    );
}

#[test]
fn spending_amount_in_the_placeholder_row_makes_a_spending() {
    let mut m = model();
    assert!(m.on_spending_amount_cell_changed(2, "30000000", ".").is_ok());
    assert_eq!(
        spendings(&m)[2],
        (
            "Default spending name".to_string(),
            u32::MAX,
            "default budget_category_name".to_string(),
            3000000000,
            17
        )
    );
    assert_eq!(NEW_SPENDING_NAME_FOR_AMOUNT, "Default spending name");
    assert_eq!(UNSET_CATEGORY_NAME, "default budget_category_name");
    assert_eq!(UNSET_CATEGORY_ID, u32::MAX);
    assert_eq!(m.monthly_budget.spending_count(), 3);
}

#[test]
fn spending_amount_that_is_no_amount_is_refused() {
    let mut m = model();
    let before = state(&m);
    for row in [0, 2] {
        assert_eq!(
            m.on_spending_amount_cell_changed(row, "1.2.3", "."),
            Err(Error::Parse(ParseError::Amount))
        );
        assert_eq!(
            m.on_spending_amount_cell_changed(row, "", "."),
            Err(Error::Parse(ParseError::Amount))
        );
    }
    assert_eq!(state(&m), before);
}

#[test]
fn spending_name_is_set_in_the_row() {
    let mut m = model();
    let update = m.on_spending_name_cell_changed(0, "baguette".to_string()).unwrap();
    assert_eq!(update, Update { save_monthly_budget: true, refresh_spendings: true, ..nothing() });
    assert_eq!(spendings(&m)[0], ("baguette".to_string(), 0, "Food".to_string(), -250, 3));
    assert!(m.on_spending_name_cell_changed(5, "coffee".to_string()).is_ok());
    assert_eq!(
        spendings(&m)[2],
        ("coffee".to_string(), u32::MAX, "default budget_category_name".to_string(), 0, 17)
    );
}

#[test]
fn spending_day_is_set_in_the_row() {
    let mut m = model();
    let update = m.on_spending_day_cell_changed(0, "29").unwrap();
    assert_eq!(update, Update { save_monthly_budget: true, refresh_spendings: true, ..nothing() });
    assert_eq!(spendings(&m)[0], ("bread".to_string(), 0, "Food".to_string(), -250, 29));
    assert!(m.on_spending_day_cell_changed(2, "5").is_ok());
    assert_eq!(
        spendings(&m)[2],
        (
            "default_spending_name".to_string(),
            u32::MAX,
            "default budget_category_name".to_string(),
            0,
            5
        )
    );
    assert_eq!(NEW_SPENDING_NAME, "default_spending_name");
}

#[test]
fn spending_day_that_the_month_lacks_is_refused() {
    let mut m = model();
    let before = state(&m);
    assert_eq!(
        m.on_spending_day_cell_changed(0, "30"),
        Err(Error::Validation(ValidationError::InvalidDay))
    );
    assert_eq!(
        m.on_spending_day_cell_changed(2, "0"),
        Err(Error::Validation(ValidationError::InvalidDay))
    );
    assert_eq!(m.on_spending_day_cell_changed(0, "first"), Err(Error::Parse(ParseError::Day)));
    assert_eq!(state(&m), before);
    m.selected_year = Year(2023);
    assert_eq!(
        m.on_spending_day_cell_changed(0, "29"),
        Err(Error::Validation(ValidationError::InvalidDay))
    );
}

#[test]
fn spending_category_is_taken_with_its_name() {
    let mut m = model();
    let update = m.on_spending_category_cell_changed(0, "Rent".to_string()).unwrap();
    assert_eq!(
        update,
        Update { refresh_spendings: true, refresh_budget_categories: true, ..nothing() }
    );
    assert_eq!(spendings(&m)[0], ("bread".to_string(), 1, "Rent".to_string(), -250, 3));
    assert!(m.on_spending_category_cell_changed(2, "Food".to_string()).is_ok());
    assert_eq!(
        spendings(&m)[2],
        ("default_spending_name".to_string(), 0, "Food".to_string(), 0, 17)
    );
}

#[test]
fn spending_category_that_is_not_there_is_refused() {
    let mut m = model();
    let before = state(&m);
    assert_eq!(
        m.on_spending_category_cell_changed(0, "Fun".to_string()),
        Err(Error::Validation(ValidationError::UnknownCategory))
    );
    assert_eq!(state(&m), before);
}

#[test]
fn selected_date_needs_a_month_and_a_year() {
    let mut m = model();
    let before = state(&m);
    assert_eq!(m.on_change_selected_date(None, Some(Year(2030))), nothing());
    assert_eq!(state(&m), before);
    assert_eq!(m.on_change_selected_date(Some(Month::Jul), None), nothing());
    assert_eq!((m.selected_month, m.selected_year), (Month::Jul, Year(2024)));
    let update = m.on_change_selected_date(Some(Month::Aug), Some(Year(2030)));
    assert_eq!(
        update,
        Update {
            load_monthly_budget: true,
            refresh_budget_categories: true,
            refresh_spendings: true,
            refresh_total: true,
            refresh_day_choices: true,
            ..nothing()
        }
    );
    assert_eq!((m.selected_month, m.selected_year), (Month::Aug, Year(2030)));
    assert_eq!(spendings(&m), spendings(&model()));
}

#[test]
fn language_changes_only_to_another_one() {
    let mut m = model();
    assert_eq!(m.on_language_changed(None), nothing());
    assert_eq!(m.on_language_changed(Some("en_GB".to_string())), nothing());
    assert_eq!(m.config.language, "en_GB");
    let update = m.on_language_changed(Some("fr_FR".to_string()));
    assert_eq!(update, Update { save_config: true, announce_restart: true, ..nothing() });
    assert_eq!(m.config.language, "fr_FR");
}

#[test]
fn update_hands_each_message_to_its_edit() {
    let mut m = model();
    assert!(m.update(MoneyzMsg::BudgetAmountChanged(1, "5".to_string()), ".").is_ok());
    assert!(m.update(MoneyzMsg::CategoryNameChanged(1, "Home".to_string()), ".").is_ok());
    assert!(m.update(MoneyzMsg::SpendingAmountCellChanged(0, "-3,10".to_string()), ",").is_ok());
    assert!(m.update(MoneyzMsg::SpendingNameCellChanged(0, "roll".to_string()), ".").is_ok());
    assert!(m.update(MoneyzMsg::SpendingDayCellChanged(0, "9".to_string()), ".").is_ok());
    assert!(m.update(MoneyzMsg::SpendingCategoryCellChanged(0, "Home".to_string()), ".").is_ok());
    assert!(m
        .update(MoneyzMsg::ChangeSelectedDate(Some(Month::Mar), Some(Year(2025))), ".")
        .is_ok());
    assert!(m.update(MoneyzMsg::LanguageChanged(Some("de_DE".to_string())), ".").is_ok());
    assert_eq!(categories(&m), vec![(0, "Food".to_string()), (1, "Home".to_string())]);
    assert_eq!(allocations(&m), vec![(0, 10000), (1, 500)]);
    assert_eq!(
        spendings(&m),
        vec![
            ("roll".to_string(), 1, "Home".to_string(), -310, 9),
            ("rent".to_string(), 1, "Home".to_string(), -50000, 1)
        ]
    );
    assert_eq!((m.selected_month, m.selected_year), (Month::Mar, Year(2025)));
    assert_eq!(m.config.language, "de_DE");
}

#[test]
fn update_passes_refusals_on() {
    let mut m = model();
    let before = state(&m);
    assert_eq!(
        m.update(MoneyzMsg::SpendingAmountCellChanged(0, "3,10".to_string()), "."),
        Err(Error::Parse(ParseError::Amount))
    );
    assert_eq!(
        m.update(MoneyzMsg::CategoryNameChanged(0, "Food".to_string()), "."),
        Err(Error::Validation(ValidationError::DuplicateName))
    );
    assert_eq!(state(&m), before);
}

#[test]
fn update_does_nothing_for_keys_and_asks_to_quit() {
    let mut m = model();
    let before = state(&m);
    assert_eq!(m.update(MoneyzMsg::BudgetCategoriesDeleteKeyPressed, "."), Ok(nothing()));
    assert_eq!(m.update(MoneyzMsg::SpendingsDeleteKeyPressed, "."), Ok(nothing()));
    assert_eq!(m.update(MoneyzMsg::Quit, "."), Ok(Update { quit: true, ..nothing() }));
    assert_eq!(state(&m), before);
}

#[test]
fn a_loaded_ledger_takes_the_place_of_the_old_one() {
    let mut m = model();
    m.set_monthly_budget(moneyz::budget::MonthlyBudget::new());
    assert_eq!(m.monthly_budget.spending_count(), 0);
    assert_eq!(categories(&m), categories(&model()));
    m.set_budget_categories(moneyz::category::BudgetCategories::new());
    assert_eq!(m.budget_categories.len(), 0);
}
