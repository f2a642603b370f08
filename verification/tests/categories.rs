use moneyz::category::{BudgetCategories, BudgetCategoryId};
use moneyz::error::ValidationError;

fn registry(names: &[&str]) -> BudgetCategories {
    let mut categories = BudgetCategories::new();
    for name in names {
        categories.add(name.to_string());
    }
    categories
}

fn listing(categories: &BudgetCategories) -> Vec<(u32, String)> {
    categories.all().into_iter().map(|(id, category)| (id.0, category.0)).collect()
}

#[test]
fn add_counts_from_zero() {
    let mut categories = BudgetCategories::new();
    assert_eq!(categories.add("Food".to_string()), BudgetCategoryId(0));
    assert_eq!(categories.add("Rent".to_string()), BudgetCategoryId(1));
    assert_eq!(categories.add("Fun".to_string()), BudgetCategoryId(2));
    assert_eq!(categories.len(), 3);
}

#[test]
fn add_goes_by_the_greatest_identifier() {
    let mut categories = registry(&["Food", "Rent"]);
    assert!(categories.remove(BudgetCategoryId(1)).is_some());
    assert_eq!(categories.add("Fun".to_string()), BudgetCategoryId(1));

    let mut categories = registry(&["Food", "Rent", "Fun"]);
    assert!(categories.remove(BudgetCategoryId(1)).is_some());
    assert_eq!(categories.add("Travel".to_string()), BudgetCategoryId(3));
    assert_eq!(categories.ids(), vec![0, 2, 3]);

    let mut categories = registry(&["Food", "Rent", "Fun"]);
    assert!(categories.remove(BudgetCategoryId(0)).is_some());
    assert_eq!(categories.add("Travel".to_string()), BudgetCategoryId(3));

    let mut categories = registry(&["Food"]);
    assert!(categories.remove(BudgetCategoryId(0)).is_some());
    assert_eq!(categories.add("Rent".to_string()), BudgetCategoryId(0));
}

#[test]
fn next_id_is_one_more_than_the_greatest() {
    let mut categories = BudgetCategories::new();
    assert_eq!(categories.next_id(), BudgetCategoryId(0));
    categories.0.insert(41, moneyz::category::BudgetCategory("Food".to_string()));
    assert_eq!(categories.next_id(), BudgetCategoryId(42));
    categories.0.insert(7, moneyz::category::BudgetCategory("Rent".to_string()));
    assert_eq!(categories.next_id(), BudgetCategoryId(42));
    assert!(!categories.is_full());
    categories.0.insert(u32::MAX, moneyz::category::BudgetCategory("Last".to_string()));
    assert!(categories.is_full());
}

#[test]
fn get_finds_a_category_by_identifier() {
    let categories = registry(&["Food", "Rent"]);
    assert_eq!(categories.get(BudgetCategoryId(1)).unwrap().0, "Rent");
    assert!(categories.get(BudgetCategoryId(2)).is_none());
}

#[test]
fn rename_keeps_the_identifier() {
    let mut categories = registry(&["Food", "Rent"]);
    assert_eq!(categories.rename(BudgetCategoryId(0), "Groceries".to_string()), Ok(()));
    assert_eq!(listing(&categories), vec![(0, "Groceries".to_string()), (1, "Rent".to_string())]);
}

#[test]
fn rename_refuses_the_name_of_another_category() {
    let mut categories = registry(&["Food", "Rent"]);
    assert_eq!(
        categories.rename(BudgetCategoryId(0), "Rent".to_string()),
        Err(ValidationError::DuplicateName)
    );
    assert_eq!(listing(&categories), vec![(0, "Food".to_string()), (1, "Rent".to_string())]);
}

#[test]
fn rename_to_the_same_name_is_accepted() {
    let mut categories = registry(&["Food", "Rent"]);
    assert_eq!(categories.rename(BudgetCategoryId(1), "Rent".to_string()), Ok(()));
    assert_eq!(listing(&categories), vec![(0, "Food".to_string()), (1, "Rent".to_string())]);
}

#[test]
fn rename_refuses_an_identifier_that_is_not_there() {
    let mut categories = registry(&["Food", "Rent"]);
    assert_eq!(
        categories.rename(BudgetCategoryId(5), "Fun".to_string()),
        Err(ValidationError::UnknownCategory)
    );
    assert_eq!(
        categories.rename(BudgetCategoryId(5), "Food".to_string()),
        Err(ValidationError::DuplicateName)
    );
    assert_eq!(categories.len(), 2);
}

#[test]
fn all_lists_in_the_order_of_the_identifiers() {
    let mut categories = BudgetCategories::new();
    for (id, name) in [(9, "i"), (2, "b"), (5, "e"), (0, "a")] {
        categories.0.insert(id, moneyz::category::BudgetCategory(name.to_string()));
    }
    assert_eq!(
        listing(&categories),
        vec![
            (0, "a".to_string()),
            (2, "b".to_string()),
            (5, "e".to_string()),
            (9, "i".to_string())
        ]
    );
    assert_eq!(categories.ids(), vec![0, 2, 5, 9]);
    assert_eq!(listing(&categories), listing(&categories));
    assert_eq!(categories.id_at(0), Some(BudgetCategoryId(0)));
    assert_eq!(categories.id_at(2), Some(BudgetCategoryId(5)));
    assert_eq!(categories.id_at(3), Some(BudgetCategoryId(9)));
    assert_eq!(categories.id_at(4), None);
}

#[test]
fn an_empty_registry_has_nothing() {
    let categories = BudgetCategories::default();
    assert_eq!(categories.len(), 0);
    assert!(categories.all().is_empty());
    assert!(categories.ids().is_empty());
    assert_eq!(categories.id_at(0), None);
    assert!(!categories.has_name(""));
}

#[test]
fn find_by_name_gives_the_least_identifier() {
    let mut categories = registry(&["Food", "Rent", "Food"]);
    assert_eq!(categories.find_by_name("Food"), Some(BudgetCategoryId(0)));
    assert_eq!(categories.find_by_name("Rent"), Some(BudgetCategoryId(1)));
    assert_eq!(categories.find_by_name("Fun"), None);
    assert!(categories.has_name("Rent"));
    assert!(!categories.has_name("rent"));
    categories.remove(BudgetCategoryId(0));
    assert_eq!(categories.find_by_name("Food"), Some(BudgetCategoryId(2)));
}

#[test]
fn a_name_is_taken_only_by_another_category() {
    let categories = registry(&["Food", "Rent"]);
    assert!(categories.is_name_taken_by_other(BudgetCategoryId(0), "Rent"));
    assert!(!categories.is_name_taken_by_other(BudgetCategoryId(1), "Rent"));
    assert!(categories.is_name_taken_by_other(BudgetCategoryId(7), "Rent"));
    assert!(!categories.is_name_taken_by_other(BudgetCategoryId(0), "Fun"));
}

#[test]
fn remove_gives_the_category_back() {
    let mut categories = registry(&["Food", "Rent"]);
    assert_eq!(categories.remove(BudgetCategoryId(0)).unwrap().0, "Food");
    assert!(categories.remove(BudgetCategoryId(0)).is_none());
    assert_eq!(listing(&categories), vec![(1, "Rent".to_string())]);
}
