//! The names of the files that the data are kept in.

use crate::calendar::{Month, Year};
use crate::decimal::{
    decimal_digits, is_digit, lemma_decimal_digits_value, two_digits, u32_to_two_digits,
};
use vstd::prelude::*;
use vstd::string::*;

verus! {

/// The file that holds the categories.
pub const BUDGET_CATEGORIES_FILE: &'static str = "budget_categories.json";

/// The file that holds the settings.
pub const CONFIG_FILE: &'static str = "config.json";

/// The name of the file that holds the ledger of `month` in `year`: the
/// year, an underscore, the number of the month in two digits, and `.json`.
pub open spec fn ledger_file_name(month: Month, year: Year) -> Seq<char> {
    decimal_digits(year.0 as nat).add("_"@).add(two_digits((month.index() + 1) as nat)).add(
        ".json"@,
    )
}

/// The name of the file that holds the ledger of `m` in `y`.
pub fn month_year_to_filename(m: Month, y: Year) -> (name: String)
    ensures
        name@ == ledger_file_name(m, y),
{
    let mut name = y.to_string();
    name.append("_");
    let month = u32_to_two_digits(m.id() as u32);
    name.append(month.as_str());
    name.append(".json");
    name
}

/// Each month of each year has a file of its own: two ledgers whose files
/// have one name are of the same month and year.
pub proof fn lemma_ledger_file_names_differ(m1: Month, y1: Year, m2: Month, y2: Year)
    requires
        ledger_file_name(m1, y1) == ledger_file_name(m2, y2),
    ensures
        m1 == m2,
        y1 == y2,
{
    reveal_strlit("_");
    reveal_strlit(".json");
    reveal_with_fuel(decimal_digits, 2);
    let d1 = decimal_digits(y1.0 as nat);
    let d2 = decimal_digits(y2.0 as nat);
    let t1 = two_digits((m1.index() + 1) as nat);
    let t2 = two_digits((m2.index() + 1) as nat);
    let n1 = ledger_file_name(m1, y1);
    let n2 = ledger_file_name(m2, y2);
    lemma_decimal_digits_value(y1.0 as nat);
    lemma_decimal_digits_value(y2.0 as nat);
    assert(t1.len() == 2 && t2.len() == 2);
    assert(n1[d1.len() as int] == '_');
    assert(n2[d2.len() as int] == '_');
    if d1.len() < d2.len() {
        assert(n2[d1.len() as int] == d2[d1.len() as int]);
        assert(is_digit(d2[d1.len() as int]));
    }
    if d2.len() < d1.len() {
        assert(n1[d2.len() as int] == d1[d2.len() as int]);
        assert(is_digit(d1[d2.len() as int]));
    }
    assert forall|i: int| 0 <= i < d1.len() implies d1[i] == d2[i] by {
        assert(n1[i] == d1[i]);
        assert(n2[i] == d2[i]);
    }
    assert(d1 =~= d2);
    assert(y1.0 == y2.0);
    let at = d1.len() as int;
    assert(t1[0] == n1[at + 1] && t1[1] == n1[at + 2]);
    assert(t2[0] == n2[at + 1] && t2[1] == n2[at + 2]);
    assert(m1.index() == m2.index());
}

} // verus!
