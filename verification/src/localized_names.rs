//! Weekday and month display names.
//!
//! Localization lives outside this crate; these are the untranslated
//! names the views fall back on, in the order the views index them:
//! weekdays from Monday, months from January.

use vstd::prelude::*;

verus! {

/// The full name of weekday `i`, counted from Monday as 0.
pub open spec fn spec_weekday_name_full(i: int) -> Seq<char> {
    if i == 0 {
        "Monday"@
    } else if i == 1 {
        "Tuesday"@
    } else if i == 2 {
        "Wednesday"@
    } else if i == 3 {
        "Thursday"@
    } else if i == 4 {
        "Friday"@
    } else if i == 5 {
        "Saturday"@
    } else {
        "Sunday"@
    }
}

/// The abbreviated name of weekday `i`, counted from Monday as 0.
pub open spec fn spec_weekday_name_short(i: int) -> Seq<char> {
    if i == 0 {
        "Mon"@
    } else if i == 1 {
        "Tue"@
    } else if i == 2 {
        "Wed"@
    } else if i == 3 {
        "Thu"@
    } else if i == 4 {
        "Fri"@
    } else if i == 5 {
        "Sat"@
    } else {
        "Sun"@
    }
}

/// The name of month `m`, counted from January as 1.
pub open spec fn spec_month_name(m: int) -> Seq<char> {
    if m == 1 {
        "January"@
    } else if m == 2 {
        "February"@
    } else if m == 3 {
        "March"@
    } else if m == 4 {
        "April"@
    } else if m == 5 {
        "May"@
    } else if m == 6 {
        "June"@
    } else if m == 7 {
        "July"@
    } else if m == 8 {
        "August"@
    } else if m == 9 {
        "September"@
    } else if m == 10 {
        "October"@
    } else if m == 11 {
        "November"@
    } else {
        "December"@
    }
}

/// Get the full weekday names, Monday through Sunday.
pub fn get_weekday_names_full() -> (r: [String; 7])
    ensures
        forall|i: int| 0 <= i < 7 ==> #[trigger] r@[i]@ == spec_weekday_name_full(i),
{
    [
        String::from_str("Monday"),
        String::from_str("Tuesday"),
        String::from_str("Wednesday"),
        String::from_str("Thursday"),
        String::from_str("Friday"),
        String::from_str("Saturday"),
        String::from_str("Sunday"),
    ]
}

/// Get the abbreviated weekday names, Monday through Sunday.
pub fn get_weekday_names_short() -> (r: [String; 7])
    ensures
        forall|i: int| 0 <= i < 7 ==> #[trigger] r@[i]@ == spec_weekday_name_short(i),
{
    [
        String::from_str("Mon"),
        String::from_str("Tue"),
        String::from_str("Wed"),
        String::from_str("Thu"),
        String::from_str("Fri"),
        String::from_str("Sat"),
        String::from_str("Sun"),
    ]
}

/// Get the month names, January through December.
pub fn get_month_names() -> (r: [String; 12])
    ensures
        forall|m: int| 1 <= m <= 12 ==> #[trigger] r@[m - 1]@ == spec_month_name(m),
{
    [
        String::from_str("January"),
        String::from_str("February"),
        String::from_str("March"),
        String::from_str("April"),
        String::from_str("May"),
        String::from_str("June"),
        String::from_str("July"),
        String::from_str("August"),
        String::from_str("September"),
        String::from_str("October"),
        String::from_str("November"),
        String::from_str("December"),
    ]
}

/// Get a month's name by its number, 1 through 12; any other number gets
/// the empty string.
pub fn get_month_name(month: u32) -> (r: String)
    ensures
        1 <= month <= 12 ==> r@ == spec_month_name(month as int),
        !(1 <= month <= 12) ==> r@ == Seq::<char>::empty(),
{
    if 1 <= month && month <= 12 {
        let names = get_month_names();
        let name: &String = &names[(month - 1) as usize];
        name.clone()
    } else {
        String::new()
    }
}

} // verus!
