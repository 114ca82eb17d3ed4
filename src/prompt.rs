//! The request handed to the assistant: whose birthday it is and the age
//! they turn today.

use crate::model::{BirthDate, Employee};
use time::OffsetDateTime;
use vstd::prelude::*;

verus! {

/// Why no request could be written for an employee.
#[derive(Clone, Copy, Debug, PartialEq, Eq, Structural)]
pub enum PromptError {
    /// The employee has no date of birth on record.
    NoDateOfBirth,
}

/// The age on day `today_day` of year `today_year` of someone born on `dob`:
/// the difference of the years, less one while the birthday is still ahead.
pub open spec fn age_in_years(dob: BirthDate, today_year: i32, today_day: u16) -> int {
    if today_day < dob.ordinal {
        today_year - dob.year - 1
    } else {
        today_year - dob.year
    }
}

/// The decimal digits of `n`.
pub open spec fn digits(n: nat) -> Seq<char>
    decreases n,
{
    let d = seq!['0', '1', '2', '3', '4', '5', '6', '7', '8', '9'][(n % 10) as int];
    if n < 10 {
        seq![d]
    } else {
        digits(n / 10).push(d)
    }
}

/// The decimal text of `n`, with a minus sign when it is negative.
pub open spec fn decimal(n: int) -> Seq<char> {
    if n < 0 {
        seq!['-'] + digits((-n) as nat)
    } else {
        digits(n as nat)
    }
}

/// The request for someone called `name` who turns `age` today.
pub open spec fn prompt_text(name: Seq<char>, age: int) -> Seq<char> {
    "Det er "@ + name + " som har bursdag i dag! Vedkommende blir "@ + decimal(age) + " år"@
}

/// Relies on std's `Display` for `i64`: the decimal digits, with a leading
/// minus sign for a negative number.
#[verifier::external_body]
fn decimal_text(n: i64) -> (r: String)
    ensures
        r@ == decimal(n as int),
{
    n.to_string()
}

/// Relies on time's `OffsetDateTime::now_utc` and `to_ordinal_date`: the
/// current year and day of the year, which lies between 1 and 366.
#[verifier::external_body]
fn today_utc() -> (r: (i32, u16))
    ensures
        1 <= r.1 <= 366,
{
    OffsetDateTime::now_utc().to_ordinal_date()
}

/// The age of someone born on `dob`, on the given day.
pub fn age_on(dob: BirthDate, today_year: i32, today_day: u16) -> (r: i64)
    ensures
        r as int == age_in_years(dob, today_year, today_day),
{
    let years = today_year as i64 - dob.year as i64;
    if today_day < dob.ordinal {
        years - 1
    } else {
        years
    }
}

/// The request for `employee` on the given day.
pub fn birthday_prompt(employee: &Employee, today_year: i32, today_day: u16) -> (r: Result<
    String,
    PromptError,
>)
    ensures
        match employee.dob {
            None => r == Err::<String, PromptError>(PromptError::NoDateOfBirth),
            Some(dob) => r matches Ok(p) && p@ == prompt_text(
                employee.name@,
                age_in_years(dob, today_year, today_day),
            ),
        },
{
    match employee.dob {
        None => Err(PromptError::NoDateOfBirth),
        Some(dob) => {
            let age = age_on(dob, today_year, today_day);
            let mut text = String::from_str("Det er ");
            text.append(employee.name.as_str());
            text.append(" som har bursdag i dag! Vedkommende blir ");
            let age_text = decimal_text(age);
            text.append(age_text.as_str());
            text.append(" år");
            Ok(text)
        },
    }
}

/// The request for `employee` today, by the clock.
pub fn create_prompt(employee: &Employee) -> (r: Result<String, PromptError>)
    ensures
        employee.dob is None <==> r is Err,
        r is Err ==> r == Err::<String, PromptError>(PromptError::NoDateOfBirth),
        r matches Ok(p) ==> exists|y: i32, d: u16|
            1 <= d <= 366 && p@ == prompt_text(employee.name@, age_in_years(employee.dob->0, y, d)),
{
    let (year, day) = today_utc();
    birthday_prompt(employee, year, day)
}

} // verus!
