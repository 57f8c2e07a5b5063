//! From a configuration and a date to the name of the file.
//!
//! A name is the date, a dot and the extension. Day and month are written
//! with two digits. The year is written as the configuration's `full_year`
//! asks: in full, with four digits, or cut short to the year modulo 1000,
//! with two digits where that is below 100. Short is the default.

use crate::config::{merge, merged, Config, ConfigView, Overrides};
use crate::date::{local_today, Date};
use crate::numeral::{
    decimal, digit_char, lemma_decimal_len, pow10, push_signed_zero_padded, push_zero_padded,
    signed_zero_padded, zero_padded,
};
use crate::order::DateOrder;
use vstd::prelude::*;

verus! {

/// The year cut to its last three digits: the remainder of a division by
/// 1000 that rounds towards zero, so that it has the sign of the year.
pub open spec fn short_year(year: int) -> int {
    if year >= 0 {
        year % 1000
    } else {
        -((-year) % 1000)
    }
}

/// The year as a file name shows it: in full, four characters wide at least,
/// or cut short to the year modulo 1000, two characters wide at least.
pub open spec fn year_text(year: int, full_year: bool) -> Seq<char> {
    if full_year {
        signed_zero_padded(year, 4)
    } else {
        signed_zero_padded(short_year(year), 2)
    }
}

/// The day or the month as a file name shows it: two digits wide at least.
pub open spec fn two_digits(n: nat) -> Seq<char> {
    zero_padded(n, 2)
}

/// The three components of a date in the given order, with the separator
/// between each two of them.
pub open spec fn date_text(
    order: DateOrder,
    day: nat,
    month: nat,
    year: int,
    separator: char,
    full_year: bool,
) -> Seq<char> {
    let d = two_digits(day);
    let m = two_digits(month);
    let y = year_text(year, full_year);
    match order {
        DateOrder::DMY => d + seq![separator] + m + seq![separator] + y,
        DateOrder::MDY => m + seq![separator] + d + seq![separator] + y,
        DateOrder::YMD => y + seq![separator] + m + seq![separator] + d,
    }
}

/// The name of the file for a date: the date as the configuration lays it
/// out, a dot, and the extension.
pub open spec fn file_name_text(config: ConfigView, date: Date) -> Seq<char> {
    date_text(
        config.order,
        date.day as nat,
        date.month as nat,
        date.year as int,
        config.separator,
        config.full_year,
    ) + seq!['.'] + config.extension
}

/// Day and month are two digits wide at least, whatever the number, and two
/// digits wide exactly where the number is below 100.
pub proof fn lemma_two_digits_width(n: nat)
    ensures
        two_digits(n).len() >= 2,
        two_digits(n).len() == 2 <==> n < 100,
{
    reveal_with_fuel(pow10, 3);
    lemma_decimal_len(n, 2);
    lemma_decimal_len(n, 3);
}

/// A day or a month below 100 is written as two digits exactly: the tens,
/// which are `0` below ten, and the ones.
pub proof fn lemma_two_digits(n: nat)
    requires
        n < 100,
    ensures
        two_digits(n) == seq![digit_char(n / 10), digit_char(n % 10)],
{
    reveal_with_fuel(decimal, 2);
    assert(digit_char(0) == '0');
}

/// A full year that is not negative is its numeral, padded to four digits.
/// It is four digits wide up to the year 9999, and wider from there on.
pub proof fn lemma_full_year_width(year: int)
    requires
        0 <= year,
    ensures
        year_text(year, true) == zero_padded(year as nat, 4),
        year_text(year, true).len() >= 4,
        year_text(year, true).len() == 4 <==> year <= 9999,
{
    reveal_with_fuel(pow10, 5);
    lemma_decimal_len(year as nat, 4);
    lemma_decimal_len(year as nat, 5);
}

/// A short year that is not negative is the year modulo 1000, padded to two
/// digits. It is two digits wide where that remainder is below 100, and
/// three digits wide where it is not: 2024 gives `24`, 1999 gives `999`.
pub proof fn lemma_short_year_width(year: int)
    requires
        0 <= year,
    ensures
        year_text(year, false) == two_digits((year % 1000) as nat),
        year_text(year, false).len() == if year % 1000 < 100 {
            2int
        } else {
            3int
        },
{
    reveal_with_fuel(pow10, 4);
    lemma_decimal_len((year % 1000) as nat, 2);
    lemma_decimal_len((year % 1000) as nat, 3);
}

/// Where the components stand in the text of a date. Day and month below 100
/// take two characters each (every calendar date has them so), and the year
/// takes the rest.
pub proof fn lemma_date_text_layout(
    order: DateOrder,
    day: nat,
    month: nat,
    year: int,
    separator: char,
    full_year: bool,
)
    requires
        day < 100,
        month < 100,
    ensures
        ({
            let text = date_text(order, day, month, year, separator, full_year);
            let d = two_digits(day);
            let m = two_digits(month);
            let y = year_text(year, full_year);
            let len = text.len() as int;
            let width = y.len() as int;
            &&& len == width + 6
            &&& order == DateOrder::DMY ==> {
                &&& text.subrange(0, 2) == d
                &&& text[2] == separator
                &&& text.subrange(3, 5) == m
                &&& text[5] == separator
                &&& text.subrange(6, len) == y
            }
            &&& order == DateOrder::MDY ==> {
                &&& text.subrange(0, 2) == m
                &&& text[2] == separator
                &&& text.subrange(3, 5) == d
                &&& text[5] == separator
                &&& text.subrange(6, len) == y
            }
            &&& order == DateOrder::YMD ==> {
                &&& text.subrange(0, width) == y
                &&& text[width] == separator
                &&& text.subrange(width + 1, width + 3) == m
                &&& text[width + 3] == separator
                &&& text.subrange(width + 4, len) == d
            }
        }),
{
    lemma_two_digits(day);
    lemma_two_digits(month);
}

fn push_year(text: &mut String, year: i32, full_year: bool)
    ensures
        final(text)@ == old(text)@ + year_text(year as int, full_year),
{
    if full_year {
        push_signed_zero_padded(text, year, 4);
    } else {
        push_signed_zero_padded(text, year % 1000, 2);
    }
}

/// Writes a date as the stem of a file name.
///
/// The separator is taken as it is: nothing is escaped, and nothing is held
/// against what a file system accepts in a name.
pub fn format_date(
    order: DateOrder,
    day: u32,
    month: u32,
    year: i32,
    separator: char,
    full_year: bool,
) -> (text: String)
    ensures
        text@ == date_text(order, day as nat, month as nat, year as int, separator, full_year),
{
    let mut text = String::new();
    match order {
        DateOrder::DMY => {
            push_zero_padded(&mut text, day, 2);
            text.push(separator);
            push_zero_padded(&mut text, month, 2);
            text.push(separator);
            push_year(&mut text, year, full_year);
        },
        DateOrder::MDY => {
            push_zero_padded(&mut text, month, 2);
            text.push(separator);
            push_zero_padded(&mut text, day, 2);
            text.push(separator);
            push_year(&mut text, year, full_year);
        },
        DateOrder::YMD => {
            push_year(&mut text, year, full_year);
            text.push(separator);
            push_zero_padded(&mut text, month, 2);
            text.push(separator);
            push_zero_padded(&mut text, day, 2);
        },
    }
    text
}

/// The name of the file that stands for `date` under `config`.
pub fn file_name(config: &Config, date: Date) -> (name: String)
    ensures
        name@ == file_name_text(config@, date),
{
    let mut name = format_date(
        config.order,
        date.day,
        date.month,
        date.year,
        config.separator,
        config.full_year,
    );
    name.push('.');
    name.append(config.extension.as_str());
    name
}

/// The name of today's file: the overrides are laid over the stored
/// preferences, the clock is read, and the date is written as the merged
/// configuration asks.
///
/// Which date the clock gives is not for this library to say. Whatever it
/// gives, the name is the one that `file_name` returns for it.
pub fn build_filename(config: Config, overrides: Overrides) -> (name: String)
    ensures
        exists|today: Date|
            today.in_range() && name@ == #[trigger] file_name_text(
                merged(config@, overrides@),
                today,
            ),
{
    let resolved = merge(config, overrides);
    let today = local_today();
    file_name(&resolved, today)
}

} // verus!
