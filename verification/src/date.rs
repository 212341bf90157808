//! Finding a calendar date in the text of a document.
//!
//! A date token is an optional day (two digits and a dot, white space
//! allowed after it), a month (two digits and a dot, or a German month name
//! with white space allowed after it) and a year of four digits that begins
//! with `20`. The first token in the text counts. The grammar is written
//! down here, as [`DATE_PATTERN`]; the search for it in a text is the
//! `regex` crate's; what date a token stands for is decided here.

use crate::decimal::{
    digit_char, digit_of, digit_value, format_four_digits, format_two_digits, four_digit_text,
    is_digit, lemma_digit_round_trip, lemma_two_digit_round_trip, parse_two_digits,
    two_digit_text, two_digit_value,
};
use regex::Regex;
use vstd::prelude::*;

verus! {

/// The parts of one date token, as they stand in the text. A part is `None`
/// where the token has none: a token has a numeric month or a month name,
/// never both.
#[derive(Clone, Debug, PartialEq, Eq)]
pub struct DateToken {
    /// The two digits of the day.
    pub day: Option<String>,
    /// The two digits of the month.
    pub month_numeric: Option<String>,
    /// The name of the month.
    pub month_text: Option<String>,
    /// The four digits of the year.
    pub year: Option<String>,
}

/// What a [`DateToken`] holds.
pub struct DateTokenView {
    pub day: Option<Seq<char>>,
    pub month_numeric: Option<Seq<char>>,
    pub month_text: Option<Seq<char>>,
    pub year: Option<Seq<char>>,
}

/// What an optional text holds.
pub open spec fn optional_text(s: Option<String>) -> Option<Seq<char>> {
    match s {
        Some(s) => Some(s@),
        None => None,
    }
}

impl View for DateToken {
    type V = DateTokenView;

    open spec fn view(&self) -> DateTokenView {
        DateTokenView {
            day: optional_text(self.day),
            month_numeric: optional_text(self.month_numeric),
            month_text: optional_text(self.month_text),
            year: optional_text(self.year),
        }
    }
}

/// Why the first date token of a text stands for no date. Each of these is
/// a fault in the text or in the grammar, not an answer to the operator: a
/// caller is expected to give the request up.
#[derive(Clone, Copy, Debug, PartialEq, Eq, Structural)]
pub enum DateError {
    /// The day is not two of the digits `0` to `9`.
    InvalidDay,
    /// The month is not two of the digits `0` to `9`, or is missing.
    InvalidMonth,
    /// The month name is one that the grammar admits and the table of month
    /// names lacks.
    UnknownMonth,
    /// The year is not `20` and two of the digits `0` to `9`, or is missing.
    InvalidYear,
    /// The pattern of the date grammar was refused when it was compiled.
    InvalidPattern,
}

/// The grammar of a date token, as a pattern of the `regex` crate. The
/// groups `day`, `month_numeric`, `month_text` and `year` are the parts of
/// the token. The month names are those of the table behind
/// [`month_number`].
pub const DATE_PATTERN: &'static str =
    r"((?<day>\d\d)\.\s*)?(((?<month_numeric>\d\d)\.)|(?<month_text>Januar|Februar|Maerz|April|Mai|Juni|Juli|August|September|Oktober|November|Dezember)\s*)(?<year>20\d\d)";

/// How a search for a pattern in a text ends.
pub enum Search {
    /// The pattern was refused when it was compiled.
    Refused,
    /// The text holds no match.
    Absent,
    /// The parts of the first match.
    Found(DateTokenView),
}

/// How the search for `pattern` in `text` ends: refused if the `regex`
/// crate does not compile `pattern`; else the groups `day`,
/// `month_numeric`, `month_text` and `year` of the first match that it
/// finds in `text`, a group being `None` where the pattern has none of that
/// name or the group took no part in the match.
pub uninterp spec fn pattern_token(pattern: Seq<char>, text: Seq<char>) -> Search;

/// Declares `regex::Error`, with which `regex::Regex::new` refuses a
/// pattern. Nothing is read out of it: that there is one is all that counts.
#[verifier::external_type_specification]
#[verifier::external_body]
pub struct ExRegexError(regex::Error);

/// Searches `text` for the first match of `pattern`.
///
/// Trusted: compiles `pattern` with `regex::Regex::new`, searches with
/// `Regex::captures`, and reads the four named groups with `Captures::name`
/// and `Match::as_str`. The contract claims only that the outcome is a
/// function of `pattern` and `text`, which it names `pattern_token`;
/// nothing is claimed of when a pattern is refused, of where a match lies
/// or of what the groups hold.
#[verifier::external_body]
fn find_token(pattern: &str, text: &str) -> (r: Result<Option<DateToken>, regex::Error>)
    ensures
        r is Err <==> pattern_token(pattern@, text@) is Refused,
        r matches Ok(None) ==> pattern_token(pattern@, text@) is Absent,
        r matches Ok(Some(token)) ==> pattern_token(pattern@, text@) == Search::Found(token@),
{
    let compiled = Regex::new(pattern)?;
    Ok(
        compiled.captures(text).map(
            |found|
                DateToken {
                    day: found.name("day").map(|m| m.as_str().to_string()),
                    month_numeric: found.name("month_numeric").map(|m| m.as_str().to_string()),
                    month_text: found.name("month_text").map(|m| m.as_str().to_string()),
                    year: found.name("year").map(|m| m.as_str().to_string()),
                },
        ),
    )
}

/// The number of the month that `name` names, by the table of the twelve
/// German month names, `ae` written for the umlaut.
pub open spec fn month_number(name: Seq<char>) -> Option<u8> {
    if name == "Januar"@ {
        Some(1u8)
    } else if name == "Februar"@ {
        Some(2u8)
    } else if name == "Maerz"@ {
        Some(3u8)
    } else if name == "April"@ {
        Some(4u8)
    } else if name == "Mai"@ {
        Some(5u8)
    } else if name == "Juni"@ {
        Some(6u8)
    } else if name == "Juli"@ {
        Some(7u8)
    } else if name == "August"@ {
        Some(8u8)
    } else if name == "September"@ {
        Some(9u8)
    } else if name == "Oktober"@ {
        Some(10u8)
    } else if name == "November"@ {
        Some(11u8)
    } else if name == "Dezember"@ {
        Some(12u8)
    } else {
        None
    }
}

/// Whether `name` is the text `known`.
fn names(name: &String, known: &str) -> (r: bool)
    ensures
        r == (name@ == known@),
{
    *name == String::from_str(known)
}

/// Decides whether `month` is one of the twelve names of the table.
pub fn is_month_name(month: &str) -> (r: bool)
    ensures
        r == month_number(month@) is Some,
{
    let name = String::from_str(month);
    names(&name, "Januar") || names(&name, "Februar") || names(&name, "Maerz") || names(
        &name,
        "April",
    ) || names(&name, "Mai") || names(&name, "Juni") || names(&name, "Juli") || names(
        &name,
        "August",
    ) || names(&name, "September") || names(&name, "Oktober") || names(&name, "November")
        || names(&name, "Dezember")
}

/// The number of the month that `month` names. The name has to be one of
/// the table, letter for letter: no other spelling, case or surrounding
/// space is taken for a month, and no month is made up for one.
pub fn parse_month(month: &str) -> (r: u8)
    requires
        month_number(month@) is Some,
    ensures
        month_number(month@) == Some(r),
        1 <= r <= 12,
{
    let name = String::from_str(month);
    if names(&name, "Januar") {
        1
    } else if names(&name, "Februar") {
        2
    } else if names(&name, "Maerz") {
        3
    } else if names(&name, "April") {
        4
    } else if names(&name, "Mai") {
        5
    } else if names(&name, "Juni") {
        6
    } else if names(&name, "Juli") {
        7
    } else if names(&name, "August") {
        8
    } else if names(&name, "September") {
        9
    } else if names(&name, "Oktober") {
        10
    } else if names(&name, "November") {
        11
    } else {
        12
    }
}

/// The day that a token gives: the first of the month where it names none.
pub open spec fn day_of(token: DateTokenView) -> Result<nat, DateError> {
    match token.day {
        None => Ok(1nat),
        Some(digits) => match two_digit_value(digits) {
            Some(day) => Ok(day),
            None => Err(DateError::InvalidDay),
        },
    }
}

/// The month that a token gives: its numeric month where it has one, else
/// the number of its month name.
pub open spec fn month_of(token: DateTokenView) -> Result<nat, DateError> {
    match token.month_numeric {
        Some(digits) => match two_digit_value(digits) {
            Some(month) => Ok(month),
            None => Err(DateError::InvalidMonth),
        },
        None => match token.month_text {
            Some(name) => match month_number(name) {
                Some(month) => Ok(month as nat),
                None => Err(DateError::UnknownMonth),
            },
            None => Err(DateError::InvalidMonth),
        },
    }
}

/// Whether `digits` writes a year from 2000 to 2099.
pub open spec fn is_year_text(digits: Seq<char>) -> bool {
    &&& digits.len() == 4
    &&& digits[0] == '2'
    &&& digits[1] == '0'
    &&& is_digit(digits[2])
    &&& is_digit(digits[3])
}

/// The year that a token gives.
pub open spec fn year_of(token: DateTokenView) -> Result<nat, DateError> {
    match token.year {
        Some(digits) => if is_year_text(digits) {
            Ok(2000 + digit_value(digits[2]) * 10 + digit_value(digits[3]))
        } else {
            Err(DateError::InvalidYear)
        },
        None => Err(DateError::InvalidYear),
    }
}

/// The canonical form of a date: four digits of year, two of month, two of
/// day, with `-` between them.
pub open spec fn date_text(year: nat, month: nat, day: nat) -> Seq<char> {
    four_digit_text(year) + seq!['-'] + two_digit_text(month) + seq!['-'] + two_digit_text(day)
}

/// The canonical date that a token stands for. Day, month and year are
/// read in this order, and the first that fails gives the error.
pub open spec fn canonical_form(token: DateTokenView) -> Result<Seq<char>, DateError> {
    match day_of(token) {
        Err(e) => Err(e),
        Ok(day) => match month_of(token) {
            Err(e) => Err(e),
            Ok(month) => match year_of(token) {
                Err(e) => Err(e),
                Ok(year) => Ok(date_text(year, month, day)),
            },
        },
    }
}

/// Whether `date` has the canonical shape `20YY-MM-DD`.
pub open spec fn is_canonical(date: Seq<char>) -> bool {
    &&& date.len() == 10
    &&& date[0] == '2'
    &&& date[1] == '0'
    &&& is_digit(date[2])
    &&& is_digit(date[3])
    &&& date[4] == '-'
    &&& is_digit(date[5])
    &&& is_digit(date[6])
    &&& date[7] == '-'
    &&& is_digit(date[8])
    &&& is_digit(date[9])
}

/// The canonical form of a date is ten characters long: the year in the
/// first four, the month in the sixth and seventh, the day in the last two,
/// and `-` in the fifth and the eighth.
pub proof fn lemma_date_text_parts(year: nat, month: nat, day: nat)
    requires
        year < 10000,
        month < 100,
        day < 100,
    ensures
        date_text(year, month, day).len() == 10,
        date_text(year, month, day).subrange(0, 4) == four_digit_text(year),
        date_text(year, month, day)[4] == '-',
        date_text(year, month, day).subrange(5, 7) == two_digit_text(month),
        date_text(year, month, day)[7] == '-',
        date_text(year, month, day).subrange(8, 10) == two_digit_text(day),
{
    let y = four_digit_text(year);
    let m = two_digit_text(month);
    let d = two_digit_text(day);
    let dash = seq!['-'];
    assert(y.len() == 4 && m.len() == 2 && d.len() == 2 && dash.len() == 1);
    let date = y + dash + m + dash + d;
    assert(date == date_text(year, month, day));
    assert(date.len() == 10);
    assert(date.subrange(0, 4) =~= y);
    assert(date[4] == dash[0]);
    assert(date.subrange(5, 7) =~= m);
    assert(date[7] == dash[0]);
    assert(date.subrange(8, 10) =~= d);
}

/// The day, month and year of a token that stands for a date are below one
/// hundred, below one hundred, and from 2000 to 2099.
pub proof fn lemma_token_ranges(token: DateTokenView)
    requires
        canonical_form(token) is Ok,
    ensures
        day_of(token) is Ok && day_of(token)->Ok_0 < 100,
        month_of(token) is Ok && month_of(token)->Ok_0 < 100,
        year_of(token) is Ok && 2000 <= year_of(token)->Ok_0 < 2100,
        canonical_form(token)->Ok_0 == date_text(
            year_of(token)->Ok_0,
            month_of(token)->Ok_0,
            day_of(token)->Ok_0,
        ),
{
    if let Some(digits) = token.day {
        lemma_digit_round_trip(digits[0], 0);
        lemma_digit_round_trip(digits[1], 0);
    }
    if let Some(digits) = token.month_numeric {
        lemma_digit_round_trip(digits[0], 0);
        lemma_digit_round_trip(digits[1], 0);
    }
    let digits = token.year->0;
    lemma_digit_round_trip(digits[2], 0);
    lemma_digit_round_trip(digits[3], 0);
}

/// A number below one hundred is written with two digits.
proof fn lemma_two_digits_are_digits(n: nat)
    requires
        n < 100,
    ensures
        two_digit_text(n).len() == 2,
        is_digit(two_digit_text(n)[0]),
        is_digit(two_digit_text(n)[1]),
{
    lemma_digit_round_trip('0', n / 10);
    lemma_digit_round_trip('0', n % 10);
}

/// A year from 2000 to 2099 is written as `20` and two digits.
proof fn lemma_year_digits(year: nat)
    requires
        2000 <= year < 2100,
    ensures
        is_year_text(four_digit_text(year)),
{
    assert(year / 1000 == 2);
    assert(year / 100 % 10 == 0);
    lemma_digit_round_trip('0', year / 10 % 10);
    lemma_digit_round_trip('0', year % 10);
}

/// Every date that a token stands for has the canonical shape, with a year
/// from 2000 to 2099.
pub proof fn lemma_canonical_shape(token: DateTokenView)
    requires
        canonical_form(token) is Ok,
    ensures
        is_canonical(canonical_form(token)->Ok_0),
{
    lemma_token_ranges(token);
    let day = day_of(token)->Ok_0;
    let month = month_of(token)->Ok_0;
    let year = year_of(token)->Ok_0;
    lemma_date_text_parts(year, month, day);
    lemma_year_digits(year);
    lemma_two_digits_are_digits(month);
    lemma_two_digits_are_digits(day);
    let date = canonical_form(token)->Ok_0;
    let y = date.subrange(0, 4);
    let m = date.subrange(5, 7);
    let d = date.subrange(8, 10);
    assert(date[0] == y[0] && date[1] == y[1] && date[2] == y[2] && date[3] == y[3]);
    assert(date[5] == m[0] && date[6] == m[1]);
    assert(date[8] == d[0] && date[9] == d[1]);
}

/// The last two characters of the date that a token stands for are the
/// token's day as it is written in the text, and `01` for a token without
/// a day.
pub proof fn lemma_canonical_day(token: DateTokenView)
    requires
        canonical_form(token) is Ok,
    ensures
        token.day is None ==> canonical_form(token)->Ok_0.subrange(8, 10) == seq!['0', '1'],
        token.day matches Some(day) ==> canonical_form(token)->Ok_0.subrange(8, 10) == day,
{
    lemma_token_ranges(token);
    let day = day_of(token)->Ok_0;
    lemma_date_text_parts(year_of(token)->Ok_0, month_of(token)->Ok_0, day);
    match token.day {
        Some(digits) => {
            lemma_two_digit_round_trip(0, digits);
            assert(two_digit_text(day) == digits);
        },
        None => {
            assert(day == 1);
            assert(two_digit_text(1) =~= seq!['0', '1']);
        },
    }
}

/// The sixth and seventh character of the date that a token stands for are
/// the token's numeric month as it is written in the text, or the number of
/// its month name written with two digits.
pub proof fn lemma_canonical_month(token: DateTokenView)
    requires
        canonical_form(token) is Ok,
    ensures
        token.month_numeric matches Some(month) ==> canonical_form(token)->Ok_0.subrange(5, 7)
            == month,
        token.month_numeric is None ==> month_number(token.month_text->0) is Some
            && canonical_form(token)->Ok_0.subrange(5, 7) == two_digit_text(
            month_number(token.month_text->0)->0 as nat,
        ),
{
    lemma_token_ranges(token);
    let month = month_of(token)->Ok_0;
    lemma_date_text_parts(year_of(token)->Ok_0, month, day_of(token)->Ok_0);
    match token.month_numeric {
        Some(digits) => {
            lemma_two_digit_round_trip(0, digits);
            assert(two_digit_text(month) == digits);
        },
        None => {
            assert(month == month_number(token.month_text->0)->0 as nat);
        },
    }
}

/// The year 2000 plus a number of two digits is written as `20` and those
/// two digits.
proof fn lemma_year_text(tens: nat, ones: nat)
    requires
        tens < 10,
        ones < 10,
    ensures
        four_digit_text(2000 + tens * 10 + ones) == seq![
            '2',
            '0',
            digit_char(tens),
            digit_char(ones),
        ],
{
    let year = 2000 + tens * 10 + ones;
    assert(year / 1000 == 2);
    assert(year / 100 % 10 == 0);
    assert(year / 10 % 10 == tens);
    assert(year % 10 == ones);
    assert(four_digit_text(year) =~= seq!['2', '0', digit_char(tens), digit_char(ones)]);
}

/// The first four characters of the date that a token stands for are the
/// token's year as it is written in the text.
pub proof fn lemma_canonical_year(token: DateTokenView)
    requires
        canonical_form(token) is Ok,
    ensures
        token.year is Some,
        canonical_form(token)->Ok_0.subrange(0, 4) == token.year->0,
{
    lemma_token_ranges(token);
    lemma_date_text_parts(year_of(token)->Ok_0, month_of(token)->Ok_0, day_of(token)->Ok_0);
    let digits = token.year->0;
    lemma_digit_round_trip(digits[2], 0);
    lemma_digit_round_trip(digits[3], 0);
    lemma_year_text(digit_value(digits[2]), digit_value(digits[3]));
    assert(digits =~= seq![
        '2',
        '0',
        digit_char(digit_value(digits[2])),
        digit_char(digit_value(digits[3])),
    ]);
}

/// Reads the year of a token.
fn parse_year(digits: &str) -> (r: Option<u16>)
    ensures
        r is Some <==> is_year_text(digits@),
        r matches Some(year) ==> year == 2000 + digit_value(digits@[2]) * 10 + digit_value(
            digits@[3],
        ) && 2000 <= year < 2100,
{
    if digits.unicode_len() != 4 {
        return None;
    }
    if digits.get_char(0) != '2' || digits.get_char(1) != '0' {
        return None;
    }
    match (digit_of(digits.get_char(2)), digit_of(digits.get_char(3))) {
        (Some(a), Some(b)) => Some(2000 + (a as u16) * 10 + b as u16),
        _ => None,
    }
}

/// The canonical date `YYYY-MM-DD` that `token` stands for. A missing day
/// counts as the first of the month.
pub fn canonical_date(token: &DateToken) -> (r: Result<String, DateError>)
    ensures
        r is Ok <==> canonical_form(token@) is Ok,
        r matches Ok(date) ==> canonical_form(token@) == Ok::<Seq<char>, DateError>(date@)
            && is_canonical(date@),
        r matches Err(e) ==> canonical_form(token@) == Err::<Seq<char>, DateError>(e),
{
    let day: u8 = match &token.day {
        None => 1,
        Some(digits) => match parse_two_digits(digits.as_str()) {
            Some(day) => day,
            None => {
                return Err(DateError::InvalidDay);
            },
        },
    };
    let month: u8 = match &token.month_numeric {
        Some(digits) => match parse_two_digits(digits.as_str()) {
            Some(month) => month,
            None => {
                return Err(DateError::InvalidMonth);
            },
        },
        None => match &token.month_text {
            Some(name) => {
                if !is_month_name(name.as_str()) {
                    return Err(DateError::UnknownMonth);
                }
                parse_month(name.as_str())
            },
            None => {
                return Err(DateError::InvalidMonth);
            },
        },
    };
    let year: u16 = match &token.year {
        Some(digits) => match parse_year(digits.as_str()) {
            Some(year) => year,
            None => {
                return Err(DateError::InvalidYear);
            },
        },
        None => {
            return Err(DateError::InvalidYear);
        },
    };
    let mut date = format_four_digits(year);
    proof {
        reveal_strlit("-");
        assert("-"@ =~= seq!['-']);
    }
    date.append("-");
    date.append(format_two_digits(month).as_str());
    date.append("-");
    date.append(format_two_digits(day).as_str());
    proof {
        assert(date@ =~= date_text(year as nat, month as nat, day as nat));
        lemma_canonical_shape(token@);
    }
    Ok(date)
}

/// What [`extract_date`] returns for a text in which the search for the
/// date grammar ends in `search`: an error where the grammar was refused, no
/// date where the text holds no token, else the token's canonical date or
/// the reason why it has none.
pub open spec fn extracted(search: Search) -> Result<Option<Seq<char>>, DateError> {
    match search {
        Search::Refused => Err(DateError::InvalidPattern),
        Search::Absent => Ok(None),
        Search::Found(token) => match canonical_form(token) {
            Ok(date) => Ok(Some(date)),
            Err(e) => Err(e),
        },
    }
}

/// The date that the first match of `pattern` in `content` stands for, or
/// `None` if `content` holds no match. The groups `day`, `month_numeric`,
/// `month_text` and `year` of the pattern are taken for the parts of the
/// token. A pattern that the `regex` crate refuses gives
/// [`DateError::InvalidPattern`].
pub fn extract_date_by(pattern: &str, content: &str) -> (r: Result<Option<String>, DateError>)
    ensures
        match extracted(pattern_token(pattern@, content@)) {
            Ok(None) => r == Ok::<Option<String>, DateError>(None),
            Ok(Some(date)) => r is Ok && r->Ok_0 is Some && r->Ok_0->0@ == date && is_canonical(
                date,
            ),
            Err(e) => r == Err::<Option<String>, DateError>(e),
        },
{
    match find_token(pattern, content) {
        Err(_) => Err(DateError::InvalidPattern),
        Ok(None) => Ok(None),
        Ok(Some(token)) => match canonical_date(&token) {
            Ok(date) => Ok(Some(date)),
            Err(e) => Err(e),
        },
    }
}

/// The date of a document, from its text: the canonical date of the first
/// token of the date grammar [`DATE_PATTERN`] in `content`, or `None` if
/// `content` holds no token. Only the first token counts, whatever follows
/// it.
pub fn extract_date(content: &str) -> (r: Result<Option<String>, DateError>)
    ensures
        match extracted(pattern_token(DATE_PATTERN@, content@)) {
            Ok(None) => r == Ok::<Option<String>, DateError>(None),
            Ok(Some(date)) => r is Ok && r->Ok_0 is Some && r->Ok_0->0@ == date && is_canonical(
                date,
            ),
            Err(e) => r == Err::<Option<String>, DateError>(e),
        },
{
    extract_date_by(DATE_PATTERN, content)
}

} // verus!
