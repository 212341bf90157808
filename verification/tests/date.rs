use scan_renamer::date::{
    canonical_date, extract_date, extract_date_by, is_month_name, parse_month, DateError,
    DateToken, DATE_PATTERN,
};

fn token(day: Option<&str>, numeric: Option<&str>, text: Option<&str>, year: Option<&str>) -> DateToken {
    DateToken {
        day: day.map(|s| s.to_string()),
        month_numeric: numeric.map(|s| s.to_string()),
        month_text: text.map(|s| s.to_string()),
        year: year.map(|s| s.to_string()),
    }
}

#[test]
fn date_without_day_defaults_to_first() {
    assert_eq!(extract_date("Rechnung August 2024"), Ok(Some("2024-08-01".to_string())));
}

#[test]
fn fully_numeric_date() {
    assert_eq!(extract_date("05.03.2023"), Ok(Some("2023-03-05".to_string())));
}

#[test]
fn single_token_is_found_among_other_text() {
    let bare = extract_date("17. Maerz 2021");
    assert_eq!(bare, Ok(Some("2021-03-17".to_string())));
    let wrapped = extract_date("Sehr geehrte Damen und Herren,\nDatum: 17. Maerz 2021\nBetrag 12,50 EUR");
    assert_eq!(wrapped, bare);
    let tail = extract_date("17. Maerz 2021 und sonst nichts, Tel. 0123 456");
    assert_eq!(tail, bare);
}

#[test]
fn text_without_token_has_no_date() {
    assert_eq!(extract_date(""), Ok(None));
    assert_eq!(extract_date("no date in here, only 1999 and 12.12."), Ok(None));
    assert_eq!(extract_date("05.03.1999"), Ok(None));
    assert_eq!(extract_date("3. Maerz 24"), Ok(None));
}

#[test]
fn february_is_a_month_like_the_others() {
    assert_eq!(extract_date("03. Februar 2024"), Ok(Some("2024-02-03".to_string())));
    assert_eq!(
        extract_date("Rechnung vom 12. Februar 2024"),
        Ok(Some("2024-02-12".to_string()))
    );
    assert_eq!(extract_date("Februar 2024"), Ok(Some("2024-02-01".to_string())));
}

#[test]
fn first_token_wins() {
    assert_eq!(
        extract_date("Lieferung 01.02.2020, Rechnung 03.04.2021, Mahnung 03.04.2021"),
        Ok(Some("2020-02-01".to_string()))
    );
    assert_eq!(extract_date("Mai 2022 oder 09.09.2019"), Ok(Some("2022-05-01".to_string())));
}

#[test]
fn white_space_after_day_and_month_name() {
    assert_eq!(extract_date("07. \n\t 11.2025"), Ok(Some("2025-11-07".to_string())));
    assert_eq!(extract_date("07.Dezember\u{a0} 2025"), Ok(Some("2025-12-07".to_string())));
    assert_eq!(extract_date("Oktober2001"), Ok(Some("2001-10-01".to_string())));
}

#[test]
fn every_month_name_in_a_text() {
    let names = [
        ("Januar", "01"),
        ("Februar", "02"),
        ("Maerz", "03"),
        ("April", "04"),
        ("Mai", "05"),
        ("Juni", "06"),
        ("Juli", "07"),
        ("August", "08"),
        ("September", "09"),
        ("Oktober", "10"),
        ("November", "11"),
        ("Dezember", "12"),
    ];
    for (name, number) in names {
        let text = format!("vom 09. {} 2030 an", name);
        assert_eq!(extract_date(&text), Ok(Some(format!("2030-{}-09", number))));
    }
}

#[test]
fn number_near_a_year_is_taken_for_a_date() {
    assert_eq!(extract_date("Hauptstr. 12.2024 Berlin"), Ok(Some("2024-12-01".to_string())));
    assert_eq!(extract_date("45.67.2023"), Ok(Some("2023-67-45".to_string())));
}

#[test]
fn other_spelling_of_a_month_is_no_token() {
    assert_eq!(extract_date("Feburar 2024"), Ok(None));
    assert_eq!(extract_date("februar 2024"), Ok(None));
    assert_eq!(extract_date("12. M\u{e4}rz 2024"), Ok(None));
    assert_eq!(extract_date("12. Aug 2024"), Ok(None));
    assert_eq!(
        extract_date("03. Feburar 2024, 01.01.2020"),
        Ok(Some("2020-01-01".to_string()))
    );
}

#[test]
fn every_name_of_the_grammar_is_in_the_table() {
    let start = DATE_PATTERN.find("(?<month_text>").unwrap() + "(?<month_text>".len();
    let end = start + DATE_PATTERN[start..].find(')').unwrap();
    let names: Vec<&str> = DATE_PATTERN[start..end].split('|').collect();
    assert_eq!(names.len(), 12);
    for (i, name) in names.iter().enumerate() {
        assert!(is_month_name(name));
        assert_eq!(parse_month(name), i as u8 + 1);
    }
}

#[test]
fn date_by_another_pattern() {
    assert_eq!(
        extract_date_by(r"(?<year>20\d\d)/(?<month_numeric>\d\d)", "Stand 2031/07"),
        Ok(Some("2031-07-01".to_string()))
    );
    assert_eq!(extract_date_by(r"(?<year>20\d\d)", "Stand 2031/07"), Err(DateError::InvalidMonth));
    assert_eq!(extract_date_by(r"(?<month_text>\w+) (?<year>20\d\d)", "im Lenz 2031"), Err(DateError::UnknownMonth));
    assert_eq!(extract_date_by("x", "y"), Ok(None));
    assert_eq!(extract_date_by(DATE_PATTERN, "05.03.2023"), extract_date("05.03.2023"));
}

#[test]
fn pattern_that_does_not_compile_is_an_error() {
    assert_eq!(extract_date_by("(", "05.03.2023"), Err(DateError::InvalidPattern));
    assert_eq!(extract_date_by(r"(?<year>\d", ""), Err(DateError::InvalidPattern));
    assert_eq!(extract_date_by(r"\w{100000}", "x"), Err(DateError::InvalidPattern));
}

#[test]
fn digits_of_another_script_are_an_error() {
    assert_eq!(extract_date("\u{660}\u{665}.03.2023"), Err(DateError::InvalidDay));
    assert_eq!(extract_date("05.\u{660}\u{663}.2023"), Err(DateError::InvalidMonth));
    assert_eq!(extract_date("05.03.20\u{662}\u{663}"), Err(DateError::InvalidYear));
}

#[test]
fn parse_month_knows_twelve_names() {
    let names = [
        "Januar", "Februar", "Maerz", "April", "Mai", "Juni", "Juli", "August", "September",
        "Oktober", "November", "Dezember",
    ];
    for (i, name) in names.iter().enumerate() {
        assert!(is_month_name(name));
        assert_eq!(parse_month(name), i as u8 + 1);
    }
}

#[test]
fn names_outside_the_table_are_no_month_names() {
    for name in ["Feburar", "januar", "Januar ", " Mai", "Aug", "august", "M\u{e4}rz", "Marz", "", "02"] {
        assert!(!is_month_name(name), "{:?}", name);
    }
}

#[test]
fn canonical_date_of_a_token() {
    assert_eq!(
        canonical_date(&token(Some("31"), Some("12"), None, Some("2099"))),
        Ok("2099-12-31".to_string())
    );
    assert_eq!(
        canonical_date(&token(None, None, Some("Juli"), Some("2000"))),
        Ok("2000-07-01".to_string())
    );
    assert_eq!(
        canonical_date(&token(Some("00"), Some("00"), Some("Juli"), Some("2005"))),
        Ok("2005-00-00".to_string())
    );
}

#[test]
fn canonical_date_errors() {
    assert_eq!(canonical_date(&token(Some("5"), Some("12"), None, Some("2020"))), Err(DateError::InvalidDay));
    assert_eq!(canonical_date(&token(Some("+5"), Some("12"), None, Some("2020"))), Err(DateError::InvalidDay));
    assert_eq!(canonical_date(&token(Some("05"), Some("1x"), None, Some("2020"))), Err(DateError::InvalidMonth));
    assert_eq!(canonical_date(&token(Some("05"), None, None, Some("2020"))), Err(DateError::InvalidMonth));
    assert_eq!(canonical_date(&token(Some("05"), None, Some("Feburar"), Some("2020"))), Err(DateError::UnknownMonth));
    assert_eq!(canonical_date(&token(Some("05"), Some("12"), None, None)), Err(DateError::InvalidYear));
    assert_eq!(canonical_date(&token(Some("05"), Some("12"), None, Some("1999"))), Err(DateError::InvalidYear));
    assert_eq!(canonical_date(&token(Some("05"), Some("12"), None, Some("20201"))), Err(DateError::InvalidYear));
    assert_eq!(canonical_date(&token(Some("xx"), Some("yy"), None, None)), Err(DateError::InvalidDay));
}
