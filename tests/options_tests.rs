use yahoo2fnu::options::{
    confirm_replace, default_path, first_char_capital, prompt_date, prompt_save_path, prompt_symbol, DataValue,
    Interval,
};

#[test]
fn data_value_letters() {
    assert_eq!(DataValue::from_char('A'), Some(DataValue::AdjustedClose));
    assert_eq!(DataValue::from_char('x'), None);
    assert_eq!(DataValue::parse_answer("close"), Some(DataValue::Close));
    assert_eq!(DataValue::parse_answer(""), None);
    assert_eq!(DataValue::AdjustedClose.col_name(), "Adj Close");
    assert_eq!(DataValue::options().len(), 6);
}

#[test]
fn interval_letters_and_params() {
    assert_eq!(Interval::parse_answer("weekly"), Some(Interval::Weekly));
    assert_eq!(Interval::from_char('Q'), None);
    assert_eq!(Interval::Daily.param_val(), "1d");
    assert_eq!(Interval::Weekly.param_val(), "1wk");
    assert_eq!(Interval::Monthly.param_val(), "1mo");
    assert_eq!(Interval::Monthly.option_str(), "(M)onthly");
}

#[test]
fn first_letter_is_capitalized() {
    assert_eq!(first_char_capital("yes"), 'Y');
    assert_eq!(first_char_capital("N"), 'N');
}

#[test]
fn replace_answers() {
    assert_eq!(confirm_replace(""), Some(true));
    assert_eq!(confirm_replace("y"), Some(true));
    assert_eq!(confirm_replace("no"), Some(false));
    assert_eq!(confirm_replace("maybe"), None);
}

#[test]
fn symbol_is_upper_cased() {
    assert_eq!(prompt_symbol("aapl"), "AAPL");
}

#[test]
fn default_path_names_fnu_file() {
    assert_eq!(default_path("SPY", false), "SPY.fnu");
    assert_eq!(default_path("SPY", true), "C:\\FT\\SPY.fnu");
}

#[test]
fn save_path_gets_extension() {
    assert_eq!(prompt_save_path("out"), "out.fnu");
    assert_eq!(prompt_save_path("out.txt"), "out.txt");
}

#[test]
fn dates_parse_to_midnight_utc() {
    assert_eq!(prompt_date("03-05-2020"), Some(1583366400));
    assert_eq!(prompt_date("01-01-1970"), Some(0));
    assert_eq!(prompt_date("2020-03-05"), None);
}
