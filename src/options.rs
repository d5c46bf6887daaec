//! The closed sets of choices (value column, sampling interval) and the
//! interpretation of the answers typed at the prompts.
use vstd::prelude::*;
use vstd::string::StrSliceExecFns;
use crate::text::{chars_of, push_str, string_of};

verus! {

/// What `char::to_uppercase` yields first for `c`.
pub uninterp spec fn upper_first_of(c: char) -> char;

/// What `str::to_uppercase` yields for `s`.
pub uninterp spec fn upper_of(s: Seq<char>) -> Seq<char>;

/// Relies on `char::to_uppercase`: its first character, which always exists;
/// ASCII letters map to their capitals and other ASCII is kept.
#[verifier::external_body]
fn char_upper(c: char) -> (r: char)
    ensures
        r == upper_first_of(c),
        'a' <= c <= 'z' ==> r == ((c as u32) - 32) as char,
        (c as u32) < 128 && !('a' <= c <= 'z') ==> r == c,
{
    c.to_uppercase().next().unwrap_or(c)
}

/// Relies on `str::to_uppercase`: the upper-case form of a string.
#[verifier::external_body]
fn str_upper(s: &str) -> (r: String)
    ensures
        r@ == upper_of(s@),
{
    s.to_uppercase()
}

/// The first character of a non-empty answer, in upper case.
pub fn first_char_capital(input: &str) -> (r: char)
    requires
        input@.len() > 0,
    ensures
        r == upper_first_of(input@[0]),
{
    char_upper(input.get_char(0))
}

/// The price column that feeds the output.
#[derive(Debug, Clone, Copy, PartialEq, Eq, Structural)]
pub enum DataValue {
    High,
    Low,
    Open,
    Close,
    AdjustedClose,
    Volume,
}

/// The provider's header text of each column.
pub open spec fn col_name_of(v: DataValue) -> Seq<char> {
    match v {
        DataValue::High => "High"@,
        DataValue::Low => "Low"@,
        DataValue::Open => "Open"@,
        DataValue::Close => "Close"@,
        DataValue::AdjustedClose => "Adj Close"@,
        DataValue::Volume => "Volume"@,
    }
}

/// The letter that picks each column at the prompt.
pub open spec fn data_value_of_char(c: char) -> Option<DataValue> {
    if c == 'H' {
        Some(DataValue::High)
    } else if c == 'L' {
        Some(DataValue::Low)
    } else if c == 'O' {
        Some(DataValue::Open)
    } else if c == 'C' {
        Some(DataValue::Close)
    } else if c == 'A' {
        Some(DataValue::AdjustedClose)
    } else if c == 'V' {
        Some(DataValue::Volume)
    } else {
        None
    }
}

impl DataValue {
    /// The header of the column in the provider's data.
    pub fn col_name(&self) -> (r: &'static str)
        ensures
            r@ == col_name_of(*self),
    {
        match self {
            DataValue::High => "High",
            DataValue::Low => "Low",
            DataValue::Open => "Open",
            DataValue::Close => "Close",
            DataValue::AdjustedClose => "Adj Close",
            DataValue::Volume => "Volume",
        }
    }

    /// The column that a letter picks.
    pub fn from_char(c: char) -> (r: Option<DataValue>)
        ensures
            r == data_value_of_char(c),
    {
        match c {
            'H' => Some(DataValue::High),
            'L' => Some(DataValue::Low),
            'O' => Some(DataValue::Open),
            'C' => Some(DataValue::Close),
            'A' => Some(DataValue::AdjustedClose),
            'V' => Some(DataValue::Volume),
            _ => None,
        }
    }

    /// The question asked at the prompt.
    pub fn prompt_str() -> (r: &'static str)
        ensures
            r@ == "Data Value"@,
    {
        "Data Value"
    }

    /// Every column, in the order offered.
    pub fn options() -> (r: Vec<DataValue>)
        ensures
            r@ == seq![
                DataValue::High,
                DataValue::Low,
                DataValue::Open,
                DataValue::Close,
                DataValue::AdjustedClose,
                DataValue::Volume,
            ],
    {
        vec![
            DataValue::High,
            DataValue::Low,
            DataValue::Open,
            DataValue::Close,
            DataValue::AdjustedClose,
            DataValue::Volume,
        ]
    }

    /// The label of the column in the list of options.
    pub fn option_str(&self) -> (r: &'static str)
        ensures
            r@ == match *self {
                DataValue::High => "(H)igh"@,
                DataValue::Low => "(L)ow"@,
                DataValue::Open => "(O)pen"@,
                DataValue::Close => "(C)lose"@,
                DataValue::AdjustedClose => "(A)djusted Close"@,
                DataValue::Volume => "(V)olume"@,
            },
    {
        match self {
            DataValue::High => "(H)igh",
            DataValue::Low => "(L)ow",
            DataValue::Open => "(O)pen",
            DataValue::Close => "(C)lose",
            DataValue::AdjustedClose => "(A)djusted Close",
            DataValue::Volume => "(V)olume",
        }
    }

    /// The column an answer picks by its first letter, in either case.
    pub fn parse_answer(input: &str) -> (r: Option<DataValue>)
        ensures
            input@.len() == 0 ==> r is None,
            input@.len() > 0 ==> r == data_value_of_char(upper_first_of(input@[0])),
    {
        if input.unicode_len() == 0 {
            None
        } else {
            DataValue::from_char(first_char_capital(input))
        }
    }
}

/// How far apart the rows of the history are.
#[derive(Debug, Clone, Copy, PartialEq, Eq, Structural)]
pub enum Interval {
    Daily,
    Weekly,
    Monthly,
}

/// The provider's request parameter for each interval.
pub open spec fn param_of(i: Interval) -> Seq<char> {
    match i {
        Interval::Daily => "1d"@,
        Interval::Weekly => "1wk"@,
        Interval::Monthly => "1mo"@,
    }
}

/// The letter that picks each interval at the prompt.
pub open spec fn interval_of_char(c: char) -> Option<Interval> {
    if c == 'D' {
        Some(Interval::Daily)
    } else if c == 'W' {
        Some(Interval::Weekly)
    } else if c == 'M' {
        Some(Interval::Monthly)
    } else {
        None
    }
}

impl Interval {
    /// The value of the request's `interval` parameter.
    pub fn param_val(&self) -> (r: &'static str)
        ensures
            r@ == param_of(*self),
    {
        match self {
            Interval::Daily => "1d",
            Interval::Weekly => "1wk",
            Interval::Monthly => "1mo",
        }
    }

    /// The interval that a letter picks.
    pub fn from_char(c: char) -> (r: Option<Interval>)
        ensures
            r == interval_of_char(c),
    {
        match c {
            'D' => Some(Interval::Daily),
            'W' => Some(Interval::Weekly),
            'M' => Some(Interval::Monthly),
            _ => None,
        }
    }

    /// The question asked at the prompt.
    pub fn prompt_str() -> (r: &'static str)
        ensures
            r@ == "Interval"@,
    {
        "Interval"
    }

    /// Every interval, in the order offered.
    pub fn options() -> (r: Vec<Interval>)
        ensures
            r@ == seq![Interval::Daily, Interval::Weekly, Interval::Monthly],
    {
        vec![Interval::Daily, Interval::Weekly, Interval::Monthly]
    }

    /// The label of the interval in the list of options.
    pub fn option_str(&self) -> (r: &'static str)
        ensures
            r@ == match *self {
                Interval::Daily => "(D)aily"@,
                Interval::Weekly => "(W)eekly"@,
                Interval::Monthly => "(M)onthly"@,
            },
    {
        match self {
            Interval::Daily => "(D)aily",
            Interval::Weekly => "(W)eekly",
            Interval::Monthly => "(M)onthly",
        }
    }

    /// The interval an answer picks by its first letter, in either case.
    pub fn parse_answer(input: &str) -> (r: Option<Interval>)
        ensures
            input@.len() == 0 ==> r is None,
            input@.len() > 0 ==> r == interval_of_char(upper_first_of(input@[0])),
    {
        if input.unicode_len() == 0 {
            None
        } else {
            Interval::from_char(first_char_capital(input))
        }
    }
}

/// The answer to "replace the existing file?": an empty answer means yes,
/// otherwise the first letter decides; `None` asks again.
pub fn confirm_replace(answer: &str) -> (r: Option<bool>)
    ensures
        answer@.len() == 0 ==> r == Some(true),
        answer@.len() > 0 ==> r == (if upper_first_of(answer@[0]) == 'Y' {
            Some(true)
        } else if upper_first_of(answer@[0]) == 'N' {
            Some(false)
        } else {
            None
        }),
{
    if answer.unicode_len() == 0 {
        return Some(true);
    }
    match first_char_capital(answer) {
        'Y' => Some(true),
        'N' => Some(false),
        _ => None,
    }
}

/// The ticker symbol as typed, in upper case.
pub fn prompt_symbol(input: &str) -> (r: String)
    ensures
        r@ == upper_of(input@),
{
    str_upper(input)
}

/// The directory on Windows where charting data is kept, when present.
pub open spec fn ft_dir() -> Seq<char> {
    "C:\\FT\\"@
}

/// The suggested output file: `<symbol>.fnu`, inside the charting
/// directory when the caller reports that it exists.
pub fn default_path(symbol: &str, in_ft_dir: bool) -> (r: String)
    ensures
        r@ == (if in_ft_dir {
            ft_dir()
        } else {
            Seq::<char>::empty()
        }) + symbol@ + ".fnu"@,
{
    let mut out: Vec<char> = Vec::new();
    if in_ft_dir {
        push_str(&mut out, "C:\\FT\\");
    }
    push_str(&mut out, symbol);
    push_str(&mut out, ".fnu");
    assert(out@ =~= (if in_ft_dir {
        ft_dir()
    } else {
        Seq::<char>::empty()
    }) + symbol@ + ".fnu"@);
    string_of(out.as_slice())
}

/// Whether `std::path::Path` finds an extension in the file name of `p`.
pub uninterp spec fn has_extension_of(p: Seq<char>) -> bool;

/// What `std::path::PathBuf::set_extension` with `"fnu"` makes of `p`.
pub uninterp spec fn with_fnu_extension_of(p: Seq<char>) -> Seq<char>;

/// Relies on `std::path::Path::extension`: whether the file name has one.
#[verifier::external_body]
fn has_extension(p: &str) -> (r: bool)
    ensures
        r == has_extension_of(p@),
{
    std::path::Path::new(p).extension().is_some()
}

/// Relies on `std::path::PathBuf::set_extension`: the path with extension `fnu`.
#[verifier::external_body]
fn with_fnu_extension(p: &str) -> (r: String)
    ensures
        r@ == with_fnu_extension_of(p@),
{
    let mut path = std::path::PathBuf::from(p);
    path.set_extension("fnu");
    path.to_string_lossy().into_owned()
}

/// The output path for a typed answer: as typed when it names an
/// extension, otherwise with the extension `fnu`.
pub fn prompt_save_path(input: &str) -> (r: String)
    ensures
        r@ == (if has_extension_of(input@) {
            input@
        } else {
            with_fnu_extension_of(input@)
        }),
{
    if has_extension(input) {
        let cs = chars_of(input);
        string_of(cs.as_slice())
    } else {
        with_fnu_extension(input)
    }
}

/// The Unix time of midnight UTC on the date that chrono reads from `s`
/// in the form `mm-dd-yyyy`, if it reads one.
pub uninterp spec fn date_seconds_of(s: Seq<char>) -> Option<int>;

/// Relies on `chrono::NaiveDate::parse_from_str` with `%m-%d-%Y`, taken at
/// midnight UTC and counted in seconds since the Unix epoch.
#[verifier::external_body]
fn parse_date_seconds(s: &str) -> (r: Option<i64>)
    ensures
        r matches Some(t) ==> date_seconds_of(s@) == Some(t as int),
        r is None ==> date_seconds_of(s@) is None,
{
    match chrono::NaiveDate::parse_from_str(s, "%m-%d-%Y") {
        Ok(d) => match d.and_hms_opt(0, 0, 0) {
            Some(t) => Some(t.and_utc().timestamp()),
            None => None,
        },
        Err(_) => None,
    }
}

/// The time a typed date stands for; `None` asks again.
pub fn prompt_date(input: &str) -> (r: Option<i64>)
    ensures
        r matches Some(t) ==> date_seconds_of(input@) == Some(t as int),
        r is None ==> date_seconds_of(input@) is None,
{
    parse_date_seconds(input)
}

} // verus!
