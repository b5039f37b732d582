//! Run settings, and the rules that turn the user's date inputs into a date range.
use vstd::prelude::*;
use crate::date::{Date, DateRange, MIN_DAY, is_digit, weekday_of};

verus! {

/// Books directory used when neither the command line nor the environment gives one.
pub const DEFAULT_BOOKS_PATH: &'static str = "/Volumes/Kindle/livros";

/// Database file used when neither the command line nor the environment gives one.
pub const DEFAULT_DATABASE_PATH: &'static str = "./highlights.db";

/// The user's inputs, as read from the command line.
#[derive(Debug, Clone)]
pub struct CliArgs {
    pub books_path: Option<String>,
    pub database_path: Option<String>,
    /// Start date, `YYYY-MM-DD`.
    pub from: Option<String>,
    /// End date, `YYYY-MM-DD`.
    pub to: Option<String>,
    /// Take the last N days, today excluded.
    pub last: Option<u32>,
}

/// Settings of one run.
#[derive(Debug, Clone, PartialEq)]
pub struct Config {
    pub books_path: String,
    pub database_path: String,
    pub from_date: Date,
    pub to_date: Date,
}

/// Why the user's inputs give no date range.
#[derive(Debug, Clone, PartialEq, Eq)]
pub enum ConfigError {
    /// A date string that does not read as `YYYY-MM-DD`; it is kept for the message.
    InvalidDateFormat(String),
    InvalidDateRange,
    MutuallyExclusiveFlags,
    MissingFromDate,
}

/// What chrono reads from `s` with the pattern `%Y-%m-%d`, as a day number
/// counted from the common era; `None` where it reads no date.
pub uninterp spec fn ymd_day_number(s: Seq<char>) -> Option<int>;

/// Relies on chrono's `NaiveDate::parse_from_str` with the pattern `%Y-%m-%d`, and
/// on `NaiveDate::num_days_from_ce` for the day number; every `NaiveDate` lies
/// between `NaiveDate::MIN` and `NaiveDate::MAX`.
#[verifier::external_body]
fn chrono_parse_ymd(s: &str) -> (r: Option<Date>)
    ensures
        match r {
            Some(d) => ymd_day_number(s@) == Some(d.day as int) && d.wf(),
            None => ymd_day_number(s@) is None,
        },
{
    chrono::NaiveDate::parse_from_str(s, "%Y-%m-%d").ok().map(
        |d| Date { day: chrono::Datelike::num_days_from_ce(&d) },
    )
}

/// Whether the character at position `i` fits the pattern `DDDD-DD-DD`.
pub open spec fn ymd_char_fits(c: char, i: int) -> bool {
    if i == 4 || i == 7 {
        c == '-'
    } else {
        is_digit(c)
    }
}

/// Whether `s` has the shape `YYYY-MM-DD`: four digits, a dash, two digits, a
/// dash, two digits.
pub open spec fn ymd_shape(s: Seq<char>) -> bool {
    s.len() == 10 && forall|i: int| 0 <= i < 10 ==> ymd_char_fits(#[trigger] s[i], i)
}

/// The day number of the date that `s` writes as `YYYY-MM-DD`, where it has that
/// shape and names a calendar date.
pub open spec fn ymd_date_value(s: Seq<char>) -> Option<int> {
    if ymd_shape(s) {
        ymd_day_number(s)
    } else {
        None
    }
}

fn has_ymd_shape(s: &str) -> (r: bool)
    ensures
        r == ymd_shape(s@),
{
    if s.unicode_len() != 10 {
        return false;
    }
    let mut i: usize = 0;
    while i < 10
        invariant
            s@.len() == 10,
            i <= 10,
            forall|j: int| 0 <= j < i ==> ymd_char_fits(#[trigger] s@[j], j),
        decreases 10 - i,
    {
        let c = s.get_char(i);
        let fits = if i == 4 || i == 7 {
            c == '-'
        } else {
            '0' <= c && c <= '9'
        };
        if !fits {
            assert(!ymd_char_fits(s@[i as int], i as int));
            return false;
        }
        i = i + 1;
    }
    true
}

/// Reads a `YYYY-MM-DD` date; a string of another shape, or one that names no
/// calendar date, is handed back in the error.
pub fn parse_date(s: &str) -> (r: Result<Date, ConfigError>)
    ensures
        match r {
            Ok(d) => ymd_date_value(s@) == Some(d.day as int) && d.wf(),
            Err(e) => ymd_date_value(s@) is None && e is InvalidDateFormat
                && e->InvalidDateFormat_0@ == s@,
        },
        !ymd_shape(s@) ==> (r matches Err(ConfigError::InvalidDateFormat(e)) && e@ == s@),
{
    if !has_ymd_shape(s) {
        return Err(ConfigError::InvalidDateFormat(s.to_owned()));
    }
    match chrono_parse_ymd(s) {
        Some(d) => Ok(d),
        None => Err(ConfigError::InvalidDateFormat(s.to_owned())),
    }
}

/// The date `n` days before `today`.
pub open spec fn days_back(today: Date, n: int) -> Date {
    Date { day: (today.day - n) as i32 }
}

/// The default range: from the last Sunday (a full week back when today is a
/// Sunday) through yesterday.
pub open spec fn week_range(today: Date) -> DateRange {
    let back = if weekday_of(today.day as int) == 0 {
        7
    } else {
        weekday_of(today.day as int)
    };
    DateRange { from: days_back(today, back), to: days_back(today, 1) }
}

/// The last `n` days through yesterday, today excluded.
pub open spec fn last_days_range(today: Date, n: int) -> DateRange {
    DateRange { from: days_back(today, n), to: days_back(today, 1) }
}

/// The range that the inputs select, or the error they give, by these rules in
/// this order: an explicit end or start together with a day count is refused;
/// a day count selects the last days, and a count of zero, which selects none, is
/// refused; an end without a start is refused; a start
/// runs to the given end or to yesterday, and must not lie after it; with no
/// input the current week so far is taken.
pub open spec fn resolve_spec(
    from: Option<Date>,
    to: Option<Date>,
    last_n_days: Option<u32>,
    today: Date,
) -> Result<DateRange, ConfigError> {
    if (from is Some || to is Some) && last_n_days is Some {
        Err(ConfigError::MutuallyExclusiveFlags)
    } else if last_n_days is Some {
        if last_n_days->0 == 0 {
            Err(ConfigError::InvalidDateRange)
        } else {
            Ok(last_days_range(today, last_n_days->0 as int))
        }
    } else if to is Some && from is None {
        Err(ConfigError::MissingFromDate)
    } else if from is Some {
        let end = match to {
            Some(t) => t,
            None => days_back(today, 1),
        };
        if from->0.day > end.day {
            Err(ConfigError::InvalidDateRange)
        } else {
            Ok(DateRange { from: from->0, to: end })
        }
    } else {
        Ok(week_range(today))
    }
}

/// Whether the calendar has room below `today` for the dates that the rules
/// compute in the mode the inputs select: as many days as counted, yesterday
/// for a start without an end, a week for the default range, and nothing where
/// the inputs give an error or both ends.
pub open spec fn room_below(has_from: bool, has_to: bool, last_n_days: Option<u32>, today: Date) -> bool {
    if (has_from || has_to) && last_n_days is Some {
        true
    } else if last_n_days is Some {
        today.day - last_n_days->0 >= MIN_DAY
    } else if has_to && !has_from {
        true
    } else if has_from {
        has_to || today.day - 1 >= MIN_DAY
    } else {
        today.day - 7 >= MIN_DAY
    }
}

/// The inputs that the date computations of a run need: dates in range, and
/// room below today for the dates that the selected mode computes.
pub open spec fn inputs_in_range(
    from: Option<Date>,
    to: Option<Date>,
    last_n_days: Option<u32>,
    today: Date,
) -> bool {
    &&& today.wf()
    &&& room_below(from is Some, to is Some, last_n_days, today)
    &&& (from is Some ==> from->0.wf())
    &&& (to is Some ==> to->0.wf())
}

/// The inputs of `cli` on `today` leave the date rules the room they need.
pub open spec fn cli_in_range(cli: CliArgs, today: Date) -> bool {
    today.wf() && room_below(cli.from is Some, cli.to is Some, cli.last, today)
}

/// Whether the calendar has room below `today` for the dates that the inputs of
/// `cli` make the rules compute.
pub fn dates_fit(cli: &CliArgs, today: Date) -> (r: bool)
    requires
        today.wf(),
    ensures
        r == cli_in_range(*cli, today),
{
    let has_from = cli.from.is_some();
    let has_to = cli.to.is_some();
    let room: i64 = today.day as i64 - MIN_DAY as i64;
    if (has_from || has_to) && cli.last.is_some() {
        true
    } else if let Some(n) = cli.last {
        room >= n as i64
    } else if has_to && !has_from {
        true
    } else if has_from {
        has_to || room >= 1
    } else {
        room >= 7
    }
}

/// The current week so far: from the last Sunday through yesterday, where a
/// Sunday looks back to the Sunday before.
pub fn compute_week_range(today: Date) -> (r: DateRange)
    requires
        today.wf(),
        today.day - 7 >= MIN_DAY,
    ensures
        r == week_range(today),
        r.from.wf(),
        r.to.wf(),
{
    let yesterday = today.days_before(1);
    let wd = today.days_from_sunday();
    let back: u32 = if wd == 0 {
        7
    } else {
        wd
    };
    DateRange { from: today.days_before(back), to: yesterday }
}

/// The last `days` days through yesterday.
pub fn compute_last_n_days(today: Date, days: u32) -> (r: DateRange)
    requires
        today.wf(),
        today.day - days >= MIN_DAY,
        days >= 1,
    ensures
        r == last_days_range(today, days as int),
        r.from.day <= r.to.day,
        r.from.wf(),
        r.to.wf(),
{
    let yesterday = today.days_before(1);
    DateRange { from: today.days_before(days), to: yesterday }
}

/// Turns the user's date inputs, already read as dates, into a date range.
pub fn resolve(from: Option<Date>, to: Option<Date>, last_n_days: Option<u32>, today: Date) -> (r:
    Result<DateRange, ConfigError>)
    requires
        inputs_in_range(from, to, last_n_days, today),
    ensures
        r == resolve_spec(from, to, last_n_days, today),
        r matches Ok(rng) ==> rng.from.wf() && rng.to.wf(),
        r matches Ok(rng) ==> rng.from.day <= rng.to.day,
{
    if (from.is_some() || to.is_some()) && last_n_days.is_some() {
        return Err(ConfigError::MutuallyExclusiveFlags);
    }
    if let Some(days) = last_n_days {
        if days == 0 {
            return Err(ConfigError::InvalidDateRange);
        }
        return Ok(compute_last_n_days(today, days));
    }
    if to.is_some() && from.is_none() {
        return Err(ConfigError::MissingFromDate);
    }
    if let Some(start) = from {
        let end = match to {
            Some(t) => t,
            None => today.days_before(1),
        };
        if start.day > end.day {
            return Err(ConfigError::InvalidDateRange);
        }
        return Ok(DateRange { from: start, to: end });
    }
    let rng = compute_week_range(today);
    assert(rng.from.day <= rng.to.day);
    Ok(rng)
}

/// The date that an optional input string stands for, where it reads as one; a
/// placeholder date where it does not (the rules never look at it then).
pub open spec fn read_input(s: Option<String>) -> Option<Date> {
    match s {
        Some(t) => Some(
            Date {
                day: match ymd_date_value(t@) {
                    Some(n) => n as i32,
                    None => 0i32,
                },
            },
        ),
        None => None,
    }
}

/// The input string that is reported as unreadable, if any: the start is read
/// first and the end next, and neither is read where a day count is given or
/// where an end comes without a start.
pub open spec fn unreadable_input(cli: CliArgs) -> Option<Seq<char>> {
    if cli.last is Some || (cli.to is Some && cli.from is None) {
        None
    } else {
        match cli.from {
            None => None,
            Some(f) => if ymd_date_value(f@) is None {
                Some(f@)
            } else {
                match cli.to {
                    Some(t) => if ymd_date_value(t@) is None {
                        Some(t@)
                    } else {
                        None
                    },
                    None => None,
                }
            },
        }
    }
}

/// `r` is what the rules give for the inputs of `cli` on `today`: the unreadable
/// date string where there is one, else what `resolve_spec` gives for the dates read.
pub open spec fn dates_outcome(cli: CliArgs, today: Date, r: Result<DateRange, ConfigError>) -> bool {
    match unreadable_input(cli) {
        Some(bad) => r matches Err(e) && e is InvalidDateFormat && e->InvalidDateFormat_0@ == bad,
        None => r == resolve_spec(read_input(cli.from), read_input(cli.to), cli.last, today),
    }
}

/// Reads the date strings of `cli` and resolves the date range they select on `today`.
pub fn resolve_dates(cli: &CliArgs, today: Date) -> (r: Result<DateRange, ConfigError>)
    requires
        cli_in_range(*cli, today),
    ensures
        dates_outcome(*cli, today, r),
        r matches Ok(rng) ==> rng.from.wf() && rng.to.wf(),
        r matches Ok(rng) ==> rng.from.day <= rng.to.day,
{
    let has_from_to = cli.from.is_some() || cli.to.is_some();
    if has_from_to && cli.last.is_some() {
        return Err(ConfigError::MutuallyExclusiveFlags);
    }
    if let Some(days) = cli.last {
        if days == 0 {
            return Err(ConfigError::InvalidDateRange);
        }
        return Ok(compute_last_n_days(today, days));
    }
    if cli.to.is_some() && cli.from.is_none() {
        return Err(ConfigError::MissingFromDate);
    }
    match &cli.from {
        Some(from_str) => {
            let start = parse_date(from_str.as_str())?;
            let end = match &cli.to {
                Some(to_str) => Some(parse_date(to_str.as_str())?),
                None => None,
            };
            resolve(Some(start), end, None, today)
        },
        None => resolve(None, None, None, today),
    }
}

/// The path given on the command line, else the one from the environment, else the default.
pub open spec fn chosen_path(cli: Option<String>, env: Option<String>, default: Seq<char>) -> Seq<
    char,
> {
    match cli {
        Some(p) => p@,
        None => match env {
            Some(p) => p@,
            None => default,
        },
    }
}

fn choose_path(cli: Option<String>, env: Option<String>, default: &str) -> (r: String)
    ensures
        r@ == chosen_path(cli, env, default@),
{
    match cli {
        Some(p) => p,
        None => match env {
            Some(p) => p,
            None => default.to_owned(),
        },
    }
}

impl Config {
    /// The settings for the inputs of `cli` on `today`; `books_env` and `database_env`
    /// are the paths that the environment gives, if any.
    pub fn from_args(
        cli: CliArgs,
        today: Date,
        books_env: Option<String>,
        database_env: Option<String>,
    ) -> (r: Result<Config, ConfigError>)
        requires
            cli_in_range(cli, today),
        ensures
            match r {
                Ok(c) => dates_outcome(cli, today, Ok(DateRange { from: c.from_date, to: c.to_date }))
                    && c.books_path@ == chosen_path(cli.books_path, books_env, DEFAULT_BOOKS_PATH@)
                    && c.database_path@ == chosen_path(
                    cli.database_path,
                    database_env,
                    DEFAULT_DATABASE_PATH@,
                ),
                Err(e) => dates_outcome(cli, today, Err(e)),
            },
    {
        let rng = resolve_dates(&cli, today)?;
        let books_path = choose_path(cli.books_path, books_env, DEFAULT_BOOKS_PATH);
        let database_path = choose_path(cli.database_path, database_env, DEFAULT_DATABASE_PATH);
        Ok(Config { books_path, database_path, from_date: rng.from, to_date: rng.to })
    }
}

/// Where the inputs give a range, its start does not lie after its end.
pub proof fn law_resolved_range_is_ordered(
    from: Option<Date>,
    to: Option<Date>,
    last_n_days: Option<u32>,
    today: Date,
)
    requires
        inputs_in_range(from, to, last_n_days, today),
    ensures
        resolve_spec(from, to, last_n_days, today) matches Ok(r) ==> r.from.day <= r.to.day,
{
}

/// On a Sunday with no inputs, the range is the whole week before: from seven
/// days back through yesterday.
pub proof fn law_sunday_takes_previous_week(today: Date)
    requires
        today.wf(),
        weekday_of(today.day as int) == 0,
    ensures
        resolve_spec(None, None, None, today) == Ok::<DateRange, ConfigError>(
            DateRange { from: days_back(today, 7), to: days_back(today, 1) },
        ),
{
}

/// On any other weekday with no inputs, the range runs from the most recent
/// Sunday through yesterday.
pub proof fn law_midweek_starts_last_sunday(today: Date)
    requires
        today.wf(),
        weekday_of(today.day as int) != 0,
    ensures
        resolve_spec(None, None, None, today) matches Ok(r) && r.to == days_back(today, 1)
            && weekday_of(r.from.day as int) == 0 && today.day - 6 <= r.from.day < today.day,
{
    let d = today.day as int;
    vstd::arithmetic::div_mod::lemma_fundamental_div_mod(d, 7);
    vstd::arithmetic::div_mod::lemma_mod_multiples_basic(d / 7, 7);
    assert(d - d % 7 == (d / 7) * 7) by (nonlinear_arith)
        requires
            d == 7 * (d / 7) + d % 7,
    ;
}

/// A run with no inputs on a Sunday covers the whole week before, from seven
/// days back through yesterday.
pub proof fn law_sunday_run_takes_previous_week(
    cli: CliArgs,
    today: Date,
    r: Result<DateRange, ConfigError>,
)
    requires
        cli.from is None && cli.to is None && cli.last is None,
        today.wf(),
        weekday_of(today.day as int) == 0,
        dates_outcome(cli, today, r),
    ensures
        r == Ok::<DateRange, ConfigError>(
            DateRange { from: days_back(today, 7), to: days_back(today, 1) },
        ),
{
    law_sunday_takes_previous_week(today);
}

/// A run with no inputs on another weekday covers the days from the most recent
/// Sunday through yesterday.
pub proof fn law_midweek_run_starts_last_sunday(
    cli: CliArgs,
    today: Date,
    r: Result<DateRange, ConfigError>,
)
    requires
        cli.from is None && cli.to is None && cli.last is None,
        today.wf(),
        weekday_of(today.day as int) != 0,
        dates_outcome(cli, today, r),
    ensures
        r matches Ok(rng) && rng.to == days_back(today, 1) && weekday_of(rng.from.day as int) == 0
            && today.day - 6 <= rng.from.day < today.day,
{
    law_midweek_starts_last_sunday(today);
}

/// With a day count of one or more, the range is that many days back through
/// yesterday.
pub proof fn law_day_count_ends_yesterday(n: u32, today: Date)
    requires
        n >= 1,
    ensures
        resolve_spec(None, None, Some(n), today) == Ok::<DateRange, ConfigError>(
            DateRange { from: days_back(today, n as int), to: days_back(today, 1) },
        ),
{
}

/// A day count of zero is refused, as it selects no day.
pub proof fn law_zero_day_count_is_refused(today: Date)
    ensures
        resolve_spec(None, None, Some(0u32), today) == Err::<DateRange, ConfigError>(
            ConfigError::InvalidDateRange,
        ),
{
}

/// An end date without a start date is refused.
pub proof fn law_end_needs_start(to: Date, today: Date)
    ensures
        resolve_spec(None, Some(to), None, today) == Err::<DateRange, ConfigError>(
            ConfigError::MissingFromDate,
        ),
{
}

/// A start date without an end date runs through yesterday, where it does not
/// lie after yesterday.
pub proof fn law_start_runs_to_yesterday(from: Date, today: Date)
    requires
        from.day <= today.day - 1,
    ensures
        resolve_spec(Some(from), None, None, today) == Ok::<DateRange, ConfigError>(
            DateRange { from, to: days_back(today, 1) },
        ),
{
}

/// A day count given together with a start or an end date is refused, whichever
/// of the two is given.
pub proof fn law_day_count_excludes_dates(
    from: Option<Date>,
    to: Option<Date>,
    n: u32,
    today: Date,
)
    requires
        from is Some || to is Some,
    ensures
        resolve_spec(from, to, Some(n), today) == Err::<DateRange, ConfigError>(
            ConfigError::MutuallyExclusiveFlags,
        ),
{
}

} // verus!
