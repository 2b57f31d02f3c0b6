//! The annual reading schedule: which two passages belong to a calendar day.
//!
//! The schedule is a CSV table with one row per day. Its first column holds
//! the day as `MM-DD`, the second the New Testament passage and the third the
//! Old Testament passage. The year of a date plays no part in a lookup. A row
//! with more or fewer than three columns, or with a first column that is no
//! date, makes the whole schedule malformed, wherever the row stands.

use vstd::prelude::*;
use vstd::string::StringExecFns;

verus! {

/// The year in which every date of the schedule is read.
pub const DEFAULT_YEAR: i32 = 2000;

/// A day of the calendar, held as written: year, month and day of the month.
#[derive(Clone, Copy, Debug, PartialEq, Eq, Structural)]
pub struct CalendarDate {
    pub year: i32,
    pub month: u32,
    pub day: u32,
}

impl CalendarDate {
    /// The same day of the same month in `year`.
    pub open spec fn in_year(self, year: i32) -> CalendarDate {
        CalendarDate { year, month: self.month, day: self.day }
    }

    /// Moves the date to `year`, keeping month and day.
    pub fn with_year(&self, year: i32) -> (moved: CalendarDate)
        ensures
            moved == self.in_year(year),
    {
        CalendarDate { year, month: self.month, day: self.day }
    }
}

/// The two passages of one day.
#[derive(Debug, Clone)]
pub struct BibleReading {
    pub date: CalendarDate,
    pub old_testament_reading: String,
    pub new_testament_reading: String,
}

/// What a `BibleReading` holds, with its texts as sequences of characters.
pub struct ReadingView {
    pub date: CalendarDate,
    pub old_testament_reading: Seq<char>,
    pub new_testament_reading: Seq<char>,
}

impl View for BibleReading {
    type V = ReadingView;

    open spec fn view(&self) -> ReadingView {
        ReadingView {
            date: self.date,
            old_testament_reading: self.old_testament_reading@,
            new_testament_reading: self.new_testament_reading@,
        }
    }
}

/// Why a lookup in the schedule gave no reading.
#[derive(Clone, Copy, Debug, PartialEq, Eq, Structural)]
pub enum ErrorCause {
    /// The schedule could not be opened.
    InputFileNotFound,
    /// No row of the schedule belongs to the day asked for.
    DateDoesNotExist,
    /// A row of the schedule is malformed.
    InvalidFormat,
}

/// A failed lookup: its cause and, for a malformed schedule, what was wrong.
#[derive(Debug, Clone)]
pub struct BibleReadingNotFoundError {
    error_cause: ErrorCause,
    error_string: String,
}

/// What a `BibleReadingNotFoundError` holds.
pub struct ErrorView {
    pub cause: ErrorCause,
    pub detail: Seq<char>,
}

impl View for BibleReadingNotFoundError {
    type V = ErrorView;

    closed spec fn view(&self) -> ErrorView {
        ErrorView { cause: self.error_cause, detail: self.error_string@ }
    }
}

/// The sentence that describes a failed lookup.
pub open spec fn error_text(error: ErrorView) -> Seq<char> {
    match error.cause {
        ErrorCause::DateDoesNotExist => "There exists no entry with bible reading for today's date."@,
        ErrorCause::InputFileNotFound => "The input file has not been found."@,
        ErrorCause::InvalidFormat => "The format of the csv file seems to be invalid: "@
            + error.detail,
    }
}

impl BibleReadingNotFoundError {
    /// An error of the given cause, without detail.
    pub fn new(error_cause: ErrorCause) -> (error: BibleReadingNotFoundError)
        ensures
            error@ == (ErrorView { cause: error_cause, detail: Seq::empty() }),
    {
        BibleReadingNotFoundError { error_cause, error_string: String::new() }
    }

    /// An error that reports a malformed schedule, with what was wrong.
    pub fn invalid_format(detail: String) -> (error: BibleReadingNotFoundError)
        ensures
            error@ == (ErrorView { cause: ErrorCause::InvalidFormat, detail: detail@ }),
    {
        BibleReadingNotFoundError { error_cause: ErrorCause::InvalidFormat, error_string: detail }
    }

    /// The cause of the failure.
    pub fn cause(&self) -> (cause: ErrorCause)
        ensures
            cause == self@.cause,
    {
        self.error_cause
    }

    /// What was wrong with the schedule; empty unless it was malformed.
    pub fn detail(&self) -> (detail: &str)
        ensures
            detail@ == self@.detail,
    {
        self.error_string.as_str()
    }

    /// The sentence that describes the failure.
    pub fn to_string(&self) -> (text: String)
        ensures
            text@ == error_text(self@),
    {
        match self.error_cause {
            ErrorCause::DateDoesNotExist => String::from_str(
                "There exists no entry with bible reading for today's date.",
            ),
            ErrorCause::InputFileNotFound => String::from_str("The input file has not been found."),
            ErrorCause::InvalidFormat => String::from_str(
                "The format of the csv file seems to be invalid: ",
            ).concat(self.error_string.as_str()),
        }
    }
}

/// One row of the schedule, as far as a lookup reads it.
#[derive(Debug, Clone, PartialEq, Eq)]
pub enum ScheduleRow {
    /// A record that the CSV reader could not deliver.
    Unreadable,
    /// A record with more or fewer than three fields.
    WrongLength,
    /// A record whose first field is no date; it holds that field.
    BadDate(String),
    /// A day with its two passages.
    Entry { date: CalendarDate, new_testament_reading: String, old_testament_reading: String },
}

/// What a `ScheduleRow` holds.
pub enum RowView {
    Unreadable,
    WrongLength,
    BadDate(Seq<char>),
    Entry {
        date: CalendarDate,
        new_testament_reading: Seq<char>,
        old_testament_reading: Seq<char>,
    },
}

impl View for ScheduleRow {
    type V = RowView;

    open spec fn view(&self) -> RowView {
        match *self {
            ScheduleRow::Unreadable => RowView::Unreadable,
            ScheduleRow::WrongLength => RowView::WrongLength,
            ScheduleRow::BadDate(field) => RowView::BadDate(field@),
            ScheduleRow::Entry { date, new_testament_reading, old_testament_reading } => {
                RowView::Entry {
                    date,
                    new_testament_reading: new_testament_reading@,
                    old_testament_reading: old_testament_reading@,
                }
            },
        }
    }
}

/// The views of a sequence of rows, in the same order.
pub open spec fn rows_view(rows: Seq<ScheduleRow>) -> Seq<RowView> {
    Seq::new(rows.len(), |i: int| rows[i]@)
}

/// The outcome of a lookup, with its texts as sequences of characters.
pub open spec fn outcome_view(
    outcome: Result<BibleReading, BibleReadingNotFoundError>,
) -> Result<ReadingView, ErrorView> {
    match outcome {
        Ok(reading) => Ok(reading@),
        Err(error) => Err(error@),
    }
}

/// Whether `row` is malformed: it has more or fewer than three fields, or
/// its first field is no date.
pub open spec fn row_is_malformed(row: RowView) -> bool {
    row is WrongLength || row is BadDate
}

/// What is reported of a malformed row.
pub open spec fn malformed_row_error(row: RowView) -> ErrorView {
    match row {
        RowView::BadDate(field) => ErrorView {
            cause: ErrorCause::InvalidFormat,
            detail: "Can not parse date "@ + field,
        },
        _ => ErrorView {
            cause: ErrorCause::InvalidFormat,
            detail: "The length of the row is not always 3"@,
        },
    }
}

/// Whether `row` belongs to the day of `search_date`, whatever the years.
pub open spec fn row_matches(row: RowView, search_date: CalendarDate) -> bool {
    row matches RowView::Entry { date, .. } && date.in_year(DEFAULT_YEAR) == search_date.in_year(
        DEFAULT_YEAR,
    )
}

/// The reading that a row of a day holds, dated in `DEFAULT_YEAR`.
pub open spec fn row_reading(
    date: CalendarDate,
    new_testament_reading: Seq<char>,
    old_testament_reading: Seq<char>,
) -> ReadingView {
    ReadingView { date: date.in_year(DEFAULT_YEAR), old_testament_reading, new_testament_reading }
}

/// What is wrong with the first malformed row of `rows`, or `None` where no
/// row is malformed.
pub open spec fn first_malformation(rows: Seq<RowView>) -> Option<ErrorView>
    decreases rows.len(),
{
    if rows.len() == 0 {
        None
    } else if row_is_malformed(rows[0]) {
        Some(malformed_row_error(rows[0]))
    } else {
        first_malformation(rows.drop_first())
    }
}

/// The reading of the first row of `rows` that belongs to the day of
/// `search_date`, or `None` where no row does.
pub open spec fn reading_of_day(rows: Seq<RowView>, search_date: CalendarDate) -> Option<ReadingView>
    decreases rows.len(),
{
    if rows.len() == 0 {
        None
    } else {
        match rows[0] {
            RowView::Entry { date, new_testament_reading, old_testament_reading } => if row_matches(
                rows[0],
                search_date,
            ) {
                Some(row_reading(date, new_testament_reading, old_testament_reading))
            } else {
                reading_of_day(rows.drop_first(), search_date)
            },
            _ => reading_of_day(rows.drop_first(), search_date),
        }
    }
}

/// What a lookup answers where no row of the day is found.
pub open spec fn no_such_date() -> ErrorView {
    ErrorView { cause: ErrorCause::DateDoesNotExist, detail: Seq::empty() }
}

/// The reading of the day of `search_date` in `rows`.
///
/// A malformed row, wherever it stands, makes the whole schedule malformed:
/// the answer is then what is wrong with the first such row. In a schedule
/// without malformed rows the answer is the reading of the first row of the
/// day, and "no such date" where there is no such row.
pub open spec fn reading_in_rows(rows: Seq<RowView>, search_date: CalendarDate) -> Result<
    ReadingView,
    ErrorView,
> {
    match first_malformation(rows) {
        Some(error) => Err(error),
        None => match reading_of_day(rows, search_date) {
            Some(reading) => Ok(reading),
            None => Err(no_such_date()),
        },
    }
}

/// A malformed row is fatal for every lookup, wherever it stands and
/// whatever day is asked for; the first malformed row is the one reported.
pub proof fn lemma_malformed_row_is_fatal(rows: Seq<RowView>, search_date: CalendarDate, place: int)
    requires
        0 <= place < rows.len(),
        row_is_malformed(rows[place]),
    ensures
        reading_in_rows(rows, search_date) matches Err(error) && error.cause
            == ErrorCause::InvalidFormat,
        (forall|k: int| 0 <= k < place ==> !row_is_malformed(#[trigger] rows[k]))
            ==> reading_in_rows(rows, search_date) == Err::<ReadingView, ErrorView>(
            malformed_row_error(rows[place]),
        ),
    decreases rows.len(),
{
    if place > 0 && !row_is_malformed(rows[0]) {
        let rest = rows.drop_first();
        assert(rest[place - 1] == rows[place]);
        lemma_malformed_row_is_fatal(rest, search_date, place - 1);
        if forall|k: int| 0 <= k < place ==> !row_is_malformed(#[trigger] rows[k]) {
            assert forall|k: int| 0 <= k < place - 1 implies !row_is_malformed(
                #[trigger] rest[k],
            ) by {
                assert(rest[k] == rows[k + 1]);
            }
        }
    } else if place > 0 {
        assert(row_is_malformed(rows[0]));
    }
}

/// Where no row is malformed, nothing is reported as malformed.
pub proof fn lemma_well_formed_rows(rows: Seq<RowView>)
    requires
        forall|k: int| 0 <= k < rows.len() ==> !row_is_malformed(#[trigger] rows[k]),
    ensures
        first_malformation(rows) is None,
    decreases rows.len(),
{
    if rows.len() > 0 {
        let rest = rows.drop_first();
        assert(!row_is_malformed(rows[0]));
        assert forall|k: int| 0 <= k < rest.len() implies !row_is_malformed(#[trigger] rest[k]) by {
            assert(rest[k] == rows[k + 1]);
        }
        lemma_well_formed_rows(rest);
    }
}

/// In a schedule without malformed rows a lookup answers with the first row
/// of the day.
pub proof fn lemma_first_row_of_day(rows: Seq<RowView>, search_date: CalendarDate, place: int)
    requires
        forall|k: int| 0 <= k < rows.len() ==> !row_is_malformed(#[trigger] rows[k]),
        0 <= place < rows.len(),
        row_matches(rows[place], search_date),
        forall|k: int| 0 <= k < place ==> !row_matches(#[trigger] rows[k], search_date),
    ensures
        rows[place] matches RowView::Entry { date, new_testament_reading, old_testament_reading }
            && reading_in_rows(rows, search_date) == Ok::<ReadingView, ErrorView>(
            row_reading(date, new_testament_reading, old_testament_reading),
        ),
{
    lemma_well_formed_rows(rows);
    lemma_reading_of_day(rows, search_date, place);
}

/// The reading of a day is that of the first row of the day.
proof fn lemma_reading_of_day(rows: Seq<RowView>, search_date: CalendarDate, place: int)
    requires
        0 <= place < rows.len(),
        row_matches(rows[place], search_date),
        forall|k: int| 0 <= k < place ==> !row_matches(#[trigger] rows[k], search_date),
    ensures
        rows[place] matches RowView::Entry { date, new_testament_reading, old_testament_reading }
            && reading_of_day(rows, search_date) == Some(
            row_reading(date, new_testament_reading, old_testament_reading),
        ),
    decreases rows.len(),
{
    if place > 0 {
        let rest = rows.drop_first();
        assert(!row_matches(rows[0], search_date));
        assert(rest[place - 1] == rows[place]);
        assert forall|k: int| 0 <= k < place - 1 implies !row_matches(
            #[trigger] rest[k],
            search_date,
        ) by {
            assert(rest[k] == rows[k + 1]);
        }
        lemma_reading_of_day(rest, search_date, place - 1);
    }
}

/// In a schedule without malformed rows and without a row of the day a
/// lookup finds no such date.
pub proof fn lemma_no_row_of_day(rows: Seq<RowView>, search_date: CalendarDate)
    requires
        forall|k: int| 0 <= k < rows.len() ==> !row_is_malformed(#[trigger] rows[k]),
        forall|k: int| 0 <= k < rows.len() ==> !row_matches(#[trigger] rows[k], search_date),
    ensures
        reading_in_rows(rows, search_date) == Err::<ReadingView, ErrorView>(no_such_date()),
{
    lemma_well_formed_rows(rows);
    lemma_no_reading_of_day(rows, search_date);
}

/// Where no row belongs to a day, the day has no reading.
proof fn lemma_no_reading_of_day(rows: Seq<RowView>, search_date: CalendarDate)
    requires
        forall|k: int| 0 <= k < rows.len() ==> !row_matches(#[trigger] rows[k], search_date),
    ensures
        reading_of_day(rows, search_date) is None,
    decreases rows.len(),
{
    if rows.len() > 0 {
        let rest = rows.drop_first();
        assert(!row_matches(rows[0], search_date));
        assert forall|k: int| 0 <= k < rest.len() implies !row_matches(
            #[trigger] rest[k],
            search_date,
        ) by {
            assert(rest[k] == rows[k + 1]);
        }
        lemma_no_reading_of_day(rest, search_date);
    }
}

/// The year of the date asked for plays no part in a lookup.
pub proof fn lemma_lookup_ignores_year(rows: Seq<RowView>, search_date: CalendarDate, year: i32)
    ensures
        reading_in_rows(rows, search_date.in_year(year)) == reading_in_rows(rows, search_date),
{
    lemma_reading_of_day_ignores_year(rows, search_date, year);
}

/// The year of the date asked for plays no part in the reading of a day.
proof fn lemma_reading_of_day_ignores_year(rows: Seq<RowView>, search_date: CalendarDate, year: i32)
    ensures
        reading_of_day(rows, search_date.in_year(year)) == reading_of_day(rows, search_date),
    decreases rows.len(),
{
    if rows.len() > 0 {
        lemma_reading_of_day_ignores_year(rows.drop_first(), search_date, year);
    }
}

/// The records that the CSV reader delivers for a file of the given bytes,
/// the header row left out: `None` for a record that it reports as an error,
/// else the fields of the record. A reader that is `flexible` delivers every
/// record with the fields it has; one that is not reports as an error each
/// record that has more or fewer fields than the first.
pub uninterp spec fn csv_records(content: Seq<u8>, flexible: bool) -> Seq<Option<Seq<Seq<char>>>>;

/// Reads `content` with a reader made by `csv::ReaderBuilder::new`, set by
/// its `flexible` and made by its `from_reader`, and walks the iterator of
/// `csv::Reader::into_records` to its end.
///
/// Not verified. The contract gives the outcome a name and claims that it
/// depends on the bytes and on `flexible` alone: one entry for each item of
/// the iterator, in order, `None` for an `Err` item and the fields, as
/// strings, for an `Ok` one.
#[verifier::external_body]
fn read_csv_records(content: &[u8], flexible: bool) -> (records: Vec<Option<Vec<String>>>)
    ensures
        records.deep_view() == csv_records(content@, flexible),
{
    let reader = csv::ReaderBuilder::new().flexible(flexible).from_reader(content);
    let mut records = Vec::new();
    for record in reader.into_records() {
        records.push(
            match record {
                Ok(fields) => Some(fields.iter().map(String::from).collect()),
                Err(_) => None,
            },
        );
    }
    records
}

/// The date that `text` holds when read by `format`, as year, month and day,
/// or `None` where it holds none.
pub uninterp spec fn parsed_date(text: Seq<char>, format: Seq<char>) -> Option<(i32, u32, u32)>;

/// Calls `chrono::NaiveDate::parse_from_str`.
///
/// Not verified. The contract gives the outcome a name and claims that it
/// depends on the two texts alone: `None` for an `Err`, else the year, month
/// and day of the date.
#[verifier::external_body]
fn parse_date(text: &str, format: &str) -> (date: Option<(i32, u32, u32)>)
    ensures
        date == parsed_date(text@, format@),
{
    match chrono::NaiveDate::parse_from_str(text, format) {
        Ok(date) => Some(
            (
                chrono::Datelike::year(&date),
                chrono::Datelike::month(&date),
                chrono::Datelike::day(&date),
            ),
        ),
        Err(_) => None,
    }
}

/// The text in which the date of a row is read: its first field, a hyphen,
/// and `DEFAULT_YEAR` in digits.
pub open spec fn row_date_text(field: Seq<char>) -> Seq<char> {
    field + "-"@ + "2000"@
}

/// The row that a record of the CSV reader stands for.
pub open spec fn schedule_row(record: Option<Seq<Seq<char>>>) -> RowView {
    match record {
        None => RowView::Unreadable,
        Some(fields) => if fields.len() != 3 {
            RowView::WrongLength
        } else {
            match parsed_date(row_date_text(fields[0]), "%m-%d-%Y"@) {
                None => RowView::BadDate(fields[0]),
                Some((year, month, day)) => RowView::Entry {
                    date: CalendarDate { year, month, day },
                    new_testament_reading: fields[1],
                    old_testament_reading: fields[2],
                },
            }
        },
    }
}

/// The rows that the records of the CSV reader stand for, in the same order.
pub open spec fn schedule_rows(records: Seq<Option<Seq<Seq<char>>>>) -> Seq<RowView> {
    Seq::new(records.len(), |i: int| schedule_row(records[i]))
}

/// Turns one record of the CSV reader into a row of the schedule.
///
/// A record with three fields is an entry when its first field, followed by
/// `-2000`, is a date in the form month, day, year.
pub fn read_schedule_row(record: &Option<Vec<String>>) -> (row: ScheduleRow)
    ensures
        row@ == schedule_row(record.deep_view()),
{
    match record {
        None => ScheduleRow::Unreadable,
        Some(fields) => {
            assert(fields.deep_view().len() == fields@.len());
            if fields.len() != 3 {
                ScheduleRow::WrongLength
            } else {
                assert(fields.deep_view()[0] == fields@[0]@);
                assert(fields.deep_view()[1] == fields@[1]@);
                assert(fields.deep_view()[2] == fields@[2]@);
                let mut text = fields[0].clone();
                text.append("-");
                text.append("2000");
                match parse_date(text.as_str(), "%m-%d-%Y") {
                    None => ScheduleRow::BadDate(fields[0].clone()),
                    Some((year, month, day)) => ScheduleRow::Entry {
                        date: CalendarDate { year, month, day },
                        new_testament_reading: fields[1].clone(),
                        old_testament_reading: fields[2].clone(),
                    },
                }
            }
        },
    }
}

/// Turns the records of the CSV reader into the rows of the schedule.
pub fn read_schedule_rows(records: &Vec<Option<Vec<String>>>) -> (rows: Vec<ScheduleRow>)
    ensures
        rows_view(rows@) == schedule_rows(records.deep_view()),
{
    let mut rows: Vec<ScheduleRow> = Vec::new();
    let mut i: usize = 0;
    while i < records.len()
        invariant
            i <= records.len(),
            rows@.len() == i,
            forall|k: int| 0 <= k < i ==> (#[trigger] rows@[k])@ == schedule_row(
                records@[k].deep_view(),
            ),
        decreases records.len() - i,
    {
        let row = read_schedule_row(&records[i]);
        rows.push(row);
        i += 1;
    }
    assert(rows_view(rows@) =~= schedule_rows(records.deep_view()));
    rows
}

/// The reading of the day of `search_date` in a schedule file: `schedule` is
/// `None` where the file could not be opened, else its bytes.
pub open spec fn scheduled_reading(search_date: CalendarDate, schedule: Option<Seq<u8>>) -> Result<
    ReadingView,
    ErrorView,
> {
    match schedule {
        None => Err(ErrorView { cause: ErrorCause::InputFileNotFound, detail: Seq::empty() }),
        Some(content) => reading_in_rows(schedule_rows(csv_records(content, true)), search_date),
    }
}

/// The bytes of a schedule file, or `None` where there is no file.
pub open spec fn schedule_bytes(schedule: Option<&[u8]>) -> Option<Seq<u8>> {
    match schedule {
        None => None,
        Some(content) => Some(content@),
    }
}

/// Looks the day of `search_date` up in the rows of a schedule.
///
/// Every row is read before the answer is given. The first malformed row
/// ends the lookup with `InvalidFormat`, also where the row of the day
/// stands before it. A row that could not be read is passed over. In a
/// schedule without malformed rows the first row of the day gives the
/// reading, dated in `DEFAULT_YEAR`; where there is no such row the answer
/// is `DateDoesNotExist`.
pub fn find_reading(search_date: CalendarDate, rows: &Vec<ScheduleRow>) -> (outcome: Result<
    BibleReading,
    BibleReadingNotFoundError,
>)
    ensures
        outcome_view(outcome) == reading_in_rows(rows_view(rows@), search_date),
{
    let wanted = search_date.with_year(DEFAULT_YEAR);
    let ghost all = rows_view(rows@);
    let mut found: Option<BibleReading> = None;
    let mut i: usize = 0;
    assert(all.skip(0) == all);
    while i < rows.len()
        invariant
            i <= rows.len(),
            all == rows_view(rows@),
            wanted == search_date.in_year(DEFAULT_YEAR),
            first_malformation(all) == first_malformation(all.skip(i as int)),
            match found {
                Some(reading) => reading_of_day(all, search_date) == Some(reading@),
                None => reading_of_day(all, search_date) == reading_of_day(
                    all.skip(i as int),
                    search_date,
                ),
            },
        decreases rows.len() - i,
    {
        let ghost rest = all.skip(i as int);
        assert(rest.len() > 0 && rest[0] == rows@[i as int]@);
        assert(rest.drop_first() == all.skip(i + 1));
        match &rows[i] {
            ScheduleRow::Unreadable => {},
            ScheduleRow::WrongLength => {
                return Err(
                    BibleReadingNotFoundError::invalid_format(
                        String::from_str("The length of the row is not always 3"),
                    ),
                );
            },
            ScheduleRow::BadDate(field) => {
                return Err(
                    BibleReadingNotFoundError::invalid_format(
                        String::from_str("Can not parse date ").concat(field.as_str()),
                    ),
                );
            },
            ScheduleRow::Entry { date, new_testament_reading, old_testament_reading } => {
                let normalized_date = date.with_year(DEFAULT_YEAR);
                if found.is_none() && normalized_date == wanted {
                    found = Some(
                        BibleReading {
                            date: normalized_date,
                            old_testament_reading: old_testament_reading.clone(),
                            new_testament_reading: new_testament_reading.clone(),
                        },
                    );
                }
            },
        }
        i += 1;
    }
    match found {
        Some(reading) => Ok(reading),
        None => Err(BibleReadingNotFoundError::new(ErrorCause::DateDoesNotExist)),
    }
}

/// Looks a day up in the schedule file.
///
/// `schedule` holds the bytes of the file, or `None` where the file could not
/// be opened, which is reported as `InputFileNotFound`. The file is read as
/// CSV with a header row, each record with the fields it has, so that a row
/// of any other length than three is seen and reported. The records are
/// turned into rows by `read_schedule_rows` and searched by `find_reading`.
pub fn get_biblereading_for_date(search_date: CalendarDate, schedule: Option<&[u8]>) -> (outcome:
    Result<BibleReading, BibleReadingNotFoundError>)
    ensures
        outcome_view(outcome) == scheduled_reading(search_date, schedule_bytes(schedule)),
{
    match schedule {
        None => Err(BibleReadingNotFoundError::new(ErrorCause::InputFileNotFound)),
        Some(content) => {
            let records = read_csv_records(content, true);
            let rows = read_schedule_rows(&records);
            find_reading(search_date, &rows)
        },
    }
}

/// Looks today's reading up in the schedule file; `today` is the local date.
pub fn get_todays_biblereading(today: CalendarDate, schedule: Option<&[u8]>) -> (outcome: Result<
    BibleReading,
    BibleReadingNotFoundError,
>)
    ensures
        outcome_view(outcome) == scheduled_reading(today, schedule_bytes(schedule)),
{
    get_biblereading_for_date(today, schedule)
}

} // verus!
