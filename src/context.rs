use vstd::prelude::*;

use chrono::{Datelike, Timelike};

use crate::record::{Mode, Timestamp, QSL};
use crate::text::decimal_string;

verus! {

#[verifier::external_type_specification]
#[verifier::external_body]
pub struct ExConnection(rusqlite::Connection);

#[verifier::external_type_specification]
#[verifier::external_body]
pub struct ExSqlError(rusqlite::Error);

#[verifier::external_type_specification]
#[verifier::external_body]
pub struct ExRow<'stmt>(rusqlite::Row<'stmt>);

const NEW_DATABASE_QUERY: &'static str = r#"
BEGIN;

CREATE TABLE qsl (
    id INTEGER PRIMARY KEY AUTOINCREMENT,
    call_number TEXT NOT NULL,
    call_type INTEGER NOT NULL,
    freq TEXT,
    datetime TEXT NOT NULL,
    rst_me TEXT,
    rig_me TEXT,
    watt_me REAL,
    ant_me TEXT,
    qth_me TEXT,
    rst_counterpart TEXT,
    rig_counterpart TEXT,
    watt_counterpart REAL,
    ant_counterpart TEXT,
    qth_counterpart TEXT,
    note TEXT
);

CREATE TABLE setting (
    call_number TEXT
);

COMMIT;
"#;

const UPDATE_SETTING_QUERY: &'static str = "INSERT INTO setting(call_number) VALUES (?1);";

const READ_SETTING_QUERY: &'static str = "SELECT call_number FROM setting";

const CHECK_EXISTENCE_QUERY: &'static str = "SELECT 1 FROM qsl WHERE id = CAST(?1 AS INTEGER)";

const ADD_ELEMENT_QUERY: &'static str = r#"
INSERT INTO qsl (
    call_number,
    call_type,
    freq,
    datetime,
    rst_me,
    rig_me,
    watt_me,
    ant_me,
    qth_me,
    rst_counterpart,
    rig_counterpart,
    watt_counterpart,
    ant_counterpart,
    qth_counterpart,
    note
)
VALUES (?1, CAST(?2 AS INTEGER), ?3, ?4, ?5, ?6, CAST(?7 AS REAL), ?8, ?9, ?10, ?11,
    CAST(?12 AS REAL), ?13, ?14, ?15)
"#;

const UPDATE_ELEMENT_QUERY: &'static str = r#"
UPDATE qsl
SET call_number = ?1, call_type = CAST(?2 AS INTEGER), freq = ?3, datetime = ?4, rst_me = ?5,
    rig_me = ?6, watt_me = CAST(?7 AS REAL), ant_me = ?8, qth_me = ?9, rst_counterpart = ?10,
    rig_counterpart = ?11, watt_counterpart = CAST(?12 AS REAL), ant_counterpart = ?13,
    qth_counterpart = ?14, note = ?15
WHERE id = CAST(?16 AS INTEGER)
"#;

const DELETE_ELEMENT_QUERY: &'static str = "DELETE FROM qsl WHERE id = CAST(?1 AS INTEGER)";

const GET_QSL_PAGE_QUERY: &'static str = r#"
SELECT id, call_number, call_type, freq, datetime, rst_me, rig_me,
    CASE WHEN watt_me IS NULL THEN NULL ELSE printf('%.15g', watt_me) END,
    ant_me, qth_me, rst_counterpart, rig_counterpart,
    CASE WHEN watt_counterpart IS NULL THEN NULL ELSE printf('%.15g', watt_counterpart) END,
    ant_counterpart, qth_counterpart, note
FROM qsl
ORDER BY datetime LIMIT CAST(?1 AS INTEGER) OFFSET CAST(?2 AS INTEGER)
"#;

const GET_FORMAL_PAGE_QUERY: &'static str = r#"
SELECT id, call_number, call_type, freq, datetime, rst_me, rig_me,
    CASE WHEN watt_me IS NULL THEN NULL ELSE printf('%.15g', watt_me) END,
    ant_me, qth_me, rst_counterpart, rig_counterpart,
    CASE WHEN watt_counterpart IS NULL THEN NULL ELSE printf('%.15g', watt_counterpart) END,
    ant_counterpart, qth_counterpart, note
FROM qsl
WHERE call_type != 0
ORDER BY datetime LIMIT CAST(?1 AS INTEGER) OFFSET CAST(?2 AS INTEGER)
"#;

const GET_EYEBALL_PAGE_QUERY: &'static str = r#"
SELECT id, call_number, call_type, freq, datetime, rst_me, rig_me,
    CASE WHEN watt_me IS NULL THEN NULL ELSE printf('%.15g', watt_me) END,
    ant_me, qth_me, rst_counterpart, rig_counterpart,
    CASE WHEN watt_counterpart IS NULL THEN NULL ELSE printf('%.15g', watt_counterpart) END,
    ant_counterpart, qth_counterpart, note
FROM qsl
WHERE call_type = 0
ORDER BY datetime LIMIT CAST(?1 AS INTEGER) OFFSET CAST(?2 AS INTEGER)
"#;

const COUNT_QUERY: &'static str = "SELECT COUNT(*) FROM qsl";

const COUNT_FORMAL_QUERY: &'static str = "SELECT COUNT(*) FROM qsl WHERE call_type != 0";

const COUNT_EYEBALL_QUERY: &'static str = "SELECT COUNT(*) FROM qsl WHERE call_type = 0";

/// What can go wrong with the log.
#[derive(Debug)]
pub enum QslError {
    /// The store could not be opened or set up.
    Open { detail: String },
    /// A query or statement failed.
    Store { detail: String },
    /// No record has this id.
    NotFound { id: i32 },
}

impl QslError {
    pub open spec fn message_spec(&self) -> Seq<char> {
        match self {
            QslError::Open { detail } => "Failed to open the database: "@ + detail@,
            QslError::Store { detail } => detail@,
            QslError::NotFound { id } => "QSL with ID "@ + signed_decimal(*id as int)
                + " does not exist."@,
        }
    }

    /// A sentence that tells the user what went wrong.
    pub fn message(&self) -> (r: String)
        ensures
            r@ == self.message_spec(),
    {
        match self {
            QslError::Open { detail } => {
                let mut r = String::from_str("Failed to open the database: ");
                r.append(detail.as_str());
                r
            },
            QslError::Store { detail } => detail.clone(),
            QslError::NotFound { id } => {
                let mut r = String::from_str("QSL with ID ");
                r.append(signed_decimal_string(*id as i64).as_str());
                r.append(" does not exist.");
                r
            },
        }
    }
}

/// Which records a page or a count covers.
#[derive(PartialEq, Eq, Structural, Debug, Clone, Copy)]
pub enum RecordFilter {
    All,
    /// Contacts made over the air: every mode but `EYEBALL`.
    Formal,
    /// Contacts made in person.
    Eyeball,
}

impl RecordFilter {
    /// The filter keeps records of this mode.
    pub open spec fn keeps(self, mode: Mode) -> bool {
        match self {
            RecordFilter::All => true,
            RecordFilter::Formal => mode != Mode::EYEBALL,
            RecordFilter::Eyeball => mode == Mode::EYEBALL,
        }
    }

    pub fn keeps_mode(&self, mode: Mode) -> (r: bool)
        ensures
            r == self.keeps(mode),
    {
        match self {
            RecordFilter::All => true,
            RecordFilter::Formal => mode != Mode::EYEBALL,
            RecordFilter::Eyeball => mode == Mode::EYEBALL,
        }
    }
}

/// Relies on rusqlite's Connection::open: opens or creates the database file.
#[verifier::external_body]
fn open_connection(path: &str) -> Result<rusqlite::Connection, rusqlite::Error> {
    rusqlite::Connection::open(path)
}

/// Relies on rusqlite's Connection::execute_batch: runs several statements.
#[verifier::external_body]
fn execute_batch(db: &rusqlite::Connection, sql: &str) -> Result<(), rusqlite::Error> {
    db.execute_batch(sql)
}

/// Relies on rusqlite's Connection::execute: runs one statement with its
/// parameters bound in order, `None` as NULL.
#[verifier::external_body]
fn execute(db: &rusqlite::Connection, sql: &str, params: &Vec<Option<String>>) -> Result<
    usize,
    rusqlite::Error,
> {
    db.execute(sql, rusqlite::params_from_iter(params.iter()))
}

/// Relies on rusqlite's Statement::exists: whether the query yields a row.
#[verifier::external_body]
fn query_exists(db: &rusqlite::Connection, sql: &str, params: &Vec<Option<String>>) -> Result<
    bool,
    rusqlite::Error,
> {
    db.prepare(sql)?.exists(rusqlite::params_from_iter(params.iter()))
}

/// Relies on rusqlite's Connection::query_row: the first column of the
/// first row, as an integer.
#[verifier::external_body]
fn query_integer(db: &rusqlite::Connection, sql: &str) -> Result<i64, rusqlite::Error> {
    db.query_row(sql, [], |row| first_integer(row))
}

/// Relies on rusqlite's Connection::query_row: the first column of the
/// first row, as text.
#[verifier::external_body]
fn query_text(db: &rusqlite::Connection, sql: &str) -> Result<String, rusqlite::Error> {
    db.query_row(sql, [], |row| first_text(row))
}

/// Relies on rusqlite's Statement::query_map: every row of the query, each
/// read by `parse_row_to_qsl`, in the order the query gives.
#[verifier::external_body]
fn query_records(db: &rusqlite::Connection, sql: &str, params: &Vec<Option<String>>) -> Result<
    Vec<QSL>,
    rusqlite::Error,
> {
    let mut stmt = db.prepare(sql)?;
    let rows = stmt.query_map(
        rusqlite::params_from_iter(params.iter()),
        |row| parse_row_to_qsl(row),
    )?;
    rows.collect()
}

/// Relies on rusqlite's Row::get: a column read as an integer.
#[verifier::external_body]
fn row_integer(row: &rusqlite::Row, idx: usize) -> Result<i64, rusqlite::Error> {
    row.get(idx)
}

/// Relies on rusqlite's Row::get: a column read as an `i32`; a stored
/// integer outside its range is an `IntegralValueOutOfRange` error.
#[verifier::external_body]
fn row_i32(row: &rusqlite::Row, idx: usize) -> Result<i32, rusqlite::Error> {
    row.get(idx)
}

/// Relies on rusqlite's Row::get: a column read as text.
#[verifier::external_body]
fn row_text(row: &rusqlite::Row, idx: usize) -> Result<String, rusqlite::Error> {
    row.get(idx)
}

/// Relies on rusqlite's Row::get: a column read as text that may be NULL.
#[verifier::external_body]
fn row_optional_text(row: &rusqlite::Row, idx: usize) -> Result<
    Option<String>,
    rusqlite::Error,
> {
    row.get(idx)
}

/// Relies on rusqlite's Row::get with chrono: a column read as a date and
/// time, kept to the minute. chrono's `NaiveDateTime` only holds real dates
/// and times, so its month, day, hour and minute are always valid.
#[verifier::external_body]
fn row_timestamp(row: &rusqlite::Row, idx: usize) -> (r: Result<Timestamp, rusqlite::Error>)
    ensures
        r matches Ok(t) ==> t.wf(),
{
    let t: chrono::NaiveDateTime = row.get(idx)?;
    Ok(
        Timestamp {
            year: t.year(),
            month: t.month(),
            day: t.day(),
            hour: t.hour(),
            minute: t.minute(),
        },
    )
}

/// Relies on the Display of rusqlite's Error: a description of the failure.
#[verifier::external_body]
fn error_text(e: &rusqlite::Error) -> String {
    e.to_string()
}

fn first_integer(row: &rusqlite::Row) -> Result<i64, rusqlite::Error> {
    row_integer(row, 0)
}

fn first_text(row: &rusqlite::Row) -> Result<String, rusqlite::Error> {
    row_text(row, 0)
}

/// A store failure, with the words the store gave.
fn store_error(e: &rusqlite::Error) -> (r: QslError)
    ensures
        r is Store,
{
    QslError::Store { detail: error_text(e) }
}

/// What to do once the existence of a record has been asked: go on when it
/// is there, `NotFound` when it is not, the same error when the question failed.
pub fn require_present(id: i32, found: Result<bool, QslError>) -> (r: Result<(), QslError>)
    ensures
        found matches Ok(true) ==> r is Ok,
        found matches Ok(false) ==> (r matches Err(QslError::NotFound { id: i }) && i == id),
        found matches Err(e) ==> r == Err::<(), QslError>(e),
{
    match found {
        Ok(true) => Ok(()),
        Ok(false) => Err(QslError::NotFound { id }),
        Err(e) => Err(e),
    }
}

/// The callsign kept when the operator enters `entered` at set-up.
pub fn callsign_or_default(entered: &str) -> (r: String)
    ensures
        entered@.len() == 0 ==> r@ == "NOCALL"@,
        entered@.len() > 0 ==> r@ == entered@,
{
    if entered.unicode_len() == 0 {
        String::from_str("NOCALL")
    } else {
        String::from_str(entered)
    }
}

/// The integer `n` in decimal, with a sign when it is negative.
pub open spec fn signed_decimal(n: int) -> Seq<char> {
    if n < 0 {
        "-"@ + crate::text::decimal((-n) as nat)
    } else {
        crate::text::decimal(n as nat)
    }
}

fn signed_decimal_string(n: i64) -> (r: String)
    ensures
        r@ == signed_decimal(n as int),
{
    if n < 0 {
        let mut r = String::from_str("-");
        let magnitude: u64 = if n == i64::MIN {
            9_223_372_036_854_775_808
        } else {
            (0 - n) as u64
        };
        r.append(decimal_string(magnitude).as_str());
        r
    } else {
        decimal_string(n as u64)
    }
}

/// The values bound to the fifteen columns of a record, in the order of the
/// add and update statements.
pub open spec fn record_values(q: QSL) -> Seq<Option<Seq<char>>> {
    seq![
        Some(q.call_number@),
        Some(signed_decimal(q.mode.code_spec() as int)),
        crate::band::text_of(&q.freq),
        Some(q.datetime.full_text()),
        crate::band::text_of(&q.rst_me),
        crate::band::text_of(&q.rig_me),
        crate::band::text_of(&q.watt_me),
        crate::band::text_of(&q.ant_me),
        crate::band::text_of(&q.qth_me),
        crate::band::text_of(&q.rst_counterpart),
        crate::band::text_of(&q.rig_counterpart),
        crate::band::text_of(&q.watt_counterpart),
        crate::band::text_of(&q.ant_counterpart),
        crate::band::text_of(&q.qth_counterpart),
        crate::band::text_of(&q.note),
    ]
}

pub open spec fn values_view(v: Seq<Option<String>>) -> Seq<Option<Seq<char>>> {
    v.map_values(|o: Option<String>| crate::band::text_of(&o))
}

fn clone_text(o: &Option<String>) -> (r: Option<String>)
    ensures
        crate::band::text_of(&r) == crate::band::text_of(o),
{
    match o {
        Some(s) => Some(s.clone()),
        None => None,
    }
}

/// The statement parameters for a record; the id is not among them.
fn record_params(q: &QSL) -> (r: Vec<Option<String>>)
    ensures
        values_view(r@) == record_values(*q),
{
    let mut r: Vec<Option<String>> = Vec::new();
    r.push(Some(q.call_number.clone()));
    r.push(Some(signed_decimal_string(q.mode.code())));
    r.push(clone_text(&q.freq));
    r.push(Some(q.datetime.full_text_string()));
    r.push(clone_text(&q.rst_me));
    r.push(clone_text(&q.rig_me));
    r.push(clone_text(&q.watt_me));
    r.push(clone_text(&q.ant_me));
    r.push(clone_text(&q.qth_me));
    r.push(clone_text(&q.rst_counterpart));
    r.push(clone_text(&q.rig_counterpart));
    r.push(clone_text(&q.watt_counterpart));
    r.push(clone_text(&q.ant_counterpart));
    r.push(clone_text(&q.qth_counterpart));
    r.push(clone_text(&q.note));
    assert(values_view(r@) =~= record_values(*q));
    r
}

/// The record that a row's columns describe: every field as read, and the
/// mode decoded from its stored code, an unknown code reading as `OTHER`.
pub fn record_from_columns(
    id: i32,
    call_number: String,
    code: i64,
    freq: Option<String>,
    datetime: Timestamp,
    rst_me: Option<String>,
    rig_me: Option<String>,
    watt_me: Option<String>,
    ant_me: Option<String>,
    qth_me: Option<String>,
    rst_counterpart: Option<String>,
    rig_counterpart: Option<String>,
    watt_counterpart: Option<String>,
    ant_counterpart: Option<String>,
    qth_counterpart: Option<String>,
    note: Option<String>,
) -> (r: QSL)
    ensures
        r.id == id,
        r.call_number == call_number,
        r.mode == Mode::from_code_spec(code),
        r.freq == freq,
        r.datetime == datetime,
        r.rst_me == rst_me,
        r.rig_me == rig_me,
        r.watt_me == watt_me,
        r.ant_me == ant_me,
        r.qth_me == qth_me,
        r.rst_counterpart == rst_counterpart,
        r.rig_counterpart == rig_counterpart,
        r.watt_counterpart == watt_counterpart,
        r.ant_counterpart == ant_counterpart,
        r.qth_counterpart == qth_counterpart,
        r.note == note,
{
    QSL {
        id,
        call_number,
        mode: Mode::from_code(code),
        freq,
        datetime,
        rst_me,
        qth_me,
        rig_me,
        watt_me,
        ant_me,
        rst_counterpart,
        qth_counterpart,
        rig_counterpart,
        watt_counterpart,
        ant_counterpart,
        note,
    }
}

/// Builds a record from a row of the page queries: the columns of the `qsl`
/// table in order, the powers as decimal text. An id outside `i32` is an
/// error of the store.
pub fn parse_row_to_qsl(row: &rusqlite::Row) -> (r: Result<QSL, rusqlite::Error>)
    ensures
        r matches Ok(q) ==> q.datetime.wf(),
{
    let id = row_i32(row, 0)?;
    let call_number = row_text(row, 1)?;
    let code = row_integer(row, 2)?;
    let freq = row_optional_text(row, 3)?;
    let datetime = row_timestamp(row, 4)?;
    let rst_me = row_optional_text(row, 5)?;
    let rig_me = row_optional_text(row, 6)?;
    let watt_me = row_optional_text(row, 7)?;
    let ant_me = row_optional_text(row, 8)?;
    let qth_me = row_optional_text(row, 9)?;
    let rst_counterpart = row_optional_text(row, 10)?;
    let rig_counterpart = row_optional_text(row, 11)?;
    let watt_counterpart = row_optional_text(row, 12)?;
    let ant_counterpart = row_optional_text(row, 13)?;
    let qth_counterpart = row_optional_text(row, 14)?;
    let note = row_optional_text(row, 15)?;
    Ok(
        record_from_columns(
            id,
            call_number,
            code,
            freq,
            datetime,
            rst_me,
            rig_me,
            watt_me,
            ant_me,
            qth_me,
            rst_counterpart,
            rig_counterpart,
            watt_counterpart,
            ant_counterpart,
            qth_counterpart,
            note,
        ),
    )
}

/// Whether every record has a mode that the filter keeps; a page that
/// holds another is refused as a store error.
pub fn check_filter(filter: RecordFilter, records: Vec<QSL>) -> (r: Result<Vec<QSL>, QslError>)
    ensures
        (forall|i: int| 0 <= i < records@.len() ==> filter.keeps(#[trigger] records@[i].mode))
            ==> r == Ok::<Vec<QSL>, QslError>(records),
        !(forall|i: int| 0 <= i < records@.len() ==> filter.keeps(#[trigger] records@[i].mode))
            ==> r matches Err(QslError::Store { .. }),
{
    let mut i: usize = 0;
    while i < records.len()
        invariant
            i <= records@.len(),
            forall|j: int| 0 <= j < i ==> filter.keeps(#[trigger] records@[j].mode),
        decreases records@.len() - i,
    {
        if !filter.keeps_mode(records[i].mode) {
            return Err(QslError::Store { detail: String::from_str("a page held a record of another mode") });
        }
        i = i + 1;
    }
    Ok(records)
}

/// The page and count statements for a filter.
fn page_query(filter: RecordFilter) -> &'static str {
    match filter {
        RecordFilter::All => GET_QSL_PAGE_QUERY,
        RecordFilter::Formal => GET_FORMAL_PAGE_QUERY,
        RecordFilter::Eyeball => GET_EYEBALL_PAGE_QUERY,
    }
}

fn count_query(filter: RecordFilter) -> &'static str {
    match filter {
        RecordFilter::All => COUNT_QUERY,
        RecordFilter::Formal => COUNT_FORMAL_QUERY,
        RecordFilter::Eyeball => COUNT_EYEBALL_QUERY,
    }
}

/// The first record of page `page_number` when pages hold `page_size`
/// records; `None` when no page of that size and number can hold a record.
pub open spec fn page_offset(page_size: i64, page_number: i64) -> Option<int> {
    if page_size <= 0 || page_number < 0 || page_size * page_number > i64::MAX {
        None
    } else {
        Some(page_size * page_number)
    }
}

pub fn page_offset_of(page_size: i64, page_number: i64) -> (r: Option<i64>)
    ensures
        match page_offset(page_size, page_number) {
            Some(o) => r matches Some(x) && x == o,
            None => r is None,
        },
{
    if page_size <= 0 || page_number < 0 {
        return None;
    }
    if page_number > i64::MAX / page_size {
        proof {
            assert(page_size * page_number > i64::MAX) by (nonlinear_arith)
                requires
                    page_size > 0,
                    page_number > i64::MAX / page_size,
            ;
        }
        None
    } else {
        proof {
            assert(page_size * page_number <= i64::MAX) by (nonlinear_arith)
                requires
                    page_size > 0,
                    page_number >= 0,
                    page_number <= i64::MAX / page_size,
            ;
        }
        Some(page_size * page_number)
    }
}

/// The connection to one log file.
pub struct QSLContext {
    database: rusqlite::Connection,
}

impl QSLContext {
    /// Opens the log at `db_file_path`. For a new file the caller passes the
    /// operator's callsign as entered: the tables are created and the
    /// callsign, or `NOCALL` when blank, is kept.
    pub fn open(db_file_path: &str, new_callsign: Option<String>) -> (r: Result<Self, QslError>)
        ensures
            r is Err ==> r matches Err(QslError::Open { .. }),
    {
        let connection = match open_connection(db_file_path) {
            Ok(c) => c,
            Err(e) => return Err(QslError::Open { detail: error_text(&e) }),
        };
        if let Some(entered) = new_callsign {
            let callsign = callsign_or_default(entered.as_str());
            if let Err(e) = execute_batch(&connection, NEW_DATABASE_QUERY) {
                return Err(QslError::Open { detail: error_text(&e) });
            }
            let mut params: Vec<Option<String>> = Vec::new();
            params.push(Some(callsign));
            if let Err(e) = execute(&connection, UPDATE_SETTING_QUERY, &params) {
                return Err(QslError::Open { detail: error_text(&e) });
            }
        }
        Ok(QSLContext { database: connection })
    }

    /// Whether a record with this id is stored.
    pub fn id_is_exist(&self, id: i32) -> (r: Result<bool, QslError>)
        ensures
            r is Err ==> r matches Err(QslError::Store { .. }),
    {
        let mut params: Vec<Option<String>> = Vec::new();
        params.push(Some(signed_decimal_string(id as i64)));
        match query_exists(&self.database, CHECK_EXISTENCE_QUERY, &params) {
            Ok(b) => Ok(b),
            Err(e) => Err(store_error(&e)),
        }
    }

    /// The operator's callsign.
    pub fn get_callsign(&self) -> (r: Result<String, QslError>)
        ensures
            r is Err ==> r matches Err(QslError::Store { .. }),
    {
        match query_text(&self.database, READ_SETTING_QUERY) {
            Ok(s) => Ok(s),
            Err(e) => Err(store_error(&e)),
        }
    }

    /// Stores a new record; storage assigns its id.
    pub fn add_qsl(&self, new_qsl: QSL) -> (r: Result<(), QslError>)
        ensures
            r is Err ==> r matches Err(QslError::Store { .. }),
    {
        let params = record_params(&new_qsl);
        match execute(&self.database, ADD_ELEMENT_QUERY, &params) {
            Ok(_) => Ok(()),
            Err(e) => Err(store_error(&e)),
        }
    }

    /// Replaces every field of the stored record with the same id. Fails
    /// with `NotFound`, and writes nothing, when no record has that id.
    pub fn update(&self, updated_qsl: QSL) -> (r: Result<(), QslError>)
        ensures
            r matches Err(QslError::NotFound { id }) ==> id == updated_qsl.id,
            !(r matches Err(QslError::Open { .. })),
    {
        if let Err(e) = require_present(updated_qsl.id, self.id_is_exist(updated_qsl.id)) {
            return Err(e);
        }
        let mut params = record_params(&updated_qsl);
        params.push(Some(signed_decimal_string(updated_qsl.id as i64)));
        match execute(&self.database, UPDATE_ELEMENT_QUERY, &params) {
            Ok(_) => Ok(()),
            Err(e) => Err(store_error(&e)),
        }
    }

    /// Removes the record with this id. Fails with `NotFound`, and removes
    /// nothing, when no record has that id.
    pub fn delete(&self, id: i32) -> (r: Result<(), QslError>)
        ensures
            r matches Err(QslError::NotFound { id: i }) ==> i == id,
            !(r matches Err(QslError::Open { .. })),
    {
        if let Err(e) = require_present(id, self.id_is_exist(id)) {
            return Err(e);
        }
        let mut params: Vec<Option<String>> = Vec::new();
        params.push(Some(signed_decimal_string(id as i64)));
        match execute(&self.database, DELETE_ELEMENT_QUERY, &params) {
            Ok(_) => Ok(()),
            Err(e) => Err(store_error(&e)),
        }
    }

    /// The records of one page, oldest first, among those the filter keeps.
    /// A page that no page size and number can reach is empty.
    pub fn get_page(&self, filter: RecordFilter, page_size: i64, page_number: i64) -> (r: Result<
        Vec<QSL>,
        QslError,
    >)
        ensures
            page_offset(page_size, page_number) is None ==> (r matches Ok(v) && v@.len() == 0),
            r is Err ==> r matches Err(QslError::Store { .. }),
            r matches Ok(v) ==> forall|i: int|
                0 <= i < v@.len() ==> filter.keeps(#[trigger] v@[i].mode),
    {
        let offset = match page_offset_of(page_size, page_number) {
            Some(o) => o,
            None => return Ok(Vec::new()),
        };
        let mut params: Vec<Option<String>> = Vec::new();
        params.push(Some(signed_decimal_string(page_size)));
        params.push(Some(signed_decimal_string(offset)));
        match query_records(&self.database, page_query(filter), &params) {
            Ok(v) => check_filter(filter, v),
            Err(e) => Err(store_error(&e)),
        }
    }

    /// The records of one page, oldest first.
    pub fn get_qsl_page(&self, page_size: i64, page_number: i64) -> (r: Result<
        Vec<QSL>,
        QslError,
    >)
        ensures
            page_offset(page_size, page_number) is None ==> (r matches Ok(v) && v@.len() == 0),
            r is Err ==> r matches Err(QslError::Store { .. }),
    {
        self.get_page(RecordFilter::All, page_size, page_number)
    }

    /// The over-the-air records of one page, oldest first.
    pub fn get_formal_qsl_page(&self, page_size: i64, page_number: i64) -> (r: Result<
        Vec<QSL>,
        QslError,
    >)
        ensures
            page_offset(page_size, page_number) is None ==> (r matches Ok(v) && v@.len() == 0),
            r is Err ==> r matches Err(QslError::Store { .. }),
            r matches Ok(v) ==> forall|i: int| 0 <= i < v@.len() ==> #[trigger] v@[i].mode != Mode::EYEBALL,
    {
        self.get_page(RecordFilter::Formal, page_size, page_number)
    }

    /// The in-person records of one page, oldest first.
    pub fn get_eyeball_qsl_page(&self, page_size: i64, page_number: i64) -> (r: Result<
        Vec<QSL>,
        QslError,
    >)
        ensures
            page_offset(page_size, page_number) is None ==> (r matches Ok(v) && v@.len() == 0),
            r is Err ==> r matches Err(QslError::Store { .. }),
            r matches Ok(v) ==> forall|i: int| 0 <= i < v@.len() ==> #[trigger] v@[i].mode == Mode::EYEBALL,
    {
        self.get_page(RecordFilter::Eyeball, page_size, page_number)
    }

    /// How many records the filter keeps.
    pub fn get_count(&self, filter: RecordFilter) -> (r: Result<i64, QslError>)
        ensures
            r is Err ==> r matches Err(QslError::Store { .. }),
    {
        match query_integer(&self.database, count_query(filter)) {
            Ok(n) => Ok(n),
            Err(e) => Err(store_error(&e)),
        }
    }

    /// How many records are stored.
    pub fn get_qsl_count(&self) -> (r: Result<i64, QslError>)
        ensures
            r is Err ==> r matches Err(QslError::Store { .. }),
    {
        self.get_count(RecordFilter::All)
    }

    /// How many over-the-air records are stored.
    pub fn get_formal_qsl_count(&self) -> (r: Result<i64, QslError>)
        ensures
            r is Err ==> r matches Err(QslError::Store { .. }),
    {
        self.get_count(RecordFilter::Formal)
    }

    /// How many in-person records are stored.
    pub fn get_eyeball_qsl_count(&self) -> (r: Result<i64, QslError>)
        ensures
            r is Err ==> r matches Err(QslError::Store { .. }),
    {
        self.get_count(RecordFilter::Eyeball)
    }
}

} // verus!
