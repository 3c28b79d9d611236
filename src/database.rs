//! The work on the database: listing its user tables and running the
//! maintenance statements on each of them.
use sqlite::{Connection, Statement};
use vstd::prelude::*;
use vstd::string::StringExecFns;

verus! {

/// A connection of the `sqlite` crate, carried through unopened.
#[verifier::external_type_specification]
#[verifier::external_body]
pub struct ExConnection(sqlite::Connection);

/// A prepared statement of the `sqlite` crate, carried through unopened.
#[verifier::external_type_specification]
#[verifier::external_body]
pub struct ExStatement<'l>(sqlite::Statement<'l>);

/// The error of the `sqlite` crate, whose two public fields, a code and a
/// message, are plain values.
#[verifier::external_type_specification]
pub struct ExError(sqlite::Error);

/// An error that SQLite reported.
#[derive(Debug, Clone, PartialEq, Eq)]
pub struct DbError {
    /// SQLite's result code, where there is one.
    pub code: Option<isize>,
    /// SQLite's explanation, where there is one.
    pub message: Option<String>,
}

/// The library's form of an error of the `sqlite` crate.
pub fn db_error(e: sqlite::Error) -> (r: DbError)
    ensures
        r.code == e.code,
        r.message == e.message,
{
    DbError { code: e.code, message: e.message }
}

/// Whether an error says something: a result code, a message, or both.
pub open spec fn explained(code: Option<isize>, message: Option<String>) -> bool {
    code is Some || message is Some
}

/// The query that lists the tables of the database that SQLite did not make
/// for itself.
pub open spec fn table_query() -> Seq<char> {
    "SELECT name FROM sqlite_master WHERE type = 'table' AND name NOT LIKE 'sqlite_%';"@
}

/// An open database, together with what this library has done with it: the
/// path it was opened at, the statements sent to it for execution, and the
/// cells that the latest listing of its tables read.
pub struct Database {
    conn: Connection,
    path: Ghost<Option<Seq<char>>>,
    sent: Ghost<Seq<Seq<char>>>,
    listed: Ghost<Seq<Option<String>>>,
}

impl Database {
    /// The path that `open_connection` opened the database at; `None` for a
    /// connection opened elsewhere.
    pub closed spec fn path(&self) -> Option<Seq<char>> {
        self.path@
    }

    /// The statements sent to the database through `execute_sql`, oldest
    /// first.
    pub closed spec fn sent_log(&self) -> Seq<Seq<char>> {
        self.sent@
    }

    /// The cells, row after row, that SQLite yielded for the table query the
    /// last time `get_all_tables` listed the tables; empty before any listing.
    pub closed spec fn listed_cells(&self) -> Seq<Option<String>> {
        self.listed@
    }

    /// The database behind `conn`, opened elsewhere, to which nothing has
    /// been sent yet.
    pub fn new(conn: Connection) -> (r: Database)
        ensures
            r.path() == None::<Seq<char>>,
            r.sent_log() == Seq::<Seq<char>>::empty(),
            r.listed_cells() == Seq::<Option<String>>::empty(),
    {
        Database { conn, path: Ghost(None), sent: Ghost(Seq::empty()), listed: Ghost(Seq::empty()) }
    }
}

/// The rows of the table query while they are read, together with the cells
/// read from them so far.
struct QueryRows<'a> {
    statement: Statement<'a>,
    read: Ghost<Seq<Option<String>>>,
}

impl<'a> QueryRows<'a> {
    /// The cells that `read_text` has handed back so far, oldest first.
    closed spec fn cells(&self) -> Seq<Option<String>> {
        self.read@
    }
}

/// Relies on `sqlite::Connection::open`: opens, or creates, the database file
/// for reading and writing. Each error that the crate builds carries a code,
/// a message, or both.
#[verifier::external_body]
fn open_database(path: &str) -> (r: Result<Connection, sqlite::Error>)
    ensures
        r is Err ==> explained(r->Err_0.code, r->Err_0.message),
{
    Connection::open(path)
}

/// Relies on `sqlite::Connection::execute`: sends the statement to SQLite,
/// which runs it and drops any rows it yields. This is the only place where
/// the library sends a statement for execution, and so the only one that
/// adds to the log. Each error carries a code, a message, or both.
#[verifier::external_body]
fn send(db: &mut Database, sql: &str) -> (r: Result<(), sqlite::Error>)
    ensures
        final(db).sent_log() == old(db).sent_log().push(sql@),
        final(db).path() == old(db).path(),
        final(db).listed_cells() == old(db).listed_cells(),
        r is Err ==> explained(r->Err_0.code, r->Err_0.message),
{
    db.conn.execute(sql)
}

/// Relies on `sqlite::Connection::prepare`. Preparing reads the names of the
/// result columns as UTF-8 and panics on others, so only the table query,
/// whose one column is `name`, is prepared here.
#[verifier::external_body]
fn prepare_statement<'a>(db: &'a Database, sql: &str) -> (r: Result<Statement<'a>, sqlite::Error>)
    requires
        sql@ == table_query(),
    ensures
        r is Err ==> explained(r->Err_0.code, r->Err_0.message),
{
    db.conn.prepare(sql)
}

/// Relies on `sqlite::Statement::next`: `true` where a row is ready to read,
/// `false` where the statement has run to its end.
#[verifier::external_body]
fn step(rows: &mut QueryRows) -> (r: Result<bool, sqlite::Error>)
    ensures
        final(rows).cells() == old(rows).cells(),
        r is Err ==> explained(r->Err_0.code, r->Err_0.message),
{
    match rows.statement.next() {
        Ok(sqlite::State::Row) => Ok(true),
        Ok(sqlite::State::Done) => Ok(false),
        Err(e) => Err(e),
    }
}

/// Relies on `sqlite::Statement::column_count`: the number of result columns.
#[verifier::external_body]
fn column_count(rows: &QueryRows) -> (r: usize) {
    rows.statement.column_count()
}

/// Relies on `sqlite::Statement::read` of an `Option<String>`: the text of a
/// column of the current row, `None` where it is NULL. This is the only
/// place where the library reads a cell, and so the only one that adds to the
/// record of cells read.
#[verifier::external_body]
fn read_text(rows: &mut QueryRows, column: usize) -> (r: Result<Option<String>, sqlite::Error>)
    ensures
        r is Ok ==> final(rows).cells() == old(rows).cells().push(r->Ok_0),
        r is Err ==> final(rows).cells() == old(rows).cells(),
        r is Err ==> explained(r->Err_0.code, r->Err_0.message),
{
    rows.statement.read::<Option<String>, usize>(column)
}

/// The query that lists the tables of the database that SQLite did not make
/// for itself.
const QUERY_ALL_TABLE_SQL: &'static str =
    "SELECT name FROM sqlite_master WHERE type = 'table' AND name NOT LIKE 'sqlite_%';";

/// The texts of a sequence of strings.
pub open spec fn texts(v: Seq<String>) -> Seq<Seq<char>> {
    v.map(|_i: int, s: String| s@)
}

/// The values of `cells` that are not NULL, in their order.
pub open spec fn present_values(cells: Seq<Option<String>>) -> Seq<Seq<char>>
    decreases cells.len(),
{
    if cells.len() == 0 {
        seq![]
    } else {
        let rest = present_values(cells.drop_last());
        match cells.last() {
            Some(s) => rest.push(s@),
            None => rest,
        }
    }
}

/// The statements that clean one table: VACUUM, REINDEX, ANALYZE, in that
/// order, each naming the table in single quotes.
pub open spec fn maintenance_sql(table: Seq<char>) -> Seq<Seq<char>> {
    seq![
        "VACUUM '"@ + table + "';"@,
        "REINDEX '"@ + table + "';"@,
        "ANALYZE '"@ + table + "';"@,
    ]
}

/// The statements that clean each of `tables`, one table after another.
pub open spec fn cleaning_plan(tables: Seq<Seq<char>>) -> Seq<Seq<char>>
    decreases tables.len(),
{
    if tables.len() == 0 {
        seq![]
    } else {
        cleaning_plan(tables.drop_last()) + maintenance_sql(tables.last())
    }
}

/// The table names among the cells that the table query read: its values
/// that are not NULL, in their order.
pub fn table_names(cells: &Vec<Option<String>>) -> (r: Vec<String>)
    ensures
        texts(r@) == present_values(cells@),
{
    let mut r: Vec<String> = Vec::new();
    let mut i: usize = 0;
    while i < cells.len()
        invariant
            i <= cells@.len(),
            texts(r@) == present_values(cells@.subrange(0, i as int)),
        decreases cells.len() - i,
    {
        proof {
            assert(cells@.subrange(0, i + 1).drop_last() == cells@.subrange(0, i as int));
        }
        match &cells[i] {
            Some(s) => {
                r.push(s.clone());
                assert(texts(r@) == present_values(cells@.subrange(0, i as int)).push(s@));
            },
            None => {},
        }
        i = i + 1;
    }
    assert(cells@.subrange(0, cells@.len() as int) == cells@);
    r
}

/// Opens a connection to the database file at `db_path`, which SQLite
/// creates where it does not exist yet.
pub fn open_connection(db_path: &str) -> (r: Result<Database, DbError>)
    ensures
        r is Ok ==> r->Ok_0.path() == Some(db_path@),
        r is Ok ==> r->Ok_0.sent_log() == Seq::<Seq<char>>::empty(),
        r is Ok ==> r->Ok_0.listed_cells() == Seq::<Option<String>>::empty(),
        r is Err ==> explained(r->Err_0.code, r->Err_0.message),
{
    match open_database(db_path) {
        Ok(conn) => Ok(
            Database {
                conn,
                path: Ghost(Some(db_path@)),
                sent: Ghost(Seq::empty()),
                listed: Ghost(Seq::empty()),
            },
        ),
        Err(e) => Err(db_error(e)),
    }
}

/// Sends one SQL statement to the database, which runs it and drops any rows
/// it yields.
pub fn execute_sql(db: &mut Database, sql: &str) -> (r: Result<(), DbError>)
    ensures
        final(db).sent_log() == old(db).sent_log().push(sql@),
        final(db).path() == old(db).path(),
        final(db).listed_cells() == old(db).listed_cells(),
        r is Err ==> explained(r->Err_0.code, r->Err_0.message),
{
    match send(db, sql) {
        Ok(()) => Ok(()),
        Err(e) => Err(db_error(e)),
    }
}

/// Runs the query to its end and hands back the cells of its rows, one row
/// after another, each row column by column; stops at the first error.
fn read_cells(rows: &mut QueryRows) -> (r: Result<Vec<Option<String>>, DbError>)
    ensures
        r is Ok ==> final(rows).cells() == old(rows).cells() + r->Ok_0@,
        r is Err ==> explained(r->Err_0.code, r->Err_0.message),
{
    let ghost start = rows.cells();
    let mut cells: Vec<Option<String>> = Vec::new();
    let mut count: usize = 0;
    // No statement yields as many rows as `usize` counts; the bound only
    // gives the loop a measure.
    while count < usize::MAX
        invariant
            start == old(rows).cells(),
            rows.cells() == start + cells@,
        decreases usize::MAX - count,
    {
        match step(rows) {
            Ok(true) => {},
            Ok(false) => return Ok(cells),
            Err(e) => return Err(db_error(e)),
        }
        let n = column_count(rows);
        let mut i: usize = 0;
        while i < n
            invariant
                start == old(rows).cells(),
                rows.cells() == start + cells@,
            decreases n - i,
        {
            match read_text(rows, i) {
                Ok(cell) => {
                    cells.push(cell);
                    assert(rows.cells() == start + cells@);
                },
                Err(e) => return Err(db_error(e)),
            }
            i = i + 1;
        }
        count = count + 1;
    }
    Ok(cells)
}

/// The names of the tables in the database that are not SQLite's own, in
/// the order in which SQLite lists them: the values that are not NULL among
/// the cells that SQLite yields for the table query, which the database
/// keeps as its latest listing. Nothing is sent for execution.
pub fn get_all_tables(db: &mut Database) -> (r: Result<Vec<String>, DbError>)
    ensures
        r is Ok ==> texts(r->Ok_0@) == present_values(final(db).listed_cells()),
        r is Err ==> final(db).listed_cells() == old(db).listed_cells(),
        final(db).sent_log() == old(db).sent_log(),
        final(db).path() == old(db).path(),
        r is Err ==> explained(r->Err_0.code, r->Err_0.message),
{
    let read = {
        let statement = match prepare_statement(db, QUERY_ALL_TABLE_SQL) {
            Ok(s) => s,
            Err(e) => return Err(db_error(e)),
        };
        let mut rows = QueryRows { statement, read: Ghost(Seq::empty()) };
        let cells = read_cells(&mut rows);
        let ghost recorded = rows.cells();
        assert(cells is Ok ==> recorded == cells->Ok_0@);
        (cells, Ghost(recorded))
    };
    let (cells, Ghost(recorded)) = read;
    match cells {
        Ok(cells) => {
            db.listed = Ghost(recorded);
            Ok(table_names(&cells))
        },
        Err(e) => Err(e),
    }
}

/// The statements that clean `table`: VACUUM, REINDEX and ANALYZE on it.
pub fn maintenance_commands(table: &str) -> (r: Vec<String>)
    ensures
        texts(r@) == maintenance_sql(table@),
{
    let mut vacuum = String::from_str("VACUUM '");
    vacuum.append(table);
    vacuum.append("';");
    let mut reindex = String::from_str("REINDEX '");
    reindex.append(table);
    reindex.append("';");
    let mut analyze = String::from_str("ANALYZE '");
    analyze.append(table);
    analyze.append("';");
    let r = vec![vacuum, reindex, analyze];
    assert(texts(r@) == maintenance_sql(table@));
    r
}

/// The statements that clean each of `tables`, one table after another.
pub fn cleaning_commands(tables: &Vec<String>) -> (r: Vec<String>)
    ensures
        texts(r@) == cleaning_plan(texts(tables@)),
{
    let mut r: Vec<String> = Vec::new();
    let mut i: usize = 0;
    while i < tables.len()
        invariant
            i <= tables@.len(),
            texts(r@) == cleaning_plan(texts(tables@.subrange(0, i as int))),
        decreases tables.len() - i,
    {
        let commands = maintenance_commands(tables[i].as_str());
        let ghost before = r@;
        assert(texts(commands@).len() == 3);
        let mut j: usize = 0;
        while j < commands.len()
            invariant
                j <= commands@.len(),
                commands@.len() == 3,
                texts(r@) == texts(before) + texts(commands@.subrange(0, j as int)),
            decreases commands.len() - j,
        {
            let ghost old_r = r@;
            r.push(commands[j].clone());
            assert(texts(r@) == texts(old_r).push(commands@[j as int]@));
            assert(texts(commands@.subrange(0, j + 1)) == texts(commands@.subrange(0, j as int)).push(commands@[j as int]@));
            j = j + 1;
        }
        proof {
            assert(commands@.subrange(0, 3) == commands@);
            let done = tables@.subrange(0, i + 1);
            assert(texts(done).drop_last() == texts(tables@.subrange(0, i as int)));
            assert(texts(done).last() == tables@[i as int]@);
        }
        i = i + 1;
    }
    assert(tables@.subrange(0, tables@.len() as int) == tables@);
    r
}

/// One maintenance statement and how it went.
#[derive(Debug, Clone, PartialEq, Eq)]
pub struct StatementOutcome {
    pub sql: String,
    /// What SQLite reported where the statement failed.
    pub error: Option<DbError>,
}

/// What a cleaning run did: the tables it found and each statement it ran.
#[derive(Debug, Clone, PartialEq, Eq)]
pub struct CleaningReport {
    pub tables: Vec<String>,
    /// One outcome for each statement of the cleaning plan of `tables`, in
    /// the order in which they ran.
    pub steps: Vec<StatementOutcome>,
}

/// The statements of `steps`.
pub open spec fn step_sql(steps: Seq<StatementOutcome>) -> Seq<Seq<char>> {
    steps.map(|_i: int, o: StatementOutcome| o.sql@)
}

/// Sends the statements that clean each of `tables` to the database, one
/// after another. A failing statement stops nothing: every statement is
/// sent, and its error is kept in its outcome.
pub fn clean_tables(db: &mut Database, tables: &Vec<String>) -> (r: Vec<StatementOutcome>)
    ensures
        step_sql(r@) == cleaning_plan(texts(tables@)),
        final(db).sent_log() == old(db).sent_log() + cleaning_plan(texts(tables@)),
        final(db).path() == old(db).path(),
        final(db).listed_cells() == old(db).listed_cells(),
        forall|i: int|
            0 <= i < r@.len() && (#[trigger] r@[i]).error is Some ==> explained(
                r@[i].error->Some_0.code,
                r@[i].error->Some_0.message,
            ),
{
    let commands = cleaning_commands(tables);
    let ghost start = db.sent_log();
    let mut steps: Vec<StatementOutcome> = Vec::new();
    let mut i: usize = 0;
    while i < commands.len()
        invariant
            i <= commands@.len(),
            step_sql(steps@) == texts(commands@.subrange(0, i as int)),
            db.sent_log() == start + texts(commands@.subrange(0, i as int)),
            db.path() == old(db).path(),
            db.listed_cells() == old(db).listed_cells(),
            forall|k: int|
                0 <= k < steps@.len() && (#[trigger] steps@[k]).error is Some ==> explained(
                    steps@[k].error->Some_0.code,
                    steps@[k].error->Some_0.message,
                ),
        decreases commands.len() - i,
    {
        let sql = commands[i].clone();
        let error = match execute_sql(db, sql.as_str()) {
            Ok(()) => None,
            Err(e) => Some(e),
        };
        let ghost old_steps = steps@;
        steps.push(StatementOutcome { sql, error });
        assert(step_sql(steps@) == step_sql(old_steps).push(commands@[i as int]@));
        assert(texts(commands@.subrange(0, i + 1)) == texts(commands@.subrange(0, i as int)).push(
            commands@[i as int]@,
        ));
        assert(start + texts(commands@.subrange(0, i + 1)) == (start + texts(
            commands@.subrange(0, i as int),
        )).push(commands@[i as int]@));
        i = i + 1;
    }
    assert(commands@.subrange(0, commands@.len() as int) == commands@);
    steps
}

/// Cleans the database: lists its tables, then sends VACUUM, REINDEX and
/// ANALYZE on each, one table after another. A failing statement does not
/// stop the run; its error is kept in the report. Only a failure to list the
/// tables ends the run with an error, and then nothing has been sent.
pub fn process_db_cleaning(db: &mut Database) -> (r: Result<CleaningReport, DbError>)
    ensures
        r is Ok ==> texts(r->Ok_0.tables@) == present_values(final(db).listed_cells()),
        r is Ok ==> step_sql(r->Ok_0.steps@) == cleaning_plan(texts(r->Ok_0.tables@)),
        r is Ok ==> final(db).sent_log() == old(db).sent_log() + cleaning_plan(
            texts(r->Ok_0.tables@),
        ),
        r is Err ==> final(db).sent_log() == old(db).sent_log(),
        final(db).path() == old(db).path(),
        r is Err ==> explained(r->Err_0.code, r->Err_0.message),
{
    let tables = match get_all_tables(db) {
        Ok(t) => t,
        Err(e) => return Err(e),
    };
    let steps = clean_tables(db, &tables);
    Ok(CleaningReport { tables, steps })
}

} // verus!
