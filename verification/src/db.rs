//! The trusted boundary around the embedded SQLite store.
//!
//! Everything rusqlite does for this crate goes through the items of this
//! module. The four `*_rows` spec functions name the contents of the four
//! tables of an open connection: the sequence of rows that a full `SELECT`
//! returns, in stored (rowid) order — the empty sequence where the table
//! does not exist. Because every row is inserted with an `AUTOINCREMENT`
//! key, rowid order is insertion order, and a fresh identifier is strictly
//! greater than every identifier already in the table. Each wrapper's
//! contract states, over those names, what the one statement it runs does,
//! as SQLite documents it; Verus believes the contracts without reading the
//! bodies, so they are kept to what the statements plainly do.

use rusqlite::Error as SqliteError;
use vstd::prelude::*;

use crate::records::{ContractRow, ContractRowV, Customer, CustomerV, RequestRow, RequestRowV,
    WorkRow, WorkRowV};

verus! {

#[verifier::external_type_specification]
#[verifier::external_body]
pub struct ExConnection(rusqlite::Connection);

#[verifier::external_type_specification]
#[verifier::external_body]
pub struct ExSqliteError(SqliteError);

/// The rows of the `customer` table of the database behind `c`.
pub uninterp spec fn customer_rows(c: rusqlite::Connection) -> Seq<CustomerV>;

/// The rows of the `contract` table of the database behind `c`.
pub uninterp spec fn contract_rows(c: rusqlite::Connection) -> Seq<ContractRowV>;

/// The rows of the `request` table of the database behind `c`.
pub uninterp spec fn request_rows(c: rusqlite::Connection) -> Seq<RequestRowV>;

/// The rows of the `work` table of the database behind `c`.
pub uninterp spec fn work_rows(c: rusqlite::Connection) -> Seq<WorkRowV>;

/// `post` is `pre` with one new row appended whose identifier is fresh:
/// positive and strictly above every identifier already present.
pub open spec fn customer_inserted(pre: Seq<CustomerV>, post: Seq<CustomerV>, name: Seq<char>) -> bool {
    &&& post.len() == pre.len() + 1
    &&& post.subrange(0, pre.len() as int) == pre
    &&& post.last().name == name
    &&& post.last().id >= 1
    &&& forall|j: int| 0 <= j < pre.len() ==> pre[j].id < post.last().id
}

/// `post` is `pre` with one new contract row appended under a fresh identifier.
pub open spec fn contract_inserted(
    pre: Seq<ContractRowV>,
    post: Seq<ContractRowV>,
    customer_id: u32,
    start_date: Seq<char>,
    end_date: Seq<char>,
    total_points: u32,
) -> bool {
    &&& post.len() == pre.len() + 1
    &&& post.subrange(0, pre.len() as int) == pre
    &&& post.last().customer_id == customer_id
    &&& post.last().start_date == start_date
    &&& post.last().end_date == end_date
    &&& post.last().total_points == total_points
    &&& post.last().id >= 1
    &&& forall|j: int| 0 <= j < pre.len() ==> pre[j].id < post.last().id
}

/// `post` is `pre` with one new request row appended under a fresh identifier.
pub open spec fn request_inserted(
    pre: Seq<RequestRowV>,
    post: Seq<RequestRowV>,
    contract_id: u32,
    description: Seq<char>,
    request_date: Seq<char>,
) -> bool {
    &&& post.len() == pre.len() + 1
    &&& post.subrange(0, pre.len() as int) == pre
    &&& post.last().contract_id == contract_id
    &&& post.last().description == description
    &&& post.last().request_date == request_date
    &&& post.last().id >= 1
    &&& forall|j: int| 0 <= j < pre.len() ==> pre[j].id < post.last().id
}

/// `post` is `pre` with one new work row appended under a fresh identifier.
pub open spec fn work_inserted(
    pre: Seq<WorkRowV>,
    post: Seq<WorkRowV>,
    request_id: u32,
    worker: Seq<char>,
    description: Seq<char>,
    points_used: u32,
    work_date: Seq<char>,
) -> bool {
    &&& post.len() == pre.len() + 1
    &&& post.subrange(0, pre.len() as int) == pre
    &&& post.last().request_id == request_id
    &&& post.last().worker == worker
    &&& post.last().description == description
    &&& post.last().points_used == points_used
    &&& post.last().work_date == work_date
    &&& post.last().id >= 1
    &&& forall|j: int| 0 <= j < pre.len() ==> pre[j].id < post.last().id
}

/// Every row whose identifier matches carries the new field values; every
/// other row is untouched. Row count and order never change.
pub open spec fn customer_updated(
    pre: Seq<CustomerV>,
    post: Seq<CustomerV>,
    id: u32,
    name: Seq<char>,
) -> bool {
    &&& post.len() == pre.len()
    &&& forall|j: int|
        0 <= j < pre.len() ==> post[j] == (if pre[j].id == id as int {
            CustomerV { id: id as int, name }
        } else {
            pre[j]
        })
}

/// Every contract row whose identifier matches carries the new field values.
pub open spec fn contract_updated(
    pre: Seq<ContractRowV>,
    post: Seq<ContractRowV>,
    id: u32,
    customer_id: u32,
    start_date: Seq<char>,
    end_date: Seq<char>,
    total_points: u32,
) -> bool {
    &&& post.len() == pre.len()
    &&& forall|j: int|
        0 <= j < pre.len() ==> post[j] == (if pre[j].id == id as int {
            ContractRowV { id: id as int, customer_id, start_date, end_date, total_points }
        } else {
            pre[j]
        })
}

/// Every request row whose identifier matches carries the new field values.
pub open spec fn request_updated(
    pre: Seq<RequestRowV>,
    post: Seq<RequestRowV>,
    id: u32,
    contract_id: u32,
    description: Seq<char>,
    request_date: Seq<char>,
) -> bool {
    &&& post.len() == pre.len()
    &&& forall|j: int|
        0 <= j < pre.len() ==> post[j] == (if pre[j].id == id as int {
            RequestRowV { id: id as int, contract_id, description, request_date }
        } else {
            pre[j]
        })
}

/// Every work row whose identifier matches carries the new field values.
pub open spec fn work_updated(
    pre: Seq<WorkRowV>,
    post: Seq<WorkRowV>,
    id: u32,
    request_id: u32,
    worker: Seq<char>,
    description: Seq<char>,
    points_used: u32,
    work_date: Seq<char>,
) -> bool {
    &&& post.len() == pre.len()
    &&& forall|j: int|
        0 <= j < pre.len() ==> post[j] == (if pre[j].id == id as int {
            WorkRowV { id: id as int, request_id, worker, description, points_used, work_date }
        } else {
            pre[j]
        })
}

/// How many identifiers of the sequence equal `id`.
pub open spec fn count_id(ids: Seq<int>, id: int) -> int
    decreases ids.len(),
{
    if ids.len() == 0 {
        0
    } else {
        count_id(ids.drop_last(), id) + (if ids.last() == id {
            1int
        } else {
            0int
        })
    }
}

/// How many rows of the table carry the identifier.
pub open spec fn customer_matches(rows: Seq<CustomerV>, id: u32) -> int {
    count_id(rows.map_values(|r: CustomerV| r.id), id as int)
}

/// How many contract rows carry the identifier.
pub open spec fn contract_matches(rows: Seq<ContractRowV>, id: u32) -> int {
    count_id(rows.map_values(|r: ContractRowV| r.id), id as int)
}

/// How many request rows carry the identifier.
pub open spec fn request_matches(rows: Seq<RequestRowV>, id: u32) -> int {
    count_id(rows.map_values(|r: RequestRowV| r.id), id as int)
}

/// How many work rows carry the identifier.
pub open spec fn work_matches(rows: Seq<WorkRowV>, id: u32) -> int {
    count_id(rows.map_values(|r: WorkRowV| r.id), id as int)
}

/// Relies on `rusqlite::Connection::open`: opens (creating if missing) the
/// database file at `path`. Nothing is known of what the file holds.
#[verifier::external_body]
pub(crate) fn open_conn(path: &str) -> (r: Result<rusqlite::Connection, SqliteError>) {
    rusqlite::Connection::open(path)
}

/// Relies on `rusqlite::Connection::open_in_memory`: a fresh private
/// database with no tables, so all four table views are empty.
#[verifier::external_body]
pub(crate) fn open_conn_in_memory() -> (r: Result<rusqlite::Connection, SqliteError>)
    ensures
        r matches Ok(c) ==> customer_rows(c).len() == 0 && contract_rows(c).len() == 0
            && request_rows(c).len() == 0 && work_rows(c).len() == 0,
{
    rusqlite::Connection::open_in_memory()
}

/// Relies on `rusqlite::Connection::pragma_update` switching foreign-key
/// enforcement off for this connection. The schema declares its foreign
/// keys as documentation only — referential integrity is advisory, not
/// enforced — and the bundled engine turns enforcement on by default, so
/// every open connection switches it off. The pragma reads no table and
/// writes none.
#[verifier::external_body]
pub(crate) fn disable_foreign_keys(conn: &mut rusqlite::Connection) -> (r: Result<
    (),
    SqliteError,
>)
    ensures
        customer_rows(*final(conn)) == customer_rows(*old(conn)),
        contract_rows(*final(conn)) == contract_rows(*old(conn)),
        request_rows(*final(conn)) == request_rows(*old(conn)),
        work_rows(*final(conn)) == work_rows(*old(conn)),
{
    conn.pragma_update(None, "foreign_keys", false)
}

/// Relies on `std::path::Path::exists`. The answer depends on the file
/// system, so nothing is stated of it.
#[verifier::external_body]
pub(crate) fn path_exists(path: &str) -> (r: bool) {
    std::path::Path::new(path).exists()
}

/// Relies on `rusqlite::Connection::execute_batch` running four
/// `CREATE TABLE IF NOT EXISTS` statements. Creating a table never touches
/// the rows of an existing one, and a created table starts empty, so under
/// the empty-when-absent reading every table view is unchanged, whether or
/// not the batch completes.
#[verifier::external_body]
pub(crate) fn init_tables(conn: &mut rusqlite::Connection) -> (r: Result<(), SqliteError>)
    ensures
        customer_rows(*final(conn)) == customer_rows(*old(conn)),
        contract_rows(*final(conn)) == contract_rows(*old(conn)),
        request_rows(*final(conn)) == request_rows(*old(conn)),
        work_rows(*final(conn)) == work_rows(*old(conn)),
{
    conn.execute_batch(
        "CREATE TABLE IF NOT EXISTS customer (id INTEGER PRIMARY KEY AUTOINCREMENT, name TEXT NOT NULL);
        CREATE TABLE IF NOT EXISTS contract (id INTEGER PRIMARY KEY AUTOINCREMENT, customer_id INTEGER NOT NULL, start_date DATE NOT NULL, end_date DATE NOT NULL, total_points INTEGER NOT NULL, FOREIGN KEY (customer_id) REFERENCES customer(id));
        CREATE TABLE IF NOT EXISTS request (id INTEGER PRIMARY KEY AUTOINCREMENT, contract_id INTEGER NOT NULL, description TEXT NOT NULL, request_date DATE NOT NULL, FOREIGN KEY (contract_id) REFERENCES contract(id));
        CREATE TABLE IF NOT EXISTS work (id INTEGER PRIMARY KEY AUTOINCREMENT, request_id INTEGER NOT NULL, worker TEXT NOT NULL, description TEXT NOT NULL, points_used INTEGER NOT NULL, work_date DATE NOT NULL, FOREIGN KEY (request_id) REFERENCES request(id));",
    )
}

/// Relies on `rusqlite::Connection::table_exists`. Table existence is not
/// part of the model, so nothing is stated of the answer.
#[verifier::external_body]
pub(crate) fn table_exists(conn: &rusqlite::Connection, name: &str) -> (r: Result<
    bool,
    SqliteError,
>) {
    conn.table_exists(Some("main"), name)
}

/// Relies on `rusqlite::Connection::execute` running a one-row `INSERT`
/// into `customer`: on success exactly one row is reported changed and the
/// new row, under a fresh `AUTOINCREMENT` key, is appended; on failure the
/// statement changes nothing. No statement on `customer` touches the other
/// tables.
#[verifier::external_body]
pub(crate) fn insert_customer(conn: &mut rusqlite::Connection, name: &str) -> (r: Result<
    usize,
    SqliteError,
>)
    ensures
        r matches Ok(n) ==> n == 1 && customer_inserted(
            customer_rows(*old(conn)),
            customer_rows(*final(conn)),
            name@,
        ),
        r is Err ==> customer_rows(*final(conn)) == customer_rows(*old(conn)),
        contract_rows(*final(conn)) == contract_rows(*old(conn)),
        request_rows(*final(conn)) == request_rows(*old(conn)),
        work_rows(*final(conn)) == work_rows(*old(conn)),
{
    conn.execute("INSERT INTO customer (name) VALUES (:name)", &[(":name", name)])
}

/// Relies on `rusqlite::Connection::execute` running a one-row `INSERT`
/// into `contract`; the date parameters are bound as the given text. As for
/// `insert_customer`, but on the `contract` table.
#[verifier::external_body]
pub(crate) fn insert_contract(
    conn: &mut rusqlite::Connection,
    customer_id: u32,
    start_date: &str,
    end_date: &str,
    total_points: u32,
) -> (r: Result<usize, SqliteError>)
    ensures
        r matches Ok(n) ==> n == 1 && contract_inserted(
            contract_rows(*old(conn)),
            contract_rows(*final(conn)),
            customer_id,
            start_date@,
            end_date@,
            total_points,
        ),
        r is Err ==> contract_rows(*final(conn)) == contract_rows(*old(conn)),
        customer_rows(*final(conn)) == customer_rows(*old(conn)),
        request_rows(*final(conn)) == request_rows(*old(conn)),
        work_rows(*final(conn)) == work_rows(*old(conn)),
{
    conn.execute(
        "INSERT INTO contract (customer_id, start_date, end_date, total_points) VALUES (:customer_id, :start_date, :end_date, :total_points)",
        &[
            (":customer_id", customer_id.to_string().as_str()),
            (":start_date", start_date),
            (":end_date", end_date),
            (":total_points", total_points.to_string().as_str()),
        ],
    )
}

/// Relies on `rusqlite::Connection::execute` running a one-row `INSERT`
/// into `request`. As for `insert_customer`, but on the `request` table.
#[verifier::external_body]
pub(crate) fn insert_request(
    conn: &mut rusqlite::Connection,
    contract_id: u32,
    description: &str,
    request_date: &str,
) -> (r: Result<usize, SqliteError>)
    ensures
        r matches Ok(n) ==> n == 1 && request_inserted(
            request_rows(*old(conn)),
            request_rows(*final(conn)),
            contract_id,
            description@,
            request_date@,
        ),
        r is Err ==> request_rows(*final(conn)) == request_rows(*old(conn)),
        customer_rows(*final(conn)) == customer_rows(*old(conn)),
        contract_rows(*final(conn)) == contract_rows(*old(conn)),
        work_rows(*final(conn)) == work_rows(*old(conn)),
{
    conn.execute(
        "INSERT INTO request (contract_id, description, request_date) VALUES (:contract_id, :description, :request_date)",
        &[
            (":contract_id", contract_id.to_string().as_str()),
            (":description", description),
            (":request_date", request_date),
        ],
    )
}

/// Relies on `rusqlite::Connection::execute` running a one-row `INSERT`
/// into `work`. As for `insert_customer`, but on the `work` table.
#[verifier::external_body]
pub(crate) fn insert_work(
    conn: &mut rusqlite::Connection,
    request_id: u32,
    worker: &str,
    description: &str,
    points_used: u32,
    work_date: &str,
) -> (r: Result<usize, SqliteError>)
    ensures
        r matches Ok(n) ==> n == 1 && work_inserted(
            work_rows(*old(conn)),
            work_rows(*final(conn)),
            request_id,
            worker@,
            description@,
            points_used,
            work_date@,
        ),
        r is Err ==> work_rows(*final(conn)) == work_rows(*old(conn)),
        customer_rows(*final(conn)) == customer_rows(*old(conn)),
        contract_rows(*final(conn)) == contract_rows(*old(conn)),
        request_rows(*final(conn)) == request_rows(*old(conn)),
{
    conn.execute(
        "INSERT INTO work (request_id, worker, description, points_used, work_date) VALUES (:request_id, :worker, :description, :points_used, :work_date)",
        &[
            (":request_id", request_id.to_string().as_str()),
            (":worker", worker),
            (":description", description),
            (":points_used", points_used.to_string().as_str()),
            (":work_date", work_date),
        ],
    )
}

/// Relies on `rusqlite::Connection::prepare` and
/// `rusqlite::Statement::query_map` running a full `SELECT` on `customer`:
/// on success the returned records are exactly the table's rows, in stored
/// order.
#[verifier::external_body]
pub(crate) fn query_customers(conn: &rusqlite::Connection) -> (r: Result<
    Vec<Customer>,
    SqliteError,
>)
    ensures
        r matches Ok(v) ==> v@.len() == customer_rows(*conn).len() && (forall|i: int|
            #![auto]
            0 <= i < v@.len() ==> v@[i]@ == customer_rows(*conn)[i]),
{
    let mut stmt = conn.prepare("select * from customer")?;
    let rows = stmt.query_map([], |row| Ok(Customer { id: row.get(0)?, name: row.get(1)? }))?;
    rows.collect()
}

/// Relies on `rusqlite::Connection::prepare` and
/// `rusqlite::Statement::query_map` running a full `SELECT` on `contract`.
/// As for `query_customers`, but rows come back raw, dates as stored text.
#[verifier::external_body]
pub(crate) fn query_contracts(conn: &rusqlite::Connection) -> (r: Result<
    Vec<ContractRow>,
    SqliteError,
>)
    ensures
        r matches Ok(v) ==> v@.len() == contract_rows(*conn).len() && (forall|i: int|
            #![auto]
            0 <= i < v@.len() ==> v@[i]@ == contract_rows(*conn)[i]),
{
    let mut stmt = conn.prepare("select * from contract")?;
    let rows = stmt.query_map(
        [],
        |row| Ok(ContractRow {
            id: row.get(0)?,
            customer_id: row.get(1)?,
            start_date: row.get(2)?,
            end_date: row.get(3)?,
            total_points: row.get(4)?,
        }),
    )?;
    rows.collect()
}

/// Relies on `rusqlite::Connection::prepare` and
/// `rusqlite::Statement::query_map` running a full `SELECT` on `request`.
/// As for `query_contracts`.
#[verifier::external_body]
pub(crate) fn query_requests(conn: &rusqlite::Connection) -> (r: Result<
    Vec<RequestRow>,
    SqliteError,
>)
    ensures
        r matches Ok(v) ==> v@.len() == request_rows(*conn).len() && (forall|i: int|
            #![auto]
            0 <= i < v@.len() ==> v@[i]@ == request_rows(*conn)[i]),
{
    let mut stmt = conn.prepare("select * from request")?;
    let rows = stmt.query_map(
        [],
        |row| Ok(RequestRow {
            id: row.get(0)?,
            contract_id: row.get(1)?,
            description: row.get(2)?,
            request_date: row.get(3)?,
        }),
    )?;
    rows.collect()
}

/// Relies on `rusqlite::Connection::prepare` and
/// `rusqlite::Statement::query_map` running a full `SELECT` on `work`.
/// As for `query_contracts`.
#[verifier::external_body]
pub(crate) fn query_works(conn: &rusqlite::Connection) -> (r: Result<Vec<WorkRow>, SqliteError>)
    ensures
        r matches Ok(v) ==> v@.len() == work_rows(*conn).len() && (forall|i: int|
            #![auto]
            0 <= i < v@.len() ==> v@[i]@ == work_rows(*conn)[i]),
{
    let mut stmt = conn.prepare("select * from work")?;
    let rows = stmt.query_map(
        [],
        |row| Ok(WorkRow {
            id: row.get(0)?,
            request_id: row.get(1)?,
            worker: row.get(2)?,
            description: row.get(3)?,
            points_used: row.get(4)?,
            work_date: row.get(5)?,
        }),
    )?;
    rows.collect()
}

/// Relies on `rusqlite::Connection::query_one` running a `SELECT ... WHERE
/// id = :id` on `customer`: the one matching row comes back, `None` stands
/// for the engine's no-rows answer, so on `None` no row carries the
/// identifier.
#[verifier::external_body]
pub(crate) fn query_customer_by_id(conn: &rusqlite::Connection, id: u32) -> (r: Result<
    Option<Customer>,
    SqliteError,
>)
    ensures
        r matches Ok(Some(c)) ==> c@.id == id as int && (exists|j: int|
            #![auto]
            0 <= j < customer_rows(*conn).len() && customer_rows(*conn)[j] == c@),
        r matches Ok(None) ==> forall|j: int|
            #![auto]
            0 <= j < customer_rows(*conn).len() ==> customer_rows(*conn)[j].id != id as int,
{
    let r = conn.query_one(
        "select * from customer where id = :id",
        [id],
        |row| Ok(Customer { id: row.get(0)?, name: row.get(1)? }),
    );
    match r {
        Ok(c) => Ok(Some(c)),
        Err(SqliteError::QueryReturnedNoRows) => Ok(None),
        Err(e) => Err(e),
    }
}

/// Relies on `rusqlite::Connection::query_one` on `contract`. As for
/// `query_customer_by_id`, the row raw.
#[verifier::external_body]
pub(crate) fn query_contract_by_id(conn: &rusqlite::Connection, id: u32) -> (r: Result<
    Option<ContractRow>,
    SqliteError,
>)
    ensures
        r matches Ok(Some(c)) ==> c@.id == id as int && (exists|j: int|
            #![auto]
            0 <= j < contract_rows(*conn).len() && contract_rows(*conn)[j] == c@),
        r matches Ok(None) ==> forall|j: int|
            #![auto]
            0 <= j < contract_rows(*conn).len() ==> contract_rows(*conn)[j].id != id as int,
{
    let r = conn.query_one("select * from contract where id = :id", [id], |row| {
        Ok(ContractRow {
            id: row.get(0)?, customer_id: row.get(1)?, start_date: row.get(2)?,
            end_date: row.get(3)?, total_points: row.get(4)?,
        })
    });
    match r {
        Ok(c) => Ok(Some(c)),
        Err(SqliteError::QueryReturnedNoRows) => Ok(None),
        Err(e) => Err(e),
    }
}

/// Relies on `rusqlite::Connection::query_one` on `request`. As for
/// `query_contract_by_id`.
#[verifier::external_body]
pub(crate) fn query_request_by_id(conn: &rusqlite::Connection, id: u32) -> (r: Result<
    Option<RequestRow>,
    SqliteError,
>)
    ensures
        r matches Ok(Some(c)) ==> c@.id == id as int && (exists|j: int|
            #![auto]
            0 <= j < request_rows(*conn).len() && request_rows(*conn)[j] == c@),
        r matches Ok(None) ==> forall|j: int|
            #![auto]
            0 <= j < request_rows(*conn).len() ==> request_rows(*conn)[j].id != id as int,
{
    let r = conn.query_one("select * from request where id = :id", [id], |row| {
        Ok(RequestRow {
            id: row.get(0)?, contract_id: row.get(1)?, description: row.get(2)?,
            request_date: row.get(3)?,
        })
    });
    match r {
        Ok(c) => Ok(Some(c)),
        Err(SqliteError::QueryReturnedNoRows) => Ok(None),
        Err(e) => Err(e),
    }
}

/// Relies on `rusqlite::Connection::query_one` on `work`. As for
/// `query_contract_by_id`.
#[verifier::external_body]
pub(crate) fn query_work_by_id(conn: &rusqlite::Connection, id: u32) -> (r: Result<
    Option<WorkRow>,
    SqliteError,
>)
    ensures
        r matches Ok(Some(c)) ==> c@.id == id as int && (exists|j: int|
            #![auto]
            0 <= j < work_rows(*conn).len() && work_rows(*conn)[j] == c@),
        r matches Ok(None) ==> forall|j: int|
            #![auto]
            0 <= j < work_rows(*conn).len() ==> work_rows(*conn)[j].id != id as int,
{
    let r = conn.query_one("select * from work where id = :id", [id], |row| {
        Ok(WorkRow {
            id: row.get(0)?, request_id: row.get(1)?, worker: row.get(2)?,
            description: row.get(3)?, points_used: row.get(4)?, work_date: row.get(5)?,
        })
    });
    match r {
        Ok(c) => Ok(Some(c)),
        Err(SqliteError::QueryReturnedNoRows) => Ok(None),
        Err(e) => Err(e),
    }
}

/// Relies on `rusqlite::Connection::execute` running an `UPDATE ... WHERE
/// id = :id` on `customer`: every matching row takes the new field values,
/// no other row or table is touched, and the count of changed rows comes
/// back; on failure nothing changes.
#[verifier::external_body]
pub(crate) fn update_customer(conn: &mut rusqlite::Connection, id: u32, name: &str) -> (r: Result<
    usize,
    SqliteError,
>)
    ensures
        r matches Ok(n) ==> n == customer_matches(customer_rows(*old(conn)), id)
            && customer_updated(customer_rows(*old(conn)), customer_rows(*final(conn)), id, name@),
        r is Err ==> customer_rows(*final(conn)) == customer_rows(*old(conn)),
        contract_rows(*final(conn)) == contract_rows(*old(conn)),
        request_rows(*final(conn)) == request_rows(*old(conn)),
        work_rows(*final(conn)) == work_rows(*old(conn)),
{
    conn.execute(
        "UPDATE customer SET name = :name WHERE id = :id",
        &[(":name", name), (":id", id.to_string().as_str())],
    )
}

/// Relies on `rusqlite::Connection::execute` running an `UPDATE ... WHERE
/// id = :id` on `contract`. As for `update_customer`.
#[verifier::external_body]
pub(crate) fn update_contract(
    conn: &mut rusqlite::Connection,
    id: u32,
    customer_id: u32,
    start_date: &str,
    end_date: &str,
    total_points: u32,
) -> (r: Result<usize, SqliteError>)
    ensures
        r matches Ok(n) ==> n == contract_matches(contract_rows(*old(conn)), id)
            && contract_updated(
            contract_rows(*old(conn)),
            contract_rows(*final(conn)),
            id,
            customer_id,
            start_date@,
            end_date@,
            total_points,
        ),
        r is Err ==> contract_rows(*final(conn)) == contract_rows(*old(conn)),
        customer_rows(*final(conn)) == customer_rows(*old(conn)),
        request_rows(*final(conn)) == request_rows(*old(conn)),
        work_rows(*final(conn)) == work_rows(*old(conn)),
{
    conn.execute(
        "UPDATE contract SET customer_id = :customer_id, start_date = :start_date, end_date = :end_date, total_points = :total_points WHERE id = :id",
        &[
            (":customer_id", customer_id.to_string().as_str()),
            (":start_date", start_date),
            (":end_date", end_date),
            (":total_points", total_points.to_string().as_str()),
            (":id", id.to_string().as_str()),
        ],
    )
}

/// Relies on `rusqlite::Connection::execute` running an `UPDATE ... WHERE
/// id = :id` on `request`. As for `update_customer`.
#[verifier::external_body]
pub(crate) fn update_request(
    conn: &mut rusqlite::Connection,
    id: u32,
    contract_id: u32,
    description: &str,
    request_date: &str,
) -> (r: Result<usize, SqliteError>)
    ensures
        r matches Ok(n) ==> n == request_matches(request_rows(*old(conn)), id) && request_updated(
            request_rows(*old(conn)),
            request_rows(*final(conn)),
            id,
            contract_id,
            description@,
            request_date@,
        ),
        r is Err ==> request_rows(*final(conn)) == request_rows(*old(conn)),
        customer_rows(*final(conn)) == customer_rows(*old(conn)),
        contract_rows(*final(conn)) == contract_rows(*old(conn)),
        work_rows(*final(conn)) == work_rows(*old(conn)),
{
    conn.execute(
        "UPDATE request SET contract_id = :contract_id, description = :description, request_date = :request_date WHERE id = :id",
        &[
            (":contract_id", contract_id.to_string().as_str()),
            (":description", description),
            (":request_date", request_date),
            (":id", id.to_string().as_str()),
        ],
    )
}

/// Relies on `rusqlite::Connection::execute` running an `UPDATE ... WHERE
/// id = :id` on `work`. As for `update_customer`.
#[verifier::external_body]
pub(crate) fn update_work(
    conn: &mut rusqlite::Connection,
    id: u32,
    request_id: u32,
    worker: &str,
    description: &str,
    points_used: u32,
    work_date: &str,
) -> (r: Result<usize, SqliteError>)
    ensures
        r matches Ok(n) ==> n == work_matches(work_rows(*old(conn)), id) && work_updated(
            work_rows(*old(conn)),
            work_rows(*final(conn)),
            id,
            request_id,
            worker@,
            description@,
            points_used,
            work_date@,
        ),
        r is Err ==> work_rows(*final(conn)) == work_rows(*old(conn)),
        customer_rows(*final(conn)) == customer_rows(*old(conn)),
        contract_rows(*final(conn)) == contract_rows(*old(conn)),
        request_rows(*final(conn)) == request_rows(*old(conn)),
{
    conn.execute(
        "UPDATE work SET request_id = :request_id, worker = :worker, description = :description, points_used = :points_used, work_date = :work_date WHERE id = :id",
        &[
            (":request_id", request_id.to_string().as_str()),
            (":worker", worker),
            (":description", description),
            (":points_used", points_used.to_string().as_str()),
            (":work_date", work_date),
            (":id", id.to_string().as_str()),
        ],
    )
}

} // verus!
