//! The record repository: one open store, four tables, and per-entity
//! insert, fetch, list and full-record update.
//!
//! Every method's contract speaks of the abstract table views
//! (`customers()`, `contracts()`, `requests()`, `works()`): an insert
//! appends one row under a fresh identifier, a list returns the rows in
//! stored order, a fetch by identifier finds the matching row or reports
//! `NotFound`, and an update replaces every field of the matching row and
//! returns the count of rows it touched — zero, not an error, when the
//! identifier is unknown.

use vstd::prelude::*;

use crate::date::{iso_chars, Date};
use crate::db;
use crate::records::{contract_row_decodes, request_row_decodes, spec_decode_contract,
    spec_decode_request, spec_decode_work, work_row_decodes, Contract, ContractRowV,
    ContractUsage, Customer, CustomerV, Error, Request, RequestRowV, Work, WorkRowV};
use crate::usage::{usage_decodes, usage_fits, usage_from_tables, usage_ledger};

verus! {

/// One exclusive handle on the embedded store, held for the caller's
/// lifetime.
pub struct DataStore {
    conn: rusqlite::Connection,
}

impl DataStore {
    /// The rows of the `customer` table, in stored order.
    pub closed spec fn customers(self) -> Seq<CustomerV> {
        db::customer_rows(self.conn)
    }

    /// The rows of the `contract` table, in stored order, dates as text.
    pub closed spec fn contracts(self) -> Seq<ContractRowV> {
        db::contract_rows(self.conn)
    }

    /// The rows of the `request` table, in stored order, dates as text.
    pub closed spec fn requests(self) -> Seq<RequestRowV> {
        db::request_rows(self.conn)
    }

    /// The rows of the `work` table, in stored order, dates as text.
    pub closed spec fn works(self) -> Seq<WorkRowV> {
        db::work_rows(self.conn)
    }

    /// Opens the store at `path`, creating and initializing the database
    /// file when none exists yet; an existing file is opened as-is. What an
    /// existing file holds is unknown, so nothing is stated of the tables.
    pub fn open(path: &str) -> (r: Result<DataStore, Error>)
        ensures
            r matches Err(e) ==> e is RusqliteError,
    {
        let is_new = !db::path_exists(path);
        let mut conn = match db::open_conn(path) {
            Ok(c) => c,
            Err(e) => { return Err(Error::RusqliteError(e)) },
        };
        match db::disable_foreign_keys(&mut conn) {
            Ok(u) => u,
            Err(e) => { return Err(Error::RusqliteError(e)) },
        }
        if is_new {
            match db::init_tables(&mut conn) {
                Ok(u) => u,
                Err(e) => { return Err(Error::RusqliteError(e)) },
            }
        }
        Ok(DataStore { conn })
    }

    /// Opens a fresh private in-memory store and initializes its tables:
    /// all four start empty.
    pub fn open_in_memory() -> (r: Result<DataStore, Error>)
        ensures
            r matches Ok(ds) ==> ds.customers().len() == 0 && ds.contracts().len() == 0
                && ds.requests().len() == 0 && ds.works().len() == 0,
            r matches Err(e) ==> e is RusqliteError,
    {
        let mut conn = match db::open_conn_in_memory() {
            Ok(c) => c,
            Err(e) => { return Err(Error::RusqliteError(e)) },
        };
        match db::disable_foreign_keys(&mut conn) {
            Ok(u) => u,
            Err(e) => { return Err(Error::RusqliteError(e)) },
        }
        match db::init_tables(&mut conn) {
            Ok(u) => u,
            Err(e) => { return Err(Error::RusqliteError(e)) },
        }
        Ok(DataStore { conn })
    }

    /// Whether a table of the given name exists in the open database.
    /// Table existence is not part of the model, so nothing is stated of
    /// the answer.
    pub fn table_exists(&self, name: &str) -> (r: Result<bool, Error>)
        ensures
            r matches Err(e) ==> e is RusqliteError,
    {
        match db::table_exists(&self.conn, name) {
            Ok(b) => Ok(b),
            Err(e) => Err(Error::RusqliteError(e)),
        }
    }

    /// Inserts one customer; on success exactly one row is reported and the
    /// new row stands at the end of the table under a fresh identifier.
    pub fn add_customer(&mut self, name: &str) -> (r: Result<usize, Error>)
        ensures
            r matches Ok(n) ==> n == 1 && db::customer_inserted(
                old(self).customers(),
                final(self).customers(),
                name@,
            ),
            r is Err ==> final(self).customers() == old(self).customers(),
            r matches Err(e) ==> e is RusqliteError,
            final(self).contracts() == old(self).contracts(),
            final(self).requests() == old(self).requests(),
            final(self).works() == old(self).works(),
    {
        match db::insert_customer(&mut self.conn, name) {
            Ok(n) => Ok(n),
            Err(e) => Err(Error::RusqliteError(e)),
        }
    }

    /// Inserts one contract; the dates are stored as their ISO text.
    pub fn add_contract(
        &mut self,
        customer_id: u32,
        start_date: &Date,
        end_date: &Date,
        total_points: u32,
    ) -> (r: Result<usize, Error>)
        requires
            start_date.wf(),
            end_date.wf(),
        ensures
            r matches Ok(n) ==> n == 1 && db::contract_inserted(
                old(self).contracts(),
                final(self).contracts(),
                customer_id,
                iso_chars(*start_date),
                iso_chars(*end_date),
                total_points,
            ),
            r is Err ==> final(self).contracts() == old(self).contracts(),
            r matches Err(e) ==> e is RusqliteError,
            final(self).customers() == old(self).customers(),
            final(self).requests() == old(self).requests(),
            final(self).works() == old(self).works(),
    {
        let start_text = start_date.to_iso();
        let end_text = end_date.to_iso();
        match db::insert_contract(
            &mut self.conn,
            customer_id,
            start_text.as_str(),
            end_text.as_str(),
            total_points,
        ) {
            Ok(n) => Ok(n),
            Err(e) => Err(Error::RusqliteError(e)),
        }
    }

    /// Inserts one request; the date is stored as its ISO text.
    pub fn add_request(
        &mut self,
        contract_id: u32,
        description: &str,
        request_date: &Date,
    ) -> (r: Result<usize, Error>)
        requires
            request_date.wf(),
        ensures
            r matches Ok(n) ==> n == 1 && db::request_inserted(
                old(self).requests(),
                final(self).requests(),
                contract_id,
                description@,
                iso_chars(*request_date),
            ),
            r is Err ==> final(self).requests() == old(self).requests(),
            r matches Err(e) ==> e is RusqliteError,
            final(self).customers() == old(self).customers(),
            final(self).contracts() == old(self).contracts(),
            final(self).works() == old(self).works(),
    {
        let date_text = request_date.to_iso();
        match db::insert_request(&mut self.conn, contract_id, description, date_text.as_str()) {
            Ok(n) => Ok(n),
            Err(e) => Err(Error::RusqliteError(e)),
        }
    }

    /// Inserts one work entry; the date is stored as its ISO text.
    pub fn add_work(
        &mut self,
        request_id: u32,
        worker: &str,
        description: &str,
        points_used: u32,
        work_date: &Date,
    ) -> (r: Result<usize, Error>)
        requires
            work_date.wf(),
        ensures
            r matches Ok(n) ==> n == 1 && db::work_inserted(
                old(self).works(),
                final(self).works(),
                request_id,
                worker@,
                description@,
                points_used,
                iso_chars(*work_date),
            ),
            r is Err ==> final(self).works() == old(self).works(),
            r matches Err(e) ==> e is RusqliteError,
            final(self).customers() == old(self).customers(),
            final(self).contracts() == old(self).contracts(),
            final(self).requests() == old(self).requests(),
    {
        let date_text = work_date.to_iso();
        match db::insert_work(
            &mut self.conn,
            request_id,
            worker,
            description,
            points_used,
            date_text.as_str(),
        ) {
            Ok(n) => Ok(n),
            Err(e) => Err(Error::RusqliteError(e)),
        }
    }

    /// Lists every customer, in stored order.
    pub fn list_customer(&self) -> (r: Result<Vec<Customer>, Error>)
        ensures
            r matches Ok(v) ==> v@.len() == self.customers().len() && (forall|i: int|
                #![auto]
                0 <= i < v@.len() ==> v@[i]@ == self.customers()[i]),
            r matches Err(e) ==> e is RusqliteError,
    {
        match db::query_customers(&self.conn) {
            Ok(v) => Ok(v),
            Err(e) => Err(Error::RusqliteError(e)),
        }
    }

    /// Lists every contract, in stored order, decoding the stored date
    /// text; one malformed date row fails the listing with `InvalidDate`
    /// instead of aborting.
    pub fn list_contract(&self) -> (r: Result<Vec<Contract>, Error>)
        ensures
            r matches Ok(v) ==> v@.len() == self.contracts().len() && (forall|i: int|
                #![auto]
                0 <= i < v@.len() ==> contract_row_decodes(self.contracts()[i]) && v@[i]@
                    == spec_decode_contract(self.contracts()[i])),
            r matches Err(e) ==> e is RusqliteError || e is InvalidDate,
            r matches Err(e) && e is InvalidDate ==> exists|i: int|
                #![auto]
                0 <= i < self.contracts().len() && !contract_row_decodes(self.contracts()[i]),
    {
        let rows = match db::query_contracts(&self.conn) {
            Ok(v) => v,
            Err(e) => { return Err(Error::RusqliteError(e)) },
        };
        let mut out: Vec<Contract> = Vec::new();
        let n = rows.len();
        for idx in 0..n
            invariant
                n == rows@.len(),
                rows@.len() == self.contracts().len(),
                forall|i: int| #![auto] 0 <= i < rows@.len() ==> rows@[i]@ == self.contracts()[i],
                out@.len() == idx,
                forall|i: int|
                    #![auto]
                    0 <= i < idx ==> contract_row_decodes(self.contracts()[i]) && out@[i]@
                        == spec_decode_contract(self.contracts()[i]),
        {
            let c = match Contract::from_row(&rows[idx]) {
                Ok(c) => c,
                Err(e) => {
                    proof {
                        assert(!contract_row_decodes(self.contracts()[idx as int]));
                    }
                    return Err(e);
                },
            };
            out.push(c);
        }
        Ok(out)
    }

    /// Lists every request, in stored order, decoding the stored date text.
    pub fn list_request(&self) -> (r: Result<Vec<Request>, Error>)
        ensures
            r matches Ok(v) ==> v@.len() == self.requests().len() && (forall|i: int|
                #![auto]
                0 <= i < v@.len() ==> request_row_decodes(self.requests()[i]) && v@[i]@
                    == spec_decode_request(self.requests()[i])),
            r matches Err(e) ==> e is RusqliteError || e is InvalidDate,
            r matches Err(e) && e is InvalidDate ==> exists|i: int|
                #![auto]
                0 <= i < self.requests().len() && !request_row_decodes(self.requests()[i]),
    {
        let rows = match db::query_requests(&self.conn) {
            Ok(v) => v,
            Err(e) => { return Err(Error::RusqliteError(e)) },
        };
        let mut out: Vec<Request> = Vec::new();
        let n = rows.len();
        for idx in 0..n
            invariant
                n == rows@.len(),
                rows@.len() == self.requests().len(),
                forall|i: int| #![auto] 0 <= i < rows@.len() ==> rows@[i]@ == self.requests()[i],
                out@.len() == idx,
                forall|i: int|
                    #![auto]
                    0 <= i < idx ==> request_row_decodes(self.requests()[i]) && out@[i]@
                        == spec_decode_request(self.requests()[i]),
        {
            let q = match Request::from_row(&rows[idx]) {
                Ok(q) => q,
                Err(e) => {
                    proof {
                        assert(!request_row_decodes(self.requests()[idx as int]));
                    }
                    return Err(e);
                },
            };
            out.push(q);
        }
        Ok(out)
    }

    /// Lists every work entry, in stored order, decoding the stored date
    /// text.
    pub fn list_work(&self) -> (r: Result<Vec<Work>, Error>)
        ensures
            r matches Ok(v) ==> v@.len() == self.works().len() && (forall|i: int|
                #![auto]
                0 <= i < v@.len() ==> work_row_decodes(self.works()[i]) && v@[i]@
                    == spec_decode_work(self.works()[i])),
            r matches Err(e) ==> e is RusqliteError || e is InvalidDate,
            r matches Err(e) && e is InvalidDate ==> exists|i: int|
                #![auto]
                0 <= i < self.works().len() && !work_row_decodes(self.works()[i]),
    {
        let rows = match db::query_works(&self.conn) {
            Ok(v) => v,
            Err(e) => { return Err(Error::RusqliteError(e)) },
        };
        let mut out: Vec<Work> = Vec::new();
        let n = rows.len();
        for idx in 0..n
            invariant
                n == rows@.len(),
                rows@.len() == self.works().len(),
                forall|i: int| #![auto] 0 <= i < rows@.len() ==> rows@[i]@ == self.works()[i],
                out@.len() == idx,
                forall|i: int|
                    #![auto]
                    0 <= i < idx ==> work_row_decodes(self.works()[i]) && out@[i]@
                        == spec_decode_work(self.works()[i]),
        {
            let w = match Work::from_row(&rows[idx]) {
                Ok(w) => w,
                Err(e) => {
                    proof {
                        assert(!work_row_decodes(self.works()[idx as int]));
                    }
                    return Err(e);
                },
            };
            out.push(w);
        }
        Ok(out)
    }

    /// Fetches the customer with the given identifier; `NotFound` reports
    /// that no row carries it.
    pub fn get_customer(&self, id: u32) -> (r: Result<Customer, Error>)
        ensures
            r matches Ok(c) ==> c@.id == id as int && (exists|j: int|
                #![auto]
                0 <= j < self.customers().len() && self.customers()[j] == c@),
            r matches Err(e) ==> e is RusqliteError || e is NotFound,
            r matches Err(e) && e is NotFound ==> forall|j: int|
                #![auto]
                0 <= j < self.customers().len() ==> self.customers()[j].id != id as int,
    {
        let c = match db::query_customer_by_id(&self.conn, id) {
            Ok(Some(c)) => c,
            Ok(None) => { return Err(Error::NotFound) },
            Err(e) => { return Err(Error::RusqliteError(e)) },
        };
        proof {
            let j = choose|j: int|
                0 <= j < db::customer_rows(self.conn).len() && db::customer_rows(self.conn)[j]
                    == c@;
            assert(0 <= j < self.customers().len() && self.customers()[j] == c@);
        }
        Ok(c)
    }

    /// Fetches the contract with the given identifier, decoding its dates.
    pub fn get_contract(&self, id: u32) -> (r: Result<Contract, Error>)
        ensures
            r matches Ok(c) ==> c@.id == id as int && (exists|j: int|
                #![auto]
                0 <= j < self.contracts().len() && self.contracts()[j].id == id as int
                    && contract_row_decodes(self.contracts()[j]) && c@ == spec_decode_contract(
                    self.contracts()[j],
                )),
            r matches Err(e) ==> e is RusqliteError || e is NotFound || e is InvalidDate,
            r matches Err(e) && e is NotFound ==> forall|j: int|
                #![auto]
                0 <= j < self.contracts().len() ==> self.contracts()[j].id != id as int,
    {
        let row = match db::query_contract_by_id(&self.conn, id) {
            Ok(Some(row)) => row,
            Ok(None) => { return Err(Error::NotFound) },
            Err(e) => { return Err(Error::RusqliteError(e)) },
        };
        let ghost j = choose|j: int|
            0 <= j < db::contract_rows(self.conn).len() && db::contract_rows(self.conn)[j] == row@;
        let c = match Contract::from_row(&row) {
            Ok(c) => c,
            Err(e) => { return Err(e) },
        };
        proof {
            assert(0 <= j < self.contracts().len() && self.contracts()[j].id == id as int
                && contract_row_decodes(self.contracts()[j]) && c@ == spec_decode_contract(
                self.contracts()[j],
            ));
        }
        Ok(c)
    }

    /// Fetches the request with the given identifier, decoding its date.
    pub fn get_request(&self, id: u32) -> (r: Result<Request, Error>)
        ensures
            r matches Ok(q) ==> q@.id == id as int && (exists|j: int|
                #![auto]
                0 <= j < self.requests().len() && self.requests()[j].id == id as int
                    && request_row_decodes(self.requests()[j]) && q@ == spec_decode_request(
                    self.requests()[j],
                )),
            r matches Err(e) ==> e is RusqliteError || e is NotFound || e is InvalidDate,
            r matches Err(e) && e is NotFound ==> forall|j: int|
                #![auto]
                0 <= j < self.requests().len() ==> self.requests()[j].id != id as int,
    {
        let row = match db::query_request_by_id(&self.conn, id) {
            Ok(Some(row)) => row,
            Ok(None) => { return Err(Error::NotFound) },
            Err(e) => { return Err(Error::RusqliteError(e)) },
        };
        let ghost j = choose|j: int|
            0 <= j < db::request_rows(self.conn).len() && db::request_rows(self.conn)[j] == row@;
        let q = match Request::from_row(&row) {
            Ok(q) => q,
            Err(e) => { return Err(e) },
        };
        proof {
            assert(0 <= j < self.requests().len() && self.requests()[j].id == id as int
                && request_row_decodes(self.requests()[j]) && q@ == spec_decode_request(
                self.requests()[j],
            ));
        }
        Ok(q)
    }

    /// Fetches the work entry with the given identifier, decoding its date.
    pub fn get_work(&self, id: u32) -> (r: Result<Work, Error>)
        ensures
            r matches Ok(w) ==> w@.id == id as int && (exists|j: int|
                #![auto]
                0 <= j < self.works().len() && self.works()[j].id == id as int && work_row_decodes(
                    self.works()[j],
                ) && w@ == spec_decode_work(self.works()[j])),
            r matches Err(e) ==> e is RusqliteError || e is NotFound || e is InvalidDate,
            r matches Err(e) && e is NotFound ==> forall|j: int|
                #![auto]
                0 <= j < self.works().len() ==> self.works()[j].id != id as int,
    {
        let row = match db::query_work_by_id(&self.conn, id) {
            Ok(Some(row)) => row,
            Ok(None) => { return Err(Error::NotFound) },
            Err(e) => { return Err(Error::RusqliteError(e)) },
        };
        let ghost j = choose|j: int|
            0 <= j < db::work_rows(self.conn).len() && db::work_rows(self.conn)[j] == row@;
        let w = match Work::from_row(&row) {
            Ok(w) => w,
            Err(e) => { return Err(e) },
        };
        proof {
            assert(0 <= j < self.works().len() && self.works()[j].id == id as int
                && work_row_decodes(self.works()[j]) && w@ == spec_decode_work(self.works()[j]));
        }
        Ok(w)
    }

    /// Replaces every mutable field of the customer row carrying the
    /// record's identifier; the returned count is zero, not an error, when
    /// no row carries it.
    pub fn save_customer(&mut self, entity: Customer) -> (r: Result<usize, Error>)
        ensures
            r matches Ok(n) ==> n == db::customer_matches(old(self).customers(), entity.id)
                && db::customer_updated(
                old(self).customers(),
                final(self).customers(),
                entity.id,
                entity.name@,
            ),
            r is Err ==> final(self).customers() == old(self).customers(),
            r matches Err(e) ==> e is RusqliteError,
            final(self).contracts() == old(self).contracts(),
            final(self).requests() == old(self).requests(),
            final(self).works() == old(self).works(),
    {
        match db::update_customer(&mut self.conn, entity.id, entity.name.as_str()) {
            Ok(n) => Ok(n),
            Err(e) => Err(Error::RusqliteError(e)),
        }
    }

    /// Replaces every mutable field of the contract row carrying the
    /// record's identifier; the dates are stored as their ISO text.
    pub fn save_contract(&mut self, entity: Contract) -> (r: Result<usize, Error>)
        requires
            entity.start_date.wf(),
            entity.end_date.wf(),
        ensures
            r matches Ok(n) ==> n == db::contract_matches(old(self).contracts(), entity.id)
                && db::contract_updated(
                old(self).contracts(),
                final(self).contracts(),
                entity.id,
                entity.customer_id,
                iso_chars(entity.start_date),
                iso_chars(entity.end_date),
                entity.total_points,
            ),
            r is Err ==> final(self).contracts() == old(self).contracts(),
            r matches Err(e) ==> e is RusqliteError,
            final(self).customers() == old(self).customers(),
            final(self).requests() == old(self).requests(),
            final(self).works() == old(self).works(),
    {
        let start_text = entity.start_date.to_iso();
        let end_text = entity.end_date.to_iso();
        match db::update_contract(
            &mut self.conn,
            entity.id,
            entity.customer_id,
            start_text.as_str(),
            end_text.as_str(),
            entity.total_points,
        ) {
            Ok(n) => Ok(n),
            Err(e) => Err(Error::RusqliteError(e)),
        }
    }

    /// Replaces every mutable field of the request row carrying the
    /// record's identifier.
    pub fn save_request(&mut self, entity: Request) -> (r: Result<usize, Error>)
        requires
            entity.request_date.wf(),
        ensures
            r matches Ok(n) ==> n == db::request_matches(old(self).requests(), entity.id)
                && db::request_updated(
                old(self).requests(),
                final(self).requests(),
                entity.id,
                entity.contract_id,
                entity.description@,
                iso_chars(entity.request_date),
            ),
            r is Err ==> final(self).requests() == old(self).requests(),
            r matches Err(e) ==> e is RusqliteError,
            final(self).customers() == old(self).customers(),
            final(self).contracts() == old(self).contracts(),
            final(self).works() == old(self).works(),
    {
        let date_text = entity.request_date.to_iso();
        match db::update_request(
            &mut self.conn,
            entity.id,
            entity.contract_id,
            entity.description.as_str(),
            date_text.as_str(),
        ) {
            Ok(n) => Ok(n),
            Err(e) => Err(Error::RusqliteError(e)),
        }
    }

    /// Replaces every mutable field of the work row carrying the record's
    /// identifier.
    pub fn save_work(&mut self, entity: Work) -> (r: Result<usize, Error>)
        requires
            entity.work_date.wf(),
        ensures
            r matches Ok(n) ==> n == db::work_matches(old(self).works(), entity.id)
                && db::work_updated(
                old(self).works(),
                final(self).works(),
                entity.id,
                entity.request_id,
                entity.worker@,
                entity.description@,
                entity.points_used,
                iso_chars(entity.work_date),
            ),
            r is Err ==> final(self).works() == old(self).works(),
            r matches Err(e) ==> e is RusqliteError,
            final(self).customers() == old(self).customers(),
            final(self).contracts() == old(self).contracts(),
            final(self).requests() == old(self).requests(),
    {
        let date_text = entity.work_date.to_iso();
        match db::update_work(
            &mut self.conn,
            entity.id,
            entity.request_id,
            entity.worker.as_str(),
            entity.description.as_str(),
            entity.points_used,
            date_text.as_str(),
        ) {
            Ok(n) => Ok(n),
            Err(e) => Err(Error::RusqliteError(e)),
        }
    }

    /// For one contract, the ordered running-total ledger of the points its
    /// window requests consumed: the contract's window and budget together
    /// with one line per joined work entry, ordered by request date then
    /// work date. `NotFound` reports that no contract row carries the
    /// identifier.
    pub fn usage(&self, contract_id: u32) -> (r: Result<ContractUsage, Error>)
        ensures
            r matches Ok(u) ==> exists|j: int|
                #![auto]
                0 <= j < self.contracts().len() && self.contracts()[j].id == contract_id as int
                    && contract_row_decodes(self.contracts()[j]) && u@.start_date
                    == spec_decode_contract(self.contracts()[j]).start_date && u@.end_date
                    == spec_decode_contract(self.contracts()[j]).end_date && u@.total_points
                    == spec_decode_contract(self.contracts()[j]).total_points && usage_decodes(
                    spec_decode_contract(self.contracts()[j]),
                    self.requests(),
                    self.works(),
                ) && usage_fits(
                    spec_decode_contract(self.contracts()[j]),
                    self.requests(),
                    self.works(),
                ) && u@.cumulative_usage == usage_ledger(
                    spec_decode_contract(self.contracts()[j]),
                    self.requests(),
                    self.works(),
                ),
            r matches Err(e) && e is NotFound ==> forall|j: int|
                #![auto]
                0 <= j < self.contracts().len() ==> self.contracts()[j].id != contract_id as int,
            r matches Err(e) ==> e is RusqliteError || e is NotFound || e is InvalidDate
                || e is Overflow,
    {
        let contract = match self.get_contract(contract_id) {
            Ok(c) => c,
            Err(e) => { return Err(e) },
        };
        let ghost j = choose|j: int|
            0 <= j < self.contracts().len() && self.contracts()[j].id == contract_id as int
                && contract_row_decodes(self.contracts()[j]) && contract@ == spec_decode_contract(
                self.contracts()[j],
            );
        let req_rows = match db::query_requests(&self.conn) {
            Ok(v) => v,
            Err(e) => { return Err(Error::RusqliteError(e)) },
        };
        let work_rows = match db::query_works(&self.conn) {
            Ok(v) => v,
            Err(e) => { return Err(Error::RusqliteError(e)) },
        };
        proof {
            assert(req_rows.deep_view() =~= self.requests());
            assert(work_rows.deep_view() =~= self.works());
        }
        let ledger = match usage_from_tables(&contract, &req_rows, &work_rows) {
            Ok(v) => v,
            Err(e) => { return Err(e) },
        };
        let u = ContractUsage {
            start_date: contract.start_date,
            end_date: contract.end_date,
            total_points: contract.total_points,
            cumulative_usage: ledger,
        };
        proof {
            assert(u@.cumulative_usage =~= usage_ledger(
                spec_decode_contract(self.contracts()[j]),
                self.requests(),
                self.works(),
            ));
            assert(0 <= j < self.contracts().len() && self.contracts()[j].id == contract_id as int
                && contract_row_decodes(self.contracts()[j]) && u@.start_date
                == spec_decode_contract(self.contracts()[j]).start_date && u@.end_date
                == spec_decode_contract(self.contracts()[j]).end_date && u@.total_points
                == spec_decode_contract(self.contracts()[j]).total_points && usage_decodes(
                spec_decode_contract(self.contracts()[j]),
                self.requests(),
                self.works(),
            ) && usage_fits(
                spec_decode_contract(self.contracts()[j]),
                self.requests(),
                self.works(),
            ));
        }
        Ok(u)
    }
}

} // verus!
