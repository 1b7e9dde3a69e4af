//! The four entity kinds, their raw-row forms, and the error taxonomy.
//!
//! The storage engine keeps dates as ISO text, so each entity whose record
//! carries a date exists in two forms: a raw row (`ContractRow`, `RequestRow`,
//! `WorkRow`) holding the date text exactly as stored, and the decoded record
//! (`Contract`, `Request`, `Work`) holding a checked `Date`. The per-entity
//! `from_row` functions are the only place where stored text becomes a date;
//! a malformed date surfaces as `Error::InvalidDate` instead of aborting.

use vstd::prelude::*;

use crate::date::{parsed_date, parses_as_date, Date};

verus! {

/// How a storage operation can fail.
#[derive(Debug)]
pub enum Error {
    /// The embedded store itself failed: connection, statement, constraint.
    RusqliteError(rusqlite::Error),
    /// A fetch by identifier matched no row.
    NotFound,
    /// A stored date column does not hold ISO `YYYY-MM-DD` text.
    InvalidDate,
    /// A running points total left the range of its column type.
    Overflow,
}

impl From<rusqlite::Error> for Error {
    fn from(value: rusqlite::Error) -> Self {
        Error::RusqliteError(value)
    }
}

impl vstd::std_specs::convert::FromSpecImpl<rusqlite::Error> for Error {
    open spec fn obeys_from_spec() -> bool {
        true
    }

    open spec fn from_spec(value: rusqlite::Error) -> Error {
        Error::RusqliteError(value)
    }
}

#[derive(Debug)]
pub struct Customer {
    pub id: u32,
    pub name: String,
}

#[derive(Debug, Clone, Copy)]
pub struct Contract {
    pub id: u32,
    pub customer_id: u32,
    pub start_date: Date,
    pub end_date: Date,
    pub total_points: u32,
}

#[derive(Debug)]
pub struct Request {
    pub id: u32,
    pub contract_id: u32,
    pub description: String,
    pub request_date: Date,
}

#[derive(Debug)]
pub struct Work {
    pub id: u32,
    pub request_id: u32,
    pub worker: String,
    pub description: String,
    pub points_used: u32,
    pub work_date: Date,
}

/// A `contract` row as stored, dates still in their text form.
#[derive(Debug)]
pub struct ContractRow {
    pub id: u32,
    pub customer_id: u32,
    pub start_date: String,
    pub end_date: String,
    pub total_points: u32,
}

/// A `request` row as stored, the date still in its text form.
#[derive(Debug)]
pub struct RequestRow {
    pub id: u32,
    pub contract_id: u32,
    pub description: String,
    pub request_date: String,
}

/// A `work` row as stored, the date still in its text form.
#[derive(Debug)]
pub struct WorkRow {
    pub id: u32,
    pub request_id: u32,
    pub worker: String,
    pub description: String,
    pub points_used: u32,
    pub work_date: String,
}

/// One line of the usage ledger: a joined request/work pair together with
/// the running total of points consumed up to and including it.
#[derive(Debug)]
pub struct CumulativeUsage {
    pub request_date: Date,
    pub request_description: String,
    pub worker: String,
    pub work_date: Date,
    pub work_description: String,
    pub points_used: u32,
    pub cumulative_points_used: u32,
}

/// A contract's window and budget together with its ordered usage ledger.
#[derive(Debug)]
pub struct ContractUsage {
    pub start_date: Date,
    pub end_date: Date,
    pub total_points: u32,
    pub cumulative_usage: Vec<CumulativeUsage>,
}

pub ghost struct CustomerV {
    pub id: int,
    pub name: Seq<char>,
}

pub ghost struct ContractRowV {
    pub id: int,
    pub customer_id: u32,
    pub start_date: Seq<char>,
    pub end_date: Seq<char>,
    pub total_points: u32,
}

pub ghost struct RequestRowV {
    pub id: int,
    pub contract_id: u32,
    pub description: Seq<char>,
    pub request_date: Seq<char>,
}

pub ghost struct WorkRowV {
    pub id: int,
    pub request_id: u32,
    pub worker: Seq<char>,
    pub description: Seq<char>,
    pub points_used: u32,
    pub work_date: Seq<char>,
}

pub ghost struct ContractV {
    pub id: int,
    pub customer_id: u32,
    pub start_date: Date,
    pub end_date: Date,
    pub total_points: u32,
}

pub ghost struct RequestV {
    pub id: int,
    pub contract_id: u32,
    pub description: Seq<char>,
    pub request_date: Date,
}

pub ghost struct WorkV {
    pub id: int,
    pub request_id: u32,
    pub worker: Seq<char>,
    pub description: Seq<char>,
    pub points_used: u32,
    pub work_date: Date,
}

pub ghost struct CumulativeUsageV {
    pub request_date: Date,
    pub request_description: Seq<char>,
    pub worker: Seq<char>,
    pub work_date: Date,
    pub work_description: Seq<char>,
    pub points_used: u32,
    pub cumulative_points_used: u32,
}

pub ghost struct ContractUsageV {
    pub start_date: Date,
    pub end_date: Date,
    pub total_points: u32,
    pub cumulative_usage: Seq<CumulativeUsageV>,
}

impl View for Customer {
    type V = CustomerV;

    open spec fn view(&self) -> CustomerV {
        CustomerV { id: self.id as int, name: self.name@ }
    }
}

impl View for Contract {
    type V = ContractV;

    open spec fn view(&self) -> ContractV {
        ContractV {
            id: self.id as int,
            customer_id: self.customer_id,
            start_date: self.start_date,
            end_date: self.end_date,
            total_points: self.total_points,
        }
    }
}

impl View for Request {
    type V = RequestV;

    open spec fn view(&self) -> RequestV {
        RequestV {
            id: self.id as int,
            contract_id: self.contract_id,
            description: self.description@,
            request_date: self.request_date,
        }
    }
}

impl View for Work {
    type V = WorkV;

    open spec fn view(&self) -> WorkV {
        WorkV {
            id: self.id as int,
            request_id: self.request_id,
            worker: self.worker@,
            description: self.description@,
            points_used: self.points_used,
            work_date: self.work_date,
        }
    }
}

impl View for ContractRow {
    type V = ContractRowV;

    open spec fn view(&self) -> ContractRowV {
        ContractRowV {
            id: self.id as int,
            customer_id: self.customer_id,
            start_date: self.start_date@,
            end_date: self.end_date@,
            total_points: self.total_points,
        }
    }
}

impl View for RequestRow {
    type V = RequestRowV;

    open spec fn view(&self) -> RequestRowV {
        RequestRowV {
            id: self.id as int,
            contract_id: self.contract_id,
            description: self.description@,
            request_date: self.request_date@,
        }
    }
}

impl View for WorkRow {
    type V = WorkRowV;

    open spec fn view(&self) -> WorkRowV {
        WorkRowV {
            id: self.id as int,
            request_id: self.request_id,
            worker: self.worker@,
            description: self.description@,
            points_used: self.points_used,
            work_date: self.work_date@,
        }
    }
}

impl View for CumulativeUsage {
    type V = CumulativeUsageV;

    open spec fn view(&self) -> CumulativeUsageV {
        CumulativeUsageV {
            request_date: self.request_date,
            request_description: self.request_description@,
            worker: self.worker@,
            work_date: self.work_date,
            work_description: self.work_description@,
            points_used: self.points_used,
            cumulative_points_used: self.cumulative_points_used,
        }
    }
}

impl View for ContractUsage {
    type V = ContractUsageV;

    open spec fn view(&self) -> ContractUsageV {
        ContractUsageV {
            start_date: self.start_date,
            end_date: self.end_date,
            total_points: self.total_points,
            cumulative_usage: Seq::new(
                self.cumulative_usage@.len(),
                |i: int| self.cumulative_usage@[i]@,
            ),
        }
    }
}

impl Clone for Customer {
    fn clone(&self) -> (r: Self)
        ensures
            r@ == self@,
    {
        Customer { id: self.id, name: self.name.clone() }
    }
}

impl Clone for Request {
    fn clone(&self) -> (r: Self)
        ensures
            r@ == self@,
    {
        Request {
            id: self.id,
            contract_id: self.contract_id,
            description: self.description.clone(),
            request_date: self.request_date,
        }
    }
}

impl Clone for Work {
    fn clone(&self) -> (r: Self)
        ensures
            r@ == self@,
    {
        Work {
            id: self.id,
            request_id: self.request_id,
            worker: self.worker.clone(),
            description: self.description.clone(),
            points_used: self.points_used,
            work_date: self.work_date,
        }
    }
}

/// Both date columns of the row hold well-formed ISO text.
pub open spec fn contract_row_decodes(r: ContractRowV) -> bool {
    parses_as_date(r.start_date) && parses_as_date(r.end_date)
}

pub open spec fn spec_decode_contract(r: ContractRowV) -> ContractV {
    ContractV {
        id: r.id,
        customer_id: r.customer_id,
        start_date: parsed_date(r.start_date),
        end_date: parsed_date(r.end_date),
        total_points: r.total_points,
    }
}

/// The date column of the row holds well-formed ISO text.
pub open spec fn request_row_decodes(r: RequestRowV) -> bool {
    parses_as_date(r.request_date)
}

pub open spec fn spec_decode_request(r: RequestRowV) -> RequestV {
    RequestV {
        id: r.id,
        contract_id: r.contract_id,
        description: r.description,
        request_date: parsed_date(r.request_date),
    }
}

/// The date column of the row holds well-formed ISO text.
pub open spec fn work_row_decodes(r: WorkRowV) -> bool {
    parses_as_date(r.work_date)
}

pub open spec fn spec_decode_work(r: WorkRowV) -> WorkV {
    WorkV {
        id: r.id,
        request_id: r.request_id,
        worker: r.worker,
        description: r.description,
        points_used: r.points_used,
        work_date: parsed_date(r.work_date),
    }
}

impl Contract {
    /// Decodes a stored row, parsing both date columns.
    pub fn from_row(row: &ContractRow) -> (r: Result<Contract, Error>)
        ensures
            r is Ok <==> contract_row_decodes(row@),
            r matches Ok(c) ==> c@ == spec_decode_contract(row@),
            r matches Err(e) ==> e is InvalidDate,
    {
        let start_date = match Date::parse_iso(row.start_date.as_str()) {
            Some(d) => d,
            None => { return Err(Error::InvalidDate) },
        };
        let end_date = match Date::parse_iso(row.end_date.as_str()) {
            Some(d) => d,
            None => { return Err(Error::InvalidDate) },
        };
        Ok(
            Contract {
                id: row.id,
                customer_id: row.customer_id,
                start_date,
                end_date,
                total_points: row.total_points,
            },
        )
    }
}

impl Request {
    /// Decodes a stored row, parsing the date column.
    pub fn from_row(row: &RequestRow) -> (r: Result<Request, Error>)
        ensures
            r is Ok <==> request_row_decodes(row@),
            r matches Ok(q) ==> q@ == spec_decode_request(row@),
            r matches Err(e) ==> e is InvalidDate,
    {
        let request_date = match Date::parse_iso(row.request_date.as_str()) {
            Some(d) => d,
            None => { return Err(Error::InvalidDate) },
        };
        Ok(
            Request {
                id: row.id,
                contract_id: row.contract_id,
                description: row.description.clone(),
                request_date,
            },
        )
    }
}

impl Work {
    /// Decodes a stored row, parsing the date column.
    pub fn from_row(row: &WorkRow) -> (r: Result<Work, Error>)
        ensures
            r is Ok <==> work_row_decodes(row@),
            r matches Ok(w) ==> w@ == spec_decode_work(row@),
            r matches Err(e) ==> e is InvalidDate,
    {
        let work_date = match Date::parse_iso(row.work_date.as_str()) {
            Some(d) => d,
            None => { return Err(Error::InvalidDate) },
        };
        Ok(
            Work {
                id: row.id,
                request_id: row.request_id,
                worker: row.worker.clone(),
                description: row.description.clone(),
                points_used: row.points_used,
                work_date,
            },
        )
    }
}

} // verus!
