//! The command surface as data: what a parsed invocation asks the store to
//! do, and what it answers.
//!
//! Argument parsing, the editor round trip and printing stay outside the
//! library; they hand over a `Cli` value holding plain fields and receive an
//! `Output` back. `Cli::run` dispatches each command to the repository or
//! the aggregator; its contract restates, per command, what the dispatched
//! operation does to the four tables and which shape of output it answers.
//! For the edit commands the identifier of the stored row comes from the
//! command, never from the edited record, so an edit can neither lose nor
//! forge a record's identity.

use vstd::prelude::*;

use crate::date::{iso_chars, Date};
use crate::db::{contract_inserted, contract_matches, contract_updated, customer_inserted,
    customer_matches, customer_updated, request_inserted, request_matches, request_updated,
    work_inserted, work_matches, work_updated};
use crate::records::{contract_row_decodes, request_row_decodes, spec_decode_contract,
    spec_decode_request, spec_decode_work, work_row_decodes, Contract, ContractUsage, Customer,
    Error, Request, Work};
use crate::store::DataStore;
use crate::usage::{usage_decodes, usage_fits, usage_ledger};

verus! {

/// One parsed invocation.
#[allow(inconsistent_fields)]
pub enum Command {
    AddCustomer { name: String },
    AddContract { customer_id: u32, start_date: Date, end_date: Date, total_points: u32 },
    AddRequest { contract_id: u32, description: String, request_date: Date },
    AddWork {
        request_id: u32,
        worker: String,
        description: String,
        points_used: u32,
        work_date: Date,
    },
    ListCustomers,
    ListContracts,
    ListRequests,
    ListWorks,
    ShowCustomer { id: u32 },
    ShowContract { id: u32 },
    ShowRequest { id: u32 },
    ShowWork { id: u32 },
    ShowUsage { contract_id: u32 },
    EditCustomer { id: u32, edited: Customer },
    EditContract { id: u32, edited: Contract },
    EditRequest { id: u32, edited: Request },
    EditWork { id: u32, edited: Work },
}

impl Command {
    /// Every date the command carries names a real calendar day.
    pub open spec fn wf(self) -> bool {
        match self {
            Command::AddContract { start_date, end_date, .. } => start_date.wf()
                && end_date.wf(),
            Command::AddRequest { request_date, .. } => request_date.wf(),
            Command::AddWork { work_date, .. } => work_date.wf(),
            Command::EditContract { edited, .. } => edited.start_date.wf()
                && edited.end_date.wf(),
            Command::EditRequest { edited, .. } => edited.request_date.wf(),
            Command::EditWork { edited, .. } => edited.work_date.wf(),
            _ => true,
        }
    }

    /// Whether the command writes to the store.
    pub open spec fn mutates(self) -> bool {
        match self {
            Command::AddCustomer { .. } => true,
            Command::AddContract { .. } => true,
            Command::AddRequest { .. } => true,
            Command::AddWork { .. } => true,
            Command::EditCustomer { .. } => true,
            Command::EditContract { .. } => true,
            Command::EditRequest { .. } => true,
            Command::EditWork { .. } => true,
            _ => false,
        }
    }
}

/// What a command answers: a changed-row count, a listing, one record, or
/// a usage ledger.
pub enum Output {
    Rows(usize),
    Customers(Vec<Customer>),
    Contracts(Vec<Contract>),
    Requests(Vec<Request>),
    Works(Vec<Work>),
    Customer(Customer),
    Contract(Contract),
    Request(Request),
    Work(Work),
    Usage(ContractUsage),
}

pub struct Cli {
    pub command: Command,
}

impl Cli {
    /// Dispatches the parsed command against the store.
    pub fn run(&self, ds: &mut DataStore) -> (r: Result<Output, Error>)
        requires
            self.command.wf(),
        ensures
            !self.command.mutates() ==> *final(ds) == *old(ds),
            self.command matches Command::AddCustomer { name } ==> {
                &&& r matches Ok(o) ==> o matches Output::Rows(n) && n == 1 && customer_inserted(
                    old(ds).customers(),
                    final(ds).customers(),
                    name@,
                )
                &&& r is Err ==> final(ds).customers() == old(ds).customers()
                &&& final(ds).contracts() == old(ds).contracts()
                &&& final(ds).requests() == old(ds).requests()
                &&& final(ds).works() == old(ds).works()
            },
            self.command matches Command::AddContract {
                customer_id,
                start_date,
                end_date,
                total_points,
            } ==> {
                &&& r matches Ok(o) ==> o matches Output::Rows(n) && n == 1 && contract_inserted(
                    old(ds).contracts(),
                    final(ds).contracts(),
                    customer_id,
                    iso_chars(start_date),
                    iso_chars(end_date),
                    total_points,
                )
                &&& r is Err ==> final(ds).contracts() == old(ds).contracts()
                &&& final(ds).customers() == old(ds).customers()
                &&& final(ds).requests() == old(ds).requests()
                &&& final(ds).works() == old(ds).works()
            },
            self.command matches Command::AddRequest { contract_id, description, request_date }
                ==> {
                &&& r matches Ok(o) ==> o matches Output::Rows(n) && n == 1 && request_inserted(
                    old(ds).requests(),
                    final(ds).requests(),
                    contract_id,
                    description@,
                    iso_chars(request_date),
                )
                &&& r is Err ==> final(ds).requests() == old(ds).requests()
                &&& final(ds).customers() == old(ds).customers()
                &&& final(ds).contracts() == old(ds).contracts()
                &&& final(ds).works() == old(ds).works()
            },
            self.command matches Command::AddWork {
                request_id,
                worker,
                description,
                points_used,
                work_date,
            } ==> {
                &&& r matches Ok(o) ==> o matches Output::Rows(n) && n == 1 && work_inserted(
                    old(ds).works(),
                    final(ds).works(),
                    request_id,
                    worker@,
                    description@,
                    points_used,
                    iso_chars(work_date),
                )
                &&& r is Err ==> final(ds).works() == old(ds).works()
                &&& final(ds).customers() == old(ds).customers()
                &&& final(ds).contracts() == old(ds).contracts()
                &&& final(ds).requests() == old(ds).requests()
            },
            self.command is ListCustomers ==> (r matches Ok(o) ==> o matches Output::Customers(v)
                && v@.len() == old(ds).customers().len() && (forall|i: int|
                #![auto]
                0 <= i < v@.len() ==> v@[i]@ == old(ds).customers()[i])),
            self.command is ListContracts ==> (r matches Ok(o) ==> o matches Output::Contracts(v)
                && v@.len() == old(ds).contracts().len() && (forall|i: int|
                #![auto]
                0 <= i < v@.len() ==> contract_row_decodes(old(ds).contracts()[i]) && v@[i]@
                    == spec_decode_contract(old(ds).contracts()[i]))),
            self.command is ListRequests ==> (r matches Ok(o) ==> o matches Output::Requests(v)
                && v@.len() == old(ds).requests().len() && (forall|i: int|
                #![auto]
                0 <= i < v@.len() ==> request_row_decodes(old(ds).requests()[i]) && v@[i]@
                    == spec_decode_request(old(ds).requests()[i]))),
            self.command is ListWorks ==> (r matches Ok(o) ==> o matches Output::Works(v)
                && v@.len() == old(ds).works().len() && (forall|i: int|
                #![auto]
                0 <= i < v@.len() ==> work_row_decodes(old(ds).works()[i]) && v@[i]@
                    == spec_decode_work(old(ds).works()[i]))),
            self.command matches Command::ShowCustomer { id } ==> {
                &&& r matches Ok(o) ==> o matches Output::Customer(c) && c@.id == id as int && (
                exists|j: int|
                    #![auto]
                    0 <= j < old(ds).customers().len() && old(ds).customers()[j] == c@)
                &&& (r matches Err(e) && e is NotFound ==> forall|j: int|
                    #![auto]
                    0 <= j < old(ds).customers().len() ==> old(ds).customers()[j].id != id as int)
            },
            self.command matches Command::ShowContract { id } ==> {
                &&& r matches Ok(o) ==> o matches Output::Contract(c) && c@.id == id as int && (
                exists|j: int|
                    #![auto]
                    0 <= j < old(ds).contracts().len() && old(ds).contracts()[j].id == id as int
                        && contract_row_decodes(old(ds).contracts()[j]) && c@
                        == spec_decode_contract(old(ds).contracts()[j]))
                &&& (r matches Err(e) && e is NotFound ==> forall|j: int|
                    #![auto]
                    0 <= j < old(ds).contracts().len() ==> old(ds).contracts()[j].id != id as int)
            },
            self.command matches Command::ShowRequest { id } ==> {
                &&& r matches Ok(o) ==> o matches Output::Request(q) && q@.id == id as int && (
                exists|j: int|
                    #![auto]
                    0 <= j < old(ds).requests().len() && old(ds).requests()[j].id == id as int
                        && request_row_decodes(old(ds).requests()[j]) && q@ == spec_decode_request(
                        old(ds).requests()[j],
                    ))
                &&& (r matches Err(e) && e is NotFound ==> forall|j: int|
                    #![auto]
                    0 <= j < old(ds).requests().len() ==> old(ds).requests()[j].id != id as int)
            },
            self.command matches Command::ShowWork { id } ==> {
                &&& r matches Ok(o) ==> o matches Output::Work(w) && w@.id == id as int && (
                exists|j: int|
                    #![auto]
                    0 <= j < old(ds).works().len() && old(ds).works()[j].id == id as int
                        && work_row_decodes(old(ds).works()[j]) && w@ == spec_decode_work(
                        old(ds).works()[j],
                    ))
                &&& (r matches Err(e) && e is NotFound ==> forall|j: int|
                    #![auto]
                    0 <= j < old(ds).works().len() ==> old(ds).works()[j].id != id as int)
            },
            self.command matches Command::ShowUsage { contract_id } ==> {
                &&& r matches Ok(o) ==> o matches Output::Usage(u) && (exists|j: int|
                    #![auto]
                    0 <= j < old(ds).contracts().len() && old(ds).contracts()[j].id
                        == contract_id as int && contract_row_decodes(old(ds).contracts()[j])
                        && u@.start_date == spec_decode_contract(
                        old(ds).contracts()[j],
                    ).start_date && u@.end_date == spec_decode_contract(
                        old(ds).contracts()[j],
                    ).end_date && u@.total_points == spec_decode_contract(
                        old(ds).contracts()[j],
                    ).total_points && usage_decodes(
                        spec_decode_contract(old(ds).contracts()[j]),
                        old(ds).requests(),
                        old(ds).works(),
                    ) && usage_fits(
                        spec_decode_contract(old(ds).contracts()[j]),
                        old(ds).requests(),
                        old(ds).works(),
                    ) && u@.cumulative_usage == usage_ledger(
                        spec_decode_contract(old(ds).contracts()[j]),
                        old(ds).requests(),
                        old(ds).works(),
                    ))
                &&& (r matches Err(e) && e is NotFound ==> forall|j: int|
                    #![auto]
                    0 <= j < old(ds).contracts().len() ==> old(ds).contracts()[j].id
                        != contract_id as int)
            },
            self.command matches Command::EditCustomer { id, edited } ==> {
                &&& r matches Ok(o) ==> o matches Output::Rows(n) && n == customer_matches(
                    old(ds).customers(),
                    id,
                ) && customer_updated(
                    old(ds).customers(),
                    final(ds).customers(),
                    id,
                    edited.name@,
                )
                &&& r is Err ==> final(ds).customers() == old(ds).customers()
                &&& final(ds).contracts() == old(ds).contracts()
                &&& final(ds).requests() == old(ds).requests()
                &&& final(ds).works() == old(ds).works()
            },
            self.command matches Command::EditContract { id, edited } ==> {
                &&& r matches Ok(o) ==> o matches Output::Rows(n) && n == contract_matches(
                    old(ds).contracts(),
                    id,
                ) && contract_updated(
                    old(ds).contracts(),
                    final(ds).contracts(),
                    id,
                    edited.customer_id,
                    iso_chars(edited.start_date),
                    iso_chars(edited.end_date),
                    edited.total_points,
                )
                &&& r is Err ==> final(ds).contracts() == old(ds).contracts()
                &&& final(ds).customers() == old(ds).customers()
                &&& final(ds).requests() == old(ds).requests()
                &&& final(ds).works() == old(ds).works()
            },
            self.command matches Command::EditRequest { id, edited } ==> {
                &&& r matches Ok(o) ==> o matches Output::Rows(n) && n == request_matches(
                    old(ds).requests(),
                    id,
                ) && request_updated(
                    old(ds).requests(),
                    final(ds).requests(),
                    id,
                    edited.contract_id,
                    edited.description@,
                    iso_chars(edited.request_date),
                )
                &&& r is Err ==> final(ds).requests() == old(ds).requests()
                &&& final(ds).customers() == old(ds).customers()
                &&& final(ds).contracts() == old(ds).contracts()
                &&& final(ds).works() == old(ds).works()
            },
            self.command matches Command::EditWork { id, edited } ==> {
                &&& r matches Ok(o) ==> o matches Output::Rows(n) && n == work_matches(
                    old(ds).works(),
                    id,
                ) && work_updated(
                    old(ds).works(),
                    final(ds).works(),
                    id,
                    edited.request_id,
                    edited.worker@,
                    edited.description@,
                    edited.points_used,
                    iso_chars(edited.work_date),
                )
                &&& r is Err ==> final(ds).works() == old(ds).works()
                &&& final(ds).customers() == old(ds).customers()
                &&& final(ds).contracts() == old(ds).contracts()
                &&& final(ds).requests() == old(ds).requests()
            },
    {
        match &self.command {
            Command::AddCustomer { name } => {
                match ds.add_customer(name.as_str()) {
                    Ok(n) => Ok(Output::Rows(n)),
                    Err(e) => Err(e),
                }
            },
            Command::AddContract { customer_id, start_date, end_date, total_points } => {
                match ds.add_contract(*customer_id, start_date, end_date, *total_points) {
                    Ok(n) => Ok(Output::Rows(n)),
                    Err(e) => Err(e),
                }
            },
            Command::AddRequest { contract_id, description, request_date } => {
                match ds.add_request(*contract_id, description.as_str(), request_date) {
                    Ok(n) => Ok(Output::Rows(n)),
                    Err(e) => Err(e),
                }
            },
            Command::AddWork { request_id, worker, description, points_used, work_date } => {
                match ds.add_work(
                    *request_id,
                    worker.as_str(),
                    description.as_str(),
                    *points_used,
                    work_date,
                ) {
                    Ok(n) => Ok(Output::Rows(n)),
                    Err(e) => Err(e),
                }
            },
            Command::ListCustomers => {
                match ds.list_customer() {
                    Ok(v) => Ok(Output::Customers(v)),
                    Err(e) => Err(e),
                }
            },
            Command::ListContracts => {
                match ds.list_contract() {
                    Ok(v) => Ok(Output::Contracts(v)),
                    Err(e) => Err(e),
                }
            },
            Command::ListRequests => {
                match ds.list_request() {
                    Ok(v) => Ok(Output::Requests(v)),
                    Err(e) => Err(e),
                }
            },
            Command::ListWorks => {
                match ds.list_work() {
                    Ok(v) => Ok(Output::Works(v)),
                    Err(e) => Err(e),
                }
            },
            Command::ShowCustomer { id } => {
                match ds.get_customer(*id) {
                    Ok(c) => Ok(Output::Customer(c)),
                    Err(e) => Err(e),
                }
            },
            Command::ShowContract { id } => {
                match ds.get_contract(*id) {
                    Ok(c) => Ok(Output::Contract(c)),
                    Err(e) => Err(e),
                }
            },
            Command::ShowRequest { id } => {
                match ds.get_request(*id) {
                    Ok(q) => Ok(Output::Request(q)),
                    Err(e) => Err(e),
                }
            },
            Command::ShowWork { id } => {
                match ds.get_work(*id) {
                    Ok(w) => Ok(Output::Work(w)),
                    Err(e) => Err(e),
                }
            },
            Command::ShowUsage { contract_id } => {
                match ds.usage(*contract_id) {
                    Ok(u) => Ok(Output::Usage(u)),
                    Err(e) => Err(e),
                }
            },
            Command::EditCustomer { id, edited } => {
                let mut entity = edited.clone();
                entity.id = *id;
                match ds.save_customer(entity) {
                    Ok(n) => Ok(Output::Rows(n)),
                    Err(e) => Err(e),
                }
            },
            Command::EditContract { id, edited } => {
                let mut entity = edited.clone();
                entity.id = *id;
                match ds.save_contract(entity) {
                    Ok(n) => Ok(Output::Rows(n)),
                    Err(e) => Err(e),
                }
            },
            Command::EditRequest { id, edited } => {
                let mut entity = edited.clone();
                entity.id = *id;
                match ds.save_request(entity) {
                    Ok(n) => Ok(Output::Rows(n)),
                    Err(e) => Err(e),
                }
            },
            Command::EditWork { id, edited } => {
                let mut entity = edited.clone();
                entity.id = *id;
                match ds.save_work(entity) {
                    Ok(n) => Ok(Output::Rows(n)),
                    Err(e) => Err(e),
                }
            },
        }
    }
}

} // verus!
