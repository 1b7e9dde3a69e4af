//! The repository's and aggregator's stated laws, as proof functions.
//!
//! Each law is phrased over the abstract table views that the `DataStore`
//! contracts speak of, so together with those contracts it describes what a
//! caller observes: what a listing shows after an insert, what an update
//! does to a known or an unknown identifier, and which requests can never
//! contribute to a usage ledger.

use vstd::prelude::*;

use crate::date::{iso_chars, lemma_iso_round_trip, Date};
use crate::db::{contract_inserted, contract_matches, contract_updated, count_id,
    customer_inserted, customer_matches, customer_updated, request_inserted, request_matches,
    request_updated, work_inserted, work_matches, work_updated};
use crate::records::{contract_row_decodes, request_row_decodes, spec_decode_contract,
    spec_decode_request, spec_decode_work, work_row_decodes, ContractRowV, ContractV,
    CumulativeUsageV, CustomerV, RequestRowV, RequestV, WorkRowV, WorkV};
use crate::usage::{has_request, in_window, selected_works, usage_decodes, usage_fits,
    usage_ledger, window_requests};

verus! {

/// `add_customer` then `list_customer`: the listing holds every old record
/// unchanged, in place, followed by exactly one new record carrying the
/// given name under an identifier no earlier record carries.
pub proof fn lemma_add_then_list_customer(
    pre: Seq<CustomerV>,
    post: Seq<CustomerV>,
    name: Seq<char>,
)
    requires
        customer_inserted(pre, post, name),
    ensures
        post.len() == pre.len() + 1,
        forall|j: int| #![auto] 0 <= j < pre.len() ==> post[j] == pre[j],
        post.last().name == name,
        forall|j: int| #![auto] 0 <= j < pre.len() ==> post[j].id != post.last().id,
{
    assert forall|j: int| #![auto] 0 <= j < pre.len() implies post[j] == pre[j] by {
        assert(post.subrange(0, pre.len() as int)[j] == post[j]);
    }
}

/// `add_contract` then `list_contract`: the listing holds every old row
/// unchanged, followed by one new row under a fresh identifier whose stored
/// date text decodes back to exactly the dates that were given.
pub proof fn lemma_add_then_list_contract(
    pre: Seq<ContractRowV>,
    post: Seq<ContractRowV>,
    customer_id: u32,
    start_date: Date,
    end_date: Date,
    total_points: u32,
)
    requires
        start_date.wf(),
        end_date.wf(),
        contract_inserted(
            pre,
            post,
            customer_id,
            iso_chars(start_date),
            iso_chars(end_date),
            total_points,
        ),
    ensures
        post.len() == pre.len() + 1,
        forall|j: int| #![auto] 0 <= j < pre.len() ==> post[j] == pre[j],
        contract_row_decodes(post.last()),
        spec_decode_contract(post.last()) == (ContractV {
            id: post.last().id,
            customer_id,
            start_date,
            end_date,
            total_points,
        }),
        forall|j: int| #![auto] 0 <= j < pre.len() ==> post[j].id != post.last().id,
{
    lemma_iso_round_trip(start_date);
    lemma_iso_round_trip(end_date);
    assert forall|j: int| #![auto] 0 <= j < pre.len() implies post[j] == pre[j] by {
        assert(post.subrange(0, pre.len() as int)[j] == post[j]);
    }
}

/// `add_request` then `list_request`: as for contracts, the new row's date
/// text decodes back to the given request date.
pub proof fn lemma_add_then_list_request(
    pre: Seq<RequestRowV>,
    post: Seq<RequestRowV>,
    contract_id: u32,
    description: Seq<char>,
    request_date: Date,
)
    requires
        request_date.wf(),
        request_inserted(pre, post, contract_id, description, iso_chars(request_date)),
    ensures
        post.len() == pre.len() + 1,
        forall|j: int| #![auto] 0 <= j < pre.len() ==> post[j] == pre[j],
        request_row_decodes(post.last()),
        spec_decode_request(post.last()) == (RequestV {
            id: post.last().id,
            contract_id,
            description,
            request_date,
        }),
        forall|j: int| #![auto] 0 <= j < pre.len() ==> post[j].id != post.last().id,
{
    lemma_iso_round_trip(request_date);
    assert forall|j: int| #![auto] 0 <= j < pre.len() implies post[j] == pre[j] by {
        assert(post.subrange(0, pre.len() as int)[j] == post[j]);
    }
}

/// `add_work` then `list_work`: as for requests, the new row's date text
/// decodes back to the given work date.
pub proof fn lemma_add_then_list_work(
    pre: Seq<WorkRowV>,
    post: Seq<WorkRowV>,
    request_id: u32,
    worker: Seq<char>,
    description: Seq<char>,
    points_used: u32,
    work_date: Date,
)
    requires
        work_date.wf(),
        work_inserted(pre, post, request_id, worker, description, points_used, iso_chars(work_date)),
    ensures
        post.len() == pre.len() + 1,
        forall|j: int| #![auto] 0 <= j < pre.len() ==> post[j] == pre[j],
        work_row_decodes(post.last()),
        spec_decode_work(post.last()) == (WorkV {
            id: post.last().id,
            request_id,
            worker,
            description,
            points_used,
            work_date,
        }),
        forall|j: int| #![auto] 0 <= j < pre.len() ==> post[j].id != post.last().id,
{
    lemma_iso_round_trip(work_date);
    assert forall|j: int| #![auto] 0 <= j < pre.len() implies post[j] == pre[j] by {
        assert(post.subrange(0, pre.len() as int)[j] == post[j]);
    }
}

proof fn lemma_count_id_none(ids: Seq<int>, id: int)
    requires
        forall|j: int| #![auto] 0 <= j < ids.len() ==> ids[j] != id,
    ensures
        count_id(ids, id) == 0,
    decreases ids.len(),
{
    if ids.len() > 0 {
        lemma_count_id_none(ids.drop_last(), id);
    }
}

proof fn lemma_count_id_single(ids: Seq<int>, id: int, at: int)
    requires
        0 <= at < ids.len(),
        ids[at] == id,
        forall|j: int| #![auto] 0 <= j < ids.len() && j != at ==> ids[j] != id,
    ensures
        count_id(ids, id) == 1,
    decreases ids.len(),
{
    if at == ids.len() - 1 {
        lemma_count_id_none(ids.drop_last(), id);
    } else {
        lemma_count_id_single(ids.drop_last(), id, at);
    }
}

/// `save_customer` with an identifier no row carries reports zero changed
/// rows and leaves the table exactly as it was.
pub proof fn lemma_save_unknown_customer(
    pre: Seq<CustomerV>,
    post: Seq<CustomerV>,
    id: u32,
    name: Seq<char>,
)
    requires
        customer_updated(pre, post, id, name),
        forall|j: int| #![auto] 0 <= j < pre.len() ==> pre[j].id != id as int,
    ensures
        customer_matches(pre, id) == 0,
        post =~= pre,
{
    lemma_count_id_none(pre.map_values(|r: CustomerV| r.id), id as int);
}

/// `save_customer` on the one row carrying the identifier reports one
/// changed row, replaces that row's every mutable field, and leaves every
/// other row unchanged.
pub proof fn lemma_save_existing_customer(
    pre: Seq<CustomerV>,
    post: Seq<CustomerV>,
    id: u32,
    name: Seq<char>,
    at: int,
)
    requires
        customer_updated(pre, post, id, name),
        0 <= at < pre.len(),
        pre[at].id == id as int,
        forall|j: int| #![auto] 0 <= j < pre.len() && j != at ==> pre[j].id != id as int,
    ensures
        customer_matches(pre, id) == 1,
        post[at] == (CustomerV { id: id as int, name }),
        forall|j: int| #![auto] 0 <= j < pre.len() && j != at ==> post[j] == pre[j],
{
    lemma_count_id_single(pre.map_values(|r: CustomerV| r.id), id as int, at);
}

/// `save_contract` with an identifier no row carries reports zero changed
/// rows and leaves the table exactly as it was.
pub proof fn lemma_save_unknown_contract(
    pre: Seq<ContractRowV>,
    post: Seq<ContractRowV>,
    id: u32,
    customer_id: u32,
    start_date: Seq<char>,
    end_date: Seq<char>,
    total_points: u32,
)
    requires
        contract_updated(pre, post, id, customer_id, start_date, end_date, total_points),
        forall|j: int| #![auto] 0 <= j < pre.len() ==> pre[j].id != id as int,
    ensures
        contract_matches(pre, id) == 0,
        post =~= pre,
{
    lemma_count_id_none(pre.map_values(|r: ContractRowV| r.id), id as int);
}

/// `save_contract` on the one row carrying the identifier reports one
/// changed row and replaces that row's every mutable field.
pub proof fn lemma_save_existing_contract(
    pre: Seq<ContractRowV>,
    post: Seq<ContractRowV>,
    id: u32,
    customer_id: u32,
    start_date: Seq<char>,
    end_date: Seq<char>,
    total_points: u32,
    at: int,
)
    requires
        contract_updated(pre, post, id, customer_id, start_date, end_date, total_points),
        0 <= at < pre.len(),
        pre[at].id == id as int,
        forall|j: int| #![auto] 0 <= j < pre.len() && j != at ==> pre[j].id != id as int,
    ensures
        contract_matches(pre, id) == 1,
        post[at] == (ContractRowV { id: id as int, customer_id, start_date, end_date, total_points }),
        forall|j: int| #![auto] 0 <= j < pre.len() && j != at ==> post[j] == pre[j],
{
    lemma_count_id_single(pre.map_values(|r: ContractRowV| r.id), id as int, at);
}

/// `save_request` with an identifier no row carries reports zero changed
/// rows and leaves the table exactly as it was.
pub proof fn lemma_save_unknown_request(
    pre: Seq<RequestRowV>,
    post: Seq<RequestRowV>,
    id: u32,
    contract_id: u32,
    description: Seq<char>,
    request_date: Seq<char>,
)
    requires
        request_updated(pre, post, id, contract_id, description, request_date),
        forall|j: int| #![auto] 0 <= j < pre.len() ==> pre[j].id != id as int,
    ensures
        request_matches(pre, id) == 0,
        post =~= pre,
{
    lemma_count_id_none(pre.map_values(|r: RequestRowV| r.id), id as int);
}

/// `save_request` on the one row carrying the identifier reports one
/// changed row and replaces that row's every mutable field.
pub proof fn lemma_save_existing_request(
    pre: Seq<RequestRowV>,
    post: Seq<RequestRowV>,
    id: u32,
    contract_id: u32,
    description: Seq<char>,
    request_date: Seq<char>,
    at: int,
)
    requires
        request_updated(pre, post, id, contract_id, description, request_date),
        0 <= at < pre.len(),
        pre[at].id == id as int,
        forall|j: int| #![auto] 0 <= j < pre.len() && j != at ==> pre[j].id != id as int,
    ensures
        request_matches(pre, id) == 1,
        post[at] == (RequestRowV { id: id as int, contract_id, description, request_date }),
        forall|j: int| #![auto] 0 <= j < pre.len() && j != at ==> post[j] == pre[j],
{
    lemma_count_id_single(pre.map_values(|r: RequestRowV| r.id), id as int, at);
}

/// `save_work` with an identifier no row carries reports zero changed rows
/// and leaves the table exactly as it was.
pub proof fn lemma_save_unknown_work(
    pre: Seq<WorkRowV>,
    post: Seq<WorkRowV>,
    id: u32,
    request_id: u32,
    worker: Seq<char>,
    description: Seq<char>,
    points_used: u32,
    work_date: Seq<char>,
)
    requires
        work_updated(pre, post, id, request_id, worker, description, points_used, work_date),
        forall|j: int| #![auto] 0 <= j < pre.len() ==> pre[j].id != id as int,
    ensures
        work_matches(pre, id) == 0,
        post =~= pre,
{
    lemma_count_id_none(pre.map_values(|r: WorkRowV| r.id), id as int);
}

/// `save_work` on the one row carrying the identifier reports one changed
/// row and replaces that row's every mutable field.
pub proof fn lemma_save_existing_work(
    pre: Seq<WorkRowV>,
    post: Seq<WorkRowV>,
    id: u32,
    request_id: u32,
    worker: Seq<char>,
    description: Seq<char>,
    points_used: u32,
    work_date: Seq<char>,
    at: int,
)
    requires
        work_updated(pre, post, id, request_id, worker, description, points_used, work_date),
        0 <= at < pre.len(),
        pre[at].id == id as int,
        forall|j: int| #![auto] 0 <= j < pre.len() && j != at ==> pre[j].id != id as int,
    ensures
        work_matches(pre, id) == 1,
        post[at] == (WorkRowV {
            id: id as int,
            request_id,
            worker,
            description,
            points_used,
            work_date,
        }),
        forall|j: int| #![auto] 0 <= j < pre.len() && j != at ==> post[j] == pre[j],
{
    lemma_count_id_single(pre.map_values(|r: WorkRowV| r.id), id as int, at);
}

/// A request dated outside the contract's inclusive window contributes no
/// ledger line, however much work is logged against it: appending such a
/// request row changes neither the usage ledger nor whether its total fits.
pub proof fn lemma_out_of_window_request_excluded(
    c: ContractV,
    req_rows: Seq<RequestRowV>,
    row: RequestRowV,
    work_rows: Seq<WorkRowV>,
)
    requires
        request_row_decodes(row),
        !in_window(c, spec_decode_request(row).request_date),
    ensures
        usage_ledger(c, req_rows.push(row), work_rows) == usage_ledger(c, req_rows, work_rows),
        usage_fits(c, req_rows.push(row), work_rows) == usage_fits(c, req_rows, work_rows),
{
    assert(req_rows.push(row).drop_last() =~= req_rows);
    assert(window_requests(c, req_rows.push(row)) == window_requests(c, req_rows));
}

proof fn lemma_selected_works_no_requests(rows: Seq<WorkRowV>)
    ensures
        selected_works(Seq::empty(), rows) == Seq::<WorkV>::empty(),
    decreases rows.len(),
{
    if rows.len() > 0 {
        lemma_selected_works_no_requests(rows.drop_last());
        assert(!has_request(Seq::empty(), rows.last().request_id));
    }
}

/// A contract with no work rows, or with no request rows at all, yields an
/// empty usage ledger; its total of zero points always fits, and with no
/// request rows there is no date left to decode, so the aggregation is owed
/// success.
pub proof fn lemma_empty_usage(
    c: ContractV,
    req_rows: Seq<RequestRowV>,
    work_rows: Seq<WorkRowV>,
)
    ensures
        usage_ledger(c, req_rows, Seq::empty()) == Seq::<CumulativeUsageV>::empty(),
        usage_fits(c, req_rows, Seq::empty()),
        usage_ledger(c, Seq::empty(), work_rows) == Seq::<CumulativeUsageV>::empty(),
        usage_fits(c, Seq::empty(), work_rows),
        usage_decodes(c, Seq::empty(), work_rows),
{
    lemma_selected_works_no_requests(work_rows);
    assert(usage_ledger(c, req_rows, Seq::empty()) =~= Seq::<CumulativeUsageV>::empty());
    assert(usage_ledger(c, Seq::empty(), work_rows) =~= Seq::<CumulativeUsageV>::empty());
}

} // verus!
