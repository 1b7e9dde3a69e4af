//! The usage aggregator: for one contract, the chronologically ordered
//! running total of points consumed by work logged against the contract's
//! requests, restricted to requests dated inside the contract's window.
//!
//! The pipeline mirrors the relational query it replaces. From the raw
//! tables it selects the contract's requests (decoding their dates),
//! keeps those dated inside the inclusive `[start_date, end_date]` window,
//! selects and decodes the work entries joined to them, orders the joined
//! pairs by request date then work date — a stable order, ties keeping the
//! join's own order — and carries a running sum of `points_used` across the
//! result. Every step is specified by a spec function and the executable
//! code is proved equal to the composition.

use vstd::prelude::*;

use crate::date::Date;
use crate::records::{request_row_decodes, spec_decode_request, spec_decode_work,
    work_row_decodes, Contract, ContractV, CumulativeUsage, CumulativeUsageV, Error, Request,
    RequestRow, RequestRowV, RequestV, Work, WorkRow, WorkRowV, WorkV};

verus! {

/// The date lies inside the contract's window, inclusive on both ends.
pub open spec fn in_window(c: ContractV, d: Date) -> bool {
    c.start_date.spec_le(d) && d.spec_le(c.end_date)
}

/// One joined row: a work entry together with the request it was logged
/// against.
pub ghost struct PairV {
    pub req: RequestV,
    pub work: WorkV,
}

/// The request is the one the work entry was logged against.
pub open spec fn work_joins_request(r: RequestV, w: WorkV) -> bool {
    r.id == w.request_id as int
}

/// The contract's requests dated inside its window, decoded, in stored
/// order. A row of another contract, or one whose date text is malformed
/// or out of window, contributes nothing.
pub open spec fn window_requests(c: ContractV, rows: Seq<RequestRowV>) -> Seq<RequestV>
    decreases rows.len(),
{
    if rows.len() == 0 {
        Seq::empty()
    } else {
        let rest = window_requests(c, rows.drop_last());
        let row = rows.last();
        if row.contract_id as int == c.id && request_row_decodes(row) && in_window(
            c,
            spec_decode_request(row).request_date,
        ) {
            rest.push(spec_decode_request(row))
        } else {
            rest
        }
    }
}

/// Every row of the contract carries well-formed date text.
pub open spec fn request_rows_decode(cid: int, rows: Seq<RequestRowV>) -> bool {
    forall|i: int|
        #![auto]
        0 <= i < rows.len() && rows[i].contract_id as int == cid ==> request_row_decodes(rows[i])
}

/// Some request in the sequence carries the identifier.
pub open spec fn has_request(reqs: Seq<RequestV>, rid: u32) -> bool {
    exists|i: int| #![auto] 0 <= i < reqs.len() && reqs[i].id == rid as int
}

/// The work entries logged against one of the given requests, decoded, in
/// stored order.
pub open spec fn selected_works(reqs: Seq<RequestV>, rows: Seq<WorkRowV>) -> Seq<WorkV>
    decreases rows.len(),
{
    if rows.len() == 0 {
        Seq::empty()
    } else {
        let rest = selected_works(reqs, rows.drop_last());
        let row = rows.last();
        if has_request(reqs, row.request_id) && work_row_decodes(row) {
            rest.push(spec_decode_work(row))
        } else {
            rest
        }
    }
}

/// Every work row joined to one of the given requests carries well-formed
/// date text.
pub open spec fn work_rows_decode(reqs: Seq<RequestV>, rows: Seq<WorkRowV>) -> bool {
    forall|i: int|
        #![auto]
        0 <= i < rows.len() && has_request(reqs, rows[i].request_id) ==> work_row_decodes(rows[i])
}

/// The pairs one work entry makes with the matching requests, in request
/// order.
pub open spec fn pairs_for(reqs: Seq<RequestV>, w: WorkV) -> Seq<PairV>
    decreases reqs.len(),
{
    if reqs.len() == 0 {
        Seq::empty()
    } else {
        let rest = pairs_for(reqs.drop_last(), w);
        if work_joins_request(reqs.last(), w) {
            rest.push(PairV { req: reqs.last(), work: w })
        } else {
            rest
        }
    }
}

/// The inner join of the work entries with the requests, in work order,
/// each work entry paired with its matching requests.
pub open spec fn joined_pairs(reqs: Seq<RequestV>, works: Seq<WorkV>) -> Seq<PairV>
    decreases works.len(),
{
    if works.len() == 0 {
        Seq::empty()
    } else {
        joined_pairs(reqs, works.drop_last()) + pairs_for(reqs, works.last())
    }
}

/// The sort key order: request date first, then work date. Ties leave the
/// pairs equal under the key, so a stable sort keeps their join order.
pub open spec fn key_le(a: PairV, b: PairV) -> bool {
    if a.req.request_date == b.req.request_date {
        a.work.work_date.spec_le(b.work.work_date)
    } else {
        a.req.request_date.spec_le(b.req.request_date)
    }
}

/// Where a stable insertion places `x` in `s`: after every element whose
/// key is less than or equal to `x`'s.
pub open spec fn insert_pos(x: PairV, s: Seq<PairV>) -> int
    decreases s.len(),
{
    if s.len() == 0 {
        0
    } else if !key_le(s[0], x) {
        0
    } else {
        1 + insert_pos(x, s.drop_first())
    }
}

pub open spec fn insert_sorted(x: PairV, s: Seq<PairV>) -> Seq<PairV> {
    s.insert(insert_pos(x, s), x)
}

/// Stable insertion sort by `key_le`: each pair, in join order, is placed
/// after every earlier pair whose key is not greater.
pub open spec fn sort_pairs(s: Seq<PairV>) -> Seq<PairV>
    decreases s.len(),
{
    if s.len() == 0 {
        Seq::empty()
    } else {
        insert_sorted(s.last(), sort_pairs(s.drop_last()))
    }
}

/// The pairs stand in key order.
pub open spec fn sorted_by_key(s: Seq<PairV>) -> bool {
    forall|i: int, j: int| 0 <= i < j < s.len() ==> key_le(s[i], s[j])
}

proof fn lemma_key_le_total(a: PairV, b: PairV)
    ensures
        key_le(a, b) || key_le(b, a),
{
}

proof fn lemma_key_le_trans(a: PairV, b: PairV, c: PairV)
    requires
        key_le(a, b),
        key_le(b, c),
    ensures
        key_le(a, c),
{
}

proof fn lemma_insert_pos_prefix(x: PairV, s: Seq<PairV>)
    ensures
        forall|i: int| #![auto] 0 <= i < insert_pos(x, s) ==> key_le(s[i], x),
    decreases s.len(),
{
    if s.len() == 0 {
    } else if !key_le(s[0], x) {
    } else {
        lemma_insert_pos_prefix(x, s.drop_first());
        lemma_insert_pos_bounds(x, s.drop_first());
        assert forall|i: int| #![auto] 0 <= i < insert_pos(x, s) implies key_le(s[i], x) by {
            if i > 0 {
                assert(s.drop_first()[i - 1] == s[i]);
                assert(0 <= i - 1 < insert_pos(x, s.drop_first()));
            }
        }
    }
}

proof fn lemma_insert_pos_stop(x: PairV, s: Seq<PairV>)
    ensures
        insert_pos(x, s) < s.len() ==> !key_le(s[insert_pos(x, s)], x),
    decreases s.len(),
{
    if s.len() == 0 {
    } else if !key_le(s[0], x) {
    } else {
        lemma_insert_pos_stop(x, s.drop_first());
        lemma_insert_pos_bounds(x, s.drop_first());
        let q = insert_pos(x, s.drop_first());
        if q < s.drop_first().len() {
            assert(s.drop_first()[q] == s[q + 1]);
        }
    }
}

proof fn lemma_insert_sorted_order(x: PairV, s: Seq<PairV>)
    requires
        sorted_by_key(s),
    ensures
        sorted_by_key(insert_sorted(x, s)),
{
    lemma_insert_pos_bounds(x, s);
    lemma_insert_pos_prefix(x, s);
    lemma_insert_pos_stop(x, s);
    let p = insert_pos(x, s);
    let t = s.insert(p, x);
    s.insert_ensures(p, x);
    assert forall|i: int, j: int| 0 <= i < j < t.len() implies key_le(t[i], t[j]) by {
        if p < s.len() {
            lemma_key_le_total(x, s[p]);
        }
        if i == p && j > p {
            if j - 1 > p {
                lemma_key_le_trans(x, s[p], s[j - 1]);
            }
        }
    }
}

/// Sorting never loses, invents or duplicates a pair: the sorted sequence
/// is a rearrangement of its input.
pub proof fn lemma_sort_pairs_permutes(s: Seq<PairV>)
    ensures
        sort_pairs(s).to_multiset() == s.to_multiset(),
        sort_pairs(s).len() == s.len(),
    decreases s.len(),
{
    broadcast use vstd::seq_lib::group_to_multiset_ensures;

    if s.len() == 0 {
    } else {
        lemma_sort_pairs_permutes(s.drop_last());
        lemma_insert_pos_bounds(s.last(), sort_pairs(s.drop_last()));
        assert(s =~= s.drop_last().push(s.last()));
    }
}

/// Sorting leaves the pairs in key order.
pub proof fn lemma_sort_pairs_sorted(s: Seq<PairV>)
    ensures
        sorted_by_key(sort_pairs(s)),
    decreases s.len(),
{
    if s.len() > 0 {
        lemma_sort_pairs_sorted(s.drop_last());
        lemma_insert_sorted_order(s.last(), sort_pairs(s.drop_last()));
    }
}

/// The ledger's pairs stand ordered by request date then work date, and
/// are exactly the joined pairs of the contract, rearranged.
pub proof fn lemma_usage_pairs_ordered(
    c: ContractV,
    req_rows: Seq<RequestRowV>,
    work_rows: Seq<WorkRowV>,
)
    ensures
        sorted_by_key(usage_pairs(c, req_rows, work_rows)),
        usage_pairs(c, req_rows, work_rows).to_multiset() == joined_pairs(
            window_requests(c, req_rows),
            selected_works(window_requests(c, req_rows), work_rows),
        ).to_multiset(),
{
    let joined = joined_pairs(
        window_requests(c, req_rows),
        selected_works(window_requests(c, req_rows), work_rows),
    );
    lemma_sort_pairs_sorted(joined);
    lemma_sort_pairs_permutes(joined);
}

/// The sort key: the pair's request date, then its work date.
pub open spec fn key_of(p: PairV) -> (Date, Date) {
    (p.req.request_date, p.work.work_date)
}

/// The pairs carrying one key value, in order.
pub open spec fn with_key(s: Seq<PairV>, k: (Date, Date)) -> Seq<PairV>
    decreases s.len(),
{
    if s.len() == 0 {
        Seq::empty()
    } else if key_of(s.last()) == k {
        with_key(s.drop_last(), k).push(s.last())
    } else {
        with_key(s.drop_last(), k)
    }
}

proof fn lemma_with_key_concat(a: Seq<PairV>, b: Seq<PairV>, k: (Date, Date))
    ensures
        with_key(a + b, k) == with_key(a, k) + with_key(b, k),
    decreases b.len(),
{
    if b.len() == 0 {
        assert(a + b =~= a);
        assert(with_key(a, k) + with_key(b, k) =~= with_key(a, k));
    } else {
        lemma_with_key_concat(a, b.drop_last(), k);
        assert((a + b).drop_last() =~= a + b.drop_last());
        assert((a + b).last() == b.last());
    }
}

proof fn lemma_with_key_none(s: Seq<PairV>, k: (Date, Date))
    requires
        forall|i: int| #![auto] 0 <= i < s.len() ==> key_of(s[i]) != k,
    ensures
        with_key(s, k) == Seq::<PairV>::empty(),
    decreases s.len(),
{
    if s.len() > 0 {
        lemma_with_key_none(s.drop_last(), k);
    }
}

proof fn lemma_insert_sorted_with_key(x: PairV, t: Seq<PairV>, k: (Date, Date))
    requires
        sorted_by_key(t),
    ensures
        key_of(x) == k ==> with_key(insert_sorted(x, t), k) == with_key(t, k).push(x),
        key_of(x) != k ==> with_key(insert_sorted(x, t), k) == with_key(t, k),
{
    lemma_insert_pos_bounds(x, t);
    lemma_insert_pos_prefix(x, t);
    lemma_insert_pos_stop(x, t);
    let p = insert_pos(x, t);
    let front = t.subrange(0, p);
    let back = t.subrange(p, t.len() as int);
    assert(t =~= front + back);
    assert(insert_sorted(x, t) =~= front + (seq![x] + back)) by {
        t.insert_ensures(p, x);
        assert(insert_sorted(x, t) == t.subrange(0, p).push(x) + t.subrange(p, t.len() as int));
    }
    lemma_with_key_concat(front, back, k);
    lemma_with_key_concat(front, seq![x] + back, k);
    lemma_with_key_concat(seq![x], back, k);
    // no pair at or past the insertion point may share x's key: its key is
    // not below x's, while a shared key would be
    assert forall|j: int| #![auto] 0 <= j < back.len() implies key_of(back[j]) != key_of(x) by {
        if key_of(back[j]) == key_of(x) {
            assert(back[j] == t[p + j]);
            assert(key_le(back[j], x));
            if j > 0 {
                assert(key_le(t[p], t[p + j]));
                lemma_key_le_trans(t[p], t[p + j], x);
            }
            assert(key_le(t[p], x));
        }
    }
    if key_of(x) == k {
        lemma_with_key_none(back, k);
        assert(with_key(seq![x], k) =~= seq![x]) by {
            assert(seq![x].drop_last() =~= Seq::<PairV>::empty());
            assert(with_key(Seq::<PairV>::empty(), k) == Seq::<PairV>::empty());
            assert(seq![x].last() == x);
        }
        assert(with_key(seq![x] + back, k) =~= seq![x]);
        assert(with_key(insert_sorted(x, t), k) =~= with_key(t, k).push(x));
    } else {
        assert(with_key(seq![x], k) =~= Seq::<PairV>::empty()) by {
            assert(seq![x].drop_last() =~= Seq::<PairV>::empty());
            assert(with_key(Seq::<PairV>::empty(), k) == Seq::<PairV>::empty());
            assert(seq![x].last() == x);
        }
        assert(with_key(insert_sorted(x, t), k) =~= with_key(t, k));
    }
}

/// Sorting is stable: for every key value, the sorted sequence holds
/// exactly the input's pairs with that key, in their input order — ties
/// keep the join's own order.
pub proof fn lemma_sort_pairs_stable(s: Seq<PairV>, k: (Date, Date))
    ensures
        with_key(sort_pairs(s), k) == with_key(s, k),
    decreases s.len(),
{
    if s.len() > 0 {
        lemma_sort_pairs_stable(s.drop_last(), k);
        lemma_sort_pairs_sorted(s.drop_last());
        lemma_insert_sorted_with_key(s.last(), sort_pairs(s.drop_last()), k);
    }
}

/// The points of the pairs, summed.
pub open spec fn points_total(s: Seq<PairV>) -> int
    decreases s.len(),
{
    if s.len() == 0 {
        0
    } else {
        points_total(s.drop_last()) + s.last().work.points_used
    }
}

/// One ledger line: the pair's fields and the running total through it.
pub open spec fn usage_row(p: PairV, cumulative: int) -> CumulativeUsageV {
    CumulativeUsageV {
        request_date: p.req.request_date,
        request_description: p.req.description,
        worker: p.work.worker,
        work_date: p.work.work_date,
        work_description: p.work.description,
        points_used: p.work.points_used,
        cumulative_points_used: cumulative as u32,
    }
}

/// The ledger of the ordered pairs: each line carries the sum of points
/// through itself.
pub open spec fn cumulative_rows(s: Seq<PairV>) -> Seq<CumulativeUsageV> {
    Seq::new(s.len(), |i: int| usage_row(s[i], points_total(s.subrange(0, i + 1))))
}

/// The ordered joined pairs of the contract, from the raw tables.
pub open spec fn usage_pairs(
    c: ContractV,
    req_rows: Seq<RequestRowV>,
    work_rows: Seq<WorkRowV>,
) -> Seq<PairV> {
    sort_pairs(
        joined_pairs(
            window_requests(c, req_rows),
            selected_works(window_requests(c, req_rows), work_rows),
        ),
    )
}

/// Every date the aggregation must read decodes: those of the contract's
/// request rows, and those of the work rows joined to its window requests.
pub open spec fn usage_decodes(
    c: ContractV,
    req_rows: Seq<RequestRowV>,
    work_rows: Seq<WorkRowV>,
) -> bool {
    request_rows_decode(c.id, req_rows) && work_rows_decode(
        window_requests(c, req_rows),
        work_rows,
    )
}

/// The contract's total consumed points stay in range of the column type.
pub open spec fn usage_fits(
    c: ContractV,
    req_rows: Seq<RequestRowV>,
    work_rows: Seq<WorkRowV>,
) -> bool {
    points_total(usage_pairs(c, req_rows, work_rows)) <= u32::MAX
}

/// The contract's full usage ledger, from the raw tables.
pub open spec fn usage_ledger(
    c: ContractV,
    req_rows: Seq<RequestRowV>,
    work_rows: Seq<WorkRowV>,
) -> Seq<CumulativeUsageV> {
    cumulative_rows(usage_pairs(c, req_rows, work_rows))
}

struct Pair {
    req: Request,
    work: Work,
}

impl View for Pair {
    type V = PairV;

    closed spec fn view(&self) -> PairV {
        PairV { req: self.req@, work: self.work@ }
    }
}

impl DeepView for Pair {
    type V = PairV;

    closed spec fn deep_view(&self) -> PairV {
        self@
    }
}

impl DeepView for Request {
    type V = RequestV;

    open spec fn deep_view(&self) -> RequestV {
        self@
    }
}

impl DeepView for Work {
    type V = WorkV;

    open spec fn deep_view(&self) -> WorkV {
        self@
    }
}

impl DeepView for RequestRow {
    type V = RequestRowV;

    open spec fn deep_view(&self) -> RequestRowV {
        self@
    }
}

impl DeepView for WorkRow {
    type V = WorkRowV;

    open spec fn deep_view(&self) -> WorkRowV {
        self@
    }
}

impl DeepView for CumulativeUsage {
    type V = CumulativeUsageV;

    open spec fn deep_view(&self) -> CumulativeUsageV {
        self@
    }
}

fn in_window_exec(c: &Contract, d: &Date) -> (r: bool)
    ensures
        r == in_window(c@, *d),
{
    c.start_date.le(d) && d.le(&c.end_date)
}

fn key_le_exec(a: &Pair, b: &Pair) -> (r: bool)
    ensures
        r == key_le(a@, b@),
{
    if a.req.request_date.year == b.req.request_date.year && a.req.request_date.month
        == b.req.request_date.month && a.req.request_date.day == b.req.request_date.day {
        a.work.work_date.le(&b.work.work_date)
    } else {
        a.req.request_date.le(&b.req.request_date)
    }
}

/// Selects the contract's requests dated inside its window, decoding the
/// date text of every row that belongs to the contract.
fn select_window_requests(c: &Contract, rows: &Vec<RequestRow>) -> (r: Result<Vec<Request>, Error>)
    ensures
        r is Ok <==> request_rows_decode(c@.id, rows.deep_view()),
        r matches Ok(v) ==> v.deep_view() == window_requests(c@, rows.deep_view()),
        r matches Err(e) ==> e is InvalidDate,
{
    let mut out: Vec<Request> = Vec::new();
    let n = rows.len();
    for i in 0..n
        invariant
            n == rows@.len(),
            out.deep_view() == window_requests(c@, rows.deep_view().subrange(0, i as int)),
            forall|k: int|
                #![auto]
                0 <= k < i && rows.deep_view()[k].contract_id as int == c@.id
                    ==> request_row_decodes(rows.deep_view()[k]),
    {
        proof {
            assert(rows.deep_view().subrange(0, i + 1).drop_last() =~= rows.deep_view().subrange(
                0,
                i as int,
            ));
            assert(rows.deep_view().subrange(0, i + 1).last() == rows.deep_view()[i as int]);
        }
        let row = &rows[i];
        if row.contract_id == c.id {
            let q = match Request::from_row(row) {
                Ok(q) => q,
                Err(e) => {
                    proof {
                        assert(!request_row_decodes(rows.deep_view()[i as int]));
                    }
                    return Err(e);
                },
            };
            if in_window_exec(c, &q.request_date) {
                out.push(q);
            }
        }
    }
    proof {
        assert(rows.deep_view().subrange(0, n as int) =~= rows.deep_view());
    }
    Ok(out)
}

fn has_request_exec(reqs: &Vec<Request>, rid: u32) -> (r: bool)
    ensures
        r == has_request(reqs.deep_view(), rid),
{
    let n = reqs.len();
    for i in 0..n
        invariant
            n == reqs@.len(),
            forall|k: int| #![auto] 0 <= k < i ==> reqs.deep_view()[k].id != rid as int,
    {
        if reqs[i].id == rid {
            proof {
                assert(reqs.deep_view()[i as int].id == rid as int);
            }
            return true;
        }
    }
    false
}

/// Selects the work entries logged against one of the given requests,
/// decoding the date text of every selected row.
fn select_joined_works(reqs: &Vec<Request>, rows: &Vec<WorkRow>) -> (r: Result<Vec<Work>, Error>)
    ensures
        r is Ok <==> work_rows_decode(reqs.deep_view(), rows.deep_view()),
        r matches Ok(v) ==> v.deep_view() == selected_works(reqs.deep_view(), rows.deep_view()),
        r matches Err(e) ==> e is InvalidDate,
{
    let mut out: Vec<Work> = Vec::new();
    let n = rows.len();
    for i in 0..n
        invariant
            n == rows@.len(),
            out.deep_view() == selected_works(
                reqs.deep_view(),
                rows.deep_view().subrange(0, i as int),
            ),
            forall|k: int|
                #![auto]
                0 <= k < i && has_request(reqs.deep_view(), rows.deep_view()[k].request_id)
                    ==> work_row_decodes(rows.deep_view()[k]),
    {
        proof {
            assert(rows.deep_view().subrange(0, i + 1).drop_last() =~= rows.deep_view().subrange(
                0,
                i as int,
            ));
            assert(rows.deep_view().subrange(0, i + 1).last() == rows.deep_view()[i as int]);
        }
        let row = &rows[i];
        if has_request_exec(reqs, row.request_id) {
            let w = match Work::from_row(row) {
                Ok(w) => w,
                Err(e) => {
                    proof {
                        assert(!work_row_decodes(rows.deep_view()[i as int]));
                    }
                    return Err(e);
                },
            };
            out.push(w);
        }
    }
    proof {
        assert(rows.deep_view().subrange(0, n as int) =~= rows.deep_view());
    }
    Ok(out)
}

/// Joins each work entry, in stored order, with its matching requests, in
/// stored order.
fn join_pairs(reqs: &Vec<Request>, works: &Vec<Work>) -> (r: Vec<Pair>)
    ensures
        r.deep_view() == joined_pairs(reqs.deep_view(), works.deep_view()),
{
    let mut out: Vec<Pair> = Vec::new();
    let nw = works.len();
    for wi in 0..nw
        invariant
            nw == works@.len(),
            out.deep_view() == joined_pairs(
                reqs.deep_view(),
                works.deep_view().subrange(0, wi as int),
            ),
    {
        proof {
            assert(works.deep_view().subrange(0, wi + 1).drop_last() =~= works.deep_view()
                .subrange(0, wi as int));
            assert(works.deep_view().subrange(0, wi + 1).last() == works.deep_view()[wi as int]);
        }
        let nr = reqs.len();
        let ghost prefix = out.deep_view();
        for ri in 0..nr
            invariant
                nr == reqs@.len(),
                wi < works@.len(),
                nw == works@.len(),
                out.deep_view() == prefix + pairs_for(
                    reqs.deep_view().subrange(0, ri as int),
                    works.deep_view()[wi as int],
                ),
        {
            proof {
                assert(reqs.deep_view().subrange(0, ri + 1).drop_last() =~= reqs.deep_view()
                    .subrange(0, ri as int));
                assert(reqs.deep_view().subrange(0, ri + 1).last() == reqs.deep_view()[ri as int]);
            }
            let ghost pre_pairs = out.deep_view();
            if reqs[ri].id == works[wi].request_id {
                out.push(Pair { req: reqs[ri].clone(), work: works[wi].clone() });
                proof {
                    assert(out.deep_view() =~= pre_pairs.push(
                        PairV {
                            req: reqs.deep_view()[ri as int],
                            work: works.deep_view()[wi as int],
                        },
                    ));
                }
            }
        }
        proof {
            assert(reqs.deep_view().subrange(0, nr as int) =~= reqs.deep_view());
            assert(out.deep_view() == joined_pairs(
                reqs.deep_view(),
                works.deep_view().subrange(0, wi + 1),
            ));
        }
    }
    proof {
        assert(works.deep_view().subrange(0, nw as int) =~= works.deep_view());
    }
    out
}

proof fn lemma_insert_pos_bounds(x: PairV, s: Seq<PairV>)
    ensures
        0 <= insert_pos(x, s) <= s.len(),
    decreases s.len(),
{
    if s.len() == 0 {
    } else if !key_le(s[0], x) {
    } else {
        lemma_insert_pos_bounds(x, s.drop_first());
    }
}

/// A forward scan that stops at the first element whose key is greater
/// than `x`'s lands exactly on `insert_pos`.
proof fn lemma_insert_pos_at(x: PairV, s: Seq<PairV>, p: int)
    requires
        0 <= p <= s.len(),
        forall|k: int| #![auto] 0 <= k < p ==> key_le(s[k], x),
        p < s.len() ==> !key_le(s[p], x),
    ensures
        insert_pos(x, s) == p,
    decreases s.len(),
{
    if s.len() == 0 {
    } else if !key_le(s[0], x) {
        assert(p == 0) by {
            if p > 0 {
                assert(key_le(s[0], x));
            }
        }
    } else {
        assert(p >= 1);
        lemma_insert_pos_at(x, s.drop_first(), p - 1);
    }
}

/// Stable insertion sort of the joined pairs by `key_le`.
fn sort_pairs_exec(pairs: &Vec<Pair>) -> (r: Vec<Pair>)
    ensures
        r.deep_view() == sort_pairs(pairs.deep_view()),
{
    let mut out: Vec<Pair> = Vec::new();
    let n = pairs.len();
    for i in 0..n
        invariant
            n == pairs@.len(),
            out.deep_view() == sort_pairs(pairs.deep_view().subrange(0, i as int)),
    {
        proof {
            assert(pairs.deep_view().subrange(0, i + 1).drop_last() =~= pairs.deep_view().subrange(
                0,
                i as int,
            ));
            assert(pairs.deep_view().subrange(0, i + 1).last() == pairs.deep_view()[i as int]);
        }
        let x = Pair { req: pairs[i].req.clone(), work: pairs[i].work.clone() };
        let ghost sorted = out.deep_view();
        let mut p: usize = 0;
        while p < out.len() && key_le_exec(&out[p], &x)
            invariant
                p <= out.len(),
                out.deep_view() == sorted,
                x@ == pairs.deep_view()[i as int],
                forall|k: int| #![auto] 0 <= k < p ==> key_le(sorted[k], x@),
            decreases out.len() - p,
        {
            p += 1;
        }
        proof {
            lemma_insert_pos_at(x@, sorted, p as int);
        }
        out.insert(p, x);
        proof {
            assert(out.deep_view() =~= sorted.insert(p as int, pairs.deep_view()[i as int]));
        }
    }
    proof {
        assert(pairs.deep_view().subrange(0, n as int) =~= pairs.deep_view());
    }
    out
}

/// A prefix of the pairs never sums to more than the whole: points are
/// never negative.
proof fn lemma_points_total_prefix(s: Seq<PairV>, i: int)
    requires
        0 <= i <= s.len(),
    ensures
        points_total(s.subrange(0, i)) <= points_total(s),
    decreases s.len() - i,
{
    if i == s.len() {
        assert(s.subrange(0, i) =~= s);
    } else {
        assert(s.subrange(0, i + 1).drop_last() =~= s.subrange(0, i));
        assert(s.subrange(0, i + 1).last() == s[i]);
        lemma_points_total_prefix(s, i + 1);
    }
}

/// Walks the ordered pairs carrying the running total; fails with
/// `Overflow` exactly when the full total leaves the column's range.
fn accumulate(pairs: &Vec<Pair>) -> (r: Result<Vec<CumulativeUsage>, Error>)
    ensures
        r is Ok <==> points_total(pairs.deep_view()) <= u32::MAX,
        r matches Ok(v) ==> v.deep_view() == cumulative_rows(pairs.deep_view()),
        r matches Err(e) ==> e is Overflow,
{
    let mut out: Vec<CumulativeUsage> = Vec::new();
    let mut acc: u32 = 0;
    let n = pairs.len();
    for i in 0..n
        invariant
            n == pairs@.len(),
            out@.len() == i,
            acc == points_total(pairs.deep_view().subrange(0, i as int)),
            forall|k: int|
                #![auto]
                0 <= k < i ==> out.deep_view()[k] == usage_row(
                    pairs.deep_view()[k],
                    points_total(pairs.deep_view().subrange(0, k + 1)),
                ),
    {
        proof {
            assert(pairs.deep_view().subrange(0, i + 1).drop_last() =~= pairs.deep_view().subrange(
                0,
                i as int,
            ));
            assert(pairs.deep_view().subrange(0, i + 1).last() == pairs.deep_view()[i as int]);
        }
        let p = &pairs[i];
        let pts = p.work.points_used;
        if pts > u32::MAX - acc {
            proof {
                lemma_points_total_prefix(pairs.deep_view(), i + 1);
            }
            return Err(Error::Overflow);
        }
        acc = acc + pts;
        let ghost pre_rows = out.deep_view();
        out.push(
            CumulativeUsage {
                request_date: p.req.request_date,
                request_description: p.req.description.clone(),
                worker: p.work.worker.clone(),
                work_date: p.work.work_date,
                work_description: p.work.description.clone(),
                points_used: p.work.points_used,
                cumulative_points_used: acc,
            },
        );
        proof {
            assert(out.deep_view() =~= pre_rows.push(
                usage_row(
                    pairs.deep_view()[i as int],
                    points_total(pairs.deep_view().subrange(0, i + 1)),
                ),
            ));
        }
    }
    proof {
        assert(pairs.deep_view().subrange(0, n as int) =~= pairs.deep_view());
        assert(out.deep_view() =~= cumulative_rows(pairs.deep_view()));
    }
    Ok(out)
}

/// The whole aggregation from the raw tables: select the contract's
/// window requests, join and decode their work, order the pairs, and carry
/// the running total. Succeeds exactly when every date it must read
/// decodes and the total fits the column type; on success the ledger is
/// exactly `usage_ledger` of the tables.
pub fn usage_from_tables(
    contract: &Contract,
    req_rows: &Vec<RequestRow>,
    work_rows: &Vec<WorkRow>,
) -> (r: Result<Vec<CumulativeUsage>, Error>)
    ensures
        r is Ok <==> usage_decodes(contract@, req_rows.deep_view(), work_rows.deep_view())
            && usage_fits(contract@, req_rows.deep_view(), work_rows.deep_view()),
        r matches Ok(v) ==> v.deep_view() == usage_ledger(
            contract@,
            req_rows.deep_view(),
            work_rows.deep_view(),
        ),
        r matches Err(e) ==> e is InvalidDate || e is Overflow,
{
    let reqs = match select_window_requests(contract, req_rows) {
        Ok(v) => v,
        Err(e) => { return Err(e) },
    };
    let works = match select_joined_works(&reqs, work_rows) {
        Ok(v) => v,
        Err(e) => { return Err(e) },
    };
    let joined = join_pairs(&reqs, &works);
    let ordered = sort_pairs_exec(&joined);
    accumulate(&ordered)
}

} // verus!
