//! Gathering the calls and emails of clients, one database round trip at a
//! time.
//!
//! A `CallsCollector` decides which statement runs next; the caller runs it
//! and hands the rows back with `step`. For all active clients the first
//! statement lists their site ids; then, client by client in the order of
//! that list, one statement fetches the client's calls and one its emails,
//! and each client's rows become one `AllCallsClient`. For a single client
//! the id list is that client alone.
use vstd::prelude::*;

use crate::models::{reports_view, AllCallsClient, AllCallsClientView, Calls, ClientId, Email};
use crate::queries::{
    calls_in_range_sql, calls_sql, client_ids_sql, client_ids_statement, emails_in_range_sql,
    emails_sql, ACTIVE,
};

verus! {

/// Which answer the collector waits for.
#[derive(Debug, Clone, Copy, PartialEq, Eq, Structural)]
pub enum Phase {
    /// The site ids of the active clients.
    AwaitIds,
    /// The calls of the current client.
    AwaitCalls,
    /// The emails of the current client.
    AwaitEmails,
    /// Nothing: the collection has ended.
    Done,
}

/// A statement to run, with the value of its parameter `$1`.
pub enum DbRequest {
    /// List the site ids of the clients whose status is `status`.
    ClientIds { sql: String, status: String },
    /// Fetch the calls of the client `site_id`.
    CallsOf { sql: String, site_id: i64 },
    /// Fetch the emails of the client `site_id`.
    EmailsOf { sql: String, site_id: i64 },
}

pub enum DbRequestView {
    ClientIds { sql: Seq<char>, status: Seq<char> },
    CallsOf { sql: Seq<char>, site_id: i64 },
    EmailsOf { sql: Seq<char>, site_id: i64 },
}

impl View for DbRequest {
    type V = DbRequestView;

    open spec fn view(&self) -> DbRequestView {
        match self {
            DbRequest::ClientIds { sql, status } => DbRequestView::ClientIds {
                sql: sql@,
                status: status@,
            },
            DbRequest::CallsOf { sql, site_id } => DbRequestView::CallsOf {
                sql: sql@,
                site_id: *site_id,
            },
            DbRequest::EmailsOf { sql, site_id } => DbRequestView::EmailsOf {
                sql: sql@,
                site_id: *site_id,
            },
        }
    }
}

/// The outcome of the last statement run.
pub enum DbReply {
    /// The rows of the site id list.
    ClientIds(Vec<ClientId>),
    /// The calls of the current client.
    CallRows(Vec<Calls>),
    /// The emails of the current client.
    EmailRows(Vec<Email>),
    /// The site id list could not be read; the text says why.
    Failure(String),
}

pub enum DbReplyView {
    ClientIds(Seq<i64>),
    CallRows(Seq<Calls>),
    EmailRows(Seq<Email>),
    Failure(Seq<char>),
}

/// The site ids of a list of id rows, in order.
pub open spec fn site_ids(rows: Seq<ClientId>) -> Seq<i64> {
    rows.map_values(|r: ClientId| r.site_id)
}

impl View for DbReply {
    type V = DbReplyView;

    open spec fn view(&self) -> DbReplyView {
        match self {
            DbReply::ClientIds(rows) => DbReplyView::ClientIds(site_ids(rows@)),
            DbReply::CallRows(rows) => DbReplyView::CallRows(rows@),
            DbReply::EmailRows(rows) => DbReplyView::EmailRows(rows@),
            DbReply::Failure(msg) => DbReplyView::Failure(msg@),
        }
    }
}

/// What the collector asks of its caller.
pub enum Step {
    /// Run this statement and hand back its outcome.
    Query(DbRequest),
    /// The collection has ended with these reports.
    Finished(Vec<AllCallsClient>),
    /// The collection has ended with this error.
    Failed(String),
}

pub enum StepView {
    Query(DbRequestView),
    Finished(Seq<AllCallsClientView>),
    Failed(Seq<char>),
}

impl View for Step {
    type V = StepView;

    open spec fn view(&self) -> StepView {
        match self {
            Step::Query(r) => StepView::Query(r@),
            Step::Finished(reports) => StepView::Finished(reports_view(reports@)),
            Step::Failed(msg) => StepView::Failed(msg@),
        }
    }
}

/// The state of a collection.
pub struct CallsCollector {
    calls_sql: String,
    emails_sql: String,
    ids: Vec<i64>,
    next: usize,
    phase: Phase,
    pending_calls: Vec<Calls>,
    collected: Vec<AllCallsClient>,
}

/// The state of a collection: the two per-client statements, the site ids
/// to visit, the index of the current one, the calls of the current client
/// while its emails are awaited, and the reports gathered so far.
pub struct CollectorView {
    pub calls_sql: Seq<char>,
    pub emails_sql: Seq<char>,
    pub ids: Seq<i64>,
    pub next: nat,
    pub phase: Phase,
    pub pending_calls: Seq<Calls>,
    pub collected: Seq<AllCallsClientView>,
}

impl View for CallsCollector {
    type V = CollectorView;

    closed spec fn view(&self) -> CollectorView {
        CollectorView {
            calls_sql: self.calls_sql@,
            emails_sql: self.emails_sql@,
            ids: self.ids@,
            next: self.next as nat,
            phase: self.phase,
            pending_calls: self.pending_calls@,
            collected: reports_view(self.collected@),
        }
    }
}

/// The invariant of a collection: one report per visited client, in the
/// order of the id list, each with that client's site id.
pub open spec fn well_formed(v: CollectorView) -> bool {
    &&& v.next <= v.ids.len()
    &&& (v.phase == Phase::AwaitCalls || v.phase == Phase::AwaitEmails) ==> v.next < v.ids.len()
    &&& v.phase == Phase::AwaitIds ==> v.next == 0
    &&& v.phase != Phase::AwaitEmails ==> v.pending_calls.len() == 0
    &&& v.phase == Phase::Done ==> v.collected.len() == 0
    &&& v.phase != Phase::Done ==> v.collected.len() == v.next
    &&& forall|k: int| 0 <= k < v.collected.len() ==> #[trigger] v.collected[k].site_id == v.ids[k]
}

/// Whether the collector, in state `v`, waits for an outcome like `r`.
pub open spec fn accepts(v: CollectorView, r: DbReplyView) -> bool {
    match r {
        DbReplyView::ClientIds(_) => v.phase == Phase::AwaitIds,
        DbReplyView::Failure(_) => v.phase == Phase::AwaitIds,
        DbReplyView::CallRows(_) => v.phase == Phase::AwaitCalls,
        DbReplyView::EmailRows(_) => v.phase == Phase::AwaitEmails,
    }
}

/// The request for the calls of the client at `index`.
pub open spec fn calls_request(v: CollectorView, index: int) -> StepView {
    StepView::Query(DbRequestView::CallsOf { sql: v.calls_sql, site_id: v.ids[index] })
}

/// The state that follows `v` on outcome `r`, and what it asks next.
pub open spec fn transition(v: CollectorView, r: DbReplyView) -> (CollectorView, StepView) {
    match r {
        DbReplyView::ClientIds(ids) => if ids.len() == 0 {
            (
                CollectorView { ids, next: 0, phase: Phase::Done, ..v },
                StepView::Finished(Seq::empty()),
            )
        } else {
            let w = CollectorView { ids, next: 0, phase: Phase::AwaitCalls, ..v };
            (w, calls_request(w, 0))
        },
        DbReplyView::Failure(msg) => (
            CollectorView { phase: Phase::Done, ..v },
            StepView::Failed(msg),
        ),
        DbReplyView::CallRows(rows) => (
            CollectorView { phase: Phase::AwaitEmails, pending_calls: rows, ..v },
            StepView::Query(
                DbRequestView::EmailsOf { sql: v.emails_sql, site_id: v.ids[v.next as int] },
            ),
        ),
        DbReplyView::EmailRows(rows) => {
            let report = AllCallsClientView {
                calls: v.pending_calls,
                email: rows,
                site_id: v.ids[v.next as int],
            };
            let collected = v.collected.push(report);
            let next = v.next + 1;
            if next == v.ids.len() {
                (
                    CollectorView {
                        next,
                        phase: Phase::Done,
                        pending_calls: Seq::empty(),
                        collected: Seq::empty(),
                        ..v
                    },
                    StepView::Finished(collected),
                )
            } else {
                let w = CollectorView {
                    next,
                    phase: Phase::AwaitCalls,
                    pending_calls: Seq::empty(),
                    collected,
                    ..v
                };
                (w, calls_request(w, next as int))
            }
        },
    }
}

/// The state in which a collection over all active clients of the date
/// range from `start` to `end` begins.
pub open spec fn start_all(start: Seq<char>, end: Seq<char>) -> CollectorView {
    CollectorView {
        calls_sql: calls_sql(start, end),
        emails_sql: emails_sql(start, end),
        ids: Seq::empty(),
        next: 0,
        phase: Phase::AwaitIds,
        pending_calls: Seq::empty(),
        collected: Seq::empty(),
    }
}

/// The state in which a collection over the client `id` alone begins.
pub open spec fn start_one(start: Seq<char>, end: Seq<char>, id: i64) -> CollectorView {
    CollectorView {
        calls_sql: calls_sql(start, end),
        emails_sql: emails_sql(start, end),
        ids: seq![id],
        next: 0,
        phase: Phase::AwaitCalls,
        pending_calls: Seq::empty(),
        collected: Seq::empty(),
    }
}

impl CallsCollector {
    /// Begins gathering the calls and emails, from the start of day `start`
    /// to the end of day `end`, of every client whose status is `"true"`;
    /// the first step lists their site ids.
    pub fn all_active(start: &str, end: &str) -> (res: (CallsCollector, Step))
        ensures
            res.0@ == start_all(start@, end@),
            well_formed(res.0@),
            res.1@ == StepView::Query(
                DbRequestView::ClientIds { sql: client_ids_sql(), status: ACTIVE@ },
            ),
    {
        let c = CallsCollector {
            calls_sql: calls_in_range_sql(start, end),
            emails_sql: emails_in_range_sql(start, end),
            ids: Vec::new(),
            next: 0,
            phase: Phase::AwaitIds,
            pending_calls: Vec::new(),
            collected: Vec::new(),
        };
        proof {
            assert(reports_view(c.collected@) =~= Seq::empty());
        }
        let first = Step::Query(
            DbRequest::ClientIds {
                sql: client_ids_statement(),
                status: String::from_str(ACTIVE),
            },
        );
        (c, first)
    }

    /// Begins gathering the calls and emails, from the start of day `start`
    /// to the end of day `end`, of the client `id`; the first step fetches
    /// its calls.
    pub fn one_client(start: &str, end: &str, id: i64) -> (res: (CallsCollector, Step))
        ensures
            res.0@ == start_one(start@, end@, id),
            well_formed(res.0@),
            res.1@ == calls_request(res.0@, 0),
    {
        let mut ids: Vec<i64> = Vec::new();
        ids.push(id);
        let c = CallsCollector {
            calls_sql: calls_in_range_sql(start, end),
            emails_sql: emails_in_range_sql(start, end),
            ids,
            next: 0,
            phase: Phase::AwaitCalls,
            pending_calls: Vec::new(),
            collected: Vec::new(),
        };
        proof {
            assert(reports_view(c.collected@) =~= Seq::empty());
            assert(c.ids@ =~= seq![id]);
        }
        let first = Step::Query(DbRequest::CallsOf { sql: c.calls_sql.clone(), site_id: id });
        (c, first)
    }

    /// Which answer the collector waits for.
    pub fn phase(&self) -> (p: Phase)
        ensures
            p == self@.phase,
    {
        self.phase
    }

    /// Takes the outcome of the statement last asked for and says what
    /// comes next, as `transition` states.
    pub fn step(&mut self, reply: DbReply) -> (out: Step)
        requires
            well_formed(old(self)@),
            accepts(old(self)@, reply@),
        ensures
            well_formed(final(self)@),
            (final(self)@, out@) == transition(old(self)@, reply@),
    {
        match reply {
            DbReply::ClientIds(rows) => {
                let mut ids: Vec<i64> = Vec::new();
                let mut i: usize = 0;
                while i < rows.len()
                    invariant
                        i <= rows.len(),
                        ids.len() == i,
                        forall|j: int| 0 <= j < i ==> ids[j] == rows[j].site_id,
                    decreases rows.len() - i,
                {
                    ids.push(rows[i].site_id);
                    i = i + 1;
                }
                proof {
                    assert(ids@ =~= site_ids(rows@));
                }
                self.ids = ids;
                self.next = 0;
                if self.ids.len() == 0 {
                    self.phase = Phase::Done;
                    let none: Vec<AllCallsClient> = Vec::new();
                    proof {
                        assert(reports_view(none@) =~= Seq::empty());
                    }
                    Step::Finished(none)
                } else {
                    self.phase = Phase::AwaitCalls;
                    Step::Query(
                        DbRequest::CallsOf { sql: self.calls_sql.clone(), site_id: self.ids[0] },
                    )
                }
            },
            DbReply::Failure(msg) => {
                self.phase = Phase::Done;
                Step::Failed(msg)
            },
            DbReply::CallRows(rows) => {
                self.pending_calls = rows;
                self.phase = Phase::AwaitEmails;
                Step::Query(
                    DbRequest::EmailsOf {
                        sql: self.emails_sql.clone(),
                        site_id: self.ids[self.next],
                    },
                )
            },
            DbReply::EmailRows(rows) => {
                let ghost before = reports_view(self.collected@);
                let mut calls: Vec<Calls> = Vec::new();
                std::mem::swap(&mut calls, &mut self.pending_calls);
                let site_id = self.ids[self.next];
                let report = AllCallsClient { calls, email: rows, site_id };
                let ghost report_view = report@;
                self.collected.push(report);
                proof {
                    assert(reports_view(self.collected@) =~= before.push(report_view));
                }
                let count = self.ids.len();
                self.next = self.next + 1;
                if self.next == count {
                    self.phase = Phase::Done;
                    let mut done: Vec<AllCallsClient> = Vec::new();
                    std::mem::swap(&mut done, &mut self.collected);
                    proof {
                        assert(reports_view(self.collected@) =~= Seq::empty());
                    }
                    Step::Finished(done)
                } else {
                    self.phase = Phase::AwaitCalls;
                    Step::Query(
                        DbRequest::CallsOf {
                            sql: self.calls_sql.clone(),
                            site_id: self.ids[self.next],
                        },
                    )
                }
            },
        }
    }
}


/// The state after the outcomes `rs`, delivered in order from state `v`,
/// and the last thing asked; `None` when no outcome was delivered or one was
/// not the outcome awaited.
pub open spec fn run(v: CollectorView, rs: Seq<DbReplyView>) -> Option<(CollectorView, StepView)>
    decreases rs.len(),
{
    if rs.len() == 0 {
        None
    } else {
        let before = if rs.len() == 1 {
            Some(v)
        } else {
            match run(v, rs.drop_last()) {
                Some(p) => Some(p.0),
                None => None,
            }
        };
        match before {
            Some(w) => if accepts(w, rs.last()) {
                Some(transition(w, rs.last()))
            } else {
                None
            },
            None => None,
        }
    }
}

/// The outcomes of the per-client statements for the first `k` clients:
/// the calls of client 0, its emails, the calls of client 1, and so on.
pub open spec fn client_replies(
    calls: Seq<Seq<Calls>>,
    emails: Seq<Seq<Email>>,
    k: nat,
) -> Seq<DbReplyView>
    decreases k,
{
    if k == 0 {
        Seq::empty()
    } else {
        client_replies(calls, emails, (k - 1) as nat) + seq![
            DbReplyView::CallRows(calls[k - 1]),
            DbReplyView::EmailRows(emails[k - 1]),
        ]
    }
}

/// The reports of the first `k` clients: for each, its calls, its emails
/// and its site id.
pub open spec fn reports(
    ids: Seq<i64>,
    calls: Seq<Seq<Calls>>,
    emails: Seq<Seq<Email>>,
    k: nat,
) -> Seq<AllCallsClientView> {
    Seq::new(
        k,
        |j: int| AllCallsClientView { calls: calls[j], email: emails[j], site_id: ids[j] },
    )
}

/// The state of a collection begun in `v0` once `k` clients are reported.
pub open spec fn collecting(
    v0: CollectorView,
    calls: Seq<Seq<Calls>>,
    emails: Seq<Seq<Email>>,
    k: nat,
) -> CollectorView {
    CollectorView {
        next: k,
        phase: Phase::AwaitCalls,
        pending_calls: Seq::empty(),
        collected: reports(v0.ids, calls, emails, k),
        ..v0
    }
}

/// The state of a collection begun in `v0` once all clients are reported.
pub open spec fn collected_all(v0: CollectorView) -> CollectorView {
    CollectorView {
        next: v0.ids.len(),
        phase: Phase::Done,
        pending_calls: Seq::empty(),
        collected: Seq::empty(),
        ..v0
    }
}

/// Delivering outcomes in two parts is delivering them all at once.
pub proof fn lemma_run_append(u: CollectorView, pre: Seq<DbReplyView>, xs: Seq<DbReplyView>)
    requires
        run(u, pre) is Some,
        xs.len() > 0,
    ensures
        run(u, pre + xs) == run((run(u, pre)->0).0, xs),
    decreases xs.len(),
{
    let ys = pre + xs;
    assert(ys.last() == xs.last());
    if xs.len() == 1 {
        assert(ys.drop_last() =~= pre);
    } else {
        assert(ys.drop_last() =~= pre + xs.drop_last());
        lemma_run_append(u, pre, xs.drop_last());
    }
}

/// From a collection that awaits the calls of its first client, the
/// outcomes for the first `k` clients, each client's calls then its emails,
/// report those `k` clients in order, and the statements asked for bind the
/// site id of the client they are for.
proof fn lemma_gather(v0: CollectorView, calls: Seq<Seq<Calls>>, emails: Seq<Seq<Email>>, k: nat)
    requires
        well_formed(v0),
        v0.phase == Phase::AwaitCalls,
        v0.next == 0,
        calls.len() == v0.ids.len(),
        emails.len() == v0.ids.len(),
        1 <= k <= v0.ids.len(),
    ensures
        run(v0, client_replies(calls, emails, k)) == (if k < v0.ids.len() {
            Some((collecting(v0, calls, emails, k), calls_request(v0, k as int)))
        } else {
            Some((collected_all(v0), StepView::Finished(reports(v0.ids, calls, emails, k))))
        }),
    decreases k,
{
    let n = v0.ids.len();
    let rs = client_replies(calls, emails, k);
    let prev = client_replies(calls, emails, (k - 1) as nat);
    let a = DbReplyView::CallRows(calls[k - 1]);
    let b = DbReplyView::EmailRows(emails[k - 1]);
    let mid = prev + seq![a];
    assert(rs.drop_last() =~= mid);
    assert(rs.last() == b);
    assert(mid.last() == a);
    let w = collecting(v0, calls, emails, (k - 1) as nat);
    if k == 1 {
        assert(prev =~= Seq::<DbReplyView>::empty());
        assert(mid.len() == 1);
        assert(w.collected =~= v0.collected);
        assert(w.pending_calls =~= v0.pending_calls);
        assert(w == v0);
    } else {
        assert(mid.drop_last() =~= prev);
        lemma_gather(v0, calls, emails, (k - 1) as nat);
    }
    assert(run(v0, mid) == Some(transition(w, a)));
    let w2 = transition(w, a).0;
    let report = AllCallsClientView {
        calls: calls[k - 1],
        email: emails[k - 1],
        site_id: v0.ids[k - 1],
    };
    assert(w.collected.push(report) =~= reports(v0.ids, calls, emails, k));
    if k < n {
        assert(transition(w2, b).0 == collecting(v0, calls, emails, k));
    } else {
        assert(transition(w2, b).0 == collected_all(v0));
    }
}

/// Law: gathering over all active clients yields one report per client of
/// the id list, in the order of the list, each holding the calls and the
/// emails fetched for that client's site id; when the list is empty it
/// yields no report.
pub proof fn lemma_all_active_reports(
    start: Seq<char>,
    end: Seq<char>,
    ids: Seq<i64>,
    calls: Seq<Seq<Calls>>,
    emails: Seq<Seq<Email>>,
)
    requires
        calls.len() == ids.len(),
        emails.len() == ids.len(),
    ensures
        run(
            start_all(start, end),
            seq![DbReplyView::ClientIds(ids)] + client_replies(calls, emails, ids.len()),
        ) matches Some(p) && p.1 == StepView::Finished(reports(ids, calls, emails, ids.len())),
{
    let u = start_all(start, end);
    let pre = seq![DbReplyView::ClientIds(ids)];
    let xs = client_replies(calls, emails, ids.len());
    assert(run(u, pre) == Some(transition(u, DbReplyView::ClientIds(ids))));
    if ids.len() == 0 {
        assert(xs =~= Seq::<DbReplyView>::empty());
        assert(pre + xs =~= pre);
        assert(reports(ids, calls, emails, 0) =~= Seq::<AllCallsClientView>::empty());
    } else {
        let v0 = transition(u, DbReplyView::ClientIds(ids)).0;
        lemma_run_append(u, pre, xs);
        lemma_gather(v0, calls, emails, ids.len());
    }
}

/// Law: gathering for one client, given its calls and then its emails,
/// yields exactly one report, which holds those calls and emails and the
/// client's site id.
pub proof fn lemma_one_client_report(
    start: Seq<char>,
    end: Seq<char>,
    id: i64,
    calls: Seq<Calls>,
    emails: Seq<Email>,
)
    ensures
        run(
            start_one(start, end, id),
            seq![DbReplyView::CallRows(calls), DbReplyView::EmailRows(emails)],
        ) matches Some(p) && p.1 == StepView::Finished(
            seq![AllCallsClientView { calls, email: emails, site_id: id }],
        ),
{
    let v0 = start_one(start, end, id);
    let cs = seq![calls];
    let es = seq![emails];
    assert(client_replies(cs, es, 1) =~= seq![
        DbReplyView::CallRows(calls),
        DbReplyView::EmailRows(emails),
    ]) by {
        assert(client_replies(cs, es, 0) =~= Seq::<DbReplyView>::empty());
    }
    lemma_gather(v0, cs, es, 1);
    assert(reports(v0.ids, cs, es, 1) =~= seq![
        AllCallsClientView { calls, email: emails, site_id: id },
    ]);
}

/// Law: gathering for one client is gathering over all active clients when
/// the id list holds that client alone: both reach the same state and ask
/// for the same statement.
pub proof fn lemma_one_client_is_single_id_list(start: Seq<char>, end: Seq<char>, id: i64)
    ensures
        transition(start_all(start, end), DbReplyView::ClientIds(seq![id])) == (
            start_one(start, end, id),
            calls_request(start_one(start, end, id), 0),
        ),
{
}

/// Whether a run reached a state and last asked for `step`.
pub open spec fn asks(o: Option<(CollectorView, StepView)>, step: StepView) -> bool {
    o matches Some(p) && p.1 == step
}

/// The outcomes for `n` clients are two per client, and those for the
/// first `j` clients come first.
proof fn lemma_client_replies_prefix(
    calls: Seq<Seq<Calls>>,
    emails: Seq<Seq<Email>>,
    n: nat,
    j: nat,
)
    requires
        j <= n,
    ensures
        client_replies(calls, emails, n).len() == 2 * n,
        client_replies(calls, emails, n).subrange(0, 2 * j as int) =~= client_replies(calls, emails, j),
    decreases n,
{
    if n > 0 {
        let m = (n - 1) as nat;
        if j <= m {
            lemma_client_replies_prefix(calls, emails, m, j);
            let prev = client_replies(calls, emails, m);
            assert(client_replies(calls, emails, n).subrange(0, 2 * j as int) =~= prev.subrange(0, 2 * j as int));
        } else {
            lemma_client_replies_prefix(calls, emails, m, m);
        }
    }
}

/// Law: gathering over all active clients asks for exactly `1 + 2n`
/// statements, in this order: the id list (the first step of
/// `all_active`), then for each listed client its calls and then its
/// emails, bound to its site id; after the last emails it ends and awaits
/// nothing more.
pub proof fn lemma_all_active_requests(
    start: Seq<char>,
    end: Seq<char>,
    ids: Seq<i64>,
    calls: Seq<Seq<Calls>>,
    emails: Seq<Seq<Email>>,
)
    requires
        calls.len() == ids.len(),
        emails.len() == ids.len(),
    ensures
        ({
            let u = start_all(start, end);
            let rs = seq![DbReplyView::ClientIds(ids)] + client_replies(calls, emails, ids.len());
            &&& rs.len() == 1 + 2 * ids.len()
            &&& forall|j: int|
                #![trigger ids[j]]
                0 <= j < ids.len() ==> asks(
                    run(u, rs.subrange(0, 2 * j + 1)),
                    StepView::Query(
                    DbRequestView::CallsOf { sql: calls_sql(start, end), site_id: ids[j] },
                ))
            &&& forall|j: int|
                #![trigger ids[j]]
                0 <= j < ids.len() ==> asks(
                    run(u, rs.subrange(0, 2 * j + 2)),
                    StepView::Query(
                    DbRequestView::EmailsOf { sql: emails_sql(start, end), site_id: ids[j] },
                ))
            &&& run(u, rs) matches Some(p) && p.1 is Finished
            &&& forall|r: DbReplyView| #[trigger] run(u, rs.push(r)) is None
        }),
{
    let n = ids.len();
    let u = start_all(start, end);
    let pre = seq![DbReplyView::ClientIds(ids)];
    let xs = client_replies(calls, emails, n);
    let rs = pre + xs;
    lemma_client_replies_prefix(calls, emails, n, n);
    assert(run(u, pre) == Some(transition(u, DbReplyView::ClientIds(ids))));
    let v0 = transition(u, DbReplyView::ClientIds(ids)).0;
    lemma_all_active_reports(start, end, ids, calls, emails);
    assert forall|j: int| #![trigger ids[j]] 0 <= j < n implies asks(
        run(u, rs.subrange(0, 2 * j + 1)),
        StepView::Query(
        DbRequestView::CallsOf { sql: calls_sql(start, end), site_id: ids[j] },
    )) by {
        lemma_client_replies_prefix(calls, emails, n, j as nat);
        let cj = client_replies(calls, emails, j as nat);
        assert(rs.subrange(0, 2 * j + 1) =~= pre + cj);
        if j == 0 {
            assert(pre + cj =~= pre);
        } else {
            lemma_run_append(u, pre, cj);
            lemma_gather(v0, calls, emails, j as nat);
        }
    }
    assert forall|j: int| #![trigger ids[j]] 0 <= j < n implies asks(
        run(u, rs.subrange(0, 2 * j + 2)),
        StepView::Query(
        DbRequestView::EmailsOf { sql: emails_sql(start, end), site_id: ids[j] },
    )) by {
        lemma_client_replies_prefix(calls, emails, n, j as nat);
        lemma_client_replies_prefix(calls, emails, n, (j + 1) as nat);
        let cj = client_replies(calls, emails, j as nat);
        let a = DbReplyView::CallRows(calls[j]);
        assert(client_replies(calls, emails, (j + 1) as nat)[2 * j] == a);
        assert(rs.subrange(0, 2 * j + 2) =~= (pre + cj) + seq![a]);
        let w = if j == 0 {
            v0
        } else {
            collecting(v0, calls, emails, j as nat)
        };
        if j == 0 {
            assert(pre + cj =~= pre);
        } else {
            lemma_run_append(u, pre, cj);
            lemma_gather(v0, calls, emails, j as nat);
        }
        assert(run(u, pre + cj) matches Some(p) && p.0 == w);
        lemma_run_append(u, pre + cj, seq![a]);
        assert(run(w, seq![a]) == Some(transition(w, a)));
    }
    assert forall|r: DbReplyView| #[trigger] run(u, rs.push(r)) is None by {
        assert(rs.push(r).drop_last() =~= rs);
        if n > 0 {
            lemma_run_append(u, pre, xs);
            lemma_gather(v0, calls, emails, n);
        } else {
            assert(rs =~= pre);
        }
    }
}

/// Law: gathering for one client gives exactly the report that gathering
/// over all active clients gives for that client, when both are handed the
/// same rows for it.
pub proof fn lemma_one_client_is_entry_of_all(
    start: Seq<char>,
    end: Seq<char>,
    ids: Seq<i64>,
    calls: Seq<Seq<Calls>>,
    emails: Seq<Seq<Email>>,
    i: int,
)
    requires
        calls.len() == ids.len(),
        emails.len() == ids.len(),
        0 <= i < ids.len(),
    ensures
        run(
            start_all(start, end),
            seq![DbReplyView::ClientIds(ids)] + client_replies(calls, emails, ids.len()),
        ) matches Some(all) && run(
            start_one(start, end, ids[i]),
            seq![DbReplyView::CallRows(calls[i]), DbReplyView::EmailRows(emails[i])],
        ) matches Some(one) && all.1 matches StepView::Finished(every) && one.1
            == StepView::Finished(seq![every[i]]),
{
    lemma_all_active_reports(start, end, ids, calls, emails);
    lemma_one_client_report(start, end, ids[i], calls[i], emails[i]);
}

/// Law: the clients a collection visits after the id list are exactly the
/// rows of that list, all of them, in order, each by its site id.
pub proof fn lemma_id_list_is_rows(v: CollectorView, rows: Vec<ClientId>)
    requires
        v.phase == Phase::AwaitIds,
    ensures
        accepts(v, DbReply::ClientIds(rows)@),
        ({
            let w = transition(v, DbReply::ClientIds(rows)@).0;
            &&& w.ids.len() == rows@.len()
            &&& forall|j: int| 0 <= j < rows@.len() ==> w.ids[j] == (#[trigger] rows@[j]).site_id
            &&& w.next == 0
        }),
{
}

/// Law: gathering over all active clients, given the id rows and then each
/// client's calls and emails as asked, ends with exactly one report per id
/// row, in the order of the rows: report `j` has the site id of row `j` and
/// the calls and emails handed over for it.
pub proof fn lemma_every_id_row_reported(
    start: Seq<char>,
    end: Seq<char>,
    rows: Vec<ClientId>,
    calls: Seq<Seq<Calls>>,
    emails: Seq<Seq<Email>>,
)
    requires
        calls.len() == rows@.len(),
        emails.len() == rows@.len(),
    ensures
        run(
            start_all(start, end),
            seq![DbReply::ClientIds(rows)@] + client_replies(calls, emails, rows@.len()),
        ) matches Some(p) && p.1 matches StepView::Finished(got) && got.len() == rows@.len() && (
        forall|j: int|
            0 <= j < rows@.len() ==> (#[trigger] got[j]).site_id == rows@[j].site_id
                && got[j].calls == calls[j] && got[j].email == emails[j]),
{
    let ids = site_ids(rows@);
    assert(DbReply::ClientIds(rows)@ == DbReplyView::ClientIds(ids));
    lemma_all_active_reports(start, end, ids, calls, emails);
}

/// Law: when the id list cannot be read, a collection over all active
/// clients ends at once with that error, whatever its text.
pub proof fn lemma_id_list_failure(start: Seq<char>, end: Seq<char>, msg: String)
    ensures
        run(start_all(start, end), seq![DbReply::Failure(msg)@]) matches Some(p)
            && p.1 == StepView::Failed(msg@) && p.0.phase == Phase::Done,
{
}

} // verus!
