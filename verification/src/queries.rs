//! The SQL statements the service runs, and how the date range and the
//! status filter go into them. Every statement is a `SELECT`: the service
//! only reads the database.
use vstd::prelude::*;

verus! {

/// The keyword every statement of the service begins with.
pub const SELECT: &'static str = "SELECT ";

/// After `SELECT `: all clients whose status is `"true"`, each with its
/// phone numbers if it has any.
pub const ACTIVE_STATUS_FROM: &'static str = "cc.id,cc.site_id,cc.sitename,cc.domains,cc.active,cc.license_start,cc.license_end,cc.not_enough_money,ph.number FROM client_calibri cc LEFT JOIN phone ph ON cc.site_id=ph.client_calibri_site_id_fk WHERE active=$1";

/// After `SELECT `: all clients of another status, each with its phone
/// numbers if it has any.
pub const ANY_STATUS_FROM: &'static str = "cc.id, cc.site_id, cc.sitename, cc.domains, cc.active, cc.license_start, cc.license_end, cc.not_enough_money, ph.number FROM client_calibri cc LEFT JOIN phone ph ON cc.site_id = ph.client_calibri_site_id_fk WHERE cc.active = $1";

/// After `SELECT `: the site ids of the clients of one activity status.
pub const CLIENT_IDS_FROM: &'static str = "site_id FROM client_calibri WHERE active=$1";

/// The status value that selects the active clients.
pub const ACTIVE: &'static str = "true";

/// After `SELECT `: calls of one client, up to the first day of the range.
pub const CALLS_FROM: &'static str = "* FROM calls WHERE calls.client_calibri_site_id_fk = $1 AND TO_TIMESTAMP(calls.date, 'YYYY-MM-DD\"T\"HH24:MI:SS.USZ') BETWEEN TO_TIMESTAMP('";

/// After `SELECT `: emails of one client, up to the first day of the range.
pub const EMAILS_FROM: &'static str = "* FROM email WHERE email.client_calibri_site_id_fk = $1 AND TO_TIMESTAMP(email.date, 'YYYY-MM-DD\"T\"HH24:MI:SS.USZ') BETWEEN TO_TIMESTAMP('";

/// Between the first and the last day of the range.
pub const RANGE_MIDDLE: &'static str = "T00:00:00.000Z', 'YYYY-MM-DD\"T\"HH24:MI:SS.USZ') AND TO_TIMESTAMP('";

/// After the last day of the range.
pub const RANGE_TAIL: &'static str = "T23:59:59.999Z', 'YYYY-MM-DD\"T\"HH24:MI:SS.USZ');";

/// The statement for the site ids of the clients whose status is `$1`.
pub open spec fn client_ids_sql() -> Seq<char> {
    SELECT@ + CLIENT_IDS_FROM@
}

/// The statement for the calls of one client from the start of day `start`
/// to the end of day `end`; the client's site id is its parameter `$1`.
pub open spec fn calls_sql(start: Seq<char>, end: Seq<char>) -> Seq<char> {
    SELECT@ + CALLS_FROM@ + start + RANGE_MIDDLE@ + end + RANGE_TAIL@
}

/// The statement for the emails of one client from the start of day `start`
/// to the end of day `end`; the client's site id is its parameter `$1`.
pub open spec fn emails_sql(start: Seq<char>, end: Seq<char>) -> Seq<char> {
    SELECT@ + EMAILS_FROM@ + start + RANGE_MIDDLE@ + end + RANGE_TAIL@
}

/// The statement for all clients of status `status`, with or without phone
/// numbers: one text for `"true"`, another for any other status.
pub open spec fn status_sql(status: Seq<char>) -> Seq<char> {
    if status == ACTIVE@ {
        SELECT@ + ACTIVE_STATUS_FROM@
    } else {
        SELECT@ + ANY_STATUS_FROM@
    }
}

/// Whether a statement is a `SELECT`, which only reads.
pub open spec fn reads_only(sql: Seq<char>) -> bool {
    sql.len() >= SELECT@.len() && sql.subrange(0, SELECT@.len() as int) == SELECT@
}

/// Law: every statement the service runs only reads the database.
pub proof fn lemma_statements_read_only(start: Seq<char>, end: Seq<char>, status: Seq<char>)
    ensures
        reads_only(client_ids_sql()),
        reads_only(calls_sql(start, end)),
        reads_only(emails_sql(start, end)),
        reads_only(status_sql(status)),
{
    let k = SELECT@.len() as int;
    assert((SELECT@ + CLIENT_IDS_FROM@).subrange(0, k) =~= SELECT@);
    assert(calls_sql(start, end) =~= SELECT@ + (CALLS_FROM@ + start + RANGE_MIDDLE@ + end
        + RANGE_TAIL@));
    assert((SELECT@ + (CALLS_FROM@ + start + RANGE_MIDDLE@ + end + RANGE_TAIL@)).subrange(0, k)
        =~= SELECT@);
    assert(emails_sql(start, end) =~= SELECT@ + (EMAILS_FROM@ + start + RANGE_MIDDLE@ + end
        + RANGE_TAIL@));
    assert((SELECT@ + (EMAILS_FROM@ + start + RANGE_MIDDLE@ + end + RANGE_TAIL@)).subrange(0, k)
        =~= SELECT@);
    assert((SELECT@ + ACTIVE_STATUS_FROM@).subrange(0, k) =~= SELECT@);
    assert((SELECT@ + ANY_STATUS_FROM@).subrange(0, k) =~= SELECT@);
}

/// Law: the calls statement for a date range is, word for word, the
/// calls of client `$1` whose date lies between the start of day `start`
/// and the end of day `end`; the last day of the window is `end`, whatever
/// `start` is.
pub proof fn lemma_calls_statement(start: Seq<char>, end: Seq<char>)
    ensures
        calls_sql(start, end) == "SELECT * FROM calls WHERE calls.client_calibri_site_id_fk = $1 AND TO_TIMESTAMP(calls.date, 'YYYY-MM-DD\"T\"HH24:MI:SS.USZ') BETWEEN TO_TIMESTAMP('"@
            + start + "T00:00:00.000Z', 'YYYY-MM-DD\"T\"HH24:MI:SS.USZ') AND TO_TIMESTAMP('"@
            + end + "T23:59:59.999Z', 'YYYY-MM-DD\"T\"HH24:MI:SS.USZ');"@,
        ({
            let q = calls_sql(start, end);
            let tail = end + "T23:59:59.999Z', 'YYYY-MM-DD\"T\"HH24:MI:SS.USZ');"@;
            q.len() >= tail.len() && q.subrange(q.len() - tail.len(), q.len() as int) == tail
        }),
{
    reveal_strlit("SELECT ");
    reveal_strlit("* FROM calls WHERE calls.client_calibri_site_id_fk = $1 AND TO_TIMESTAMP(calls.date, 'YYYY-MM-DD\"T\"HH24:MI:SS.USZ') BETWEEN TO_TIMESTAMP('");
    reveal_strlit("SELECT * FROM calls WHERE calls.client_calibri_site_id_fk = $1 AND TO_TIMESTAMP(calls.date, 'YYYY-MM-DD\"T\"HH24:MI:SS.USZ') BETWEEN TO_TIMESTAMP('");
    reveal_strlit("T00:00:00.000Z', 'YYYY-MM-DD\"T\"HH24:MI:SS.USZ') AND TO_TIMESTAMP('");
    reveal_strlit("T23:59:59.999Z', 'YYYY-MM-DD\"T\"HH24:MI:SS.USZ');");
    let head = "SELECT * FROM calls WHERE calls.client_calibri_site_id_fk = $1 AND TO_TIMESTAMP(calls.date, 'YYYY-MM-DD\"T\"HH24:MI:SS.USZ') BETWEEN TO_TIMESTAMP('"@;
    assert(SELECT@ + CALLS_FROM@ =~= head);
    let tail = end + "T23:59:59.999Z', 'YYYY-MM-DD\"T\"HH24:MI:SS.USZ');"@;
    let q = calls_sql(start, end);
    let front = head + start + "T00:00:00.000Z', 'YYYY-MM-DD\"T\"HH24:MI:SS.USZ') AND TO_TIMESTAMP('"@;
    assert(q =~= front + tail);
    assert(q.subrange(q.len() - tail.len(), q.len() as int) =~= tail);
}

/// Law: the emails statement for a date range is, word for word, the
/// emails of client `$1` whose date lies between the start of day `start`
/// and the end of day `end`; the last day of the window is `end`, whatever
/// `start` is.
pub proof fn lemma_emails_statement(start: Seq<char>, end: Seq<char>)
    ensures
        emails_sql(start, end) == "SELECT * FROM email WHERE email.client_calibri_site_id_fk = $1 AND TO_TIMESTAMP(email.date, 'YYYY-MM-DD\"T\"HH24:MI:SS.USZ') BETWEEN TO_TIMESTAMP('"@
            + start + "T00:00:00.000Z', 'YYYY-MM-DD\"T\"HH24:MI:SS.USZ') AND TO_TIMESTAMP('"@
            + end + "T23:59:59.999Z', 'YYYY-MM-DD\"T\"HH24:MI:SS.USZ');"@,
        ({
            let q = emails_sql(start, end);
            let tail = end + "T23:59:59.999Z', 'YYYY-MM-DD\"T\"HH24:MI:SS.USZ');"@;
            q.len() >= tail.len() && q.subrange(q.len() - tail.len(), q.len() as int) == tail
        }),
{
    reveal_strlit("SELECT ");
    reveal_strlit("* FROM email WHERE email.client_calibri_site_id_fk = $1 AND TO_TIMESTAMP(email.date, 'YYYY-MM-DD\"T\"HH24:MI:SS.USZ') BETWEEN TO_TIMESTAMP('");
    reveal_strlit("SELECT * FROM email WHERE email.client_calibri_site_id_fk = $1 AND TO_TIMESTAMP(email.date, 'YYYY-MM-DD\"T\"HH24:MI:SS.USZ') BETWEEN TO_TIMESTAMP('");
    reveal_strlit("T00:00:00.000Z', 'YYYY-MM-DD\"T\"HH24:MI:SS.USZ') AND TO_TIMESTAMP('");
    reveal_strlit("T23:59:59.999Z', 'YYYY-MM-DD\"T\"HH24:MI:SS.USZ');");
    let head = "SELECT * FROM email WHERE email.client_calibri_site_id_fk = $1 AND TO_TIMESTAMP(email.date, 'YYYY-MM-DD\"T\"HH24:MI:SS.USZ') BETWEEN TO_TIMESTAMP('"@;
    assert(SELECT@ + EMAILS_FROM@ =~= head);
    let tail = end + "T23:59:59.999Z', 'YYYY-MM-DD\"T\"HH24:MI:SS.USZ');"@;
    let q = emails_sql(start, end);
    let front = head + start + "T00:00:00.000Z', 'YYYY-MM-DD\"T\"HH24:MI:SS.USZ') AND TO_TIMESTAMP('"@;
    assert(q =~= front + tail);
    assert(q.subrange(q.len() - tail.len(), q.len() as int) =~= tail);
}

/// Law: the statement for the site ids of the clients of status `$1`.
pub proof fn lemma_client_ids_statement()
    ensures
        client_ids_sql() == "SELECT site_id FROM client_calibri WHERE active=$1"@,
{
    reveal_strlit("SELECT ");
    reveal_strlit("site_id FROM client_calibri WHERE active=$1");
    reveal_strlit("SELECT site_id FROM client_calibri WHERE active=$1");
    assert(client_ids_sql() =~= "SELECT site_id FROM client_calibri WHERE active=$1"@);
}

/// Law: the statement for the clients of a status keeps every client of
/// that status, with its phone numbers when it has some (a left join on
/// `phone`), for `"true"` as for any other status.
pub proof fn lemma_status_statement(status: Seq<char>)
    ensures
        status == "true"@ ==> status_sql(status) == "SELECT cc.id,cc.site_id,cc.sitename,cc.domains,cc.active,cc.license_start,cc.license_end,cc.not_enough_money,ph.number FROM client_calibri cc LEFT JOIN phone ph ON cc.site_id=ph.client_calibri_site_id_fk WHERE active=$1"@,
        status != "true"@ ==> status_sql(status) == "SELECT cc.id, cc.site_id, cc.sitename, cc.domains, cc.active, cc.license_start, cc.license_end, cc.not_enough_money, ph.number FROM client_calibri cc LEFT JOIN phone ph ON cc.site_id = ph.client_calibri_site_id_fk WHERE cc.active = $1"@,
{
    reveal_strlit("true");
    reveal_strlit("SELECT ");
    reveal_strlit("cc.id,cc.site_id,cc.sitename,cc.domains,cc.active,cc.license_start,cc.license_end,cc.not_enough_money,ph.number FROM client_calibri cc LEFT JOIN phone ph ON cc.site_id=ph.client_calibri_site_id_fk WHERE active=$1");
    reveal_strlit("SELECT cc.id,cc.site_id,cc.sitename,cc.domains,cc.active,cc.license_start,cc.license_end,cc.not_enough_money,ph.number FROM client_calibri cc LEFT JOIN phone ph ON cc.site_id=ph.client_calibri_site_id_fk WHERE active=$1");
    reveal_strlit("cc.id, cc.site_id, cc.sitename, cc.domains, cc.active, cc.license_start, cc.license_end, cc.not_enough_money, ph.number FROM client_calibri cc LEFT JOIN phone ph ON cc.site_id = ph.client_calibri_site_id_fk WHERE cc.active = $1");
    reveal_strlit("SELECT cc.id, cc.site_id, cc.sitename, cc.domains, cc.active, cc.license_start, cc.license_end, cc.not_enough_money, ph.number FROM client_calibri cc LEFT JOIN phone ph ON cc.site_id = ph.client_calibri_site_id_fk WHERE cc.active = $1");
    assert(SELECT@ + ACTIVE_STATUS_FROM@ =~= "SELECT cc.id,cc.site_id,cc.sitename,cc.domains,cc.active,cc.license_start,cc.license_end,cc.not_enough_money,ph.number FROM client_calibri cc LEFT JOIN phone ph ON cc.site_id=ph.client_calibri_site_id_fk WHERE active=$1"@);
    assert(SELECT@ + ANY_STATUS_FROM@ =~= "SELECT cc.id, cc.site_id, cc.sitename, cc.domains, cc.active, cc.license_start, cc.license_end, cc.not_enough_money, ph.number FROM client_calibri cc LEFT JOIN phone ph ON cc.site_id = ph.client_calibri_site_id_fk WHERE cc.active = $1"@);
}

/// A statement and the value of its parameter `$1`.
pub struct StatusQuery {
    pub sql: String,
    pub bind: String,
}

/// Builds the statement for the site ids of the clients of one status.
pub fn client_ids_statement() -> (sql: String)
    ensures
        sql@ == client_ids_sql(),
{
    let mut sql = String::from_str(SELECT);
    sql.append(CLIENT_IDS_FROM);
    sql
}

/// Builds the calls statement for a date range.
pub fn calls_in_range_sql(start: &str, end: &str) -> (sql: String)
    ensures
        sql@ == calls_sql(start@, end@),
{
    let mut sql = String::from_str(SELECT);
    sql.append(CALLS_FROM);
    sql.append(start);
    sql.append(RANGE_MIDDLE);
    sql.append(end);
    sql.append(RANGE_TAIL);
    sql
}

/// Builds the emails statement for a date range.
pub fn emails_in_range_sql(start: &str, end: &str) -> (sql: String)
    ensures
        sql@ == emails_sql(start@, end@),
{
    let mut sql = String::from_str(SELECT);
    sql.append(EMAILS_FROM);
    sql.append(start);
    sql.append(RANGE_MIDDLE);
    sql.append(end);
    sql.append(RANGE_TAIL);
    sql
}

/// The statement that lists all clients of status `status`, bound to it.
pub fn status_query(status: &str) -> (q: StatusQuery)
    ensures
        q.sql@ == status_sql(status@),
        q.bind@ == status@,
{
    let bind = String::from_str(status);
    let active = String::from_str(ACTIVE);
    let mut sql = String::from_str(SELECT);
    if bind == active {
        sql.append(ACTIVE_STATUS_FROM);
    } else {
        sql.append(ANY_STATUS_FROM);
    }
    StatusQuery { sql, bind }
}

} // verus!
