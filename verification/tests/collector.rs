use calibri::collector::{CallsCollector, DbReply, DbRequest, Phase, Step};
use calibri::models::{AllCallsClient, Calls, ClientId, Email};
use calibri::queries::{calls_in_range_sql, emails_in_range_sql};

fn call(id: i32, call_id: i64) -> Calls {
    Calls {
        id,
        call_id,
        date: "2024-01-02T10:00:00.000Z".to_string(),
        channel_id: 5,
        source: "google".to_string(),
        is_lid: true,
        name_type: "call".to_string(),
        traffic_type: "organic".to_string(),
        landing_page: "/".to_string(),
        conversations_number: 1,
        call_status: "answered".to_string(),
    }
}

fn email(id: i32, email_id: i64) -> Email {
    Email {
        id,
        email_id,
        date: "2024-01-03T11:00:00.000Z".to_string(),
        source: "yandex".to_string(),
        is_lid: false,
        traffic_type: "ads".to_string(),
        landing_page: "/contact".to_string(),
        lid_landing: "/form".to_string(),
        conversations_number: 2,
    }
}

fn expect_calls_of(step: &Step, site: i64, sql: &str) {
    match step {
        Step::Query(DbRequest::CallsOf { sql: s, site_id }) => {
            assert_eq!(*site_id, site);
            assert_eq!(s, sql);
        }
        _ => panic!("expected a calls request"),
    }
}

fn expect_emails_of(step: &Step, site: i64, sql: &str) {
    match step {
        Step::Query(DbRequest::EmailsOf { sql: s, site_id }) => {
            assert_eq!(*site_id, site);
            assert_eq!(s, sql);
        }
        _ => panic!("expected an emails request"),
    }
}

fn finished(step: Step) -> Vec<AllCallsClient> {
    match step {
        Step::Finished(r) => r,
        _ => panic!("expected the end of the collection"),
    }
}

#[test]
fn all_active_starts_with_the_id_list() {
    let (c, first) = CallsCollector::all_active("2024-01-01", "2024-01-31");
    assert_eq!(c.phase(), Phase::AwaitIds);
    match first {
        Step::Query(DbRequest::ClientIds { sql, status }) => {
            assert_eq!(sql, "SELECT site_id FROM client_calibri WHERE active=$1");
            assert_eq!(status, "true");
        }
        _ => panic!("expected the id list request"),
    }
}

#[test]
fn all_active_reports_each_client_in_order() {
    let calls_sql = calls_in_range_sql("2024-01-01", "2024-01-31");
    let emails_sql = emails_in_range_sql("2024-01-01", "2024-01-31");
    let (mut c, _) = CallsCollector::all_active("2024-01-01", "2024-01-31");
    let s = c.step(DbReply::ClientIds(vec![ClientId { site_id: 30 }, ClientId { site_id: 10 }]));
    expect_calls_of(&s, 30, &calls_sql);
    assert_eq!(c.phase(), Phase::AwaitCalls);
    let s = c.step(DbReply::CallRows(vec![call(1, 100), call(2, 101)]));
    expect_emails_of(&s, 30, &emails_sql);
    assert_eq!(c.phase(), Phase::AwaitEmails);
    let s = c.step(DbReply::EmailRows(vec![]));
    expect_calls_of(&s, 10, &calls_sql);
    let s = c.step(DbReply::CallRows(vec![]));
    expect_emails_of(&s, 10, &emails_sql);
    let s = c.step(DbReply::EmailRows(vec![email(7, 700)]));
    assert_eq!(c.phase(), Phase::Done);
    let reports = finished(s);
    assert_eq!(reports.len(), 2);
    assert_eq!(reports[0].site_id, 30);
    assert_eq!(reports[0].calls.len(), 2);
    assert_eq!(reports[0].calls[0].call_id, 100);
    assert_eq!(reports[0].calls[1].call_id, 101);
    assert!(reports[0].email.is_empty());
    assert_eq!(reports[1].site_id, 10);
    assert!(reports[1].calls.is_empty());
    assert_eq!(reports[1].email.len(), 1);
    assert_eq!(reports[1].email[0].email_id, 700);
}

#[test]
fn all_active_with_no_client_reports_nothing() {
    let (mut c, _) = CallsCollector::all_active("2024-01-01", "2024-01-02");
    let s = c.step(DbReply::ClientIds(vec![]));
    assert_eq!(c.phase(), Phase::Done);
    assert!(finished(s).is_empty());
}

#[test]
fn all_active_fails_when_the_id_list_fails() {
    let (mut c, _) = CallsCollector::all_active("2024-01-01", "2024-01-02");
    let s = c.step(DbReply::Failure("connection refused".to_string()));
    assert_eq!(c.phase(), Phase::Done);
    match s {
        Step::Failed(msg) => assert_eq!(msg, "connection refused"),
        _ => panic!("expected a failure"),
    }
}

#[test]
fn one_client_reports_that_client() {
    let calls_sql = calls_in_range_sql("2024-02-01", "2024-02-29");
    let emails_sql = emails_in_range_sql("2024-02-01", "2024-02-29");
    let (mut c, first) = CallsCollector::one_client("2024-02-01", "2024-02-29", 42);
    assert_eq!(c.phase(), Phase::AwaitCalls);
    expect_calls_of(&first, 42, &calls_sql);
    let s = c.step(DbReply::CallRows(vec![call(3, 300)]));
    expect_emails_of(&s, 42, &emails_sql);
    let s = c.step(DbReply::EmailRows(vec![email(4, 400), email(5, 500)]));
    let reports = finished(s);
    assert_eq!(reports.len(), 1);
    assert_eq!(reports[0].site_id, 42);
    assert_eq!(reports[0].calls.len(), 1);
    assert_eq!(reports[0].calls[0].call_id, 300);
    assert_eq!(reports[0].email.len(), 2);
    assert_eq!(reports[0].email[1].email_id, 500);
}

#[test]
fn one_client_matches_a_single_id_list() {
    let (mut all, _) = CallsCollector::all_active("2024-03-01", "2024-03-02");
    let from_all = all.step(DbReply::ClientIds(vec![ClientId { site_id: 9 }]));
    let (_, from_one) = CallsCollector::one_client("2024-03-01", "2024-03-02", 9);
    let sql = calls_in_range_sql("2024-03-01", "2024-03-02");
    expect_calls_of(&from_all, 9, &sql);
    expect_calls_of(&from_one, 9, &sql);
    let a = finished({
        all.step(DbReply::CallRows(vec![call(1, 11)]));
        all.step(DbReply::EmailRows(vec![email(2, 22)]))
    });
    let (mut one, _) = CallsCollector::one_client("2024-03-01", "2024-03-02", 9);
    let b = finished({
        one.step(DbReply::CallRows(vec![call(1, 11)]));
        one.step(DbReply::EmailRows(vec![email(2, 22)]))
    });
    assert_eq!(a.len(), 1);
    assert_eq!(b.len(), 1);
    assert_eq!(a[0].site_id, b[0].site_id);
    assert_eq!(a[0].calls[0].call_id, b[0].calls[0].call_id);
    assert_eq!(a[0].email[0].email_id, b[0].email[0].email_id);
}
