use calibri::queries::{calls_in_range_sql, client_ids_statement, emails_in_range_sql, status_query};

const ACTIVE_STATUS_SQL: &str = "SELECT cc.id,cc.site_id,cc.sitename,cc.domains,cc.active,\
cc.license_start,cc.license_end,cc.not_enough_money,ph.number FROM client_calibri cc \
LEFT JOIN phone ph ON cc.site_id=ph.client_calibri_site_id_fk WHERE active=$1";

const ANY_STATUS_SQL: &str = "SELECT cc.id, cc.site_id, cc.sitename, cc.domains, cc.active, \
cc.license_start, cc.license_end, cc.not_enough_money, ph.number FROM client_calibri cc \
LEFT JOIN phone ph ON cc.site_id = ph.client_calibri_site_id_fk WHERE cc.active = $1";

#[test]
fn calls_statement_holds_the_date_range() {
    let sql = calls_in_range_sql("2024-01-01", "2024-01-31");
    assert_eq!(
        sql,
        "SELECT * FROM calls WHERE calls.client_calibri_site_id_fk = $1 AND \
         TO_TIMESTAMP(calls.date, 'YYYY-MM-DD\"T\"HH24:MI:SS.USZ') BETWEEN \
         TO_TIMESTAMP('2024-01-01T00:00:00.000Z', 'YYYY-MM-DD\"T\"HH24:MI:SS.USZ') AND \
         TO_TIMESTAMP('2024-01-31T23:59:59.999Z', 'YYYY-MM-DD\"T\"HH24:MI:SS.USZ');"
    );
}

#[test]
fn emails_statement_holds_the_date_range() {
    let sql = emails_in_range_sql("2023-12-05", "2023-12-06");
    assert_eq!(
        sql,
        "SELECT * FROM email WHERE email.client_calibri_site_id_fk = $1 AND \
         TO_TIMESTAMP(email.date, 'YYYY-MM-DD\"T\"HH24:MI:SS.USZ') BETWEEN \
         TO_TIMESTAMP('2023-12-05T00:00:00.000Z', 'YYYY-MM-DD\"T\"HH24:MI:SS.USZ') AND \
         TO_TIMESTAMP('2023-12-06T23:59:59.999Z', 'YYYY-MM-DD\"T\"HH24:MI:SS.USZ');"
    );
}

#[test]
fn empty_dates_leave_the_statement_frame() {
    let sql = calls_in_range_sql("", "");
    assert!(sql.contains("TO_TIMESTAMP('T00:00:00.000Z'"));
    assert!(sql.contains("TO_TIMESTAMP('T23:59:59.999Z'"));
}

#[test]
fn active_status_keeps_clients_without_phones() {
    let q = status_query("true");
    assert_eq!(q.sql, ACTIVE_STATUS_SQL);
    assert_eq!(q.bind, "true");
    assert!(q.sql.contains("LEFT JOIN phone ph"));
}

#[test]
fn id_list_statement() {
    assert_eq!(client_ids_statement(), "SELECT site_id FROM client_calibri WHERE active=$1");
}

#[test]
fn every_statement_is_a_select() {
    for sql in [
        client_ids_statement(),
        calls_in_range_sql("2024-01-01", "2024-01-02"),
        emails_in_range_sql("2024-01-01", "2024-01-02"),
        status_query("true").sql,
        status_query("false").sql,
    ] {
        assert!(sql.starts_with("SELECT "));
    }
}

#[test]
fn other_status_keeps_clients_without_phones() {
    let q = status_query("false");
    assert_eq!(q.sql, ANY_STATUS_SQL);
    assert_eq!(q.bind, "false");
    assert!(q.sql.contains("LEFT JOIN phone ph"));
}

#[test]
fn status_match_is_exact() {
    assert_eq!(status_query("True").sql, ANY_STATUS_SQL);
    assert_eq!(status_query("true ").sql, ANY_STATUS_SQL);
    assert_eq!(status_query("").sql, ANY_STATUS_SQL);
    assert_eq!(status_query("").bind, "");
}
