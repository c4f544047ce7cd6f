//! Rows of the client, call and email tables, the per-client report, and
//! the parameters of the three HTTP endpoints.
use vstd::prelude::*;

verus! {

/// A row of `client_calibri` joined with its phone numbers.
#[derive(Debug)]
pub struct ClientCalibri {
    pub id: i32,
    pub site_id: i64,
    pub sitename: String,
    pub domains: String,
    pub active: String,
    pub license_start: Option<String>,
    pub license_end: Option<String>,
    pub not_enough_money: Option<bool>,
    pub number: Option<Vec<String>>,
}

/// The site id of one client.
#[derive(Debug)]
pub struct ClientId {
    pub site_id: i64,
}

/// A row of the `calls` table.
#[derive(Debug)]
pub struct Calls {
    pub id: i32,
    pub call_id: i64,
    pub date: String,
    pub channel_id: i64,
    pub source: String,
    pub is_lid: bool,
    pub name_type: String,
    pub traffic_type: String,
    pub landing_page: String,
    pub conversations_number: i64,
    pub call_status: String,
}

/// A row of the `email` table.
#[derive(Debug)]
pub struct Email {
    pub id: i32,
    pub email_id: i64,
    pub date: String,
    pub source: String,
    pub is_lid: bool,
    pub traffic_type: String,
    pub landing_page: String,
    pub lid_landing: String,
    pub conversations_number: i64,
}

/// The calls and emails of one client within a date range.
#[derive(Debug)]
pub struct AllCallsClient {
    pub calls: Vec<Calls>,
    pub email: Vec<Email>,
    pub site_id: i64,
}

/// What an `AllCallsClient` holds, as sequences.
pub struct AllCallsClientView {
    pub calls: Seq<Calls>,
    pub email: Seq<Email>,
    pub site_id: i64,
}

impl View for AllCallsClient {
    type V = AllCallsClientView;

    open spec fn view(&self) -> AllCallsClientView {
        AllCallsClientView { calls: self.calls@, email: self.email@, site_id: self.site_id }
    }
}

/// The report of several clients, entry by entry.
pub open spec fn reports_view(reports: Seq<AllCallsClient>) -> Seq<AllCallsClientView> {
    reports.map_values(|r: AllCallsClient| r@)
}

/// Parameters of the request for the calls and emails of all active clients.
#[derive(Debug, Clone)]
pub struct RequestServer {
    pub date_start: String,
    pub date_end: String,
}

/// Parameters of the request for the calls and emails of one client.
#[derive(Debug, Clone)]
pub struct RequestServerOneClient {
    pub date_start: String,
    pub date_end: String,
    pub id: i64,
}

/// Parameter of the request for the clients of one activity status.
#[derive(Debug, Clone)]
pub struct StatusClientList {
    pub status: String,
}

} // verus!
