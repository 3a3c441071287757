use vstd::prelude::*;

use crate::interval::{Interval, NANOS_PER_SEC};
use crate::reporter::ReporterModel;
use crate::schedule::Event;

verus! {

/// The `User-Agent` that the reports carry.
pub const USER_AGENT: &'static str = "rs-vigil-reporter/1.3.0";

/// Standard base64, with padding, of the UTF-8 encoding of `s`.
pub uninterp spec fn base64_of(s: Seq<char>) -> Seq<char>;

/// Relies on base64's `Engine::encode` with the `STANDARD` engine: the
/// result depends on the input alone. Its length check cannot fail on a
/// `str`, which never exceeds `isize::MAX` bytes.
#[verifier::external_body]
fn encode_base64(s: &str) -> (r: String)
    ensures
        r@ == base64_of(s@),
{
    base64::Engine::encode(&base64::engine::general_purpose::STANDARD, s)
}

/// Relies on http_req's `StatusCode::is_success`: true for 200 to 299.
#[verifier::external_body]
fn status_is_success(code: u16) -> (r: bool)
    ensures
        r == (200 <= code && code < 300),
{
    http_req::response::StatusCode::from(code).is_success()
}

/// The URL the reports of `probe_id` and `node_id` are posted to.
pub open spec fn report_url_of(url: Seq<char>, probe_id: Seq<char>, node_id: Seq<char>) -> Seq<char> {
    url + "/reporter/"@ + probe_id + "/"@ + node_id + "/"@
}

/// The `Authorization` value for `token`: basic credentials with an empty
/// user name and the token as password.
pub open spec fn authorization_of(token: Seq<char>) -> Seq<char> {
    "Basic "@ + base64_of(":"@ + token)
}

/// What the report loop works from, as values.
pub struct ManagerModel {
    pub report_uri: Seq<char>,
    pub replica_id: Seq<char>,
    /// In nanoseconds.
    pub interval: nat,
    pub useragent: Seq<char>,
    pub authorization: Seq<char>,
}

/// The loop state derived from a complete configuration.
pub open spec fn manager_of(c: ReporterModel) -> ManagerModel {
    ManagerModel {
        report_uri: report_url_of(c.url, c.probe_id->0, c.node_id->0),
        replica_id: c.replica_id->0,
        interval: c.interval,
        useragent: USER_AGENT@,
        authorization: authorization_of(c.token),
    }
}

/// Builds the URL the reports of `probe_id` and `node_id` are posted to.
pub fn report_url(url: &str, probe_id: &str, node_id: &str) -> (r: String)
    ensures
        r@ == report_url_of(url@, probe_id@, node_id@),
{
    let r = url.to_owned().concat("/reporter/").concat(probe_id).concat("/").concat(node_id).concat("/");
    r
}

/// Builds the `Authorization` value for `token`.
pub fn authorization_header(token: &str) -> (r: String)
    ensures
        r@ == authorization_of(token@),
{
    let credential = ":".to_owned().concat(token);
    let encoded = encode_base64(credential.as_str());
    "Basic ".to_owned().concat(encoded.as_str())
}

/// How a delivery ended: `status` is the response's status code, or `None`
/// where no response came. Any 2xx status is a success.
pub fn delivery_event(status: Option<u16>) -> (r: Event)
    ensures
        r == (if status matches Some(c) && 200 <= c < 300 { Event::Delivered } else { Event::Failed }),
{
    match status {
        Some(code) => if status_is_success(code) {
            Event::Delivered
        } else {
            Event::Failed
        },
        None => Event::Failed,
    }
}

/// The fixed state of a running report loop.
pub struct ReporterManager {
    report_uri: String,
    replica_id: String,
    interval: Interval,
    useragent: String,
    authorization: String,
}

impl View for ReporterManager {
    type V = ManagerModel;

    closed spec fn view(&self) -> ManagerModel {
        ManagerModel {
            report_uri: self.report_uri@,
            replica_id: self.replica_id@,
            interval: self.interval@,
            useragent: self.useragent@,
            authorization: self.authorization@,
        }
    }
}

impl ReporterManager {
    pub(crate) fn new(
        url: &str,
        token: &str,
        probe_id: &str,
        node_id: &str,
        replica_id: &str,
        interval: Interval,
    ) -> (r: ReporterManager)
        ensures
            r@ == (ManagerModel {
                report_uri: report_url_of(url@, probe_id@, node_id@),
                replica_id: replica_id@,
                interval: interval@,
                useragent: USER_AGENT@,
                authorization: authorization_of(token@),
            }),
    {
        ReporterManager {
            report_uri: report_url(url, probe_id, node_id),
            replica_id: replica_id.to_owned(),
            interval,
            useragent: USER_AGENT.to_owned(),
            authorization: authorization_header(token),
        }
    }

    /// The URL the reports are posted to.
    pub fn report_uri(&self) -> (r: &str)
        ensures
            r@ == self@.report_uri,
    {
        self.report_uri.as_str()
    }

    /// The replica named in each report.
    pub fn replica_id(&self) -> (r: &str)
        ensures
            r@ == self@.replica_id,
    {
        self.replica_id.as_str()
    }

    /// The time between two reports.
    pub fn interval(&self) -> (r: Interval)
        ensures
            r@ == self@.interval,
    {
        self.interval
    }

    /// The interval as the whole seconds that each report states.
    pub fn interval_secs(&self) -> (r: u64)
        ensures
            r as nat == self@.interval / NANOS_PER_SEC as nat,
    {
        self.interval.as_secs()
    }

    /// The `User-Agent` the reports carry.
    pub fn useragent(&self) -> (r: &str)
        ensures
            r@ == self@.useragent,
    {
        self.useragent.as_str()
    }

    /// The `Authorization` value the reports carry.
    pub fn authorization(&self) -> (r: &str)
        ensures
            r@ == self@.authorization,
    {
        self.authorization.as_str()
    }
}

} // verus!
