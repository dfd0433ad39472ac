//! The HTTP requests the service makes, described as plain values: where they
//! go, which headers they carry and what they send. Sending them is the
//! caller's.

use vstd::prelude::*;
use vstd::string::*;

use crate::clock::{lima_clock_text, lima_text, window_start, window_start_text};
use crate::config::Config;
use crate::iclock_models::TokenAuthRequest;
use crate::text::{decimal_digits, header_value_ok, is_header_value, opt_text, push_decimal};

verus! {

/// The base of the terminal server's API: `http://{ip}:{port}`.
pub open spec fn terminal_base(ip: Seq<char>, port: u16) -> Seq<char> {
    "http://"@ + ip + ":"@ + decimal_digits(port as nat)
}

/// Where the punches of a terminal are fetched.
pub open spec fn transactions_url(ip: Seq<char>, port: u16) -> Seq<char> {
    terminal_base(ip, port) + "/iclock/api/transactions/"@
}

/// Where a terminal server's access token is requested.
pub open spec fn token_url(ip: Seq<char>, port: u16) -> Seq<char> {
    terminal_base(ip, port) + "/jwt-api-token-auth/"@
}

/// The `Authorization` header for a token: `JWT {token}`, left out when there
/// is no token or when the text is not a valid header value.
pub open spec fn authorization_for(jwt: Option<Seq<char>>) -> Option<Seq<char>> {
    match jwt {
        Some(t) => if is_header_value("JWT "@ + t) {
            Some("JWT "@ + t)
        } else {
            None
        },
        None => None,
    }
}

fn terminal_base_text(ip: &String, port: u16) -> (r: String)
    ensures
        r@ == terminal_base(ip@, port),
{
    let mut url = String::from_str("http://");
    url.append(ip.as_str());
    url.append(":");
    push_decimal(&mut url, port as u64);
    url
}

/// The query for one page of a terminal's punches.
pub struct TransactionsQuery {
    pub url: String,
    /// The `Authorization` header, when one is sent.
    pub authorization: Option<String>,
    pub start_time: String,
    pub end_time: String,
    pub page_size: String,
    pub terminal_sn: String,
}

/// The query for the punches of terminal `serial_number` on `port` in the
/// `time_config` minutes up to `now` (Unix seconds), as Lima wall-clock
/// texts, at most 200 per page; `None` when that window cannot be formed.
pub fn transactions_query(
    ip_server: &String,
    port: u16,
    jwt: &Option<String>,
    serial_number: &String,
    time_config: i64,
    now: i64,
) -> (r: Option<TransactionsQuery>)
    ensures
        r is Some <==> (window_start_text(now, time_config) is Some && lima_clock_text(now) is Some),
        r matches Some(q) ==> {
            &&& q.url@ == transactions_url(ip_server@, port)
            &&& opt_text(q.authorization) == authorization_for(opt_text(*jwt))
            &&& window_start_text(now, time_config) == Some(q.start_time@)
            &&& lima_clock_text(now) == Some(q.end_time@)
            &&& q.page_size@ == "200"@
            &&& q.terminal_sn@ == serial_number@
        },
{
    let mut url = terminal_base_text(ip_server, port);
    url.append("/iclock/api/transactions/");
    let start_time = match window_start(now, time_config) {
        Some(t) => t,
        None => return None,
    };
    let end_time = match lima_text(now) {
        Some(t) => t,
        None => return None,
    };
    let authorization = match jwt {
        Some(t) => {
            let mut value = String::from_str("JWT ");
            value.append(t.as_str());
            if header_value_ok(value.as_str()) {
                Some(value)
            } else {
                None
            }
        },
        None => None,
    };
    Some(
        TransactionsQuery {
            url,
            authorization,
            start_time,
            end_time,
            page_size: String::from_str("200"),
            terminal_sn: serial_number.clone(),
        },
    )
}

/// Where and what to send for a terminal server's access token: the
/// configured user name and password.
pub fn token_request(config: &Config, port: u16) -> (r: (String, TokenAuthRequest))
    ensures
        r.0@ == token_url(config.ip_server@, port),
        r.1.username@ == config.usser_biotime@,
        r.1.password@ == config.password_biotime@,
{
    let mut url = terminal_base_text(&config.ip_server, port);
    url.append("/jwt-api-token-auth/");
    (
        url,
        TokenAuthRequest {
            username: config.usser_biotime.clone(),
            password: config.password_biotime.clone(),
        },
    )
}

/// A request to the time-keeping service, authenticated by `x-api-key`.
pub struct ServiceRequest {
    pub url: String,
    pub api_key: String,
}

/// Where punches are forwarded.
pub open spec fn mark_status_url(domain: Seq<char>) -> Seq<char> {
    domain + "/time/iclock/flow-markings/update-mark-status"@
}

/// Where connection states are reported.
pub open spec fn connection_status_url(domain: Seq<char>) -> Seq<char> {
    domain + "/time/iclock/flow-markings/update-conection-status"@
}

/// Where a company's configuration is read.
pub open spec fn company_config_url(domain: Seq<char>, id_company: Seq<char>) -> Seq<char> {
    domain + "/time/iclock/configurations/"@ + id_company
}

fn service_request(config: &Config, url: String) -> (r: Option<ServiceRequest>)
    ensures
        r is Some <==> is_header_value(config.api_key@),
        r matches Some(q) ==> q.url@ == url@ && q.api_key@ == config.api_key@,
{
    if header_value_ok(config.api_key.as_str()) {
        Some(ServiceRequest { url, api_key: config.api_key.clone() })
    } else {
        None
    }
}

/// The request that forwards a punch; `None` when the API key is not a valid
/// header value.
pub fn mark_status_request(config: &Config) -> (r: Option<ServiceRequest>)
    ensures
        r is Some <==> is_header_value(config.api_key@),
        r matches Some(q) ==> q.url@ == mark_status_url(config.domain_time@) && q.api_key@
            == config.api_key@,
{
    let mut url = config.domain_time.clone();
    url.append("/time/iclock/flow-markings/update-mark-status");
    service_request(config, url)
}

/// The request that reports a terminal's connection state; `None` when the API
/// key is not a valid header value.
pub fn connection_status_request(config: &Config) -> (r: Option<ServiceRequest>)
    ensures
        r is Some <==> is_header_value(config.api_key@),
        r matches Some(q) ==> q.url@ == connection_status_url(config.domain_time@) && q.api_key@
            == config.api_key@,
{
    let mut url = config.domain_time.clone();
    url.append("/time/iclock/flow-markings/update-conection-status");
    service_request(config, url)
}

/// The request that reads a company's configuration; `None` when the API key
/// is not a valid header value.
pub fn company_config_request(config: &Config, id_company: &str) -> (r: Option<ServiceRequest>)
    ensures
        r is Some <==> is_header_value(config.api_key@),
        r matches Some(q) ==> q.url@ == company_config_url(config.domain_time@, id_company@)
            && q.api_key@ == config.api_key@,
{
    let mut url = config.domain_time.clone();
    url.append("/time/iclock/configurations/");
    url.append(id_company);
    service_request(config, url)
}

/// An HTTP status in the success class (200 to 299).
pub open spec fn is_success_status(status: u16) -> bool {
    200 <= status <= 299
}

/// Whether a company configuration reply with this status is read.
pub fn status_is_success(status: u16) -> (r: bool)
    ensures
        r == is_success_status(status),
{
    200 <= status && status <= 299
}

} // verus!
