//! The invoicing platform's API: the records it answers with, the requests
//! made to it, and how a rate-limited request is retried.
use vstd::prelude::*;
use crate::error::AppError;
use crate::sendcloud::is_success_status;
use crate::text::{decimal, owned, parse_u64, parsed_u64, push_decimal, push_signed_decimal, signed_decimal, opt_text};

verus! {

/// One page of a listing, with the cursor of the next one.
#[derive(Debug, Clone, PartialEq, Eq)]
pub struct Paginated<T> {
    pub items: Vec<T>,
    pub has_more: bool,
    pub next_cursor: Option<String>,
}

/// A reference to another record.
#[derive(Debug, Clone, PartialEq, Eq)]
pub struct IdRef {
    pub id: i64,
    pub url: String,
}

#[derive(Debug, Clone, PartialEq, Eq)]
pub struct CustomerInvoice {
    pub id: i64,
    pub invoice_number: String,
    pub date: Option<String>,
    pub status: String,
    pub draft: bool,
    pub customer: Option<IdRef>,
}

#[derive(Debug, Clone, PartialEq, Eq)]
pub struct CustomerInvoiceLine {
    pub id: i64,
    pub label: String,
    pub description: String,
    /// A decimal text such as `12`.
    pub quantity: String,
    /// The line's total in euros, a decimal text such as `50.4`.
    pub amount: String,
    /// The product sold, absent on discounts and free-text lines.
    pub product: Option<IdRef>,
}

#[derive(Debug, Clone, PartialEq, Eq)]
pub struct Address {
    pub address: String,
    pub postal_code: String,
    pub city: String,
    pub country_alpha2: String,
}

#[derive(Debug, Clone, PartialEq, Eq)]
pub struct Customer {
    pub id: i64,
    pub name: String,
    pub customer_type: String,
    pub delivery_address: Address,
    pub billing_address: Address,
}

/// What can go wrong while talking to the invoicing platform.
#[derive(Debug, Clone, PartialEq, Eq)]
pub enum PennylaneError {
    /// The request could not be made; carried by its message.
    Request(String),
    Api { status: u16, message: String },
}

impl PennylaneError {
    pub open spec fn text(&self) -> Seq<char> {
        match self {
            PennylaneError::Request(m) => "pennylane request failed: "@ + m@,
            PennylaneError::Api { status, message } => "pennylane API error ("@ + decimal(
                *status as nat,
            ) + "): "@ + message@,
        }
    }

    /// The text that describes the error (its `Display`).
    pub fn message(&self) -> (m: String)
        ensures
            m@ == self.text(),
    {
        let mut m = String::new();
        match self {
            PennylaneError::Request(s) => {
                m.append("pennylane request failed: ");
                m.append(s.as_str());
            },
            PennylaneError::Api { status, message } => {
                m.append("pennylane API error (");
                push_decimal(&mut m, *status as u64);
                m.append("): ");
                m.append(message.as_str());
            },
        }
        proof {
            assert(m@ =~= self.text());
        }
        m
    }
}

/// An invoicing-platform failure, as the application reports it.
pub fn pennylane_err(e: &PennylaneError) -> (r: AppError)
    ensures
        r matches AppError::External(m) && m@ == e.text(),
{
    AppError::External(e.message())
}

/// The platform allows a few requests a second; a rate-limited request is
/// retried at most this many times.
pub const MAX_RATE_LIMIT_RETRIES: u32 = 5;

/// The full URL of a path under the platform's base URL.
pub fn request_url(base_url: &str, path: &str) -> (u: String)
    ensures
        u@ == base_url@ + path@,
{
    let mut u = owned(base_url);
    u.append(path);
    u
}

pub open spec fn invoices_path_text() -> Seq<char> {
    "/api/external/v2/customer_invoices"@
}

/// The path of the customer invoices.
pub fn invoices_path() -> (p: String)
    ensures
        p@ == invoices_path_text(),
{
    owned("/api/external/v2/customer_invoices")
}

/// The path of one invoice's lines.
pub fn invoice_lines_path(invoice_id: i64) -> (p: String)
    ensures
        p@ == "/api/external/v2/customer_invoices/"@ + signed_decimal(invoice_id as int)
            + "/invoice_lines"@,
{
    let mut p = owned("/api/external/v2/customer_invoices/");
    push_signed_decimal(&mut p, invoice_id);
    p.append("/invoice_lines");
    p
}

/// The path of one customer.
pub fn customer_path(customer_id: i64) -> (p: String)
    ensures
        p@ == "/api/external/v2/customers/"@ + signed_decimal(customer_id as int),
{
    let mut p = owned("/api/external/v2/customers/");
    push_signed_decimal(&mut p, customer_id);
    p
}

/// The filter that keeps finalized invoices only.
pub open spec fn not_draft_filter_text() -> Seq<char> {
    "[{\"field\":\"draft\",\"operator\":\"eq\",\"value\":\"false\"}]"@
}

/// A query pair `(name, value)` holds the given texts.
pub open spec fn is_pair(p: (String, String), name: Seq<char>, value: Seq<char>) -> bool {
    p.0@ == name && p.1@ == value
}

fn pair(name: &str, value: &str) -> (p: (String, String))
    ensures
        is_pair(p, name@, value@),
{
    (owned(name), owned(value))
}

/// `q` lists finalized (non-draft) invoices, most recent first, from the
/// given cursor on.
pub open spec fn is_invoices_query(q: Seq<(String, String)>, cursor: Option<Seq<char>>) -> bool {
    &&& q.len() == (if cursor is Some { 3int } else { 2int })
    &&& is_pair(q[0], "sort"@, "-id"@)
    &&& is_pair(q[1], "filter"@, not_draft_filter_text())
    &&& cursor matches Some(c) ==> is_pair(q[2], "cursor"@, c)
}

/// `q` lists an invoice's lines in rank order, from the given cursor on.
pub open spec fn is_invoice_lines_query(q: Seq<(String, String)>, cursor: Option<Seq<char>>) -> bool {
    &&& q.len() == (if cursor is Some { 2int } else { 1int })
    &&& is_pair(q[0], "sort"@, "rank"@)
    &&& cursor matches Some(c) ==> is_pair(q[1], "cursor"@, c)
}

/// The text of an optional borrowed string.
pub open spec fn opt_str_text(o: Option<&str>) -> Option<Seq<char>> {
    match o {
        Some(s) => Some(s@),
        None => None,
    }
}

/// The query that lists finalized (non-draft) invoices, most recent first,
/// from the given cursor on.
pub fn invoices_query(cursor: Option<&str>) -> (q: Vec<(String, String)>)
    ensures
        is_invoices_query(q@, opt_str_text(cursor)),
{
    let mut q: Vec<(String, String)> = Vec::new();
    q.push(pair("sort", "-id"));
    q.push(pair("filter", "[{\"field\":\"draft\",\"operator\":\"eq\",\"value\":\"false\"}]"));
    if let Some(c) = cursor {
        q.push(pair("cursor", c));
    }
    q
}

/// The query that lists an invoice's lines in rank order, from the given
/// cursor on.
pub fn invoice_lines_query(cursor: Option<&str>) -> (q: Vec<(String, String)>)
    ensures
        is_invoice_lines_query(q@, opt_str_text(cursor)),
{
    let mut q: Vec<(String, String)> = Vec::new();
    q.push(pair("sort", "rank"));
    if let Some(c) = cursor {
        q.push(pair("cursor", c));
    }
    q
}

/// Where the invoicing platform is and the token it is called with.
#[derive(Debug, Clone, PartialEq, Eq)]
pub struct PennylaneClient {
    pub base_url: String,
    pub token: String,
}

/// A GET request to the invoicing platform, authorized by a bearer token.
#[derive(Debug, Clone, PartialEq, Eq)]
pub struct PennylaneRequest {
    pub url: String,
    pub query: Vec<(String, String)>,
    pub token: String,
}

impl PennylaneClient {
    pub fn new(base_url: String, token: String) -> (c: PennylaneClient)
        ensures
            c.base_url == base_url,
            c.token == token,
    {
        PennylaneClient { base_url, token }
    }

    /// The request that lists finalized (non-draft) customer invoices, most
    /// recently created first (recent orders matter more than old history).
    pub fn list_customer_invoices(&self, cursor: Option<&str>) -> (r: PennylaneRequest)
        ensures
            r.url@ == self.base_url@ + invoices_path_text(),
            is_invoices_query(r.query@, opt_str_text(cursor)),
            r.token == self.token,
    {
        let path = invoices_path();
        PennylaneRequest {
            url: request_url(self.base_url.as_str(), path.as_str()),
            query: invoices_query(cursor),
            token: self.token.clone(),
        }
    }

    /// The request that lists one invoice's lines, in rank order.
    pub fn list_invoice_lines(&self, invoice_id: i64, cursor: Option<&str>) -> (r: PennylaneRequest)
        ensures
            r.url@ == self.base_url@ + "/api/external/v2/customer_invoices/"@ + signed_decimal(
                invoice_id as int,
            ) + "/invoice_lines"@,
            is_invoice_lines_query(r.query@, opt_str_text(cursor)),
            r.token == self.token,
    {
        let path = invoice_lines_path(invoice_id);
        let url = request_url(self.base_url.as_str(), path.as_str());
        proof {
            assert(url@ =~= self.base_url@ + "/api/external/v2/customer_invoices/"@ + signed_decimal(
                invoice_id as int,
            ) + "/invoice_lines"@);
        }
        PennylaneRequest { url, query: invoice_lines_query(cursor), token: self.token.clone() }
    }

    /// The request that fetches one customer.
    pub fn get_customer(&self, customer_id: i64) -> (r: PennylaneRequest)
        ensures
            r.url@ == self.base_url@ + "/api/external/v2/customers/"@ + signed_decimal(
                customer_id as int,
            ),
            r.query.len() == 0,
            r.token == self.token,
    {
        let path = customer_path(customer_id);
        let url = request_url(self.base_url.as_str(), path.as_str());
        proof {
            assert(url@ =~= self.base_url@ + "/api/external/v2/customers/"@ + signed_decimal(
                customer_id as int,
            ));
        }
        PennylaneRequest { url, query: Vec::new(), token: self.token.clone() }
    }
}

/// What to do with the answer to a request.
#[derive(Debug, Clone, PartialEq, Eq)]
pub enum FetchStep {
    /// Rate limited: wait this long, then send the request again.
    Wait { delay_ms: u128 },
    /// Failed with this status: report it with the answer's text.
    Fail { status: u16 },
    /// Succeeded: decode the answer.
    Decode,
}

/// The wait before retrying: the seconds that the `retry-after` header
/// gives (one when it is absent or not a number), plus a margin of 200 ms.
pub open spec fn retry_delay_ms(retry_after: Option<Seq<char>>) -> int {
    let secs: int = match retry_after {
        Some(v) => match parsed_u64(v) {
            Some(s) => s as int,
            None => 1,
        },
        None => 1,
    };
    secs * 1000 + 200
}

/// What the answer with this status to the request's `attempt`-th sending
/// (from 0) calls for: a rate-limited request is retried until it has been
/// retried `MAX_RATE_LIMIT_RETRIES` times; any other non-2xx status fails.
pub open spec fn next_fetch_step(attempt: u32, status: u16, retry_after: Option<Seq<char>>) -> FetchStep {
    if status == 429 && attempt < MAX_RATE_LIMIT_RETRIES {
        FetchStep::Wait { delay_ms: retry_delay_ms(retry_after) as u128 }
    } else if !is_success_status(status) {
        FetchStep::Fail { status }
    } else {
        FetchStep::Decode
    }
}

/// Decides what the answer to a request calls for; `retry_after` is the
/// `retry-after` header, when present and readable as text.
pub fn fetch_step(attempt: u32, status: u16, retry_after: &Option<String>) -> (s: FetchStep)
    ensures
        s == next_fetch_step(attempt, status, opt_text(*retry_after)),
{
    if status == 429 && attempt < MAX_RATE_LIMIT_RETRIES {
        let secs: u64 = match retry_after {
            Some(v) => match parse_u64(v.as_str()) {
                Some(s) => s,
                None => 1,
            },
            None => 1,
        };
        FetchStep::Wait { delay_ms: (secs as u128) * 1000 + 200 }
    } else if !(200 <= status && status <= 299) {
        FetchStep::Fail { status }
    } else {
        FetchStep::Decode
    }
}

/// Retries are bounded: the answer to the last allowed sending is never
/// waited on again, so a request is sent at most `MAX_RATE_LIMIT_RETRIES + 1`
/// times.
pub proof fn fetch_gives_up_after_last_retry(attempt: u32, status: u16, retry_after: Option<Seq<char>>)
    requires
        attempt >= MAX_RATE_LIMIT_RETRIES,
    ensures
        !(next_fetch_step(attempt, status, retry_after) is Wait),
{
}

/// A rate-limited request is retried while retries are left, whatever the
/// header says.
pub proof fn fetch_retries_rate_limited(attempt: u32, retry_after: Option<Seq<char>>)
    requires
        attempt < MAX_RATE_LIMIT_RETRIES,
    ensures
        next_fetch_step(attempt, 429, retry_after) matches FetchStep::Wait { delay_ms }
            && delay_ms >= 200,
{
}

pub open spec fn no_body_text() -> Seq<char> {
    "<no body>"@
}

/// The error for a failed answer whose text was read as `body` (`None` when
/// it could not be read).
pub fn api_error(status: u16, body: Option<String>) -> (e: PennylaneError)
    ensures
        e matches PennylaneError::Api { status: s, message } && s == status && message@ == (
        match body {
            Some(b) => b@,
            None => no_body_text(),
        }),
{
    let message = match body {
        Some(b) => b,
        None => owned("<no body>"),
    };
    PennylaneError::Api { status, message }
}

} // verus!
