//! Orders pushed to the carrier platform for a human to review, complete
//! and label there.  Pushing an order never creates a label nor incurs a
//! carrier charge.
use vstd::prelude::*;
use crate::error::{AppError, validation_failure};
use crate::ident::{Timestamp, rfc3339_text, timestamp_rfc3339, uuid_hyphenated, uuid_string};
use crate::shipping::{
    NewSendcloudOrder, SendcloudOrderRecord, Shipment, ShipmentLine, record_sendcloud_order,
    sent_to_sendcloud_text, update_shipment_status,
};
use crate::text::{decimal, owned, parse_cents, parse_i32, parsed_cents, parsed_i32, push_decimal};

verus! {

/// A postal address on the carrier platform.
#[derive(Debug, Clone, PartialEq, Eq)]
pub struct Address {
    pub name: String,
    pub address_line_1: String,
    pub postal_code: String,
    pub city: String,
    pub country_code: String,
    pub email: Option<String>,
    pub phone_number: Option<String>,
}

/// A price, in cents of its currency.
#[derive(Debug, Clone, PartialEq, Eq)]
pub struct Price {
    pub cents: i64,
    pub currency: String,
}

/// The integration an order is filed under.
#[derive(Debug, Clone, PartialEq, Eq)]
pub struct Integration {
    pub id: i64,
}

/// A status code with its human-readable message.
#[derive(Debug, Clone, PartialEq, Eq)]
pub struct OrderStatus {
    pub code: String,
    pub message: String,
}

/// One article of an order.
#[derive(Debug, Clone, PartialEq, Eq)]
pub struct OrderItem {
    pub name: String,
    pub quantity: i32,
    pub total_price: Price,
}

#[derive(Debug, Clone, PartialEq, Eq)]
pub struct OrderDetails {
    pub integration: Integration,
    pub status: OrderStatus,
    pub order_created_at: String,
    pub order_items: Vec<OrderItem>,
}

#[derive(Debug, Clone, PartialEq, Eq)]
pub struct PaymentDetails {
    pub total_price: Price,
    pub status: OrderStatus,
}

/// An order for a human to review on the carrier platform.  The parcel's
/// weight, a decimal number of kilograms, is added by the caller that sends it.
#[derive(Debug, Clone, PartialEq, Eq)]
pub struct Order {
    pub order_id: String,
    pub order_number: String,
    pub order_details: OrderDetails,
    pub payment_details: PaymentDetails,
    pub shipping_address: Address,
}

/// One order of the platform's answer.
#[derive(Debug, Clone, PartialEq, Eq)]
pub struct OrderResponseItem {
    pub id: i64,
    pub order_id: String,
    pub order_number: String,
}

/// The platform's answer to an order push.
#[derive(Debug, Clone, PartialEq, Eq)]
pub struct OrdersResponse {
    pub data: Vec<OrderResponseItem>,
}

/// One error of the platform's error answer.
#[derive(Debug, Clone, PartialEq, Eq)]
pub struct ErrorObject {
    pub status: Option<String>,
    pub code: Option<String>,
    pub detail: Option<String>,
}

/// What can go wrong while talking to the carrier platform.
#[derive(Debug, Clone, PartialEq, Eq)]
pub enum SendcloudError {
    /// The request could not be made; carried by its message.
    Request(String),
    Api { status: u16, message: String },
}

impl SendcloudError {
    pub open spec fn text(&self) -> Seq<char> {
        match self {
            SendcloudError::Request(m) => "sendcloud request failed: "@ + m@,
            SendcloudError::Api { status, message } => "sendcloud API error ("@ + decimal(
                *status as nat,
            ) + "): "@ + message@,
        }
    }

    /// The text that describes the error (its `Display`).
    pub fn message(&self) -> (m: String)
        ensures
            m@ == self.text(),
    {
        let mut m = String::new();
        match self {
            SendcloudError::Request(s) => {
                m.append("sendcloud request failed: ");
                m.append(s.as_str());
            },
            SendcloudError::Api { status, message } => {
                m.append("sendcloud API error (");
                push_decimal(&mut m, *status as u64);
                m.append("): ");
                m.append(message.as_str());
            },
        }
        proof {
            assert(m@ =~= self.text());
        }
        m
    }
}

/// A carrier-platform failure, as the application reports it.
pub fn sendcloud_err(e: &SendcloudError) -> (r: AppError)
    ensures
        r matches AppError::External(m) && m@ == e.text(),
{
    AppError::External(e.message())
}

/// Where the carrier platform is and the keys it is called with (basic
/// authorization, public key as user).
#[derive(Debug, Clone, PartialEq, Eq)]
pub struct SendcloudClient {
    pub base_url: String,
    pub public_key: String,
    pub private_key: String,
}

impl SendcloudClient {
    pub fn new(base_url: String, public_key: String, private_key: String) -> (c: SendcloudClient)
        ensures
            c.base_url == base_url,
            c.public_key == public_key,
            c.private_key == private_key,
    {
        SendcloudClient { base_url, public_key, private_key }
    }

    /// Where orders are pushed.  A push is an upsert on the order id within
    /// the integration: pushing the same order again only updates it.
    pub fn orders_url(&self) -> (u: String)
        ensures
            u@ == self.base_url@ + "/orders"@,
    {
        let mut u = owned(self.base_url.as_str());
        u.append("/orders");
        u
    }
}

/// Whether an HTTP status is a success (2xx).
pub open spec fn is_success_status(status: u16) -> bool {
    200 <= status <= 299
}

pub fn is_success(status: u16) -> (b: bool)
    ensures
        b == is_success_status(status),
{
    200 <= status && status <= 299
}

/// The message of an error answer: the detail of its first error when the
/// body is a list of errors (`errors`, as read from the body) whose first one
/// has a detail, else the body itself.
pub open spec fn error_answer_text(errors: Option<Vec<ErrorObject>>, body: Seq<char>) -> Seq<char> {
    match errors {
        Some(es) => if es.len() > 0 && es[0].detail is Some {
            es@[0].detail->0@
        } else {
            body
        },
        None => body,
    }
}

/// Extracts the message of an error answer.
pub fn extract_error_message(errors: Option<Vec<ErrorObject>>, body: &str) -> (m: String)
    ensures
        m@ == error_answer_text(errors, body@),
{
    match errors {
        Some(mut es) => {
            if es.len() > 0 {
                let first = es.swap_remove(0);
                match first.detail {
                    Some(d) => d,
                    None => owned(body),
                }
            } else {
                owned(body)
            }
        },
        None => owned(body),
    }
}

/// The error that answers a failed order push (status not 2xx).
pub fn failed_push(status: u16, errors: Option<Vec<ErrorObject>>, body: &str) -> (e: SendcloudError)
    ensures
        e matches SendcloudError::Api { status: s, message } && s == status && message@
            == error_answer_text(errors, body@),
{
    SendcloudError::Api { status, message: extract_error_message(errors, body) }
}

/// The message when a successful answer's body cannot be read; `e` is the
/// decoding error's text.
pub open spec fn unreadable_answer_text(e: Seq<char>) -> Seq<char> {
    "réponse inattendue de Sendcloud: "@ + e
}

/// The message when a successful answer holds no order.
pub open spec fn no_order_text() -> Seq<char> {
    "Sendcloud n'a renvoyé aucune commande"@
}

/// The order a successful push answered with: the first one of the answer,
/// whose body was decoded into `decoded` (or failed to, with that text).
pub fn pushed_order(status: u16, decoded: Result<OrdersResponse, String>) -> (r: Result<
    OrderResponseItem,
    SendcloudError,
>)
    ensures
        match decoded {
            Err(d) => r matches Err(SendcloudError::Api { status: s, message }) && s == status
                && message@ == unreadable_answer_text(d@),
            Ok(resp) => if resp.data.len() > 0 {
                r == Ok::<OrderResponseItem, SendcloudError>(resp.data@[0])
            } else {
                r matches Err(SendcloudError::Api { status: s, message }) && s == status
                    && message@ == no_order_text()
            },
        },
{
    match decoded {
        Err(d) => {
            let mut m = owned("réponse inattendue de Sendcloud: ");
            m.append(d.as_str());
            Err(SendcloudError::Api { status, message: m })
        },
        Ok(resp) => {
            let mut data = resp.data;
            if data.len() > 0 {
                Ok(data.swap_remove(0))
            } else {
                Err(SendcloudError::Api { status, message: owned("Sendcloud n'a renvoyé aucune commande") })
            }
        },
    }
}

/// The cents a shipment line's amount stands for: nothing given is zero.
pub open spec fn line_cents(l: ShipmentLine) -> Option<i64> {
    match l.amount_eur {
        Some(a) => parsed_cents(a@),
        None => Some(0),
    }
}

/// Why a shipment line cannot become an order item, if it cannot: its
/// quantity is not an integer, or its amount is not a number of euros.
pub open spec fn line_problem(l: ShipmentLine) -> Option<Seq<char>> {
    if parsed_i32(l.quantity@) is None {
        Some("quantité invalide: "@ + l.quantity@)
    } else if line_cents(l) is None {
        Some("montant invalide: "@ + l.amount_eur->0@)
    } else {
        None
    }
}

/// The problem of the first line that has one.
pub open spec fn lines_problem(lines: Seq<ShipmentLine>) -> Option<Seq<char>>
    decreases lines.len(),
{
    if lines.len() == 0 {
        None
    } else if line_problem(lines[0]) is Some {
        line_problem(lines[0])
    } else {
        lines_problem(lines.drop_first())
    }
}

/// The sum of the lines' amounts, in cents.
pub open spec fn lines_total(lines: Seq<ShipmentLine>) -> int
    decreases lines.len(),
{
    if lines.len() == 0 {
        0
    } else {
        lines_total(lines.drop_last()) + line_cents(lines.last())->0
    }
}

/// Why a shipment cannot become an order, if it cannot.
pub open spec fn order_problem(shipment: Shipment, lines: Seq<ShipmentLine>) -> Option<Seq<char>> {
    if lines_problem(lines) is Some {
        lines_problem(lines)
    } else if !(i64::MIN <= lines_total(lines) <= i64::MAX) {
        Some("montant total hors limites"@)
    } else if rfc3339_text(shipment.created_at.secs, shipment.created_at.nanos) is None {
        Some("date de création hors limites"@)
    } else {
        None
    }
}

/// A price in euros.
pub open spec fn is_eur(p: Price, cents: int) -> bool {
    p.cents == cents && p.currency@ == "EUR"@
}

/// `order` is the order that pushes `shipment` with its `lines`: filed under
/// the shipment's id and invoice number, one item per line in order, paid
/// the sum of the lines, sent to the shipment's delivery address, and marked
/// for review.
pub open spec fn is_order_for(
    order: Order,
    shipment: Shipment,
    lines: Seq<ShipmentLine>,
    integration_id: i64,
) -> bool {
    let d = order.order_details;
    let a = order.shipping_address;
    &&& order.order_id@ == uuid_hyphenated(shipment.id)
    &&& order.order_number == shipment.invoice_number
    &&& d.integration.id == integration_id
    &&& d.status.code@ == "to_review"@
    &&& d.status.message@ == "À valider avant expédition"@
    &&& Some(d.order_created_at@) == rfc3339_text(
        shipment.created_at.secs,
        shipment.created_at.nanos,
    )
    &&& d.order_items.len() == lines.len()
    &&& forall|i: int|
        0 <= i < lines.len() ==> {
            let item = #[trigger] d.order_items@[i];
            &&& item.name == lines[i].label
            &&& Some(item.quantity) == parsed_i32(lines[i].quantity@)
            &&& is_eur(item.total_price, line_cents(lines[i])->0 as int)
        }
    &&& is_eur(order.payment_details.total_price, lines_total(lines))
    &&& order.payment_details.status.code@ == "n/a"@
    &&& order.payment_details.status.message@ == "Non suivi"@
    &&& a.name == shipment.customer_name
    &&& a.address_line_1 == shipment.delivery_address
    &&& a.postal_code == shipment.delivery_postal_code
    &&& a.city == shipment.delivery_city
    &&& a.country_code == shipment.delivery_country
    &&& a.email is None
    &&& a.phone_number is None
}

fn eur(cents: i64) -> (p: Price)
    ensures
        is_eur(p, cents as int),
{
    Price { cents, currency: owned("EUR") }
}

proof fn lemma_lines_problem_prefix(lines: Seq<ShipmentLine>, k: int)
    requires
        0 <= k < lines.len(),
        forall|j: int| 0 <= j < k ==> line_problem(#[trigger] lines[j]) is None,
    ensures
        lines_problem(lines) == (if line_problem(lines[k]) is Some {
            line_problem(lines[k])
        } else {
            lines_problem(lines.subrange(k + 1, lines.len() as int))
        }),
    decreases k,
{
    if k > 0 {
        let rest = lines.drop_first();
        assert forall|j: int| 0 <= j < k - 1 implies line_problem(#[trigger] rest[j]) is None by {
            assert(rest[j] == lines[j + 1]);
        }
        lemma_lines_problem_prefix(rest, k - 1);
        assert(rest.subrange(k, rest.len() as int) =~= lines.subrange(k + 1, lines.len() as int));
    } else {
        assert(lines.drop_first() =~= lines.subrange(1, lines.len() as int));
    }
}

proof fn lemma_no_problem_when_all_fine(lines: Seq<ShipmentLine>)
    requires
        forall|j: int| 0 <= j < lines.len() ==> line_problem(#[trigger] lines[j]) is None,
    ensures
        lines_problem(lines) is None,
    decreases lines.len(),
{
    if lines.len() > 0 {
        let rest = lines.drop_first();
        assert forall|j: int| 0 <= j < rest.len() implies line_problem(#[trigger] rest[j]) is None by {
            assert(rest[j] == lines[j + 1]);
        }
        lemma_no_problem_when_all_fine(rest);
    }
}

/// The items of the lines, with the sum of their prices; or the problem of
/// the first line that cannot become an item.
fn order_items(lines: &Vec<ShipmentLine>) -> (r: Result<(Vec<OrderItem>, i128), String>)
    ensures
        match r {
            Ok((items, total)) => lines_problem(lines@) is None && total == lines_total(lines@)
                && items.len() == lines.len() && forall|i: int|
                0 <= i < lines.len() ==> {
                    let item = #[trigger] items@[i];
                    &&& item.name == lines@[i].label
                    &&& Some(item.quantity) == parsed_i32(lines@[i].quantity@)
                    &&& is_eur(item.total_price, line_cents(lines@[i])->0 as int)
                },
            Err(m) => lines_problem(lines@) == Some(m@),
        },
{
    let mut items: Vec<OrderItem> = Vec::new();
    let mut total: i128 = 0;
    let n = lines.len();
    let mut i: usize = 0;
    while i < n
        invariant
            n == lines.len(),
            i <= n,
            items.len() == i,
            forall|j: int| 0 <= j < i ==> line_problem(#[trigger] lines@[j]) is None,
            total == lines_total(lines@.subrange(0, i as int)),
            -(i as int) * 9223372036854775808 <= total <= (i as int) * 9223372036854775808,
            forall|j: int|
                0 <= j < i ==> {
                    let item = #[trigger] items@[j];
                    &&& item.name == lines@[j].label
                    &&& Some(item.quantity) == parsed_i32(lines@[j].quantity@)
                    &&& is_eur(item.total_price, line_cents(lines@[j])->0 as int)
                },
        decreases n - i,
    {
        let l = &lines[i];
        let quantity = match parse_i32(l.quantity.as_str()) {
            Some(q) => q,
            None => {
                let mut m = owned("quantité invalide: ");
                m.append(l.quantity.as_str());
                proof {
                    lemma_lines_problem_prefix(lines@, i as int);
                }
                return Err(m);
            },
        };
        let cents: i64 = match &l.amount_eur {
            None => 0,
            Some(a) => match parse_cents(a.as_str()) {
                Some(c) => c,
                None => {
                    let mut m = owned("montant invalide: ");
                    m.append(a.as_str());
                    proof {
                        lemma_lines_problem_prefix(lines@, i as int);
                    }
                    return Err(m);
                },
            },
        };
        proof {
            assert(lines@.subrange(0, i as int + 1).drop_last() =~= lines@.subrange(0, i as int));
            assert(lines@.subrange(0, i as int + 1).last() == lines@[i as int]);
            assert((i as int) * 9223372036854775808 + 9223372036854775808 == (i as int + 1)
                * 9223372036854775808) by (nonlinear_arith);
            assert(i < 0x1_0000_0000_0000_0000);
            assert((i as int + 1) * 9223372036854775808 <= 0x1_0000_0000_0000_0000
                * 9223372036854775808) by (nonlinear_arith)
                requires
                    i < 0x1_0000_0000_0000_0000,
            ;
        }
        total = total + cents as i128;
        items.push(OrderItem { name: l.label.clone(), quantity, total_price: eur(cents) });
        i = i + 1;
    }
    proof {
        assert(lines@.subrange(0, n as int) =~= lines@);
        lemma_no_problem_when_all_fine(lines@);
    }
    Ok((items, total))
}

/// Makes the order that pushes a shipment with its lines, or says why it
/// cannot: a line whose quantity is not a whole number (the platform counts
/// items as integers) or whose amount is not a number of euros with at most
/// two decimals (prices are kept in whole cents), a total out of range, or a
/// creation date out of range.
pub fn build_order(shipment: &Shipment, lines: &Vec<ShipmentLine>, integration_id: i64) -> (r: Result<
    Order,
    AppError,
>)
    ensures
        r is Ok <==> order_problem(*shipment, lines@) is None,
        r matches Ok(o) ==> is_order_for(o, *shipment, lines@, integration_id),
        order_problem(*shipment, lines@) matches Some(m) ==> validation_failure(r, m),
{
    let (items, total) = match order_items(lines) {
        Ok(x) => x,
        Err(m) => {
            return Err(AppError::Validation(m));
        },
    };
    if total < -9223372036854775808i128 || total > 9223372036854775807i128 {
        return Err(AppError::Validation(owned("montant total hors limites")));
    }
    let created = match timestamp_rfc3339(shipment.created_at) {
        Some(t) => t,
        None => {
            return Err(AppError::Validation(owned("date de création hors limites")));
        },
    };
    Ok(
        Order {
            order_id: uuid_string(shipment.id),
            order_number: shipment.invoice_number.clone(),
            order_details: OrderDetails {
                integration: Integration { id: integration_id },
                status: OrderStatus {
                    code: owned("to_review"),
                    message: owned("À valider avant expédition"),
                },
                order_created_at: created,
                order_items: items,
            },
            payment_details: PaymentDetails {
                total_price: eur(total as i64),
                status: OrderStatus { code: owned("n/a"), message: owned("Non suivi") },
            },
            shipping_address: Address {
                name: shipment.customer_name.clone(),
                address_line_1: shipment.delivery_address.clone(),
                postal_code: shipment.delivery_postal_code.clone(),
                city: shipment.delivery_city.clone(),
                country_code: shipment.delivery_country.clone(),
                email: None,
                phone_number: None,
            },
        },
    )
}

/// What sending a shipment to the carrier platform comes to.
#[derive(Debug, Clone, PartialEq, Eq)]
pub enum SendPlan {
    /// The shipment was sent before: the record of that order.
    AlreadySent(SendcloudOrderRecord),
    /// The order to push.
    Push(Order),
}

/// Decides how to send a shipment for review.  Sending again is idempotent:
/// when an order was already recorded for the shipment, that record is the
/// answer and nothing is pushed.
pub fn plan_send(
    existing: Option<SendcloudOrderRecord>,
    shipment: &Shipment,
    lines: &Vec<ShipmentLine>,
    integration_id: i64,
) -> (r: Result<SendPlan, AppError>)
    ensures
        existing matches Some(e) ==> r == Ok::<SendPlan, AppError>(SendPlan::AlreadySent(e)),
        existing is None ==> (r is Ok <==> order_problem(*shipment, lines@) is None),
        existing is None ==> (r matches Ok(p) ==> p matches SendPlan::Push(o) && is_order_for(
            o,
            *shipment,
            lines@,
            integration_id,
        )),
        existing is None ==> (order_problem(*shipment, lines@) matches Some(m) ==> validation_failure(r, m)),
{
    match existing {
        Some(e) => Ok(SendPlan::AlreadySent(e)),
        None => match build_order(shipment, lines, integration_id) {
            Ok(o) => Ok(SendPlan::Push(o)),
            Err(e) => Err(e),
        },
    }
}

/// What a pushed order leaves behind: the record of the platform's order for
/// the shipment, and the shipment marked as sent for review.
pub fn record_push(shipment: Shipment, pushed: OrderResponseItem, record_id: u128, now: Timestamp) -> (r: (
    SendcloudOrderRecord,
    Shipment,
))
    ensures
        r.0 == (SendcloudOrderRecord {
            id: record_id,
            shipment_id: shipment.id,
            sendcloud_order_id: pushed.id,
            order_number: pushed.order_number,
            created_at: now,
            updated_at: now,
        }),
        r.1.status@ == sent_to_sendcloud_text(),
        r.1 == (Shipment { status: r.1.status, updated_at: now, ..shipment }),
{
    let record = record_sendcloud_order(
        NewSendcloudOrder {
            shipment_id: shipment.id,
            sendcloud_order_id: pushed.id,
            order_number: pushed.order_number,
        },
        record_id,
        now,
    );
    let s = update_shipment_status(shipment, owned("sent_to_sendcloud"), now);
    (record, s)
}

} // verus!
