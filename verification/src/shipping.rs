//! Shipments to prepare, imported from invoices, with their lines and the
//! orders pushed for them to the carrier platform.
use vstd::prelude::*;
use crate::ident::Timestamp;
use crate::text::owned;

verus! {

/// A shipment to prepare for one invoice.
#[derive(Debug, Clone, PartialEq, Eq)]
pub struct Shipment {
    pub id: u128,
    pub pennylane_invoice_id: i64,
    pub invoice_number: String,
    pub pennylane_customer_id: i64,
    pub customer_name: String,
    pub delivery_address: String,
    pub delivery_postal_code: String,
    pub delivery_city: String,
    pub delivery_country: String,
    pub status: String,
    pub created_at: Timestamp,
    pub updated_at: Timestamp,
}

/// One article line of a shipment.
#[derive(Debug, Clone, PartialEq, Eq)]
pub struct ShipmentLine {
    pub id: u128,
    pub shipment_id: u128,
    pub pennylane_line_id: i64,
    /// The nomenclature product the invoice line refers to, when known.
    pub product_id: Option<u128>,
    pub label: String,
    pub quantity: String,
    /// The line's total amount in euros, as the invoice writes it.
    pub amount_eur: Option<String>,
    pub created_at: Timestamp,
    pub updated_at: Timestamp,
}

/// What importing a shipment line takes.
#[derive(Debug, Clone, PartialEq, Eq)]
pub struct NewShipmentLine {
    pub pennylane_line_id: i64,
    pub product_id: Option<u128>,
    pub label: String,
    pub quantity: String,
    pub amount_eur: Option<String>,
}

/// What importing a shipment takes.
#[derive(Debug, Clone, PartialEq, Eq)]
pub struct NewShipment {
    pub pennylane_invoice_id: i64,
    pub invoice_number: String,
    pub pennylane_customer_id: i64,
    pub customer_name: String,
    pub delivery_address: String,
    pub delivery_postal_code: String,
    pub delivery_city: String,
    pub delivery_country: String,
    pub lines: Vec<NewShipmentLine>,
}

/// The record of an order pushed to the carrier platform for a shipment.
#[derive(Debug, Clone, PartialEq, Eq)]
pub struct SendcloudOrderRecord {
    pub id: u128,
    pub shipment_id: u128,
    pub sendcloud_order_id: i64,
    pub order_number: String,
    pub created_at: Timestamp,
    pub updated_at: Timestamp,
}

/// What recording a pushed order takes.
#[derive(Debug, Clone, PartialEq, Eq)]
pub struct NewSendcloudOrder {
    pub shipment_id: u128,
    pub sendcloud_order_id: i64,
    pub order_number: String,
}

/// Status of a shipment just imported.
pub open spec fn pending_text() -> Seq<char> {
    "pending"@
}

/// Status of a shipment pushed to the carrier platform for review.
pub open spec fn sent_to_sendcloud_text() -> Seq<char> {
    "sent_to_sendcloud"@
}

/// `s` is the shipment an import of `input` creates with id `id` at `now`:
/// the invoice and customer fields copied, the status pending.
pub open spec fn is_created_shipment(s: Shipment, input: NewShipment, id: u128, now: Timestamp) -> bool {
    &&& s.id == id
    &&& s.pennylane_invoice_id == input.pennylane_invoice_id
    &&& s.invoice_number == input.invoice_number
    &&& s.pennylane_customer_id == input.pennylane_customer_id
    &&& s.customer_name == input.customer_name
    &&& s.delivery_address == input.delivery_address
    &&& s.delivery_postal_code == input.delivery_postal_code
    &&& s.delivery_city == input.delivery_city
    &&& s.delivery_country == input.delivery_country
    &&& s.status@ == pending_text()
    &&& s.created_at == now
    &&& s.updated_at == now
}

/// The line an import creates.
pub open spec fn created_line(
    input: NewShipmentLine,
    id: u128,
    shipment_id: u128,
    now: Timestamp,
) -> ShipmentLine {
    ShipmentLine {
        id,
        shipment_id,
        pennylane_line_id: input.pennylane_line_id,
        product_id: input.product_id,
        label: input.label,
        quantity: input.quantity,
        amount_eur: input.amount_eur,
        created_at: now,
        updated_at: now,
    }
}

/// What importing an invoice comes to.
#[derive(Debug, Clone, PartialEq, Eq)]
pub enum UpsertOutcome {
    /// The invoice was imported before: its shipment, unchanged.
    Existing(Shipment),
    /// A new shipment and its lines, to store.
    Create { shipment: Shipment, lines: Vec<ShipmentLine> },
}

/// `r` creates the shipment and lines that importing `input` makes.
pub open spec fn creates_shipment(
    r: UpsertOutcome,
    input: NewShipment,
    shipment_id: u128,
    line_ids: Seq<u128>,
    now: Timestamp,
) -> bool {
    match r {
        UpsertOutcome::Create { shipment, lines } => {
            &&& is_created_shipment(shipment, input, shipment_id, now)
            &&& lines.len() == input.lines.len()
            &&& forall|i: int|
                0 <= i < lines.len() ==> #[trigger] lines@[i] == created_line(
                    input.lines@[i],
                    line_ids[i],
                    shipment_id,
                    now,
                )
        },
        UpsertOutcome::Existing(_) => false,
    }
}

/// `r` is what importing `input` comes to when storage holds `existing`
/// for its invoice.
pub open spec fn upserted(
    existing: Option<Shipment>,
    input: NewShipment,
    shipment_id: u128,
    line_ids: Seq<u128>,
    now: Timestamp,
    r: UpsertOutcome,
) -> bool {
    match existing {
        Some(e) => r == UpsertOutcome::Existing(e),
        None => creates_shipment(r, input, shipment_id, line_ids, now),
    }
}

/// The created shipment and lines carry what was given, field by field: the
/// shipment the invoice and customer fields, pending; each line, in order,
/// its given id, the shipment's id, and the given line's invoice line,
/// product, label, quantity and amount.
pub open spec fn imported_as_given(
    r: UpsertOutcome,
    input: NewShipment,
    shipment_id: u128,
    line_ids: Seq<u128>,
    now: Timestamp,
) -> bool {
    match r {
        UpsertOutcome::Create { shipment, lines } => {
            &&& shipment.id == shipment_id
            &&& shipment.pennylane_invoice_id == input.pennylane_invoice_id
            &&& shipment.invoice_number == input.invoice_number
            &&& shipment.pennylane_customer_id == input.pennylane_customer_id
            &&& shipment.customer_name == input.customer_name
            &&& shipment.delivery_address == input.delivery_address
            &&& shipment.delivery_postal_code == input.delivery_postal_code
            &&& shipment.delivery_city == input.delivery_city
            &&& shipment.delivery_country == input.delivery_country
            &&& shipment.status@ == "pending"@
            &&& shipment.created_at == now
            &&& shipment.updated_at == now
            &&& lines.len() == input.lines.len()
            &&& forall|i: int|
                0 <= i < lines.len() ==> {
                    &&& (#[trigger] lines@[i]).id == line_ids[i]
                    &&& lines@[i].shipment_id == shipment_id
                    &&& lines@[i].pennylane_line_id == input.lines@[i].pennylane_line_id
                    &&& lines@[i].product_id == input.lines@[i].product_id
                    &&& lines@[i].label == input.lines@[i].label
                    &&& lines@[i].quantity == input.lines@[i].quantity
                    &&& lines@[i].amount_eur == input.lines@[i].amount_eur
                    &&& lines@[i].created_at == now
                    &&& lines@[i].updated_at == now
                }
        },
        UpsertOutcome::Existing(_) => false,
    }
}

/// Importing a new invoice creates what was given: every created line keeps
/// its given line's product link, label, quantity and amount, and the
/// shipment keeps the invoice's and customer's fields.
pub proof fn import_creates_what_was_given(
    input: NewShipment,
    shipment_id: u128,
    line_ids: Seq<u128>,
    now: Timestamp,
    r: UpsertOutcome,
)
    requires
        upserted(None, input, shipment_id, line_ids, now, r),
    ensures
        imported_as_given(r, input, shipment_id, line_ids, now),
{
}

/// Imports an invoice as a shipment unless it was imported already: then
/// the stored shipment is returned unchanged (invoices do not change once
/// final).  Otherwise the shipment is created pending, with one line per
/// given line, in order, under the ids given.
pub fn upsert_shipment(
    existing: Option<Shipment>,
    input: NewShipment,
    shipment_id: u128,
    line_ids: Vec<u128>,
    now: Timestamp,
) -> (r: UpsertOutcome)
    requires
        line_ids.len() == input.lines.len(),
    ensures
        existing matches Some(e) ==> r == UpsertOutcome::Existing(e),
        existing is None ==> creates_shipment(r, input, shipment_id, line_ids@, now),
        upserted(existing, input, shipment_id, line_ids@, now, r),
        existing is None ==> r is Create,
        existing is None ==> imported_as_given(r, input, shipment_id, line_ids@, now),
{
    match existing {
        Some(e) => UpsertOutcome::Existing(e),
        None => {
            let ghost given = input.lines@;
            let NewShipment {
                pennylane_invoice_id,
                invoice_number,
                pennylane_customer_id,
                customer_name,
                delivery_address,
                delivery_postal_code,
                delivery_city,
                delivery_country,
                lines: mut rest,
            } = input;
            let mut lines: Vec<ShipmentLine> = Vec::new();
            let mut i: usize = 0;
            while rest.len() > 0
                invariant
                    i <= given.len(),
                    line_ids.len() == given.len(),
                    rest@ == given.subrange(i as int, given.len() as int),
                    lines.len() == i,
                    forall|k: int|
                        0 <= k < i ==> #[trigger] lines@[k] == created_line(
                            given[k],
                            line_ids@[k],
                            shipment_id,
                            now,
                        ),
                decreases rest.len(),
            {
                let l = rest.remove(0);
                lines.push(
                    ShipmentLine {
                        id: line_ids[i],
                        shipment_id,
                        pennylane_line_id: l.pennylane_line_id,
                        product_id: l.product_id,
                        label: l.label,
                        quantity: l.quantity,
                        amount_eur: l.amount_eur,
                        created_at: now,
                        updated_at: now,
                    },
                );
                i = i + 1;
                proof {
                    assert(rest@ =~= given.subrange(i as int, given.len() as int));
                }
            }
            let shipment = Shipment {
                id: shipment_id,
                pennylane_invoice_id,
                invoice_number,
                pennylane_customer_id,
                customer_name,
                delivery_address,
                delivery_postal_code,
                delivery_city,
                delivery_country,
                status: owned("pending"),
                created_at: now,
                updated_at: now,
            };
            UpsertOutcome::Create { shipment, lines }
        },
    }
}

/// The stored shipments, by the invoice they were imported from.
pub open spec fn stored_for(store: Map<i64, Shipment>, invoice_id: i64) -> Option<Shipment> {
    if store.dom().contains(invoice_id) {
        Some(store[invoice_id])
    } else {
        None
    }
}

/// Each stored shipment sits under the id of its own invoice, so no two
/// shipments share an invoice.
pub open spec fn keyed_by_invoice(store: Map<i64, Shipment>) -> bool {
    forall|k: i64| #[trigger] store.dom().contains(k) ==> store[k].pennylane_invoice_id == k
}

/// The stored shipments once an import's outcome is stored: a created
/// shipment is added, an existing one leaves storage as it is.
pub open spec fn store_after(store: Map<i64, Shipment>, r: UpsertOutcome) -> Map<i64, Shipment> {
    match r {
        UpsertOutcome::Existing(_) => store,
        UpsertOutcome::Create { shipment, .. } => store.insert(shipment.pennylane_invoice_id, shipment),
    }
}

/// The shipment an import answers with.
pub open spec fn import_answer(r: UpsertOutcome) -> Shipment {
    match r {
        UpsertOutcome::Existing(s) => s,
        UpsertOutcome::Create { shipment, .. } => shipment,
    }
}

/// An import, looked up by its invoice in storage and stored, keeps storage
/// at one shipment per invoice; afterwards storage holds, under the
/// invoice, the shipment the import answered with.
pub proof fn import_keeps_one_shipment_per_invoice(
    store: Map<i64, Shipment>,
    input: NewShipment,
    shipment_id: u128,
    line_ids: Seq<u128>,
    now: Timestamp,
    r: UpsertOutcome,
)
    requires
        keyed_by_invoice(store),
        upserted(stored_for(store, input.pennylane_invoice_id), input, shipment_id, line_ids, now, r),
    ensures
        keyed_by_invoice(store_after(store, r)),
        store_after(store, r).dom() == store.dom().insert(input.pennylane_invoice_id),
        store_after(store, r)[input.pennylane_invoice_id] == import_answer(r),
{
    if !store.dom().contains(input.pennylane_invoice_id) {
        assert(store_after(store, r).dom() =~= store.dom().insert(input.pennylane_invoice_id));
    } else {
        assert(store.dom().insert(input.pennylane_invoice_id) =~= store.dom());
    }
}

/// Importing the same invoice again answers the shipment stored the first
/// time and leaves storage as the first import left it, so running the
/// import again creates nothing new.
pub proof fn reimport_changes_nothing(
    store: Map<i64, Shipment>,
    first: NewShipment,
    first_id: u128,
    first_line_ids: Seq<u128>,
    first_now: Timestamp,
    r1: UpsertOutcome,
    again: NewShipment,
    again_id: u128,
    again_line_ids: Seq<u128>,
    again_now: Timestamp,
    r2: UpsertOutcome,
)
    requires
        keyed_by_invoice(store),
        upserted(
            stored_for(store, first.pennylane_invoice_id),
            first,
            first_id,
            first_line_ids,
            first_now,
            r1,
        ),
        again.pennylane_invoice_id == first.pennylane_invoice_id,
        upserted(
            stored_for(store_after(store, r1), again.pennylane_invoice_id),
            again,
            again_id,
            again_line_ids,
            again_now,
            r2,
        ),
    ensures
        import_answer(r2) == import_answer(r1),
        store_after(store_after(store, r1), r2) == store_after(store, r1),
{
    import_keeps_one_shipment_per_invoice(store, first, first_id, first_line_ids, first_now, r1);
}

/// Sets a shipment's status.  Any status may be set at any time: the
/// workflow stays in human hands.
pub fn update_shipment_status(existing: Shipment, status: String, now: Timestamp) -> (s: Shipment)
    ensures
        s == (Shipment { status, updated_at: now, ..existing }),
{
    let mut s = existing;
    s.status = status;
    s.updated_at = now;
    s
}

/// The record of a pushed order.
pub fn record_sendcloud_order(input: NewSendcloudOrder, id: u128, now: Timestamp) -> (r: SendcloudOrderRecord)
    ensures
        r == (SendcloudOrderRecord {
            id,
            shipment_id: input.shipment_id,
            sendcloud_order_id: input.sendcloud_order_id,
            order_number: input.order_number,
            created_at: now,
            updated_at: now,
        }),
{
    SendcloudOrderRecord {
        id,
        shipment_id: input.shipment_id,
        sendcloud_order_id: input.sendcloud_order_id,
        order_number: input.order_number,
        created_at: now,
        updated_at: now,
    }
}

} // verus!
