//! Importing invoices as shipments to prepare.  The import walks the
//! invoice listing page by page; for each invoice with a customer it loads
//! the customer and the invoice's lines (page by page), looks up the product
//! of each line that has one, and saves the shipment.  The walk is a state
//! machine: each step takes what the last request brought back and says
//! which request to make next.
use vstd::prelude::*;
use crate::pennylane::{Customer, CustomerInvoice, CustomerInvoiceLine, Paginated};
use crate::shipping::{NewShipment, NewShipmentLine};
use crate::text::copy_opt;

verus! {

/// Where the import stands, with what it is waiting for.
#[derive(Debug, Clone, PartialEq, Eq)]
pub enum SyncPhase {
    /// Not started.
    Idle,
    /// Waiting for a page of invoices.
    AwaitInvoices,
    /// Waiting for the customer of invoice `index` of `page`.
    AwaitCustomer { page: Paginated<CustomerInvoice>, index: usize },
    /// Waiting for a page of lines of invoice `index`; `lines` are the
    /// shipment lines gathered so far.
    AwaitLines {
        page: Paginated<CustomerInvoice>,
        index: usize,
        customer: Customer,
        lines: Vec<NewShipmentLine>,
    },
    /// Waiting for the product of line `line_index` of `line_page`.
    AwaitProduct {
        page: Paginated<CustomerInvoice>,
        index: usize,
        customer: Customer,
        lines: Vec<NewShipmentLine>,
        line_page: Paginated<CustomerInvoiceLine>,
        line_index: usize,
    },
    /// Waiting for the shipment of invoice `index` to be saved.
    AwaitSave { page: Paginated<CustomerInvoice>, index: usize },
    /// All pages walked.
    Finished,
}

/// The import's state: its phase and how many invoices it has saved.
#[derive(Debug, Clone, PartialEq, Eq)]
pub struct SyncState {
    pub processed: usize,
    pub phase: SyncPhase,
}

/// What the last request brought back.
#[derive(Debug, Clone, PartialEq, Eq)]
pub enum SyncEvent {
    Start,
    Invoices(Paginated<CustomerInvoice>),
    CustomerLoaded(Customer),
    Lines(Paginated<CustomerInvoiceLine>),
    /// The nomenclature product linked to the line's product, if any; a line
    /// whose product is not in the nomenclature is left out of the shipment.
    ProductResolved(Option<u128>),
    Saved,
}

/// The request to make next.
#[derive(Debug, Clone, PartialEq, Eq)]
pub enum SyncAction {
    ListInvoices { cursor: Option<String> },
    GetCustomer { customer_id: i64 },
    ListLines { invoice_id: i64, cursor: Option<String> },
    FindProduct { pennylane_product_id: i64 },
    Save { shipment: NewShipment },
    Done { processed: usize },
}

/// No invoice in `items[from..to]` has a customer.
pub open spec fn no_customer(items: Seq<CustomerInvoice>, from: int, to: int) -> bool {
    forall|k: int| from <= k < to ==> (#[trigger] items[k]).customer is None
}

/// No line in `items[from..to]` has a product.
pub open spec fn no_product(items: Seq<CustomerInvoiceLine>, from: int, to: int) -> bool {
    forall|k: int| from <= k < to ==> (#[trigger] items[k]).product is None
}

/// The shipment line an invoice line becomes, with the nomenclature
/// product it resolved to; the invoice's amount is kept for customs.
pub open spec fn line_for(l: CustomerInvoiceLine, product_id: Option<u128>) -> NewShipmentLine {
    NewShipmentLine {
        pennylane_line_id: l.id,
        product_id,
        label: l.label,
        quantity: l.quantity,
        amount_eur: Some(l.amount),
    }
}

/// `sh` is the shipment an invoice becomes with the gathered `lines`,
/// delivered to its customer's delivery address.
pub open spec fn is_shipment_for(
    sh: NewShipment,
    invoice: CustomerInvoice,
    customer: Customer,
    lines: Seq<NewShipmentLine>,
) -> bool {
    &&& sh.pennylane_invoice_id == invoice.id
    &&& sh.invoice_number == invoice.invoice_number
    &&& sh.pennylane_customer_id == customer.id
    &&& sh.customer_name == customer.name
    &&& sh.delivery_address == customer.delivery_address.address
    &&& sh.delivery_postal_code == customer.delivery_address.postal_code
    &&& sh.delivery_city == customer.delivery_address.city
    &&& sh.delivery_country == customer.delivery_address.country_alpha2
    &&& sh.lines@ == lines
}

/// Every gathered line is linked to a nomenclature product.
pub open spec fn all_linked(lines: Seq<NewShipmentLine>) -> bool {
    forall|i: int| 0 <= i < lines.len() ==> (#[trigger] lines[i]).product_id is Some
}

impl SyncState {
    /// The state before the import starts.
    pub fn new() -> (s: SyncState)
        ensures
            s.processed == 0,
            s.phase is Idle,
    {
        SyncState { processed: 0, phase: SyncPhase::Idle }
    }

    /// The indices the phase holds point at what it waits for.
    pub open spec fn wf(&self) -> bool {
        match self.phase {
            SyncPhase::AwaitCustomer { page, index } => index < page.items.len()
                && page.items@[index as int].customer is Some,
            SyncPhase::AwaitLines { page, index, lines, .. } => index < page.items.len()
                && page.items@[index as int].customer is Some && all_linked(lines@),
            SyncPhase::AwaitProduct { page, index, lines, line_page, line_index, .. } => index
                < page.items.len() && page.items@[index as int].customer is Some && line_index
                < line_page.items.len() && line_page.items@[line_index as int].product is Some
                && all_linked(lines@),
            SyncPhase::AwaitSave { page, index } => index < page.items.len()
                && page.items@[index as int].customer is Some,
            _ => true,
        }
    }

    /// The event is the answer to the request the state waits for (and a
    /// save still leaves the count of saved invoices representable).
    pub open spec fn accepts(&self, e: SyncEvent) -> bool {
        match (self.phase, e) {
            (SyncPhase::Idle, SyncEvent::Start) => true,
            (SyncPhase::AwaitInvoices, SyncEvent::Invoices(_)) => true,
            (SyncPhase::AwaitCustomer { .. }, SyncEvent::CustomerLoaded(_)) => true,
            (SyncPhase::AwaitLines { .. }, SyncEvent::Lines(_)) => true,
            (SyncPhase::AwaitProduct { .. }, SyncEvent::ProductResolved(_)) => true,
            (SyncPhase::AwaitSave { .. }, SyncEvent::Saved) => self.processed < usize::MAX,
            _ => false,
        }
    }

    /// Whether the event is the answer to the request the state waits for.
    pub fn accepts_event(&self, e: &SyncEvent) -> (b: bool)
        ensures
            b == self.accepts(*e),
    {
        match (&self.phase, e) {
            (SyncPhase::Idle, SyncEvent::Start) => true,
            (SyncPhase::AwaitInvoices, SyncEvent::Invoices(_)) => true,
            (SyncPhase::AwaitCustomer { .. }, SyncEvent::CustomerLoaded(_)) => true,
            (SyncPhase::AwaitLines { .. }, SyncEvent::Lines(_)) => true,
            (SyncPhase::AwaitProduct { .. }, SyncEvent::ProductResolved(_)) => true,
            (SyncPhase::AwaitSave { .. }, SyncEvent::Saved) => self.processed < usize::MAX,
            _ => false,
        }
    }
}

/// The first invoice from `from` on that has a customer (`items.len()` when none).
fn find_invoice_with_customer(items: &Vec<CustomerInvoice>, from: usize) -> (i: usize)
    requires
        from <= items.len(),
    ensures
        from <= i <= items.len(),
        no_customer(items@, from as int, i as int),
        i < items.len() ==> items@[i as int].customer is Some,
{
    let n = items.len();
    let mut i = from;
    while i < n
        invariant
            n == items.len(),
            from <= i <= n,
            no_customer(items@, from as int, i as int),
        decreases n - i,
    {
        if items[i].customer.is_some() {
            return i;
        }
        i = i + 1;
    }
    i
}

/// The first line from `from` on that has a product (`items.len()` when none).
fn find_line_with_product(items: &Vec<CustomerInvoiceLine>, from: usize) -> (i: usize)
    requires
        from <= items.len(),
    ensures
        from <= i <= items.len(),
        no_product(items@, from as int, i as int),
        i < items.len() ==> items@[i as int].product is Some,
{
    let n = items.len();
    let mut i = from;
    while i < n
        invariant
            n == items.len(),
            from <= i <= n,
            no_product(items@, from as int, i as int),
        decreases n - i,
    {
        if items[i].product.is_some() {
            return i;
        }
        i = i + 1;
    }
    i
}

/// After the invoices of `page` before `from` are handled: the state and
/// request that handle the next invoice with a customer, else the next
/// page, else the end.
pub open spec fn invoices_advanced(
    processed: usize,
    page: Paginated<CustomerInvoice>,
    from: int,
    s: SyncState,
    a: SyncAction,
) -> bool {
    let items = page.items@;
    &&& s.processed == processed
    &&& match a {
        SyncAction::GetCustomer { customer_id } => match s.phase {
            SyncPhase::AwaitCustomer { page: p, index } => {
                &&& p == page
                &&& from <= index < items.len()
                &&& no_customer(items, from, index as int)
                &&& items[index as int].customer matches Some(c) && c.id == customer_id
            },
            _ => false,
        },
        SyncAction::ListInvoices { cursor } => {
            &&& no_customer(items, from, items.len() as int)
            &&& page.has_more
            &&& cursor == page.next_cursor
            &&& s.phase is AwaitInvoices
        },
        SyncAction::Done { processed: n } => {
            &&& no_customer(items, from, items.len() as int)
            &&& !page.has_more
            &&& n == processed
            &&& s.phase is Finished
        },
        _ => false,
    }
}

fn advance_invoices(processed: usize, page: Paginated<CustomerInvoice>, from: usize) -> (r: (
    SyncState,
    SyncAction,
))
    requires
        from <= page.items.len(),
    ensures
        r.0.wf(),
        invoices_advanced(processed, page, from as int, r.0, r.1),
{
    let i = find_invoice_with_customer(&page.items, from);
    if i < page.items.len() {
        let customer_id = match &page.items[i].customer {
            Some(c) => c.id,
            None => 0,
        };
        (
            SyncState { processed, phase: SyncPhase::AwaitCustomer { page, index: i } },
            SyncAction::GetCustomer { customer_id },
        )
    } else if page.has_more {
        let cursor = copy_opt(&page.next_cursor);
        (SyncState { processed, phase: SyncPhase::AwaitInvoices }, SyncAction::ListInvoices { cursor })
    } else {
        (SyncState { processed, phase: SyncPhase::Finished }, SyncAction::Done { processed })
    }
}

/// The shipment is for the invoice and goes to the customer's delivery
/// address (not the billing one), under the customer's name.
pub open spec fn ships_to_customer(
    shipment: NewShipment,
    invoice: CustomerInvoice,
    buyer: Customer,
) -> bool {
    let to = buyer.delivery_address;
    &&& invoice.id == shipment.pennylane_invoice_id
    &&& invoice.invoice_number == shipment.invoice_number
    &&& buyer.id == shipment.pennylane_customer_id
    &&& buyer.name == shipment.customer_name
    &&& to.address == shipment.delivery_address
    &&& to.postal_code == shipment.delivery_postal_code
    &&& to.city == shipment.delivery_city
    &&& to.country_alpha2 == shipment.delivery_country
}

/// The phase is reading the lines of an invoice, for its customer.
pub open spec fn reads_lines(phase: SyncPhase) -> bool {
    phase is AwaitLines || phase is AwaitProduct
}

/// The invoice whose lines the phase is reading.
pub open spec fn phase_invoice(phase: SyncPhase) -> CustomerInvoice {
    match phase {
        SyncPhase::AwaitLines { page, index, .. } => page.items@[index as int],
        SyncPhase::AwaitProduct { page, index, .. } => page.items@[index as int],
        _ => arbitrary(),
    }
}

/// The customer of the invoice whose lines the phase is reading.
pub open spec fn phase_customer(phase: SyncPhase) -> Customer {
    match phase {
        SyncPhase::AwaitLines { customer, .. } => customer,
        SyncPhase::AwaitProduct { customer, .. } => customer,
        _ => arbitrary(),
    }
}

/// After the lines of `line_page` before `from` are handled: the state and
/// request that look up the product of the next line that has one, else
/// the next page of lines, else save the invoice's shipment.
pub open spec fn lines_advanced(
    processed: usize,
    page: Paginated<CustomerInvoice>,
    index: usize,
    customer: Customer,
    lines: Seq<NewShipmentLine>,
    line_page: Paginated<CustomerInvoiceLine>,
    from: int,
    s: SyncState,
    a: SyncAction,
) -> bool {
    let items = line_page.items@;
    let invoice = page.items@[index as int];
    &&& s.processed == processed
    &&& match a {
        SyncAction::FindProduct { pennylane_product_id } => match s.phase {
            SyncPhase::AwaitProduct {
                page: p,
                index: i,
                customer: c,
                lines: ls,
                line_page: lp,
                line_index,
            } => {
                &&& p == page && i == index && c == customer && ls@ == lines && lp == line_page
                &&& from <= line_index < items.len()
                &&& no_product(items, from, line_index as int)
                &&& items[line_index as int].product matches Some(r) && r.id
                    == pennylane_product_id
            },
            _ => false,
        },
        SyncAction::ListLines { invoice_id, cursor } => {
            &&& no_product(items, from, items.len() as int)
            &&& line_page.has_more
            &&& invoice_id == invoice.id
            &&& cursor == line_page.next_cursor
            &&& match s.phase {
                SyncPhase::AwaitLines { page: p, index: i, customer: c, lines: ls } => p == page
                    && i == index && c == customer && ls@ == lines,
                _ => false,
            }
        },
        SyncAction::Save { shipment } => {
            &&& no_product(items, from, items.len() as int)
            &&& !line_page.has_more
            &&& is_shipment_for(shipment, invoice, customer, lines)
            &&& s.phase == SyncPhase::AwaitSave { page, index }
        },
        _ => false,
    }
}

fn advance_lines(
    processed: usize,
    page: Paginated<CustomerInvoice>,
    index: usize,
    customer: Customer,
    lines: Vec<NewShipmentLine>,
    line_page: Paginated<CustomerInvoiceLine>,
    from: usize,
) -> (r: (SyncState, SyncAction))
    requires
        index < page.items.len(),
        page.items@[index as int].customer is Some,
        from <= line_page.items.len(),
        all_linked(lines@),
    ensures
        r.0.wf(),
        r.1 matches SyncAction::Save { shipment } ==> all_linked(shipment.lines@),
        r.1 matches SyncAction::Save { shipment } ==> ships_to_customer(
            shipment,
            page.items@[index as int],
            customer,
        ),
        lines_advanced(processed, page, index, customer, lines@, line_page, from as int, r.0, r.1),
{
    let j = find_line_with_product(&line_page.items, from);
    if j < line_page.items.len() {
        let pennylane_product_id = match &line_page.items[j].product {
            Some(p) => p.id,
            None => 0,
        };
        (
            SyncState {
                processed,
                phase: SyncPhase::AwaitProduct {
                    page,
                    index,
                    customer,
                    lines,
                    line_page,
                    line_index: j,
                },
            },
            SyncAction::FindProduct { pennylane_product_id },
        )
    } else if line_page.has_more {
        let invoice_id = page.items[index].id;
        let cursor = copy_opt(&line_page.next_cursor);
        (
            SyncState { processed, phase: SyncPhase::AwaitLines { page, index, customer, lines } },
            SyncAction::ListLines { invoice_id, cursor },
        )
    } else {
        let invoice = &page.items[index];
        let Customer { id, name, delivery_address, .. } = customer;
        let shipment = NewShipment {
            pennylane_invoice_id: invoice.id,
            invoice_number: invoice.invoice_number.clone(),
            pennylane_customer_id: id,
            customer_name: name,
            delivery_address: delivery_address.address,
            delivery_postal_code: delivery_address.postal_code,
            delivery_city: delivery_address.city,
            delivery_country: delivery_address.country_alpha2,
            lines,
        };
        (SyncState { processed, phase: SyncPhase::AwaitSave { page, index } }, SyncAction::Save { shipment })
    }
}

/// The step from `old` on event `e` to state `s` and request `a`.
pub open spec fn stepped(old: SyncState, e: SyncEvent, s: SyncState, a: SyncAction) -> bool {
    match (old.phase, e) {
        (SyncPhase::Idle, SyncEvent::Start) => {
            &&& s == SyncState { processed: old.processed, phase: SyncPhase::AwaitInvoices }
            &&& a == SyncAction::ListInvoices { cursor: None }
        },
        (SyncPhase::AwaitInvoices, SyncEvent::Invoices(page)) => invoices_advanced(
            old.processed,
            page,
            0,
            s,
            a,
        ),
        (SyncPhase::AwaitCustomer { page, index }, SyncEvent::CustomerLoaded(customer)) => {
            &&& s.processed == old.processed
            &&& match s.phase {
                SyncPhase::AwaitLines { page: p, index: i, customer: c, lines } => {
                    &&& p == page
                    &&& i == index
                    &&& c == customer
                    &&& lines@.len() == 0
                },
                _ => false,
            }
            &&& a == SyncAction::ListLines { invoice_id: page.items@[index as int].id, cursor: None }
        },
        (SyncPhase::AwaitLines { page, index, customer, lines }, SyncEvent::Lines(line_page)) => lines_advanced(
            old.processed,
            page,
            index,
            customer,
            lines@,
            line_page,
            0,
            s,
            a,
        ),
        (
            SyncPhase::AwaitProduct { page, index, customer, lines, line_page, line_index },
            SyncEvent::ProductResolved(product_id),
        ) => lines_advanced(
            old.processed,
            page,
            index,
            customer,
            if product_id is Some {
                lines@.push(line_for(line_page.items@[line_index as int], product_id))
            } else {
                lines@
            },
            line_page,
            line_index + 1,
            s,
            a,
        ),
        (SyncPhase::AwaitSave { page, index }, SyncEvent::Saved) => invoices_advanced(
            (old.processed + 1) as usize,
            page,
            index + 1,
            s,
            a,
        ),
        _ => false,
    }
}

impl SyncState {
    /// Takes what the last request brought back and decides the next request.
    /// The count of saved invoices grows by one on each save and only then;
    /// invoices without a customer, and lines without a product or whose
    /// product is not in the nomenclature, are passed over; the import ends
    /// with the last page of invoices.
    pub fn step(self, e: SyncEvent) -> (r: (SyncState, SyncAction))
        requires
            self.wf(),
            self.accepts(e),
        ensures
            r.0.wf(),
            stepped(self, e, r.0, r.1),
            r.0.processed == (if e is Saved { self.processed + 1 } else { self.processed as int }),
            r.1 matches SyncAction::Done { processed } ==> processed == r.0.processed && r.0.phase is Finished,
            r.1 matches SyncAction::Save { shipment } ==> all_linked(shipment.lines@),
            r.1 is Save ==> r.0.phase is AwaitSave,
            r.1 matches SyncAction::Save { shipment } ==> reads_lines(self.phase) && ships_to_customer(
                shipment,
                phase_invoice(self.phase),
                phase_customer(self.phase),
            ),
    {
        let processed = self.processed;
        match (self.phase, e) {
            (SyncPhase::Idle, SyncEvent::Start) => (
                SyncState { processed, phase: SyncPhase::AwaitInvoices },
                SyncAction::ListInvoices { cursor: None },
            ),
            (SyncPhase::AwaitInvoices, SyncEvent::Invoices(page)) => advance_invoices(processed, page, 0),
            (SyncPhase::AwaitCustomer { page, index }, SyncEvent::CustomerLoaded(customer)) => {
                let invoice_id = page.items[index].id;
                (
                    SyncState {
                        processed,
                        phase: SyncPhase::AwaitLines { page, index, customer, lines: Vec::new() },
                    },
                    SyncAction::ListLines { invoice_id, cursor: None },
                )
            },
            (SyncPhase::AwaitLines { page, index, customer, lines }, SyncEvent::Lines(line_page)) => {
                advance_lines(processed, page, index, customer, lines, line_page, 0)
            },
            (
                SyncPhase::AwaitProduct { page, index, customer, lines, line_page, line_index },
                SyncEvent::ProductResolved(product_id),
            ) => {
                let mut lines = lines;
                if product_id.is_some() {
                    let l = &line_page.items[line_index];
                    lines.push(
                        NewShipmentLine {
                            pennylane_line_id: l.id,
                            product_id,
                            label: l.label.clone(),
                            quantity: l.quantity.clone(),
                            amount_eur: Some(l.amount.clone()),
                        },
                    );
                }
                advance_lines(processed, page, index, customer, lines, line_page, line_index + 1)
            },
            (SyncPhase::AwaitSave { page, index }, SyncEvent::Saved) => {
                advance_invoices(processed + 1, page, index + 1)
            },
            (phase, _) => (SyncState { processed, phase }, SyncAction::Done { processed }),
        }
    }
}

/// Every shipment the import asks to save is for the invoice whose lines
/// were being read, and goes to that invoice customer's delivery address.
pub proof fn saved_shipment_goes_to_delivery_address(
    old: SyncState,
    e: SyncEvent,
    s: SyncState,
    a: SyncAction,
)
    requires
        old.wf(),
        stepped(old, e, s, a),
        a is Save,
    ensures
        reads_lines(old.phase),
        ships_to_customer(a->shipment, phase_invoice(old.phase), phase_customer(old.phase)),
{
}

/// How many of the events report a save.
pub open spec fn saved_count(events: Seq<SyncEvent>) -> nat
    decreases events.len(),
{
    if events.len() == 0 {
        0
    } else {
        saved_count(events.drop_last()) + (if events.last() is Saved { 1nat } else { 0nat })
    }
}

/// `states`, `events` and `actions` are a run of the import: each state
/// takes the event that answers it, and steps to the next state with the
/// next request.
pub open spec fn is_run(states: Seq<SyncState>, events: Seq<SyncEvent>, actions: Seq<SyncAction>) -> bool {
    &&& states.len() == events.len() + 1
    &&& actions.len() == events.len()
    &&& forall|i: int|
        0 <= i < events.len() ==> {
            &&& (#[trigger] states[i]).wf()
            &&& states[i].accepts(events[i])
            &&& stepped(states[i], events[i], states[i + 1], actions[i])
        }
}

proof fn lemma_only_save_awaits_save(old: SyncState, e: SyncEvent, s: SyncState, a: SyncAction)
    requires
        stepped(old, e, s, a),
        s.phase is AwaitSave,
    ensures
        a is Save,
{
}

proof fn lemma_step_counts(old: SyncState, e: SyncEvent, s: SyncState, a: SyncAction)
    requires
        old.accepts(e),
        stepped(old, e, s, a),
    ensures
        s.processed == old.processed + (if e is Saved { 1int } else { 0int }),
{
}

/// Over a whole run of the import, the count of saved invoices grows by
/// exactly the number of saves reported; and from the start, each save
/// reported answers a request to save a shipment, so the import saves
/// once per shipment it asks to save and never otherwise.
pub proof fn import_run_counts_saves(
    states: Seq<SyncState>,
    events: Seq<SyncEvent>,
    actions: Seq<SyncAction>,
)
    requires
        is_run(states, events, actions),
    ensures
        states.last().processed == states[0].processed + saved_count(events),
        states[0].phase is Idle ==> forall|i: int|
            0 <= i < events.len() && (#[trigger] events[i]) is Saved ==> i > 0 && actions[i - 1] is Save,
    decreases events.len(),
{
    let n = events.len() as int;
    if n > 0 {
        let ps = states.subrange(0, n);
        let pe = events.drop_last();
        let pa = actions.drop_last();
        assert forall|i: int| 0 <= i < pe.len() implies {
            &&& (#[trigger] ps[i]).wf()
            &&& ps[i].accepts(pe[i])
            &&& stepped(ps[i], pe[i], ps[i + 1], pa[i])
        } by {
            assert(ps[i] == states[i] && ps[i + 1] == states[i + 1]);
            assert(pe[i] == events[i] && pa[i] == actions[i]);
        }
        import_run_counts_saves(ps, pe, pa);
        assert(ps.last() == states[n - 1]);
        lemma_step_counts(states[n - 1], events[n - 1], states[n], actions[n - 1]);
        assert(events.last() == events[n - 1]);
        if states[0].phase is Idle {
            assert forall|i: int|
                0 <= i < events.len() && (#[trigger] events[i]) is Saved implies i > 0
                && actions[i - 1] is Save by {
                if i == 0 {
                    assert(states[0].accepts(events[0]));
                } else {
                    assert(states[i].accepts(events[i]));
                    assert(stepped(states[i - 1], events[i - 1], states[i], actions[i - 1]));
                    lemma_only_save_awaits_save(states[i - 1], events[i - 1], states[i], actions[i - 1]);
                }
            }
        }
    }
}

} // verus!
