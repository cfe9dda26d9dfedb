use overwatch::pennylane::{
    Address, Customer, CustomerInvoice, CustomerInvoiceLine, IdRef, Paginated,
};
use overwatch::sync::{SyncAction, SyncEvent, SyncPhase, SyncState};

fn invoice(id: i64, customer: Option<i64>) -> CustomerInvoice {
    CustomerInvoice {
        id,
        invoice_number: format!("F{id}"),
        date: Some("2023-08-30".to_string()),
        status: "paid".to_string(),
        draft: false,
        customer: customer.map(|c| IdRef {
            id: c,
            url: format!("https://app.pennylane.com/api/external/v2/customers/{c}"),
        }),
    }
}

fn line(id: i64, product: Option<i64>, amount: &str) -> CustomerInvoiceLine {
    CustomerInvoiceLine {
        id,
        label: format!("Ligne {id}"),
        description: "Lorem ipsum".to_string(),
        quantity: "12".to_string(),
        amount: amount.to_string(),
        product: product.map(|p| IdRef { id: p, url: String::new() }),
    }
}

fn address() -> Address {
    Address {
        address: "12 rue de la Paix".to_string(),
        postal_code: "75002".to_string(),
        city: "Paris".to_string(),
        country_alpha2: "FR".to_string(),
    }
}

fn step(s: SyncState, e: SyncEvent) -> (SyncState, SyncAction) {
    assert!(s.accepts_event(&e));
    s.step(e)
}

#[test]
fn import_walks_pages_and_skips_what_cannot_be_shipped() {
    let s = SyncState::new();
    let (s, a) = step(s, SyncEvent::Start);
    assert_eq!(a, SyncAction::ListInvoices { cursor: None });

    let page = Paginated {
        items: vec![invoice(41, None), invoice(42, Some(7))],
        has_more: true,
        next_cursor: Some("c2".to_string()),
    };
    let (s, a) = step(s, SyncEvent::Invoices(page));
    assert_eq!(a, SyncAction::GetCustomer { customer_id: 7 });

    let customer = Customer {
        id: 7,
        name: "Client ACME SARL".to_string(),
        customer_type: "company".to_string(),
        delivery_address: address(),
        billing_address: address(),
    };
    let (s, a) = step(s, SyncEvent::CustomerLoaded(customer));
    assert_eq!(a, SyncAction::ListLines { invoice_id: 42, cursor: None });

    let lines = Paginated {
        items: vec![line(444, Some(3049), "50.4"), line(445, None, "-10.0")],
        has_more: true,
        next_cursor: Some("l2".to_string()),
    };
    let (s, a) = step(s, SyncEvent::Lines(lines));
    assert_eq!(a, SyncAction::FindProduct { pennylane_product_id: 3049 });

    let (s, a) = step(s, SyncEvent::ProductResolved(Some(11)));
    assert_eq!(a, SyncAction::ListLines { invoice_id: 42, cursor: Some("l2".to_string()) });

    let lines = Paginated { items: vec![line(446, Some(99), "3")], has_more: false, next_cursor: None };
    let (s, a) = step(s, SyncEvent::Lines(lines));
    assert_eq!(a, SyncAction::FindProduct { pennylane_product_id: 99 });

    // Product 99 is not in the nomenclature: its line is left out.
    let (s, a) = step(s, SyncEvent::ProductResolved(None));
    match &a {
        SyncAction::Save { shipment } => {
            assert_eq!(shipment.pennylane_invoice_id, 42);
            assert_eq!(shipment.invoice_number, "F42");
            assert_eq!(shipment.pennylane_customer_id, 7);
            assert_eq!(shipment.customer_name, "Client ACME SARL");
            assert_eq!(shipment.delivery_city, "Paris");
            assert_eq!(shipment.delivery_country, "FR");
            assert_eq!(shipment.lines.len(), 1);
            assert_eq!(shipment.lines[0].pennylane_line_id, 444);
            assert_eq!(shipment.lines[0].product_id, Some(11));
            assert_eq!(shipment.lines[0].quantity, "12");
            assert_eq!(shipment.lines[0].amount_eur.as_deref(), Some("50.4"));
        }
        other => panic!("unexpected {other:?}"),
    }
    assert_eq!(s.processed, 0);

    let (s, a) = step(s, SyncEvent::Saved);
    assert_eq!(s.processed, 1);
    assert_eq!(a, SyncAction::ListInvoices { cursor: Some("c2".to_string()) });

    let last = Paginated { items: vec![invoice(43, None)], has_more: false, next_cursor: None };
    let (s, a) = step(s, SyncEvent::Invoices(last));
    assert_eq!(a, SyncAction::Done { processed: 1 });
    assert_eq!(s.phase, SyncPhase::Finished);
}

#[test]
fn events_out_of_turn_are_not_accepted() {
    let s = SyncState::new();
    assert!(!s.accepts_event(&SyncEvent::Saved));
    assert!(s.accepts_event(&SyncEvent::Start));
    let (s, _) = s.step(SyncEvent::Start);
    assert!(!s.accepts_event(&SyncEvent::Start));
    assert!(s.accepts_event(&SyncEvent::Invoices(Paginated {
        items: vec![],
        has_more: false,
        next_cursor: None
    })));
}

#[test]
fn an_empty_listing_ends_at_once() {
    let (s, _) = SyncState::new().step(SyncEvent::Start);
    let (s, a) = s.step(SyncEvent::Invoices(Paginated { items: vec![], has_more: false, next_cursor: None }));
    assert_eq!(a, SyncAction::Done { processed: 0 });
    assert_eq!(s.processed, 0);
}

