use overwatch::error::AppError;
use overwatch::ident::Timestamp;
use overwatch::sendcloud::{
    build_order, extract_error_message, failed_push, is_success, plan_send,
    pushed_order, record_push, sendcloud_err, ErrorObject, OrderResponseItem, OrdersResponse,
    SendPlan, SendcloudClient, SendcloudError,
};
use overwatch::shipping::{SendcloudOrderRecord, Shipment, ShipmentLine};

const T0: Timestamp = Timestamp { secs: 1_790_071_200, nanos: 0 };
const T1: Timestamp = Timestamp { secs: 1_790_071_260, nanos: 0 };

fn shipment() -> Shipment {
    Shipment {
        id: 0x67e5504410b1426f9247bb680e5fe0c8,
        pennylane_invoice_id: 42,
        invoice_number: "F20260001".to_string(),
        pennylane_customer_id: 7,
        customer_name: "Client ACME SARL".to_string(),
        delivery_address: "12 rue de la Paix".to_string(),
        delivery_postal_code: "75002".to_string(),
        delivery_city: "Paris".to_string(),
        delivery_country: "FR".to_string(),
        status: "ready".to_string(),
        created_at: T0,
        updated_at: T0,
    }
}

fn line(id: u128, label: &str, quantity: &str, amount: Option<&str>) -> ShipmentLine {
    ShipmentLine {
        id,
        shipment_id: 0x67e5504410b1426f9247bb680e5fe0c8,
        pennylane_line_id: id as i64,
        product_id: Some(1),
        label: label.to_string(),
        quantity: quantity.to_string(),
        amount_eur: amount.map(|a| a.to_string()),
        created_at: T0,
        updated_at: T0,
    }
}

#[test]
fn an_order_carries_the_shipment_for_review() {
    let lines = vec![line(1, "PDU 16A", "1", Some("50.4")), line(2, "Câble", "3", None)];
    let o = build_order(&shipment(), &lines, 7).unwrap();
    assert_eq!(o.order_id, "67e55044-10b1-426f-9247-bb680e5fe0c8");
    assert_eq!(o.order_number, "F20260001");
    assert_eq!(o.order_details.integration.id, 7);
    assert_eq!(o.order_details.status.code, "to_review");
    assert_eq!(o.order_details.status.message, "À valider avant expédition");
    assert_eq!(o.order_details.order_created_at, "2026-09-22T10:00:00+00:00");
    assert_eq!(o.order_details.order_items.len(), 2);
    assert_eq!(o.order_details.order_items[0].name, "PDU 16A");
    assert_eq!(o.order_details.order_items[0].quantity, 1);
    assert_eq!(o.order_details.order_items[0].total_price.cents, 5040);
    assert_eq!(o.order_details.order_items[0].total_price.currency, "EUR");
    assert_eq!(o.order_details.order_items[1].quantity, 3);
    assert_eq!(o.order_details.order_items[1].total_price.cents, 0);
    assert_eq!(o.payment_details.total_price.cents, 5040);
    assert_eq!(o.payment_details.status.code, "n/a");
    assert_eq!(o.payment_details.status.message, "Non suivi");
    assert_eq!(o.shipping_address.name, "Client ACME SARL");
    assert_eq!(o.shipping_address.address_line_1, "12 rue de la Paix");
    assert_eq!(o.shipping_address.postal_code, "75002");
    assert_eq!(o.shipping_address.city, "Paris");
    assert_eq!(o.shipping_address.country_code, "FR");
    assert_eq!(o.shipping_address.email, None);
}

#[test]
fn the_payment_total_sums_the_lines() {
    let lines = vec![
        line(1, "A", "2", Some("230.32")),
        line(2, "B", "1", Some("-10.0")),
        line(3, "C", "1", Some("0.05")),
    ];
    let o = build_order(&shipment(), &lines, 7).unwrap();
    assert_eq!(o.payment_details.total_price.cents, 23032 - 1000 + 5);
}

#[test]
fn unreadable_lines_are_refused_with_the_first_problem() {
    let lines = vec![line(1, "A", "1", Some("abc")), line(2, "B", "x", None)];
    assert_eq!(
        build_order(&shipment(), &lines, 7),
        Err(AppError::Validation("montant invalide: abc".to_string()))
    );
    let lines = vec![line(1, "A", "1.5", Some("1")), line(2, "B", "1", Some("abc"))];
    assert_eq!(
        build_order(&shipment(), &lines, 7),
        Err(AppError::Validation("quantité invalide: 1.5".to_string()))
    );
    let lines = vec![
        line(1, "A", "1", Some("92233720368547758.07")),
        line(2, "B", "1", Some("0.01")),
    ];
    assert_eq!(
        build_order(&shipment(), &lines, 7),
        Err(AppError::Validation("montant total hors limites".to_string()))
    );
    let mut s = shipment();
    s.created_at = Timestamp { secs: i64::MAX, nanos: 0 };
    assert_eq!(
        build_order(&s, &vec![], 7),
        Err(AppError::Validation("date de création hors limites".to_string()))
    );
}

#[test]
fn sending_again_returns_the_recorded_order() {
    let record = SendcloudOrderRecord {
        id: 1,
        shipment_id: 0x67e5504410b1426f9247bb680e5fe0c8,
        sendcloud_order_id: 669,
        order_number: "F20260001".to_string(),
        created_at: T0,
        updated_at: T0,
    };
    let lines = vec![line(1, "A", "bad", None)];
    assert_eq!(
        plan_send(Some(record.clone()), &shipment(), &lines, 7),
        Ok(SendPlan::AlreadySent(record))
    );
    assert!(plan_send(None, &shipment(), &lines, 7).is_err());
    match plan_send(None, &shipment(), &vec![], 7) {
        Ok(SendPlan::Push(o)) => assert_eq!(o.order_details.order_items.len(), 0),
        other => panic!("unexpected {other:?}"),
    }
}

#[test]
fn a_pushed_order_is_recorded_and_the_shipment_marked_sent() {
    let pushed = OrderResponseItem {
        id: 669,
        order_id: "67e55044-10b1-426f-9247-bb680e5fe0c8".to_string(),
        order_number: "F20260001".to_string(),
    };
    let (record, s) = record_push(shipment(), pushed, 5, T1);
    assert_eq!(record.id, 5);
    assert_eq!(record.sendcloud_order_id, 669);
    assert_eq!(record.shipment_id, shipment().id);
    assert_eq!(s.status, "sent_to_sendcloud");
    assert_eq!(s.updated_at, T1);
    assert_eq!(s.created_at, T0);
}

#[test]
fn error_answers_give_their_first_detail() {
    let errs = vec![
        ErrorObject { status: Some("400".to_string()), code: None, detail: Some("bad postal code".to_string()) },
        ErrorObject { status: None, code: None, detail: Some("second".to_string()) },
    ];
    assert_eq!(extract_error_message(Some(errs), "{...}"), "bad postal code");
    let errs = vec![ErrorObject { status: None, code: None, detail: None }];
    assert_eq!(extract_error_message(Some(errs), "raw body"), "raw body");
    assert_eq!(extract_error_message(Some(vec![]), "raw body"), "raw body");
    assert_eq!(extract_error_message(None, "not json"), "not json");
    let e = failed_push(422, None, "not json");
    assert_eq!(e, SendcloudError::Api { status: 422, message: "not json".to_string() });
    assert_eq!(e.message(), "sendcloud API error (422): not json");
    assert_eq!(
        sendcloud_err(&e),
        AppError::External("sendcloud API error (422): not json".to_string())
    );
    assert_eq!(
        SendcloudError::Request("timeout".to_string()).message(),
        "sendcloud request failed: timeout"
    );
}

#[test]
fn successful_answers_give_their_first_order() {
    let item = OrderResponseItem {
        id: 669,
        order_id: "555413".to_string(),
        order_number: "OXSDFGHTD-12".to_string(),
    };
    let resp = OrdersResponse { data: vec![item.clone()] };
    assert_eq!(pushed_order(200, Ok(resp)), Ok(item));
    assert_eq!(
        pushed_order(200, Ok(OrdersResponse { data: vec![] })),
        Err(SendcloudError::Api {
            status: 200,
            message: "Sendcloud n'a renvoyé aucune commande".to_string()
        })
    );
    assert_eq!(
        pushed_order(201, Err("EOF".to_string())),
        Err(SendcloudError::Api {
            status: 201,
            message: "réponse inattendue de Sendcloud: EOF".to_string()
        })
    );
    assert!(is_success(200) && is_success(299) && !is_success(300) && !is_success(199));
    let c = SendcloudClient::new(
        "https://panel.sendcloud.sc/api/v3".to_string(),
        "pk".to_string(),
        "sk".to_string(),
    );
    assert_eq!(c.orders_url(), "https://panel.sendcloud.sc/api/v3/orders");
}

#[test]
fn order_ids_and_dates_take_their_text_forms() {
    let mut s = shipment();
    s.id = 0;
    s.created_at = Timestamp { secs: 0, nanos: 500_000_000 };
    let o = build_order(&s, &vec![], 1).unwrap();
    assert_eq!(o.order_id, "00000000-0000-0000-0000-000000000000");
    assert_eq!(o.order_details.order_created_at, "1970-01-01T00:00:00.500+00:00");
    s.id = u128::MAX;
    let o = build_order(&s, &vec![], 1).unwrap();
    assert_eq!(o.order_id, "ffffffff-ffff-ffff-ffff-ffffffffffff");
}
