use overwatch::error::AppError;
use overwatch::ident::Timestamp;
use overwatch::nomenclature::{
    update_product, assign_serial_number, check_new_serial_number, check_product_update,
    detect_product_by_serial, link_serial_number_to_shipment_line, create_product, create_serial_number,
    NewProduct, NewSerialNumber, Product, SerialNumber, UpdateProduct,
};
use overwatch::pattern::{detects, validate_pattern};

const T0: Timestamp = Timestamp { secs: 1_700_000_000, nanos: 0 };
const T1: Timestamp = Timestamp { secs: 1_700_000_600, nanos: 5 };

fn product(id: u128, pattern: Option<&str>) -> Product {
    Product {
        id,
        sku: format!("SKU-{id}"),
        name: format!("Produit {id}"),
        requires_serial: true,
        detection_pattern: pattern.map(|p| p.to_string()),
        created_at: T0,
        updated_at: T0,
        pennylane_product_id: None,
    }
}

fn new_input(sku: &str, name: &str, pattern: Option<&str>) -> NewProduct {
    NewProduct {
        sku: sku.to_string(),
        name: name.to_string(),
        requires_serial: true,
        detection_pattern: pattern.map(|p| p.to_string()),
        pennylane_product_id: Some(3049),
    }
}

#[test]
fn creating_a_product_requires_sku_and_name() {
    assert_eq!(
        create_product(new_input("  ", "PDU 16A", None), 1, T0),
        Err(AppError::Validation("sku et name sont requis".to_string()))
    );
    assert_eq!(
        create_product(new_input("PDU16", "\t", None), 1, T0),
        Err(AppError::Validation("sku et name sont requis".to_string()))
    );
}

#[test]
fn creating_a_product_rejects_an_invalid_pattern() {
    match create_product(new_input("PDU16", "PDU 16A", Some("SN-[")), 1, T0) {
        Err(AppError::Validation(m)) => {
            assert!(m.starts_with("motif de détection invalide: "));
            let e = regex::Regex::new("SN-[").unwrap_err().to_string();
            assert_eq!(m, format!("motif de détection invalide: {e}"));
        }
        other => panic!("unexpected {other:?}"),
    }
}

#[test]
fn creating_a_product_keeps_its_fields() {
    let p = create_product(new_input("PDU16", "PDU 16A", Some(r"^PDU\d+$")), 9, T0).unwrap();
    assert_eq!(p.id, 9);
    assert_eq!(p.sku, "PDU16");
    assert_eq!(p.name, "PDU 16A");
    assert_eq!(p.detection_pattern.as_deref(), Some(r"^PDU\d+$"));
    assert_eq!(p.pennylane_product_id, Some(3049));
    assert_eq!(p.created_at, T0);
    assert_eq!(p.updated_at, T0);
}

#[test]
fn validating_patterns() {
    assert!(validate_pattern(&None).is_ok());
    assert!(validate_pattern(&Some(r"^SN\d{6}$".to_string())).is_ok());
    assert!(validate_pattern(&Some("(".to_string())).is_err());
    assert!(detects(&Some("^AB".to_string()), "ABC123"));
    assert!(!detects(&Some("^AB".to_string()), "XABC"));
    assert!(!detects(&Some("(".to_string()), "("));
    assert!(!detects(&None, "ABC"));
}

#[test]
fn product_edits_replace_given_fields_only() {
    let p = product(1, Some("^A"));
    let edit = UpdateProduct {
        sku: None,
        name: Some("Nouveau nom".to_string()),
        requires_serial: Some(false),
        detection_pattern: Some(None),
        pennylane_product_id: Some(Some(77)),
    };
    assert!(check_product_update(&edit).is_ok());
    let q = update_product(Some(p.clone()), edit.clone(), T1).unwrap();
    assert_eq!(q.sku, p.sku);
    assert_eq!(q.name, "Nouveau nom");
    assert!(!q.requires_serial);
    assert_eq!(q.detection_pattern, None);
    assert_eq!(q.pennylane_product_id, Some(77));
    assert_eq!(q.created_at, T0);
    assert_eq!(q.updated_at, T1);
    // Applying the same edit again changes nothing more.
    assert_eq!(update_product(Some(q.clone()), edit, T1), Ok(q));
    // An empty edit only touches the update time.
    let empty = UpdateProduct {
        sku: None,
        name: None,
        requires_serial: None,
        detection_pattern: None,
        pennylane_product_id: None,
    };
    assert_eq!(update_product(Some(p.clone()), empty, T1), Ok(Product { updated_at: T1, ..p }));
}

#[test]
fn product_edits_check_a_new_pattern() {
    let bad = UpdateProduct {
        sku: None,
        name: None,
        requires_serial: None,
        detection_pattern: Some(Some("[".to_string())),
        pennylane_product_id: None,
    };
    assert!(matches!(check_product_update(&bad), Err(AppError::Validation(_))));
    // An uncompilable pattern is refused even when the product is missing.
    match update_product(None, bad.clone(), T1) {
        Err(AppError::Validation(m)) => assert!(m.starts_with("motif de détection invalide: ")),
        other => panic!("unexpected {other:?}"),
    }
    match update_product(Some(product(1, None)), bad.clone(), T1) {
        Err(AppError::Validation(m)) => assert!(m.starts_with("motif de détection invalide: ")),
        other => panic!("unexpected {other:?}"),
    }
    let clear = UpdateProduct { detection_pattern: Some(None), ..bad };
    assert!(check_product_update(&clear).is_ok());
    assert_eq!(update_product(None, clear, T1), Err(AppError::NotFound));
}

#[test]
fn serial_numbers_start_in_stock_or_assigned() {
    let blank = NewSerialNumber { product_id: 1, value: "   ".to_string(), assigned_to: None };
    assert_eq!(
        check_new_serial_number(&blank),
        Err(AppError::Validation("value est requis".to_string()))
    );
    assert_eq!(
        create_serial_number(blank.clone(), false, 4, T0),
        Err(AppError::Validation("value est requis".to_string()))
    );
    assert_eq!(
        create_serial_number(
            NewSerialNumber { product_id: 9, value: "SN9".to_string(), assigned_to: None },
            false,
            4,
            T0
        ),
        Err(AppError::NotFound)
    );
    let input = NewSerialNumber { product_id: 1, value: "SN0001".to_string(), assigned_to: None };
    assert!(check_new_serial_number(&input).is_ok());
    let s = create_serial_number(input, true, 5, T0).unwrap();
    assert_eq!(s.status, "in_stock");
    assert_eq!(s.shipment_line_id, None);
    let input = NewSerialNumber {
        product_id: 1,
        value: "SN0002".to_string(),
        assigned_to: Some("ACME".to_string()),
    };
    let s = create_serial_number(input, true, 6, T0).unwrap();
    assert_eq!(s.status, "assigned");
    assert_eq!(s.assigned_to.as_deref(), Some("ACME"));
}

#[test]
fn assigning_and_linking_serial_numbers() {
    let s = SerialNumber {
        id: 5,
        product_id: 1,
        value: "SN0001".to_string(),
        status: "in_stock".to_string(),
        assigned_to: None,
        created_at: T0,
        updated_at: T0,
        shipment_line_id: None,
    };
    let a = assign_serial_number(s.clone(), "Client ACME SARL".to_string(), T1);
    assert_eq!(a.status, "assigned");
    assert_eq!(a.assigned_to.as_deref(), Some("Client ACME SARL"));
    assert_eq!(a.shipment_line_id, None);
    assert_eq!(a.updated_at, T1);
    let l = link_serial_number_to_shipment_line(s, 42, "Client ACME SARL".to_string(), T1);
    assert_eq!(l.status, "assigned");
    assert_eq!(l.shipment_line_id, Some(42));
    assert_eq!(l.created_at, T0);
}

#[test]
fn detection_returns_every_matching_product_in_order() {
    let products = vec![
        product(1, Some("^AB")),
        product(2, None),
        product(3, Some("[")),
        product(4, Some(r"^A\w+")),
        product(5, Some("^Z")),
    ];
    let found = detect_product_by_serial(products, "ABC123");
    let ids: Vec<u128> = found.iter().map(|p| p.id).collect();
    assert_eq!(ids, vec![1, 4]);
    assert!(detect_product_by_serial(vec![product(1, Some("^Z"))], "ABC").is_empty());
}
