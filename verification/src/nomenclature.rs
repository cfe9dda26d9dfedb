//! Products (the nomenclature) and their serial numbers.
use vstd::prelude::*;
use crate::error::{AppError, validation_failure};
use crate::ident::Timestamp;
use crate::pattern::{
    detects, pattern_detects, pattern_ok, pattern_rejection, regex_compile_error, regex_finds_match,
    validate_pattern,
};
use crate::text::{is_blank, is_blank_text, opt_text, owned};

verus! {

/// A product of the nomenclature.
#[derive(Debug, Clone, PartialEq, Eq)]
pub struct Product {
    pub id: u128,
    pub sku: String,
    pub name: String,
    pub requires_serial: bool,
    /// A regular expression that recognises this product's serial numbers.
    pub detection_pattern: Option<String>,
    pub created_at: Timestamp,
    pub updated_at: Timestamp,
    /// The product's id on the invoicing side, which links invoice lines to it.
    pub pennylane_product_id: Option<i64>,
}

/// What creating a product takes.
#[derive(Debug, Clone, PartialEq, Eq)]
pub struct NewProduct {
    pub sku: String,
    pub name: String,
    pub requires_serial: bool,
    pub detection_pattern: Option<String>,
    pub pennylane_product_id: Option<i64>,
}

/// A partial edit of a product: each field given replaces the stored one.
#[derive(Debug, Clone, PartialEq, Eq)]
pub struct UpdateProduct {
    pub sku: Option<String>,
    pub name: Option<String>,
    pub requires_serial: Option<bool>,
    /// `Some(None)` clears the pattern.
    pub detection_pattern: Option<Option<String>>,
    /// `Some(None)` clears the link.
    pub pennylane_product_id: Option<Option<i64>>,
}

/// A serial number, in stock or assigned to a customer.
#[derive(Debug, Clone, PartialEq, Eq)]
pub struct SerialNumber {
    pub id: u128,
    pub product_id: u128,
    pub value: String,
    pub status: String,
    pub assigned_to: Option<String>,
    pub created_at: Timestamp,
    pub updated_at: Timestamp,
    pub shipment_line_id: Option<u128>,
}

/// What registering a serial number takes.
#[derive(Debug, Clone, PartialEq, Eq)]
pub struct NewSerialNumber {
    pub product_id: u128,
    pub value: String,
    pub assigned_to: Option<String>,
}

/// Status of a serial number that sits in stock.
pub open spec fn in_stock_text() -> Seq<char> {
    "in_stock"@
}

/// Status of a serial number promised to a customer.
pub open spec fn assigned_text() -> Seq<char> {
    "assigned"@
}

fn in_stock_status() -> (s: String)
    ensures
        s@ == in_stock_text(),
{
    owned("in_stock")
}

fn assigned_status() -> (s: String)
    ensures
        s@ == assigned_text(),
{
    owned("assigned")
}

/// The message that rejects a product without SKU or name.
pub open spec fn missing_sku_or_name_text() -> Seq<char> {
    "sku et name sont requis"@
}

/// The message that rejects a serial number without value.
pub open spec fn missing_value_text() -> Seq<char> {
    "value est requis"@
}

/// The product that a valid creation request makes.
pub open spec fn created_product(input: NewProduct, id: u128, now: Timestamp) -> Product {
    Product {
        id,
        sku: input.sku,
        name: input.name,
        requires_serial: input.requires_serial,
        detection_pattern: input.detection_pattern,
        created_at: now,
        updated_at: now,
        pennylane_product_id: input.pennylane_product_id,
    }
}

/// Validates a creation request and makes the product it describes.  SKU
/// and name must hold more than white space; a detection pattern, when
/// given, must compile.
pub fn create_product(input: NewProduct, id: u128, now: Timestamp) -> (r: Result<Product, AppError>)
    ensures
        (is_blank_text(input.sku@) || is_blank_text(input.name@)) ==> validation_failure(
            r,
            missing_sku_or_name_text(),
        ),
        !(is_blank_text(input.sku@) || is_blank_text(input.name@)) && !pattern_ok(
            opt_text(input.detection_pattern),
        ) ==> validation_failure(r, pattern_rejection(opt_text(input.detection_pattern)->0)),
        !(is_blank_text(input.sku@) || is_blank_text(input.name@)) && pattern_ok(
            opt_text(input.detection_pattern),
        ) ==> r == Ok::<Product, AppError>(created_product(input, id, now)),
        r matches Ok(p) ==> p.id == id && p.sku == input.sku && p.name == input.name
            && p.requires_serial == input.requires_serial && p.detection_pattern
            == input.detection_pattern && p.pennylane_product_id == input.pennylane_product_id
            && p.created_at == now && p.updated_at == now,
        r is Ok <==> !(is_blank_text(input.sku@) || is_blank_text(input.name@)) && pattern_ok(
            opt_text(input.detection_pattern),
        ),
{
    if is_blank(input.sku.as_str()) || is_blank(input.name.as_str()) {
        return Err(AppError::Validation(owned("sku et name sont requis")));
    }
    match validate_pattern(&input.detection_pattern) {
        Err(e) => Err(e),
        Ok(()) => Ok(
            Product {
                id,
                sku: input.sku,
                name: input.name,
                requires_serial: input.requires_serial,
                detection_pattern: input.detection_pattern,
                created_at: now,
                updated_at: now,
                pennylane_product_id: input.pennylane_product_id,
            },
        ),
    }
}

/// The pattern that an edit would set, when it sets one.
pub open spec fn update_pattern(input: UpdateProduct) -> Option<Seq<char>> {
    match input.detection_pattern {
        Some(Some(p)) => Some(p@),
        _ => None,
    }
}

/// Checks an edit before it is applied: a new detection pattern must compile.
pub fn check_product_update(input: &UpdateProduct) -> (r: Result<(), AppError>)
    ensures
        r is Ok <==> pattern_ok(update_pattern(*input)),
        !pattern_ok(update_pattern(*input)) ==> validation_failure(
            r,
            pattern_rejection(update_pattern(*input)->0),
        ),
{
    match &input.detection_pattern {
        Some(p) => validate_pattern(p),
        None => Ok(()),
    }
}

/// The product after an edit made at `now`: each given field replaces the
/// stored one, the others stay, and the update time becomes `now`.
pub open spec fn updated_product(p: Product, input: UpdateProduct, now: Timestamp) -> Product {
    Product {
        id: p.id,
        sku: match input.sku {
            Some(s) => s,
            None => p.sku,
        },
        name: match input.name {
            Some(s) => s,
            None => p.name,
        },
        requires_serial: match input.requires_serial {
            Some(b) => b,
            None => p.requires_serial,
        },
        detection_pattern: match input.detection_pattern {
            Some(d) => d,
            None => p.detection_pattern,
        },
        created_at: p.created_at,
        updated_at: now,
        pennylane_product_id: match input.pennylane_product_id {
            Some(d) => d,
            None => p.pennylane_product_id,
        },
    }
}

/// `q` is `p` with the edit applied at `now`: a field the edit gives takes
/// the given value, a field it leaves out keeps the stored one, the id and
/// creation time stay, and the update time becomes `now`.
pub open spec fn edit_applied(p: Product, input: UpdateProduct, now: Timestamp, q: Product) -> bool {
    &&& q.id == p.id
    &&& (input.sku matches Some(v) ==> q.sku == v)
    &&& (input.sku is None ==> q.sku == p.sku)
    &&& (input.name matches Some(v) ==> q.name == v)
    &&& (input.name is None ==> q.name == p.name)
    &&& (input.requires_serial matches Some(v) ==> q.requires_serial == v)
    &&& (input.requires_serial is None ==> q.requires_serial == p.requires_serial)
    &&& (input.detection_pattern matches Some(v) ==> q.detection_pattern == v)
    &&& (input.detection_pattern is None ==> q.detection_pattern == p.detection_pattern)
    &&& (input.pennylane_product_id matches Some(v) ==> q.pennylane_product_id == v)
    &&& (input.pennylane_product_id is None ==> q.pennylane_product_id == p.pennylane_product_id)
    &&& q.created_at == p.created_at
    &&& q.updated_at == now
}

/// An edit replaces exactly the fields it gives: every given field takes the
/// given value, every other field keeps the stored one.
pub proof fn product_update_replaces_given_fields(p: Product, input: UpdateProduct, now: Timestamp)
    ensures
        edit_applied(p, input, now, updated_product(p, input, now)),
{
}

/// A valid creation keeps every field it is given.
pub proof fn created_product_keeps_given_fields(input: NewProduct, id: u128, now: Timestamp)
    ensures
        created_product(input, id, now).id == id,
        created_product(input, id, now).sku == input.sku,
        created_product(input, id, now).name == input.name,
        created_product(input, id, now).requires_serial == input.requires_serial,
        created_product(input, id, now).detection_pattern == input.detection_pattern,
        created_product(input, id, now).pennylane_product_id == input.pennylane_product_id,
        created_product(input, id, now).created_at == now,
        created_product(input, id, now).updated_at == now,
{
}

fn apply_product_update(existing: Product, input: UpdateProduct, now: Timestamp) -> (p: Product)
    ensures
        p == updated_product(existing, input, now),
{
    let mut p = existing;
    if let Some(sku) = input.sku {
        p.sku = sku;
    }
    if let Some(name) = input.name {
        p.name = name;
    }
    if let Some(requires_serial) = input.requires_serial {
        p.requires_serial = requires_serial;
    }
    if let Some(detection_pattern) = input.detection_pattern {
        p.detection_pattern = detection_pattern;
    }
    if let Some(pennylane_product_id) = input.pennylane_product_id {
        p.pennylane_product_id = pennylane_product_id;
    }
    p.updated_at = now;
    p
}

/// Edits a product, `existing` being what storage holds under the edited
/// id.  A new detection pattern that does not compile is refused first,
/// whether or not the product exists; then a missing product is not found;
/// otherwise each given field replaces the stored one.
pub fn update_product(existing: Option<Product>, input: UpdateProduct, now: Timestamp) -> (r: Result<
    Product,
    AppError,
>)
    ensures
        !pattern_ok(update_pattern(input)) ==> validation_failure(
            r,
            pattern_rejection(update_pattern(input)->0),
        ),
        pattern_ok(update_pattern(input)) && existing is None ==> r == Err::<Product, AppError>(
            AppError::NotFound,
        ),
        pattern_ok(update_pattern(input)) && existing is Some ==> r == Ok::<Product, AppError>(
            updated_product(existing->0, input, now),
        ),
        r is Ok <==> pattern_ok(update_pattern(input)) && existing is Some,
        r matches Ok(q) ==> edit_applied(existing->0, input, now, q),
{
    match check_product_update(&input) {
        Err(e) => Err(e),
        Ok(()) => match existing {
            None => Err(AppError::NotFound),
            Some(p) => Ok(apply_product_update(p, input, now)),
        },
    }
}

/// Applying the same edit twice, at the same time, is applying it once.
pub proof fn product_update_is_idempotent(p: Product, input: UpdateProduct, now: Timestamp)
    ensures
        updated_product(updated_product(p, input, now), input, now) == updated_product(p, input, now),
{
}

/// An edit that gives no field changes nothing but the update time.
pub proof fn empty_product_update_only_touches_time(p: Product, now: Timestamp)
    ensures
        updated_product(
            p,
            UpdateProduct {
                sku: None,
                name: None,
                requires_serial: None,
                detection_pattern: None,
                pennylane_product_id: None,
            },
            now,
        ) == (Product { updated_at: now, ..p }),
{
}

/// Checks a serial-number registration: its value must hold more than white space.
pub fn check_new_serial_number(input: &NewSerialNumber) -> (r: Result<(), AppError>)
    ensures
        r is Ok <==> !is_blank_text(input.value@),
        is_blank_text(input.value@) ==> validation_failure(r, missing_value_text()),
{
    if is_blank(input.value.as_str()) {
        Err(AppError::Validation(owned("value est requis")))
    } else {
        Ok(())
    }
}

/// `s` is the serial number a registration makes: assigned when a customer
/// is given, in stock otherwise, and linked to no shipment line.
pub open spec fn is_created_serial(s: SerialNumber, input: NewSerialNumber, id: u128, now: Timestamp) -> bool {
    &&& s.id == id
    &&& s.product_id == input.product_id
    &&& s.value == input.value
    &&& s.status@ == (if input.assigned_to is Some { assigned_text() } else { in_stock_text() })
    &&& s.assigned_to == input.assigned_to
    &&& s.created_at == now
    &&& s.updated_at == now
    &&& s.shipment_line_id is None
}

fn new_serial_record(input: NewSerialNumber, id: u128, now: Timestamp) -> (s: SerialNumber)
    ensures
        is_created_serial(s, input, id, now),
{
    let status = if input.assigned_to.is_some() {
        assigned_status()
    } else {
        in_stock_status()
    };
    SerialNumber {
        id,
        product_id: input.product_id,
        value: input.value,
        status,
        assigned_to: input.assigned_to,
        created_at: now,
        updated_at: now,
        shipment_line_id: None,
    }
}

/// Registers a serial number, `product_exists` telling whether storage holds
/// its product.  A blank value is refused first, without regard to the
/// product; then a missing product is not found; otherwise the record is made.
pub fn create_serial_number(
    input: NewSerialNumber,
    product_exists: bool,
    id: u128,
    now: Timestamp,
) -> (r: Result<SerialNumber, AppError>)
    ensures
        is_blank_text(input.value@) ==> validation_failure(r, missing_value_text()),
        !is_blank_text(input.value@) && !product_exists ==> r == Err::<SerialNumber, AppError>(
            AppError::NotFound,
        ),
        !is_blank_text(input.value@) && product_exists ==> (r matches Ok(s) && is_created_serial(
            s,
            input,
            id,
            now,
        )),
{
    match check_new_serial_number(&input) {
        Err(e) => Err(e),
        Ok(()) => if product_exists {
            Ok(new_serial_record(input, id, now))
        } else {
            Err(AppError::NotFound)
        },
    }
}

/// Assigns a serial number to a customer.
pub fn assign_serial_number(existing: SerialNumber, assigned_to: String, now: Timestamp) -> (s: SerialNumber)
    ensures
        s.id == existing.id,
        s.product_id == existing.product_id,
        s.value == existing.value,
        s.status@ == assigned_text(),
        s.assigned_to == Some(assigned_to),
        s.created_at == existing.created_at,
        s.updated_at == now,
        s.shipment_line_id == existing.shipment_line_id,
{
    let mut s = existing;
    s.assigned_to = Some(assigned_to);
    s.status = assigned_status();
    s.updated_at = now;
    s
}

/// Links a serial number to the shipment line it is packed for, assigning
/// it to that shipment's customer.
pub fn link_serial_number_to_shipment_line(
    existing: SerialNumber,
    shipment_line_id: u128,
    assigned_to: String,
    now: Timestamp,
) -> (s: SerialNumber)
    ensures
        s.id == existing.id,
        s.product_id == existing.product_id,
        s.value == existing.value,
        s.status@ == assigned_text(),
        s.assigned_to == Some(assigned_to),
        s.created_at == existing.created_at,
        s.updated_at == now,
        s.shipment_line_id == Some(shipment_line_id),
{
    let mut s = existing;
    s.shipment_line_id = Some(shipment_line_id);
    s.assigned_to = Some(assigned_to);
    s.status = assigned_status();
    s.updated_at = now;
    s
}

/// The product has a detection pattern that compiles and matches the whole
/// scanned value, as given.
pub open spec fn scan_matches(p: Product, value: Seq<char>) -> bool {
    &&& p.detection_pattern is Some
    &&& regex_compile_error(p.detection_pattern->0@) is None
    &&& regex_finds_match(p.detection_pattern->0@, value)
}

/// A product is detected exactly when its pattern is given, compiles, and
/// matches the scanned value itself.
pub proof fn product_detection_is_pattern_match(p: Product, value: Seq<char>)
    ensures
        product_detects(p, value) == scan_matches(p, value),
        product_detects(p, value) == pattern_detects(opt_text(p.detection_pattern), value),
{
}

/// Whether a product's detection pattern recognises a scanned value.
pub open spec fn product_detects(p: Product, value: Seq<char>) -> bool {
    pattern_detects(opt_text(p.detection_pattern), value)
}

/// The products whose detection pattern recognises a scanned serial number,
/// in their given order.  Several may match; a pattern that does not
/// compile matches nothing.
pub fn detect_product_by_serial(products: Vec<Product>, value: &str) -> (found: Vec<Product>)
    ensures
        found@ == products@.filter(|p: Product| product_detects(p, value@)),
        found@ == products@.filter(|p: Product| scan_matches(p, value@)),
{
    let ghost all = products@;
    let ghost keep = |p: Product| product_detects(p, value@);
    let mut found: Vec<Product> = Vec::new();
    let mut rest = products;
    let ghost mut taken: int = 0;
    while rest.len() > 0
        invariant
            0 <= taken <= all.len(),
            keep == (|p: Product| product_detects(p, value@)),
            rest@ == all.subrange(taken, all.len() as int),
            found@ == all.subrange(0, taken).filter(keep),
        decreases rest.len(),
    {
        let p = rest.remove(0);
        let ghost gp = p;
        let ghost prev = all.subrange(0, taken);
        let ghost next = all.subrange(0, taken + 1);
        proof {
            assert(next.drop_last() =~= prev);
            assert(next.last() == gp);
        }
        let d = detects(&p.detection_pattern, value);
        if d {
            found.push(p);
        }
        proof {
            reveal(Seq::filter);
            assert(next.filter(keep) == (if keep(gp) {
                prev.filter(keep).push(gp)
            } else {
                prev.filter(keep)
            }));
            taken = taken + 1;
            assert(rest@ =~= all.subrange(taken, all.len() as int));
        }
    }
    proof {
        assert(all.subrange(0, taken) =~= all);
        assert((|p: Product| product_detects(p, value@)) =~= (|p: Product| scan_matches(p, value@)));
    }
    found
}

} // verus!
