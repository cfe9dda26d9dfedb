use overwatch::error::AppError;
use overwatch::pennylane::{
    api_error, customer_path, fetch_step, invoice_lines_path, invoice_lines_query, invoices_path,
    invoices_query, pennylane_err, request_url, FetchStep, PennylaneClient, PennylaneError,
    MAX_RATE_LIMIT_RETRIES,
};

fn pairs(q: Vec<(String, String)>) -> Vec<(String, String)> {
    q
}

fn p(a: &str, b: &str) -> (String, String) {
    (a.to_string(), b.to_string())
}

#[test]
fn requests_have_their_paths_and_queries() {
    assert_eq!(invoices_path(), "/api/external/v2/customer_invoices");
    assert_eq!(invoice_lines_path(42), "/api/external/v2/customer_invoices/42/invoice_lines");
    assert_eq!(customer_path(42), "/api/external/v2/customers/42");
    assert_eq!(
        request_url("https://app.pennylane.com", "/api/external/v2/customers/42"),
        "https://app.pennylane.com/api/external/v2/customers/42"
    );
    let filter = r#"[{"field":"draft","operator":"eq","value":"false"}]"#;
    assert_eq!(pairs(invoices_query(None)), vec![p("sort", "-id"), p("filter", filter)]);
    assert_eq!(
        pairs(invoices_query(Some("abc"))),
        vec![p("sort", "-id"), p("filter", filter), p("cursor", "abc")]
    );
    assert_eq!(pairs(invoice_lines_query(None)), vec![p("sort", "rank")]);
    assert_eq!(pairs(invoice_lines_query(Some("c2"))), vec![p("sort", "rank"), p("cursor", "c2")]);
}

#[test]
fn the_client_describes_its_requests() {
    let c = PennylaneClient::new("https://app.pennylane.com".to_string(), "test-token".to_string());
    let r = c.get_customer(42);
    assert_eq!(r.url, "https://app.pennylane.com/api/external/v2/customers/42");
    assert!(r.query.is_empty());
    assert_eq!(r.token, "test-token");
    let r = c.list_invoice_lines(7, Some("c"));
    assert_eq!(r.url, "https://app.pennylane.com/api/external/v2/customer_invoices/7/invoice_lines");
    assert_eq!(r.query, vec![p("sort", "rank"), p("cursor", "c")]);
    let r = c.list_customer_invoices(None);
    assert_eq!(r.url, "https://app.pennylane.com/api/external/v2/customer_invoices");
    assert_eq!(r.query.len(), 2);
}

#[test]
fn rate_limited_requests_wait_then_retry() {
    assert_eq!(fetch_step(0, 429, &Some("0".to_string())), FetchStep::Wait { delay_ms: 200 });
    assert_eq!(fetch_step(1, 429, &Some("3".to_string())), FetchStep::Wait { delay_ms: 3200 });
    assert_eq!(fetch_step(2, 429, &Some("soon".to_string())), FetchStep::Wait { delay_ms: 1200 });
    assert_eq!(fetch_step(3, 429, &None), FetchStep::Wait { delay_ms: 1200 });
    assert_eq!(
        fetch_step(0, 429, &Some("18446744073709551615".to_string())),
        FetchStep::Wait { delay_ms: 18446744073709551615u128 * 1000 + 200 }
    );
}

#[test]
fn retries_stop_after_the_last_allowed_one() {
    assert_eq!(MAX_RATE_LIMIT_RETRIES, 5);
    assert_eq!(fetch_step(4, 429, &None), FetchStep::Wait { delay_ms: 1200 });
    assert_eq!(fetch_step(5, 429, &None), FetchStep::Fail { status: 429 });
}

#[test]
fn other_answers_fail_or_decode() {
    assert_eq!(fetch_step(0, 200, &None), FetchStep::Decode);
    assert_eq!(fetch_step(5, 204, &None), FetchStep::Decode);
    assert_eq!(fetch_step(0, 404, &Some("1".to_string())), FetchStep::Fail { status: 404 });
    assert_eq!(fetch_step(0, 500, &None), FetchStep::Fail { status: 500 });
    assert_eq!(fetch_step(0, 302, &None), FetchStep::Fail { status: 302 });
}

#[test]
fn failures_are_reported_with_their_text() {
    let e = api_error(401, Some("unauthorized".to_string()));
    assert_eq!(e, PennylaneError::Api { status: 401, message: "unauthorized".to_string() });
    assert_eq!(e.message(), "pennylane API error (401): unauthorized");
    assert_eq!(
        pennylane_err(&e),
        AppError::External("pennylane API error (401): unauthorized".to_string())
    );
    assert_eq!(api_error(500, None).message(), "pennylane API error (500): <no body>");
    assert_eq!(
        PennylaneError::Request("dns".to_string()).message(),
        "pennylane request failed: dns"
    );
}
