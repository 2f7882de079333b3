use billplz::http::{Method, Reply};
use billplz::BillplzClient;

#[test]
fn test_get_payout_collection_success() {
    let client = BillplzClient::with_base_url("http://mock", "test-key");
    let request = client.get_payout_collection("pc123");
    assert_eq!(request.method, Method::Get);
    assert_eq!(request.url, "http://mock/api/v4/mass_payment_instruction_collections/pc123");
    assert_eq!(request.body, None);

    let body = r#"{"id":"pc123","title":"My Payout Collection","status":"active"}"#;
    let resp = client.passthrough(Ok(Reply { status: 200, body: body.to_string() })).unwrap();
    assert!(resp.contains("pc123"));
}

#[test]
fn test_create_payout_collection_success() {
    let client = BillplzClient::with_base_url("http://mock", "test-key");
    let request = client.create_payout_collection("New Payout Collection").send();
    assert_eq!(request.method, Method::Post);
    assert_eq!(request.url, "http://mock/api/v4/mass_payment_instruction_collections");
    let expected: serde_json::Value =
        serde_json::from_str(r#"{"title":"New Payout Collection"}"#).unwrap();
    assert_eq!(request.body, Some(expected));

    let body = r#"{"id":"new_pc","title":"New Payout Collection","status":"active"}"#;
    let resp = client.passthrough(Ok(Reply { status: 200, body: body.to_string() })).unwrap();
    assert!(resp.contains("new_pc"));
}
