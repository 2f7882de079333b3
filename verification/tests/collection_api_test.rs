use billplz::http::{Method, Reply};
use billplz::models::collection::CollectionResponse;
use billplz::{BillplzClient, BillplzError};
use serde_json::Value;

fn parsed(text: &str) -> Value {
    serde_json::from_str(text).unwrap()
}

#[test]
fn test_get_collection_success() {
    let client = BillplzClient::with_base_url("http://mock", "test-api-key");
    let request = client.get_collection("col123");
    assert_eq!(request.method, Method::Get);
    assert_eq!(request.url, "http://mock/api/v4/collections/col123");
    assert_eq!(request.auth.username, "test-api-key");
    assert_eq!(request.auth.password, None);

    let body = r#"{
        "id": "col123",
        "title": "My Collection",
        "logo": {
            "thumb_url": "https://example.com/thumb.png",
            "avatar_url": "https://example.com/avatar.png"
        },
        "status": "active"
    }"#;
    let resp: CollectionResponse =
        client.parse_response(Ok(Reply { status: 200, body: body.to_string() })).unwrap();
    assert_eq!(resp.id, "col123");
    assert_eq!(resp.title, "My Collection");
    assert_eq!(resp.status, "active");
}

#[test]
fn test_get_collection_api_error() {
    let client = BillplzClient::with_base_url("http://mock", "bad-key");
    let body = r#"{"error":{"type":"unauthorized","message":"Invalid API key"}}"#;
    let err = client
        .parse_response::<CollectionResponse>(Ok(Reply { status: 401, body: body.to_string() }))
        .unwrap_err();
    match err {
        BillplzError::Api { error_type, message } => {
            assert_eq!(error_type, "unauthorized");
            assert_eq!(message, "Invalid API key");
        }
        _ => panic!("Expected Api error, got {:?}", err),
    }
}

#[test]
fn test_create_collection_success() {
    let client = BillplzClient::with_base_url("http://mock", "test-api-key");
    let request = client.create_collection("New Collection").send();
    assert_eq!(request.method, Method::Post);
    assert_eq!(request.url, "http://mock/api/v4/collections");
    assert_eq!(request.body, Some(parsed(r#"{"title":"New Collection"}"#)));

    let body = r#"{"id": "new_col", "title": "New Collection", "status": "active"}"#;
    let resp: CollectionResponse =
        client.parse_response(Ok(Reply { status: 200, body: body.to_string() })).unwrap();
    assert_eq!(resp.id, "new_col");
    assert_eq!(resp.title, "New Collection");
}

#[test]
fn test_create_collection_with_split_payments() {
    let client = BillplzClient::with_base_url("http://mock", "test-api-key");
    let request = client
        .create_collection("Split Collection")
        .split_header(true)
        .split_payment("a@test.com", 0)
        .split_payment_with_fixed_cut("b@test.com", 100, 1)
        .send();
    assert_eq!(
        request.body,
        Some(parsed(
            r#"{"title":"Split Collection","split_header":true,"split_payments":[
                {"email":"a@test.com","stack_order":0},
                {"email":"b@test.com","fixed_cut":100,"stack_order":1}]}"#
        ))
    );

    let body = r#"{"id": "split_col", "title": "Split Collection", "split_header": true, "status": "active"}"#;
    let resp: CollectionResponse =
        client.parse_response(Ok(Reply { status: 200, body: body.to_string() })).unwrap();
    assert_eq!(resp.id, "split_col");
}

#[test]
fn collection_without_split_payments_omits_the_member() {
    let client = BillplzClient::with_base_url("http://mock", "k");
    let body = client.create_collection("T").send().body.unwrap();
    assert!(body.get("split_payments").is_none());
    assert!(body.get("split_header").is_none());
    let body = client.create_collection("T").split_header(false).send().body.unwrap();
    assert!(body.get("split_payments").is_none());
    assert_eq!(body["split_header"], false);
}

#[test]
fn collection_with_one_fixed_cut_has_exactly_that_entry() {
    let client = BillplzClient::with_base_url("http://mock", "k");
    let body = client
        .create_collection("T")
        .split_payment_with_fixed_cut("b@test.com", 250, 3)
        .send()
        .body
        .unwrap();
    let entries = body["split_payments"].as_array().unwrap();
    assert_eq!(entries.len(), 1);
    assert_eq!(entries[0]["email"], "b@test.com");
    assert_eq!(entries[0]["fixed_cut"], 250);
    assert_eq!(entries[0]["stack_order"], 3);
    assert!(entries[0].get("variable_cut").is_none());
    assert_eq!(entries[0].as_object().unwrap().len(), 3);
}

#[test]
fn collection_with_one_variable_cut_has_exactly_that_entry() {
    let client = BillplzClient::with_base_url("http://mock", "k");
    let body = client
        .create_collection("T")
        .split_payment_with_variable_cut("c@test.com", "12.5", -1)
        .send()
        .body
        .unwrap();
    assert_eq!(
        body,
        parsed(
            r#"{"title":"T","split_payments":[
                {"email":"c@test.com","variable_cut":"12.5","stack_order":-1}]}"#
        )
    );
}

#[test]
fn collection_split_payments_keep_the_order_they_were_added_in() {
    let client = BillplzClient::with_base_url("http://mock", "k");
    let body = client
        .create_collection("T")
        .split_payment("third@test.com", 2)
        .split_payment_with_variable_cut("first@test.com", "10", 0)
        .split_payment_with_fixed_cut("second@test.com", 5, 1)
        .split_payment("third@test.com", 2)
        .send()
        .body
        .unwrap();
    let emails: Vec<&str> = body["split_payments"]
        .as_array()
        .unwrap()
        .iter()
        .map(|e| e["email"].as_str().unwrap())
        .collect();
    assert_eq!(emails, vec!["third@test.com", "first@test.com", "second@test.com", "third@test.com"]);
}

#[test]
fn collection_header_keeps_the_last_write() {
    let client = BillplzClient::with_base_url("http://mock", "k");
    let body =
        client.create_collection("T").split_header(true).split_header(false).send().body.unwrap();
    assert_eq!(body["split_header"], false);
}

#[test]
fn collection_api_error_on_create() {
    let client = BillplzClient::with_base_url("http://mock", "k");
    let body = r#"{"error":{"type":"RecordInvalid","message":"Title can't be blank"}}"#;
    let result: Result<CollectionResponse, BillplzError> =
        client.parse_response(Ok(Reply { status: 422, body: body.to_string() }));
    assert_eq!(
        result,
        Err(BillplzError::Api {
            error_type: "RecordInvalid".to_string(),
            message: "Title can't be blank".to_string(),
        })
    );
}
