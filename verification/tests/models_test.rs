use billplz::codec::{FromJson, ToJson};
use billplz::error::ParseError;
use billplz::models::bank::{Bank, FpxBank};
use billplz::models::bill::{Bill, BillResponse};
use billplz::models::collection::{Collection, CollectionResponse, Logo, SplitPayment};
use billplz::models::payout::Payout;
use billplz::models::payout_collection::PayoutCollection;
use serde_json::Value;

fn parsed(text: &str) -> Value {
    serde_json::from_str(text).unwrap()
}

fn sample_bill() -> Bill {
    Bill {
        collection_id: "abc123".to_string(),
        email: "test@test.com".to_string(),
        mobile: Some("601234567890".to_string()),
        name: "Test User".to_string(),
        amount: 10000,
        callback_url: "https://example.com/callback".to_string(),
        description: "Test bill".to_string(),
        due_at: "2024-07-12".to_string(),
        redirect_url: None,
        deliver: None,
        reference_1_label: None,
        reference_1: None,
        reference_2_label: None,
        reference_2: None,
    }
}

#[test]
fn test_bill_serialize() {
    let bill = sample_bill();
    let json = bill.to_json();
    assert_eq!(json["collection_id"], "abc123");
    assert_eq!(json["amount"], 10000);
    assert_eq!(json["email"], "test@test.com");
}

#[test]
fn test_bill_response_deserialize() {
    let json = r#"{
        "id": "bill123",
        "collection_id": "abc123",
        "email": "test@test.com",
        "mobile": "601234567890",
        "name": "Test User",
        "amount": 10000,
        "callback_url": "https://example.com/callback",
        "description": "Test bill",
        "due_at": "2024-07-12",
        "paid": false,
        "state": "due",
        "paid_amount": 0,
        "url": "https://www.billplz.com/bills/bill123"
    }"#;
    let resp = BillResponse::from_json(&parsed(json)).unwrap();
    assert_eq!(resp.id, "bill123");
    assert!(!resp.paid);
    assert_eq!(resp.state, "due");
    assert_eq!(resp.amount, 10000);
}

#[test]
fn test_collection_serialize() {
    let collection = Collection {
        title: "My Collection".to_string(),
        split_header: None,
        split_payments: None,
    };
    let json = collection.to_json();
    assert_eq!(json["title"], "My Collection");
}

#[test]
fn test_collection_with_split_payments_serialize() {
    let collection = Collection {
        title: "Split Collection".to_string(),
        split_header: Some(true),
        split_payments: Some(vec![SplitPayment {
            email: "a@test.com".to_string(),
            fixed_cut: Some(100),
            variable_cut: None,
            stack_order: 0,
        }]),
    };
    let json = collection.to_json();
    assert_eq!(json["split_payments"][0]["email"], "a@test.com");
    assert_eq!(json["split_payments"][0]["fixed_cut"], 100);
}

#[test]
fn test_collection_response_deserialize() {
    let json = r#"{
        "id": "col123",
        "title": "My Collection",
        "logo": {
            "thumb_url": "https://example.com/thumb.png",
            "avatar_url": "https://example.com/avatar.png"
        },
        "status": "active"
    }"#;
    let resp = CollectionResponse::from_json(&parsed(json)).unwrap();
    assert_eq!(resp.id, "col123");
    assert_eq!(resp.title, "My Collection");
    assert_eq!(resp.status, "active");
}

#[test]
fn test_bank_serialize() {
    let bank = Bank {
        name: "Test User".to_string(),
        id_no: "91234567890".to_string(),
        acc_no: "999988887777".to_string(),
        code: "MBBEMYKL".to_string(),
        organization: true,
    };
    let json = bank.to_json();
    assert_eq!(json["name"], "Test User");
    assert_eq!(json["code"], "MBBEMYKL");
    assert!(json["organization"].as_bool().unwrap());
}

#[test]
fn test_fpx_bank_deserialize() {
    let json = r#"{"bank_code": "MB2U0227", "bank_name": "Maybank2u"}"#;
    let bank = FpxBank::from_json(&parsed(json)).unwrap();
    assert_eq!(bank.bank_code, "MB2U0227");
    assert_eq!(bank.bank_name, "Maybank2u");
}

#[test]
fn test_payout_serialize() {
    let payout = Payout {
        mass_payment_instruction_collection_id: "col123".to_string(),
        bank_code: "MBBEMYKL".to_string(),
        bank_account_number: "999988887777".to_string(),
        identity_number: "91234567890".to_string(),
        name: "Test User".to_string(),
        description: "Payout test".to_string(),
        total: 50000,
    };
    let json = payout.to_json();
    assert_eq!(json["total"], 50000);
    assert_eq!(json["bank_code"], "MBBEMYKL");
}

#[test]
fn test_payout_collection_serialize() {
    let pc = PayoutCollection { title: "My Payout Collection".to_string() };
    let json = pc.to_json();
    assert_eq!(json["title"], "My Payout Collection");
}

#[test]
fn bill_object_has_exactly_the_given_members() {
    let json = sample_bill().to_json();
    let object = json.as_object().unwrap();
    let keys: Vec<&str> = object.keys().map(|k| k.as_str()).collect();
    assert_eq!(
        keys,
        vec![
            "amount",
            "callback_url",
            "collection_id",
            "description",
            "due_at",
            "email",
            "mobile",
            "name"
        ]
    );
    assert_eq!(object["mobile"], Value::from("601234567890"));
    assert_eq!(object["name"], Value::from("Test User"));
    assert_eq!(object["callback_url"], Value::from("https://example.com/callback"));
    assert_eq!(object["description"], Value::from("Test bill"));
    assert_eq!(object["due_at"], Value::from("2024-07-12"));
}

#[test]
fn bill_absent_optionals_are_no_keys() {
    let mut bill = sample_bill();
    bill.mobile = None;
    let json = bill.to_json();
    for key in [
        "mobile",
        "redirect_url",
        "deliver",
        "reference_1_label",
        "reference_1",
        "reference_2_label",
        "reference_2",
    ] {
        assert!(json.get(key).is_none(), "{} should be absent", key);
    }
    assert_eq!(json.as_object().unwrap().len(), 7);
}

#[test]
fn bill_present_optionals_carry_their_values() {
    let mut bill = sample_bill();
    bill.redirect_url = Some("https://redirect.url".to_string());
    bill.deliver = Some(false);
    bill.reference_1_label = Some("Ref 1".to_string());
    bill.reference_1 = Some("abc".to_string());
    bill.reference_2_label = Some("Ref 2".to_string());
    bill.reference_2 = Some("".to_string());
    let json = bill.to_json();
    assert_eq!(json["mobile"], "601234567890");
    assert_eq!(json["redirect_url"], "https://redirect.url");
    assert_eq!(json["deliver"], false);
    assert_eq!(json["reference_1_label"], "Ref 1");
    assert_eq!(json["reference_1"], "abc");
    assert_eq!(json["reference_2_label"], "Ref 2");
    assert_eq!(json["reference_2"], "");
    assert_eq!(json.as_object().unwrap().len(), 14);
}

#[test]
fn bill_negative_amount_is_kept() {
    let mut bill = sample_bill();
    bill.amount = i64::MIN;
    assert_eq!(bill.to_json()["amount"], i64::MIN);
}

#[test]
fn collection_absent_optionals_are_no_keys() {
    let collection =
        Collection { title: "T".to_string(), split_header: None, split_payments: None };
    let json = collection.to_json();
    assert!(json.get("split_header").is_none());
    assert!(json.get("split_payments").is_none());
    assert_eq!(json.as_object().unwrap().len(), 1);
}

#[test]
fn collection_present_optionals_carry_their_values() {
    let collection = Collection {
        title: "T".to_string(),
        split_header: Some(false),
        split_payments: Some(vec![
            SplitPayment {
                email: "a@test.com".to_string(),
                fixed_cut: None,
                variable_cut: Some("20".to_string()),
                stack_order: -3,
            },
            SplitPayment {
                email: "b@test.com".to_string(),
                fixed_cut: Some(5),
                variable_cut: None,
                stack_order: 1,
            },
        ]),
    };
    let json = collection.to_json();
    assert_eq!(
        json,
        parsed(
            r#"{"title":"T","split_header":false,"split_payments":[
                {"email":"a@test.com","variable_cut":"20","stack_order":-3},
                {"email":"b@test.com","fixed_cut":5,"stack_order":1}]}"#
        )
    );
}

#[test]
fn collection_with_an_empty_list_sends_an_empty_array() {
    let collection =
        Collection { title: "T".to_string(), split_header: None, split_payments: Some(vec![]) };
    assert_eq!(collection.to_json(), parsed(r#"{"title":"T","split_payments":[]}"#));
}

#[test]
fn bill_response_optional_members_may_be_absent_or_null() {
    let json = r#"{
        "id": "b", "collection_id": "c", "email": "e", "name": "n", "amount": -5,
        "callback_url": "u", "description": "d", "due_at": "2024-01-01",
        "mobile": null, "deliver": true, "paid": true, "state": "paid",
        "unknown": {"deep": [1, 2.5, "x"]}
    }"#;
    let resp = BillResponse::from_json(&parsed(json)).unwrap();
    assert_eq!(resp.mobile, None);
    assert_eq!(resp.redirect_url, None);
    assert_eq!(resp.deliver, Some(true));
    assert_eq!(resp.reference_1_label, None);
    assert_eq!(resp.reference_1, None);
    assert_eq!(resp.reference_2_label, None);
    assert_eq!(resp.reference_2, None);
    assert_eq!(resp.paid_amount, 0);
    assert_eq!(resp.url, None);
    assert_eq!(resp.paid_at, None);
    assert_eq!(resp.amount, -5);
    assert!(resp.paid);
}

#[test]
fn bill_response_reads_every_member() {
    let json = r#"{
        "id": "b", "collection_id": "c", "email": "e", "mobile": "m", "name": "n",
        "amount": 9223372036854775807, "callback_url": "u", "description": "d",
        "due_at": "t", "redirect_url": "r", "deliver": false,
        "reference_1_label": "l1", "reference_1": "r1",
        "reference_2_label": "l2", "reference_2": "r2",
        "paid": false, "state": "due", "paid_amount": 12, "url": "w", "paid_at": "p"
    }"#;
    let resp = BillResponse::from_json(&parsed(json)).unwrap();
    let expected = BillResponse {
        id: "b".to_string(),
        collection_id: "c".to_string(),
        email: "e".to_string(),
        mobile: Some("m".to_string()),
        name: "n".to_string(),
        amount: i64::MAX,
        callback_url: "u".to_string(),
        description: "d".to_string(),
        due_at: "t".to_string(),
        redirect_url: Some("r".to_string()),
        deliver: Some(false),
        reference_1_label: Some("l1".to_string()),
        reference_1: Some("r1".to_string()),
        reference_2_label: Some("l2".to_string()),
        reference_2: Some("r2".to_string()),
        paid: false,
        state: "due".to_string(),
        paid_amount: 12,
        url: Some("w".to_string()),
        paid_at: Some("p".to_string()),
    };
    assert_eq!(resp, expected);
}

#[test]
fn bill_response_missing_member_is_reported() {
    let json = r#"{"id": "b", "collection_id": "c"}"#;
    assert_eq!(
        BillResponse::from_json(&parsed(json)),
        Err(ParseError::MissingField("email".to_string()))
    );
}

#[test]
fn bill_response_first_fault_in_record_order_decides() {
    let json = r#"{"id": 7, "email": 1}"#;
    assert_eq!(
        BillResponse::from_json(&parsed(json)),
        Err(ParseError::InvalidField("id".to_string()))
    );
    let json = r#"{"id": "b", "email": 1}"#;
    assert_eq!(
        BillResponse::from_json(&parsed(json)),
        Err(ParseError::MissingField("collection_id".to_string()))
    );
}

#[test]
fn bill_response_member_of_wrong_kind_is_reported() {
    let base = |amount: &str, paid_amount: &str, paid: &str| {
        format!(
            r#"{{"id": "b", "collection_id": "c", "email": "e", "name": "n", "amount": {},
            "callback_url": "u", "description": "d", "due_at": "t", "paid": {}, "state": "s",
            "paid_amount": {}}}"#,
            amount, paid, paid_amount
        )
    };
    let invalid = |key: &str| Err(ParseError::InvalidField(key.to_string()));
    assert_eq!(BillResponse::from_json(&parsed(&base("1.5", "0", "true"))), invalid("amount"));
    assert_eq!(BillResponse::from_json(&parsed(&base("\"1\"", "0", "true"))), invalid("amount"));
    assert_eq!(BillResponse::from_json(&parsed(&base("null", "0", "true"))), invalid("amount"));
    assert_eq!(
        BillResponse::from_json(&parsed(&base("9223372036854775808", "0", "true"))),
        invalid("amount")
    );
    assert_eq!(BillResponse::from_json(&parsed(&base("1", "null", "true"))), invalid("paid_amount"));
    assert_eq!(BillResponse::from_json(&parsed(&base("1", "0", "1"))), invalid("paid"));
    assert_eq!(BillResponse::from_json(&parsed(&base("1", "0", "null"))), invalid("paid"));
    assert!(BillResponse::from_json(&parsed(&base("1", "0", "false"))).is_ok());
}

#[test]
fn bill_response_optional_member_of_wrong_kind_is_reported() {
    let json = r#"{"id": "b", "collection_id": "c", "email": "e", "mobile": 5}"#;
    assert_eq!(
        BillResponse::from_json(&parsed(json)),
        Err(ParseError::InvalidField("mobile".to_string()))
    );
}

#[test]
fn values_that_are_no_objects_are_reported() {
    for text in ["null", "true", "3", "\"text\"", "[]", "[{\"id\": \"b\"}]"] {
        let value = parsed(text);
        assert_eq!(BillResponse::from_json(&value), Err(ParseError::NotAnObject));
        assert_eq!(CollectionResponse::from_json(&value), Err(ParseError::NotAnObject));
        assert_eq!(FpxBank::from_json(&value), Err(ParseError::NotAnObject));
        assert_eq!(SplitPayment::from_json(&value), Err(ParseError::NotAnObject));
        assert_eq!(Logo::from_json(&value), Err(ParseError::NotAnObject));
    }
}

#[test]
fn collection_response_reads_nested_members() {
    let json = r#"{
        "id": "col", "title": "T", "split_header": true,
        "split_payments": [
            {"email": "a@test.com", "fixed_cut": 100, "stack_order": 0},
            {"email": "b@test.com", "variable_cut": "20", "stack_order": 2147483647},
            {"email": "c@test.com", "fixed_cut": null, "variable_cut": null, "stack_order": -2147483648}
        ],
        "logo": {"thumb_url": "t.png", "avatar_url": null},
        "status": "active"
    }"#;
    let resp = CollectionResponse::from_json(&parsed(json)).unwrap();
    let expected = CollectionResponse {
        id: "col".to_string(),
        title: "T".to_string(),
        split_header: Some(true),
        split_payments: Some(vec![
            SplitPayment {
                email: "a@test.com".to_string(),
                fixed_cut: Some(100),
                variable_cut: None,
                stack_order: 0,
            },
            SplitPayment {
                email: "b@test.com".to_string(),
                fixed_cut: None,
                variable_cut: Some("20".to_string()),
                stack_order: i32::MAX,
            },
            SplitPayment {
                email: "c@test.com".to_string(),
                fixed_cut: None,
                variable_cut: None,
                stack_order: i32::MIN,
            },
        ]),
        logo: Some(Logo { thumb_url: Some("t.png".to_string()), avatar_url: None }),
        status: "active".to_string(),
    };
    assert_eq!(resp, expected);
}

#[test]
fn collection_response_optional_members_may_be_absent_or_null() {
    let json = r#"{"id": "col", "title": "T", "split_payments": null, "logo": null, "status": "s"}"#;
    let resp = CollectionResponse::from_json(&parsed(json)).unwrap();
    assert_eq!(resp.split_header, None);
    assert_eq!(resp.split_payments, None);
    assert_eq!(resp.logo, None);
    let json = r#"{"id": "col", "title": "T", "split_payments": [], "logo": {}, "status": "s"}"#;
    let resp = CollectionResponse::from_json(&parsed(json)).unwrap();
    assert_eq!(resp.split_payments, Some(vec![]));
    assert_eq!(resp.logo, Some(Logo { thumb_url: None, avatar_url: None }));
}

#[test]
fn collection_response_faults_are_reported() {
    let invalid = |key: &str| Err(ParseError::InvalidField(key.to_string()));
    let missing = |key: &str| Err(ParseError::MissingField(key.to_string()));
    let read = |text: &str| CollectionResponse::from_json(&parsed(text));
    assert_eq!(read(r#"{"title": "T", "status": "s"}"#), missing("id"));
    assert_eq!(read(r#"{"id": "c", "title": "T"}"#), missing("status"));
    assert_eq!(read(r#"{"id": "c", "title": "T", "split_header": 1, "status": "s"}"#), invalid("split_header"));
    assert_eq!(read(r#"{"id": "c", "title": "T", "split_payments": {}, "status": "s"}"#), invalid("split_payments"));
    assert_eq!(
        read(r#"{"id": "c", "title": "T", "split_payments": [{"email": "a", "stack_order": 1}, {"stack_order": 2}], "status": "s"}"#),
        missing("email")
    );
    assert_eq!(
        read(r#"{"id": "c", "title": "T", "split_payments": [{"email": "a", "stack_order": 2147483648}], "status": "s"}"#),
        invalid("stack_order")
    );
    assert_eq!(
        read(r#"{"id": "c", "title": "T", "split_payments": [3], "status": "s"}"#),
        Err(ParseError::NotAnObject)
    );
    assert_eq!(read(r#"{"id": "c", "title": "T", "logo": "x", "status": "s"}"#), Err(ParseError::NotAnObject));
    assert_eq!(read(r#"{"id": "c", "title": "T", "logo": {"thumb_url": 1}, "status": "s"}"#), invalid("thumb_url"));
}

#[test]
fn split_payment_faults_are_reported() {
    let read = |text: &str| SplitPayment::from_json(&parsed(text));
    assert_eq!(
        read(r#"{"email": "a", "fixed_cut": "1", "stack_order": 1}"#),
        Err(ParseError::InvalidField("fixed_cut".to_string()))
    );
    assert_eq!(
        read(r#"{"email": "a", "variable_cut": 1, "stack_order": 1}"#),
        Err(ParseError::InvalidField("variable_cut".to_string()))
    );
    assert_eq!(
        read(r#"{"email": "a"}"#),
        Err(ParseError::MissingField("stack_order".to_string()))
    );
    assert_eq!(
        read(r#"{"email": "a", "stack_order": -2147483649}"#),
        Err(ParseError::InvalidField("stack_order".to_string()))
    );
}

#[test]
fn fpx_bank_faults_are_reported() {
    assert_eq!(
        FpxBank::from_json(&parsed(r#"{"bank_name": "x"}"#)),
        Err(ParseError::MissingField("bank_code".to_string()))
    );
    assert_eq!(
        FpxBank::from_json(&parsed(r#"{"bank_code": "x", "bank_name": null}"#)),
        Err(ParseError::InvalidField("bank_name".to_string()))
    );
}

#[test]
fn shown_resources_hold_every_member() {
    let bank = FpxBank { bank_code: "MB2U0227".to_string(), bank_name: "Maybank2u".to_string() };
    assert_eq!(bank.to_json(), parsed(r#"{"bank_code":"MB2U0227","bank_name":"Maybank2u"}"#));
    let logo = Logo { thumb_url: None, avatar_url: Some("a.png".to_string()) };
    assert_eq!(logo.to_json(), parsed(r#"{"thumb_url":null,"avatar_url":"a.png"}"#));
    let collection = CollectionResponse {
        id: "c".to_string(),
        title: "T".to_string(),
        split_header: None,
        split_payments: Some(vec![SplitPayment {
            email: "a".to_string(),
            fixed_cut: Some(1),
            variable_cut: None,
            stack_order: 0,
        }]),
        logo: None,
        status: "active".to_string(),
    };
    assert_eq!(
        collection.to_json(),
        parsed(
            r#"{"id":"c","title":"T","split_header":null,
            "split_payments":[{"email":"a","fixed_cut":1,"stack_order":0}],
            "logo":null,"status":"active"}"#
        )
    );
    let with_logo = CollectionResponse {
        split_header: Some(true),
        split_payments: None,
        logo: Some(logo),
        ..collection
    };
    assert_eq!(
        with_logo.to_json(),
        parsed(
            r#"{"id":"c","title":"T","split_header":true,"split_payments":null,
            "logo":{"thumb_url":null,"avatar_url":"a.png"},"status":"active"}"#
        )
    );
}

#[test]
fn shown_bill_holds_every_member() {
    let json = r#"{
        "id": "b", "collection_id": "c", "email": "e", "mobile": null, "name": "n",
        "amount": 3, "callback_url": "u", "description": "d",
        "due_at": "t", "redirect_url": "r", "deliver": null,
        "reference_1_label": null, "reference_1": "r1",
        "reference_2_label": null, "reference_2": null,
        "paid": true, "state": "paid", "paid_amount": 3, "url": null, "paid_at": "p"
    }"#;
    let value = parsed(json);
    let bill = BillResponse::from_json(&value).unwrap();
    assert_eq!(bill.to_json(), value);
}

#[test]
fn bill_round_trip_keeps_every_field() {
    let mut bill = sample_bill();
    bill.deliver = Some(true);
    bill.reference_1 = Some("ref".to_string());
    let mut echoed = bill.to_json();
    let object = echoed.as_object_mut().unwrap();
    object.insert("id".to_string(), Value::from("new"));
    object.insert("paid".to_string(), Value::from(false));
    object.insert("state".to_string(), Value::from("due"));
    let resp = BillResponse::from_json(&echoed).unwrap();
    assert_eq!(resp.collection_id, bill.collection_id);
    assert_eq!(resp.email, bill.email);
    assert_eq!(resp.mobile, bill.mobile);
    assert_eq!(resp.name, bill.name);
    assert_eq!(resp.amount, bill.amount);
    assert_eq!(resp.callback_url, bill.callback_url);
    assert_eq!(resp.description, bill.description);
    assert_eq!(resp.due_at, bill.due_at);
    assert_eq!(resp.redirect_url, bill.redirect_url);
    assert_eq!(resp.deliver, bill.deliver);
    assert_eq!(resp.reference_1_label, bill.reference_1_label);
    assert_eq!(resp.reference_1, bill.reference_1);
    assert_eq!(resp.reference_2_label, bill.reference_2_label);
    assert_eq!(resp.reference_2, bill.reference_2);
}

#[test]
fn collection_round_trip_keeps_every_field() {
    let collection = Collection {
        title: "Split".to_string(),
        split_header: Some(true),
        split_payments: Some(vec![
            SplitPayment {
                email: "a@test.com".to_string(),
                fixed_cut: Some(100),
                variable_cut: None,
                stack_order: 0,
            },
            SplitPayment {
                email: "b@test.com".to_string(),
                fixed_cut: None,
                variable_cut: Some("15".to_string()),
                stack_order: 1,
            },
        ]),
    };
    let mut echoed = collection.to_json();
    let object = echoed.as_object_mut().unwrap();
    object.insert("id".to_string(), Value::from("new"));
    object.insert("status".to_string(), Value::from("active"));
    let resp = CollectionResponse::from_json(&echoed).unwrap();
    assert_eq!(resp.title, collection.title);
    assert_eq!(resp.split_header, collection.split_header);
    assert_eq!(resp.split_payments, collection.split_payments);
}

#[test]
fn split_payment_round_trip() {
    let entry = SplitPayment {
        email: "a@test.com".to_string(),
        fixed_cut: Some(i64::MIN),
        variable_cut: Some("x".to_string()),
        stack_order: i32::MIN,
    };
    assert_eq!(SplitPayment::from_json(&entry.to_json()), Ok(entry));
}
