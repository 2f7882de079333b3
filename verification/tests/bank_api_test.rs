use billplz::api::bank::{production_banks, staging_test_banks};
use billplz::http::{Method, Reply};
use billplz::{BillplzClient, BillplzError, Environment};

#[test]
fn test_get_fpx_banks_production() {
    let client = BillplzClient::new(Environment::Production, "key");
    let banks = client.get_fpx_banks();
    assert!(!banks.is_empty());
    assert!(banks.iter().any(|b| b.bank_code == "MB2U0227"));
    // No test banks in production
    assert!(!banks.iter().any(|b| b.bank_code.starts_with("TEST")));
}

#[test]
fn test_get_fpx_banks_staging_includes_test_banks() {
    let client = BillplzClient::new(Environment::Staging, "key");
    let banks = client.get_fpx_banks();
    assert!(banks.iter().any(|b| b.bank_code == "MB2U0227"));
    assert!(banks.iter().any(|b| b.bank_code.starts_with("TEST")));
}

#[test]
fn test_get_bank_verification_success() {
    let client = BillplzClient::with_base_url("http://mock", "test-key");
    let request = client.get_bank_verification("999988887777");
    assert_eq!(request.method, Method::Get);
    assert_eq!(request.url, "http://mock/api/v3/bank_verification_services/999988887777");
    assert_eq!(request.body, None);

    let body = r#"{"name":"Test User","id_no":"91234567890","acc_no":"999988887777","code":"MBBEMYKL","organization":false,"authorization_date":"2024-01-01","status":"verified"}"#;
    let resp = client.passthrough(Ok(Reply { status: 200, body: body.to_string() })).unwrap();
    assert!(resp.contains("verified"));
}

#[test]
fn test_create_bank_verification_success() {
    let client = BillplzClient::with_base_url("http://mock", "test-key");
    let request = client
        .create_bank_verification("Test User", "91234567890", "999988887777", "MBBEMYKL")
        .organization(true)
        .send();
    assert_eq!(request.method, Method::Post);
    assert_eq!(request.url, "http://mock/api/v3/bank_verification_services");
    let expected: serde_json::Value = serde_json::from_str(
        r#"{"name":"Test User","id_no":"91234567890","acc_no":"999988887777","code":"MBBEMYKL","organization":true}"#,
    )
    .unwrap();
    assert_eq!(request.body, Some(expected));

    let body = r#"{"name":"Test User","id_no":"91234567890","acc_no":"999988887777","code":"MBBEMYKL","organization":true,"status":"pending"}"#;
    let resp = client.passthrough(Ok(Reply { status: 200, body: body.to_string() })).unwrap();
    assert!(resp.contains("pending"));
}

#[test]
fn bank_verification_is_for_a_person_unless_set() {
    let client = BillplzClient::with_base_url("http://mock", "k");
    let request = client.create_bank_verification("n", "i", "a", "c").send();
    assert_eq!(request.body.unwrap()["organization"], false);
    let request =
        client.create_bank_verification("n", "i", "a", "c").organization(true).organization(false).send();
    assert_eq!(request.body.unwrap()["organization"], false);
}

#[test]
fn production_list_is_the_twenty_real_banks() {
    let expected = [
        ("ABMB0212", "Alliance Bank"),
        ("ABB0233", "Affin Bank"),
        ("AMBB0209", "AmBank"),
        ("BCBB0235", "CIMB Clicks"),
        ("BIMB0340", "Bank Islam"),
        ("BKRM0602", "Bank Rakyat"),
        ("BMMB0341", "Bank Muamalat"),
        ("BSN0601", "BSN"),
        ("CIT0217", "Citibank Berhad"),
        ("HLB0224", "Hong Leong Bank"),
        ("HSBC0223", "HSBC Bank"),
        ("KFH0346", "Kuwait Finance House"),
        ("MB2U0227", "Maybank2u"),
        ("MBB0227", "Maybank2E"),
        ("MBB0228", "Maybank2E"),
        ("OCBC0229", "OCBC Bank"),
        ("PBB0233", "Public Bank"),
        ("RHB0218", "RHB Now"),
        ("SCB0216", "Standard Chartered"),
        ("UOB0226", "UOB Bank"),
    ];
    let banks = production_banks();
    assert_eq!(banks.len(), 20);
    for (bank, (code, name)) in banks.iter().zip(expected.iter()) {
        assert_eq!(bank.bank_code, *code);
        assert_eq!(bank.bank_name, *name);
    }
    let client = BillplzClient::new(Environment::Production, "key");
    assert_eq!(client.get_fpx_banks(), banks);
    assert_eq!(banks.iter().filter(|b| b.bank_code.contains("TEST")).count(), 0);
}

#[test]
fn staging_list_appends_the_seven_test_banks() {
    let expected = [
        ("TEST0001", "Test 0001"),
        ("TEST0002", "Test 0002"),
        ("TEST0003", "Test 0003"),
        ("TEST0004", "Test 0004"),
        ("TEST0021", "Test 0021"),
        ("TEST0022", "Test 0022"),
        ("TEST0023", "Test 0023"),
    ];
    let extra = staging_test_banks();
    assert_eq!(extra.len(), 7);
    for (bank, (code, name)) in extra.iter().zip(expected.iter()) {
        assert_eq!(bank.bank_code, *code);
        assert_eq!(bank.bank_name, *name);
    }
    let client = BillplzClient::new(Environment::Staging, "key");
    let banks = client.get_fpx_banks();
    assert_eq!(banks.len(), 27);
    assert_eq!(banks[..20], production_banks()[..]);
    assert_eq!(banks[20..], extra[..]);
    assert_eq!(banks.iter().filter(|b| b.bank_code.starts_with("TEST")).count(), 7);
}

#[test]
fn client_without_environment_gets_the_real_banks_only() {
    let client = BillplzClient::with_base_url("http://localhost:8080", "key");
    assert_eq!(client.get_fpx_banks(), production_banks());
}

#[test]
fn bank_list_is_made_anew_on_each_call() {
    let client = BillplzClient::new(Environment::Staging, "key");
    let mut first = client.get_fpx_banks();
    first.clear();
    assert_eq!(client.get_fpx_banks().len(), 27);
}

#[test]
fn passthrough_returns_the_body_for_any_status() {
    let client = BillplzClient::with_base_url("http://mock", "k");
    for status in [100u16, 200, 204, 299, 300, 401, 404, 422, 500, 999, 0, u16::MAX] {
        for body in ["", "not json", r#"{"error":{"type":"unauthorized","message":"Invalid API key"}}"#] {
            let reply = Reply { status, body: body.to_string() };
            assert_eq!(client.passthrough(Ok(reply)), Ok(body.to_string()));
        }
    }
}

#[test]
fn passthrough_fails_only_where_the_transport_did() {
    let client = BillplzClient::with_base_url("http://mock", "k");
    assert_eq!(
        client.passthrough(Err("timed out".to_string())),
        Err(BillplzError::Http("timed out".to_string()))
    );
}
