use vepara::response::Payment2DSuccessResponse;
use vepara::token::PostRequest;
use vepara::{
    ClientOptionsBuilder, DecodeError, GatewayError, Item, Json, Number, Payment2DBody,
    Payment2DResponse, Token,
};

const SUCCESS: &str = "{\"status_code\":100,\"status_description\":\"approved\",\"data\":{\"order_no\":\"123\",\"order_id\":\"456\",\"invoice_id\":\"INV-1\",\"credit_card_no\":\"411111******1111\",\"transaction_type\":\"sale\",\"payment_status\":1,\"payment_method\":1,\"error_code\":0,\"error\":\"\",\"auth_code\":998877,\"merchant_commission\":1.5,\"user_commission\":0,\"merchant_commission_percentage\":1.5,\"merchant_commission_fixed\":0,\"payment_reason_code\":\"\",\"payment_reason_code_detail\":\"\",\"hash_key\":\"abc\",\"original_bank_error_code\":\"\",\"original_bank_error_description\":\"\"}}";

const VALIDATION_ERROR: &str = "{\"message\":\"Invalid request\",\"errors\":{\"merchant_key\":[\"The merchant key field is required.\"]}}";

fn sample_body() -> Payment2DBody {
    Payment2DBody {
        cc_holder_name: "John Doe".to_string(),
        cc_no: "1234567890123456".to_string(),
        expiry_year: 2023,
        expiry_month: 12,
        cvv: Some(123),
        currency_code: "TRY".to_string(),
        installments_number: 1,
        invoice_id: "INV-123456".to_string(),
        invoice_description: "Test invoice".to_string(),
        name: "John".to_string(),
        surname: "Doe".to_string(),
        total: Number::Float(100.0f64.to_bits()),
        merchant_key: "test".to_string(),
        items: vec![Item {
            name: "Test Item".to_string(),
            quantity: 1,
            price: Number::Float(100.0f64.to_bits()),
            description: "Test item description".to_string(),
        }],
        hash_key: "test".to_string(),
        vpos_type: None,
        identity_number: None,
    }
}

fn sandbox_token() -> Token {
    Token::new(ClientOptionsBuilder::default().enable_dev_mode().build_with(reqwest::Client::new()))
}

fn transport_error() -> reqwest::Error {
    reqwest::Client::new().get("not a url").build().unwrap_err()
}

fn text(s: &str) -> Json {
    Json::Str(s.to_string())
}

fn whole(i: u64) -> Json {
    Json::Number(Number::PosInt(i))
}

#[test]
fn test_payment_2d() {
    let options = ClientOptionsBuilder::default().enable_dev_mode().build_with(reqwest::Client::new());
    let token = Token::new(options);
    let mut seen: Option<PostRequest> = None;
    let response = token.payment_2d(&sample_body(), |request| {
        seen = Some(request);
        Ok(VALIDATION_ERROR.as_bytes().to_vec())
    });
    println!("{:?}", response);
    assert!(matches!(response, Ok(Payment2DResponse::Error(_))));
    let request = seen.unwrap();
    assert_eq!(request.url, "https://test.vepara.com.tr/ccpayment/api/paySmart2D");
    assert_eq!(request.body, sample_body().to_json());
}

#[test]
fn the_request_goes_to_the_payment_path_of_the_environment() {
    let request = sandbox_token().payment_2d_request(&sample_body());
    assert_eq!(request.url, "https://test.vepara.com.tr/ccpayment/api/paySmart2D");
    let production = Token::new(ClientOptionsBuilder::with_merchant_key("k".to_string()).build_with(reqwest::Client::new()));
    let request = production.payment_2d_request(&sample_body());
    assert_eq!(request.url, "https://app.vepara.com.tr/ccpayment/api/paySmart2D");
}

#[test]
fn the_request_body_holds_the_fields_under_the_gateways_names_in_order() {
    let expected = Json::Object(vec![
        ("cc_holder_name".to_string(), text("John Doe")),
        ("cc_no".to_string(), text("1234567890123456")),
        ("expiry_year".to_string(), whole(2023)),
        ("expiry_month".to_string(), whole(12)),
        ("cvv".to_string(), whole(123)),
        ("currency_code".to_string(), text("TRY")),
        ("installments_number".to_string(), whole(1)),
        ("invoice_id".to_string(), text("INV-123456")),
        ("invoice_description".to_string(), text("Test invoice")),
        ("name".to_string(), text("John")),
        ("surname".to_string(), text("Doe")),
        ("total".to_string(), Json::Number(Number::Float(100.0f64.to_bits()))),
        ("merchant_key".to_string(), text("test")),
        (
            "items".to_string(),
            Json::Array(vec![Json::Object(vec![
                ("name".to_string(), text("Test Item")),
                ("quantity".to_string(), whole(1)),
                ("price".to_string(), Json::Number(Number::Float(100.0f64.to_bits()))),
                ("description".to_string(), text("Test item description")),
            ])]),
        ),
        ("hash_key".to_string(), text("test")),
    ]);
    assert_eq!(sample_body().to_json(), expected);
}

#[test]
fn an_absent_optional_field_is_left_out() {
    let mut body = sample_body();
    body.cvv = None;
    let doc = body.to_json();
    assert_eq!(doc.get("cvv"), None);
    assert_eq!(doc.get("vpos_type"), None);
    assert_eq!(doc.get("identity_number"), None);
    match &doc {
        Json::Object(members) => assert_eq!(members.len(), 14),
        other => panic!("unexpected: {:?}", other),
    }
}

#[test]
fn a_present_optional_field_is_sent_under_its_name() {
    let mut body = sample_body();
    body.cvv = Some(7);
    body.vpos_type = Some("virtual".to_string());
    body.identity_number = Some("12345678901".to_string());
    let doc = body.to_json();
    assert_eq!(doc.get("cvv"), Some(&whole(7)));
    assert_eq!(doc.get("vpos_type"), Some(&text("virtual")));
    assert_eq!(doc.get("identity_number"), Some(&text("12345678901")));
    match &doc {
        Json::Object(members) => {
            assert_eq!(members.len(), 17);
            assert_eq!(members[4].0, "cvv");
            assert_eq!(members[15].0, "vpos_type");
            assert_eq!(members[16].0, "identity_number");
        }
        other => panic!("unexpected: {:?}", other),
    }
    let mut body = sample_body();
    body.cvv = None;
    body.identity_number = Some("1".to_string());
    match body.to_json() {
        Json::Object(members) => {
            assert_eq!(members.len(), 15);
            assert_eq!(members[4].0, "currency_code");
            assert_eq!(members[14].0, "identity_number");
        }
        other => panic!("unexpected: {:?}", other),
    }
}

#[test]
fn numbers_stay_numbers_and_strings_stay_strings() {
    let mut body = sample_body();
    body.expiry_year = -1;
    body.expiry_month = 13;
    body.installments_number = 0;
    body.cc_no = "0000".to_string();
    body.total = Number::PosInt(250);
    let doc = body.to_json();
    assert_eq!(doc.get("expiry_year"), Some(&Json::Number(Number::NegInt(-1))));
    assert_eq!(doc.get("expiry_month"), Some(&whole(13)));
    assert_eq!(doc.get("installments_number"), Some(&whole(0)));
    assert_eq!(doc.get("cc_no"), Some(&text("0000")));
    assert_eq!(doc.get("total"), Some(&whole(250)));
}

#[test]
fn an_amount_that_json_cannot_write_goes_out_as_null() {
    let mut body = sample_body();
    body.total = Number::Float(f64::NAN.to_bits());
    body.items[0].price = Number::Float(f64::INFINITY.to_bits());
    let doc = body.to_json();
    assert_eq!(doc.get("total"), Some(&Json::Null));
    let items = doc.get("items").unwrap().as_array().unwrap();
    assert_eq!(items[0].get("price"), Some(&Json::Null));
    body.total = Number::Float(f64::NEG_INFINITY.to_bits());
    assert_eq!(body.to_json().get("total"), Some(&Json::Null));
    body.total = Number::Float(f64::MAX.to_bits());
    assert_eq!(body.to_json().get("total"), Some(&Json::Number(Number::Float(f64::MAX.to_bits()))));
    body.total = Number::Float((-0.0f64).to_bits());
    assert_eq!(body.to_json().get("total"), Some(&Json::Number(Number::Float((-0.0f64).to_bits()))));
    body.total = Number::Float(f64::MIN_POSITIVE.to_bits() - 1);
    assert!(matches!(body.to_json().get("total"), Some(Json::Number(_))));
}

#[test]
fn a_request_without_items_has_an_empty_list() {
    let mut body = sample_body();
    body.items.clear();
    assert_eq!(body.to_json().get("items"), Some(&Json::Array(vec![])));
    body.items = vec![
        Item { name: "a".to_string(), quantity: 2, price: Number::PosInt(5), description: String::new() },
        Item { name: "b".to_string(), quantity: -1, price: Number::Float(0.5f64.to_bits()), description: "d".to_string() },
    ];
    let doc = body.to_json();
    let items = doc.get("items").unwrap().as_array().unwrap();
    assert_eq!(items.len(), 2);
    assert_eq!(items[0], body.items[0].to_json());
    assert_eq!(items[1].get("name"), Some(&text("b")));
    assert_eq!(items[1].get("quantity"), Some(&Json::Number(Number::NegInt(-1))));
    assert_eq!(items[1].get("price"), Some(&Json::Number(Number::Float(0.5f64.to_bits()))));
    assert_eq!(items[1].get("description"), Some(&text("d")));
}

#[test]
fn what_the_gateway_echoes_comes_back_as_sent() {
    let mut body = sample_body();
    body.invoice_id = "INV-1".to_string();
    body.hash_key = "abc".to_string();
    let request = sandbox_token().payment_2d_request(&body);
    assert_eq!(request.body.get("invoice_id"), Some(&text("INV-1")));
    assert_eq!(request.body.get("hash_key"), Some(&text("abc")));
    match Token::payment_2d_response(Ok(SUCCESS.as_bytes().to_vec())).unwrap() {
        Payment2DResponse::Success(s) => {
            assert_eq!(s.data.invoice_id, body.invoice_id);
            assert_eq!(s.data.hash_key, body.hash_key);
        }
        other => panic!("unexpected: {:?}", other),
    }
}

#[test]
fn a_mocked_transport_with_the_success_answer_gives_success() {
    let r = sandbox_token().payment_2d(&sample_body(), |_| Ok(SUCCESS.as_bytes().to_vec()));
    match r {
        Ok(Payment2DResponse::Success(Payment2DSuccessResponse { status_code, status_description, data })) => {
            assert_eq!(data.order_no, "123");
            assert_eq!(status_code, 100);
            assert_eq!(status_description, "approved");
            assert_eq!(data.auth_code, 998877);
            assert_eq!(data.merchant_commission, Number::Float(1.5f64.to_bits()));
        }
        other => panic!("unexpected: {:?}", other),
    }
}

#[test]
fn a_mocked_transport_with_a_validation_error_gives_that_outcome() {
    let r = sandbox_token().payment_2d(&sample_body(), |_| Ok(VALIDATION_ERROR.as_bytes().to_vec()));
    match r {
        Ok(Payment2DResponse::Error(e)) => {
            assert_eq!(e.errors.merchant_key.len(), 1);
            assert_eq!(e.errors.merchant_key[0], "The merchant key field is required.");
            assert_eq!(e.message, "Invalid request");
        }
        other => panic!("unexpected: {:?}", other),
    }
}

#[test]
fn a_server_error_with_an_unreadable_body_is_an_error_and_no_panic() {
    let r = sandbox_token().payment_2d(&sample_body(), |_| {
        Ok(b"<html><body><h1>500 Internal Server Error</h1></body></html>".to_vec())
    });
    match r {
        Err(GatewayError::Decode(DecodeError::Malformed { body, .. })) => {
            assert!(body.starts_with(b"<html>"));
        }
        other => panic!("unexpected: {:?}", other),
    }
    let r = Token::payment_2d_response(Ok(Vec::new()));
    assert!(matches!(r, Err(GatewayError::Decode(DecodeError::Malformed { .. }))));
    let r = Token::payment_2d_response(Ok(b"{\"error\":\"Server Error\"}".to_vec()));
    assert!(matches!(r, Err(GatewayError::Decode(DecodeError::Unmatched { .. }))));
}

#[test]
fn a_failed_exchange_is_a_transport_error() {
    let r = Token::payment_2d_response(Err(transport_error()));
    match r {
        Err(GatewayError::Transport(e)) => assert!(e.is_builder()),
        other => panic!("unexpected: {:?}", other),
    }
    let r = sandbox_token().payment_2d(&sample_body(), |_| Err(transport_error()));
    assert!(matches!(r, Err(GatewayError::Transport(_))));
}

#[test]
fn the_transport_is_called_once() {
    let mut calls = 0;
    let _ = sandbox_token().payment_2d(&sample_body(), |_| {
        calls += 1;
        Ok(b"{}".to_vec())
    });
    assert_eq!(calls, 1);
    let mut calls = 0;
    let _ = sandbox_token().payment_2d(&sample_body(), |_| {
        calls += 1;
        Err(transport_error())
    });
    assert_eq!(calls, 1);
}
