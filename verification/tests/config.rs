use vepara::{ClientOptionsBuilder, GatewayClient, Token};

#[test]
fn test_client_options() {
    let options = ClientOptionsBuilder::with_merchant_key("test".to_string()).build_with(reqwest::Client::new());
    println!("{:?}", options.api_base);
    assert_eq!(options.merchant_key.unwrap(), "test".to_string());
}

#[test]
fn test_sub_client() {
    let options = ClientOptionsBuilder::with_merchant_key("test".to_string()).build_with(reqwest::Client::new());
    let client = GatewayClient::new(options);
    assert_eq!(client.client_options().merchant_key, Some("test".to_string()));
}

#[test]
fn production_is_the_default_environment() {
    let builder = ClientOptionsBuilder::with_merchant_key("key".to_string());
    assert!(!builder.dev_mode);
    let options = builder.build_with(reqwest::Client::new());
    assert_eq!(options.api_base, "https://app.vepara.com.tr/ccpayment");
}

#[test]
fn dev_mode_selects_the_sandbox() {
    let builder = ClientOptionsBuilder::with_merchant_key("key".to_string()).enable_dev_mode();
    assert!(builder.dev_mode);
    assert_eq!(builder.merchant_key, "key");
    let options = builder.build_with(reqwest::Client::new());
    assert_eq!(options.api_base, "https://test.vepara.com.tr/ccpayment");
    assert_eq!(options.merchant_key, Some("key".to_string()));
}

#[test]
fn default_builder_has_an_empty_key_and_no_dev_mode() {
    let builder = ClientOptionsBuilder::default();
    assert_eq!(builder.merchant_key, "");
    assert!(!builder.dev_mode);
    let options = builder.build_with(reqwest::Client::new());
    assert_eq!(options.merchant_key, Some(String::new()));
    assert_eq!(options.api_base, "https://app.vepara.com.tr/ccpayment");
}

#[test]
fn the_builder_can_be_used_again() {
    let builder = ClientOptionsBuilder::with_merchant_key("key".to_string()).enable_dev_mode();
    let first = builder.build_with(reqwest::Client::new());
    let second = builder.build_with(reqwest::Client::new());
    assert_eq!(first.api_base, second.api_base);
    assert_eq!(first.merchant_key, second.merchant_key);
}

#[test]
fn build_with_keeps_the_callers_transport() {
    let transport = reqwest::Client::new();
    let builder = ClientOptionsBuilder::with_merchant_key("key".to_string());
    let options = builder.build_with(transport);
    assert_eq!(options.api_base, "https://app.vepara.com.tr/ccpayment");
    assert_eq!(options.merchant_key, Some("key".to_string()));
}

#[test]
fn client_and_its_payment_part_share_one_configuration() {
    let options = ClientOptionsBuilder::with_merchant_key("shared".to_string())
        .enable_dev_mode()
        .build_with(reqwest::Client::new());
    let client = GatewayClient::new(options);
    assert_eq!(client.client_options().api_base, "https://test.vepara.com.tr/ccpayment");
    assert_eq!(client.payment.client_options().api_base, "https://test.vepara.com.tr/ccpayment");
    assert_eq!(client.payment.client_options().merchant_key, Some("shared".to_string()));
    let copy = client.clone();
    assert_eq!(copy.payment.client_options().merchant_key, Some("shared".to_string()));
    assert_eq!(copy.options.api_base, "https://test.vepara.com.tr/ccpayment");
}

#[test]
fn token_keeps_its_configuration() {
    let options = ClientOptionsBuilder::with_merchant_key("t".to_string()).build_with(reqwest::Client::new());
    let token = Token::new(options);
    assert_eq!(token.client_options().merchant_key, Some("t".to_string()));
    assert_eq!(token.client_options().api_base, "https://app.vepara.com.tr/ccpayment");
}
