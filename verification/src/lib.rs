//! A client for the card payment gateway: the configuration of a client, the
//! request of a direct card payment, and the classification of the gateway's
//! answer into one of three outcomes.
//!
//! The library decides and computes; it does not talk to the network and it
//! does not set a transport up. A caller hands the transport's handle to
//! [`ClientOptionsBuilder::build_with`], and makes the exchange: either as a
//! function, given to [`token::Token::payment_2d`], or by sending the request
//! that [`token::Token::payment_2d_request`] builds and handing what came
//! back to [`token::Token::payment_2d_response`].

use std::sync::Arc;
use vstd::prelude::*;

pub mod document;
pub mod error;
pub mod json;
pub mod laws;
pub mod payment;
pub mod response;
pub mod token;

pub use document::{Doc, Number};
pub use error::{DecodeError, GatewayError};
pub use json::Json;
pub use payment::Payment;
pub use response::Payment2DResponse;
pub use token::{Item, Payment2DBody, Token};

verus! {

/// `reqwest::Client`, the transport handle. It is carried along and never
/// looked into.
#[verifier::external_type_specification]
#[verifier::external_body]
pub struct ExTransport(reqwest::Client);

/// The base address of the gateway's production environment.
pub open spec fn production_api_base() -> Seq<char> {
    "https://app.vepara.com.tr/ccpayment"@
}

/// The base address of the gateway's sandbox.
pub open spec fn sandbox_api_base() -> Seq<char> {
    "https://test.vepara.com.tr/ccpayment"@
}

/// The base address that a choice of environment resolves to.
pub open spec fn api_base_of(dev_mode: bool) -> Seq<char> {
    if dev_mode {
        sandbox_api_base()
    } else {
        production_api_base()
    }
}

/// What a client is configured from: the merchant's key and the environment.
pub struct ClientOptionsBuilder {
    pub merchant_key: String,
    pub dev_mode: bool,
}

impl Default for ClientOptionsBuilder {
    fn default() -> (b: Self)
        ensures
            b.merchant_key@ == Seq::<char>::empty(),
            !b.dev_mode,
    {
        ClientOptionsBuilder { merchant_key: String::new(), dev_mode: false }
    }
}

/// The configuration of a client. Nothing changes it once it is built.
pub struct ClientOptions {
    pub merchant_key: Option<String>,
    pub api_base: String,
    pub reqwest_client: reqwest::Client,
}

/// `Arc::clone`: one more handle to the same value.
#[verifier::external_body]
pub(crate) fn share(options: &Arc<ClientOptions>) -> (shared: Arc<ClientOptions>)
    ensures
        shared == *options,
{
    Arc::clone(options)
}

impl ClientOptionsBuilder {
    /// A builder for the production environment.
    pub fn with_merchant_key(merchant_key: String) -> (b: Self)
        ensures
            b.merchant_key == merchant_key,
            !b.dev_mode,
    {
        ClientOptionsBuilder { merchant_key, dev_mode: false }
    }

    /// The same builder, for the sandbox.
    pub fn enable_dev_mode(self) -> (b: Self)
        ensures
            b.merchant_key == self.merchant_key,
            b.dev_mode,
    {
        let mut b = self;
        b.dev_mode = true;
        b
    }

    /// The configuration, around a transport handle that the caller has set
    /// up. Setting one up reads the environment and can fail, so it is the
    /// caller's step; from there on nothing can fail.
    pub fn build_with(&self, reqwest_client: reqwest::Client) -> (options: ClientOptions)
        ensures
            options.merchant_key == Some(self.merchant_key),
            options.api_base@ == api_base_of(self.dev_mode),
            options.reqwest_client == reqwest_client,
    {
        ClientOptions {
            merchant_key: Some(self.merchant_key.clone()),
            api_base: if self.dev_mode {
                "https://test.vepara.com.tr/ccpayment".to_owned()
            } else {
                "https://app.vepara.com.tr/ccpayment".to_owned()
            },
            reqwest_client,
        }
    }
}

/// A client: one configuration, shared by its parts.
#[derive(Clone)]
pub struct GatewayClient {
    pub options: Arc<ClientOptions>,
    pub payment: Payment,
}

impl GatewayClient {
    pub fn new(options: ClientOptions) -> (client: Self)
        ensures
            *client.options == options,
            client.payment.options() == options,
    {
        let options = Arc::new(options);
        GatewayClient { payment: Payment::new(&options), options }
    }

    /// The configuration that the client holds.
    pub fn client_options(&self) -> (options: &ClientOptions)
        ensures
            *options == *self.options,
    {
        &*self.options
    }
}

} // verus!
