//! The direct card payment: its request, and the way from the gateway's
//! answer to an outcome.

use crate::document::{Doc, Number};
use crate::error::{DecodeError, GatewayError};
use crate::json::{lemma_view_array, lemma_view_object, member_views, parsed, views, Json};
use crate::response::{decoding, Payment2DResponse, Rejection};
use crate::ClientOptions;
use vstd::prelude::*;

verus! {

/// One line of an invoice.
#[derive(Clone, Debug, PartialEq)]
pub struct Item {
    pub name: String,
    pub quantity: i32,
    pub price: Number,
    pub description: String,
}

/// The request of a direct card payment. Nothing in it is checked here: the
/// gateway judges it. That `total` is the sum of the items is the caller's
/// business.
#[derive(Clone, Debug, PartialEq)]
pub struct Payment2DBody {
    pub cc_holder_name: String,
    pub cc_no: String,
    pub expiry_year: i32,
    pub expiry_month: i32,
    pub cvv: Option<i32>,
    pub currency_code: String,
    pub installments_number: i32,
    pub invoice_id: String,
    pub invoice_description: String,
    pub name: String,
    pub surname: String,
    pub total: Number,
    pub merchant_key: String,
    pub items: Vec<Item>,
    pub hash_key: String,
    pub vpos_type: Option<String>,
    pub identity_number: Option<String>,
}

/// An amount on the wire: the number itself, and `null` for one that JSON
/// cannot write, an infinity or a NaN.
pub open spec fn amount_doc(amount: Number) -> Doc {
    if amount.finite() {
        Doc::Number(amount)
    } else {
        Doc::Null
    }
}

fn amount_json(amount: Number) -> (j: Json)
    ensures
        j@ == amount_doc(amount),
{
    if amount.is_finite() {
        Json::Number(amount)
    } else {
        Json::Null
    }
}

/// The member that an optional integer adds to an object: none where it is
/// absent.
pub open spec fn optional_int(key: Seq<char>, value: Option<i32>) -> Seq<(Seq<char>, Doc)> {
    match value {
        Some(i) => seq![(key, Doc::Number(Number::of_i32(i)))],
        None => seq![],
    }
}

/// The member that an optional string adds to an object: none where it is
/// absent.
pub open spec fn optional_text(key: Seq<char>, value: Option<String>) -> Seq<(Seq<char>, Doc)> {
    match value {
        Some(s) => seq![(key, Doc::Text(s@))],
        None => seq![],
    }
}

impl Item {
    /// The line as the gateway expects it.
    pub open spec fn document(&self) -> Doc {
        Doc::Object(
            seq![
                ("name"@, Doc::Text(self.name@)),
                ("quantity"@, Doc::Number(Number::of_i32(self.quantity))),
                ("price"@, amount_doc(self.price)),
                ("description"@, Doc::Text(self.description@)),
            ],
        )
    }

    pub fn to_json(&self) -> (j: Json)
        ensures
            j@ == self.document(),
    {
        let mut members: Vec<(String, Json)> = Vec::new();
        members.push(("name".to_owned(), Json::Str(self.name.clone())));
        members.push(("quantity".to_owned(), Json::Number(Number::from_i32(self.quantity))));
        members.push(("price".to_owned(), amount_json(self.price)));
        members.push(("description".to_owned(), Json::Str(self.description.clone())));
        proof {
            lemma_view_object(members);
            assert(member_views(members@) =~= self.document()->Object_0);
        }
        Json::Object(members)
    }
}

/// The lines of an invoice as the gateway expects them.
pub open spec fn item_documents(items: Seq<Item>) -> Seq<Doc> {
    Seq::new(items.len(), |i: int| items[i].document())
}

impl Payment2DBody {
    /// The members that every request has, up to the card's expiry.
    pub open spec fn card_members(&self) -> Seq<(Seq<char>, Doc)> {
        seq![
            ("cc_holder_name"@, Doc::Text(self.cc_holder_name@)),
            ("cc_no"@, Doc::Text(self.cc_no@)),
            ("expiry_year"@, Doc::Number(Number::of_i32(self.expiry_year))),
            ("expiry_month"@, Doc::Number(Number::of_i32(self.expiry_month))),
        ]
    }

    /// The members that every request has, from the currency to the hash.
    pub open spec fn invoice_members(&self) -> Seq<(Seq<char>, Doc)> {
        seq![
            ("currency_code"@, Doc::Text(self.currency_code@)),
            ("installments_number"@, Doc::Number(Number::of_i32(self.installments_number))),
            ("invoice_id"@, Doc::Text(self.invoice_id@)),
            ("invoice_description"@, Doc::Text(self.invoice_description@)),
            ("name"@, Doc::Text(self.name@)),
            ("surname"@, Doc::Text(self.surname@)),
            ("total"@, amount_doc(self.total)),
            ("merchant_key"@, Doc::Text(self.merchant_key@)),
            ("items"@, Doc::Array(item_documents(self.items@))),
            ("hash_key"@, Doc::Text(self.hash_key@)),
        ]
    }

    /// The request as the gateway expects it: the members in this order, each
    /// under the gateway's name for it, and no member at all for an optional
    /// field that is absent.
    pub open spec fn document(&self) -> Doc {
        Doc::Object(
            self.card_members() + optional_int("cvv"@, self.cvv) + self.invoice_members()
                + optional_text("vpos_type"@, self.vpos_type) + optional_text(
                "identity_number"@,
                self.identity_number,
            ),
        )
    }

    pub fn to_json(&self) -> (j: Json)
        ensures
            j@ == self.document(),
    {
        let mut lines: Vec<Json> = Vec::new();
        let mut i: usize = 0;
        while i < self.items.len()
            invariant
                i <= self.items@.len(),
                lines@.len() == i,
                forall|k: int| 0 <= k < i ==> (#[trigger] lines@[k])@ == self.items@[k].document(),
            decreases self.items@.len() - i,
        {
            lines.push(self.items[i].to_json());
            i += 1;
        }
        proof {
            lemma_view_array(lines);
            assert(views(lines@) =~= item_documents(self.items@));
        }
        let mut members: Vec<(String, Json)> = Vec::new();
        members.push(("cc_holder_name".to_owned(), Json::Str(self.cc_holder_name.clone())));
        members.push(("cc_no".to_owned(), Json::Str(self.cc_no.clone())));
        members.push(("expiry_year".to_owned(), Json::Number(Number::from_i32(self.expiry_year))));
        members.push(
            ("expiry_month".to_owned(), Json::Number(Number::from_i32(self.expiry_month))),
        );
        assert(member_views(members@) =~= self.card_members());
        if let Some(cvv) = self.cvv {
            members.push(("cvv".to_owned(), Json::Number(Number::from_i32(cvv))));
        }
        let ghost head = self.card_members() + optional_int("cvv"@, self.cvv);
        assert(member_views(members@) =~= head);
        members.push(("currency_code".to_owned(), Json::Str(self.currency_code.clone())));
        members.push(
            (
                "installments_number".to_owned(),
                Json::Number(Number::from_i32(self.installments_number)),
            ),
        );
        members.push(("invoice_id".to_owned(), Json::Str(self.invoice_id.clone())));
        members.push(
            ("invoice_description".to_owned(), Json::Str(self.invoice_description.clone())),
        );
        members.push(("name".to_owned(), Json::Str(self.name.clone())));
        members.push(("surname".to_owned(), Json::Str(self.surname.clone())));
        members.push(("total".to_owned(), amount_json(self.total)));
        members.push(("merchant_key".to_owned(), Json::Str(self.merchant_key.clone())));
        members.push(("items".to_owned(), Json::Array(lines)));
        members.push(("hash_key".to_owned(), Json::Str(self.hash_key.clone())));
        let ghost body = head + self.invoice_members();
        assert(member_views(members@) =~= body);
        if let Some(vpos_type) = &self.vpos_type {
            members.push(("vpos_type".to_owned(), Json::Str(vpos_type.clone())));
        }
        let ghost with_vpos = body + optional_text("vpos_type"@, self.vpos_type);
        assert(member_views(members@) =~= with_vpos);
        if let Some(identity_number) = &self.identity_number {
            members.push(("identity_number".to_owned(), Json::Str(identity_number.clone())));
        }
        proof {
            lemma_view_object(members);
            assert(member_views(members@) =~= with_vpos + optional_text(
                "identity_number"@,
                self.identity_number,
            ));
        }
        Json::Object(members)
    }
}

/// The path of the direct card payment, below the base address.
pub open spec fn payment_2d_path() -> Seq<char> {
    "/api/paySmart2D"@
}

/// One POST for the caller to send: where to, and the JSON body.
#[derive(Debug, PartialEq)]
pub struct PostRequest {
    pub url: String,
    pub body: Json,
}

/// The caller of the direct card payment.
pub struct Token {
    options: ClientOptions,
}

impl Token {
    /// The configuration that the token works with.
    pub closed spec fn options(&self) -> ClientOptions {
        self.options
    }

    pub fn new(options: ClientOptions) -> (token: Self)
        ensures
            token.options() == options,
    {
        Token { options }
    }

    /// The configuration that the token works with.
    pub fn client_options(&self) -> (options: &ClientOptions)
        ensures
            *options == self.options(),
    {
        &self.options
    }

    /// Whether a request is the one that a payment asks for: a POST of the
    /// body, as the gateway expects it, to the payment's path below the
    /// configured base address.
    pub open spec fn asks(&self, body: &Payment2DBody, request: PostRequest) -> bool {
        &&& request.url@ == self.options().api_base@ + payment_2d_path()
        &&& request.body@ == body.document()
    }

    /// The request to send for a payment.
    pub fn payment_2d_request(&self, body: &Payment2DBody) -> (request: PostRequest)
        ensures
            self.asks(body, request),
    {
        let mut url = self.options.api_base.clone();
        url.append("/api/paySmart2D");
        PostRequest { url, body: body.to_json() }
    }

    /// The result of a payment, from what the exchange with the gateway gave:
    /// the bytes of the answer's body, or the transport's error. A failed
    /// exchange is handed on as it is; a body is decoded.
    pub fn payment_2d_response(exchange: Result<Vec<u8>, reqwest::Error>) -> (r: Result<
        Payment2DResponse,
        GatewayError,
    >)
        ensures
            concludes(exchange, r),
    {
        match exchange {
            Ok(body) => Payment2DResponse::decode(body),
            Err(e) => Err(GatewayError::Transport(e)),
        }
    }

    /// One payment over a transport that the caller brings: `send` gets the
    /// request, makes the exchange and hands back the bytes of the answer's
    /// body or its error. It is called once, and nothing is tried again.
    pub fn payment_2d<F: FnOnce(PostRequest) -> Result<Vec<u8>, reqwest::Error>>(
        &self,
        body: &Payment2DBody,
        send: F,
    ) -> (r: Result<Payment2DResponse, GatewayError>)
        requires
            forall|request: PostRequest| self.asks(body, request) ==> send.requires((request,)),
        ensures
            exists|request: PostRequest, exchange: Result<Vec<u8>, reqwest::Error>|
                self.asks(body, request) && #[trigger] send.ensures((request,), exchange)
                    && concludes(exchange, r),
    {
        let request = self.payment_2d_request(body);
        let exchange = send(request);
        Token::payment_2d_response(exchange)
    }
}

/// Whether `r` is the result that a payment has after an exchange with the
/// gateway: the transport's error where the exchange failed, and else what
/// decoding the body of the answer gives, the outcome or the refusal with
/// what was refused.
pub open spec fn concludes(
    exchange: Result<Vec<u8>, reqwest::Error>,
    r: Result<Payment2DResponse, GatewayError>,
) -> bool {
    match exchange {
        Err(e) => r == Err::<Payment2DResponse, GatewayError>(GatewayError::Transport(e)),
        Ok(answer) => match decoding(parsed(answer@)) {
            Ok(outcome) => r matches Ok(x) && x@ == outcome,
            Err(Rejection::Malformed) => r matches Err(
                GatewayError::Decode(DecodeError::Malformed { body, .. }),
            ) && body == answer,
            Err(Rejection::Unmatched(d)) => r matches Err(
                GatewayError::Decode(DecodeError::Unmatched { document }),
            ) && document@ == d,
        },
    }
}

} // verus!
