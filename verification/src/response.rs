//! The gateway's answers.
//!
//! An answer carries no tag. Which of the three outcomes it is follows from
//! its shape alone: the members that are there and the kinds of their values.
//! The shapes are tried in a fixed order, and the first that fits decides.

use crate::document::{Doc, Number};
use crate::error::{DecodeError, GatewayError};
use crate::json::{parsed, views, Json};
use vstd::prelude::*;

verus! {

/// What the gateway reports of a payment that went through.
#[derive(Debug, PartialEq)]
pub struct Payment2DSuccessData {
    pub order_no: String,
    pub order_id: String,
    pub invoice_id: String,
    pub credit_card_no: String,
    pub transaction_type: String,
    pub payment_status: i64,
    pub payment_method: i64,
    pub error_code: i64,
    pub error: String,
    pub auth_code: i64,
    pub merchant_commission: Number,
    pub user_commission: i64,
    pub merchant_commission_percentage: Number,
    pub merchant_commission_fixed: i64,
    pub payment_reason_code: String,
    pub payment_reason_code_detail: String,
    pub hash_key: String,
    pub original_bank_error_code: String,
    pub original_bank_error_description: String,
}

/// The answer to a payment that went through.
#[derive(Debug, PartialEq)]
pub struct Payment2DSuccessResponse {
    pub status_code: i64,
    pub status_description: String,
    pub data: Payment2DSuccessData,
}

/// What the gateway reports of a payment whose integrity hash it refused.
#[derive(Debug, PartialEq)]
pub struct Payment2DInvalidHashData {
    pub invoice_id: String,
    pub order_no: String,
    pub order_id: String,
    pub credit_card_no: String,
    pub transaction_type: String,
    pub payment_status: i64,
    pub payment_method: i64,
    pub error_code: i64,
    pub error: String,
    pub auth_code: String,
    pub hash_key: String,
}

/// The status under which a refused hash is reported.
#[derive(Debug, PartialEq)]
pub struct Payment2DInvalidSubData {
    pub status_code: i64,
    pub status_description: String,
    pub data: Payment2DInvalidHashData,
}

/// The answer to a payment whose integrity hash the gateway refused.
#[derive(Debug, PartialEq)]
pub struct Payment2DInvalidHashResponse {
    pub data: Payment2DInvalidSubData,
    pub message: String,
}

/// The complaints about single fields of a request.
#[derive(Debug, PartialEq)]
pub struct Payment2DErrorsBody {
    pub merchant_key: Vec<String>,
}

/// The answer to a request that the gateway found invalid.
#[derive(Debug, PartialEq)]
pub struct Payment2DErrorResponse {
    pub message: String,
    pub errors: Payment2DErrorsBody,
}

/// One answer of the gateway, classified.
#[derive(Debug, PartialEq)]
pub enum Payment2DResponse {
    Success(Payment2DSuccessResponse),
    InvalidHash(Payment2DInvalidHashResponse),
    Error(Payment2DErrorResponse),
}

/// The view of [`Payment2DSuccessData`].
pub ghost struct SuccessData {
    pub order_no: Seq<char>,
    pub order_id: Seq<char>,
    pub invoice_id: Seq<char>,
    pub credit_card_no: Seq<char>,
    pub transaction_type: Seq<char>,
    pub payment_status: i64,
    pub payment_method: i64,
    pub error_code: i64,
    pub error: Seq<char>,
    pub auth_code: i64,
    pub merchant_commission: Number,
    pub user_commission: i64,
    pub merchant_commission_percentage: Number,
    pub merchant_commission_fixed: i64,
    pub payment_reason_code: Seq<char>,
    pub payment_reason_code_detail: Seq<char>,
    pub hash_key: Seq<char>,
    pub original_bank_error_code: Seq<char>,
    pub original_bank_error_description: Seq<char>,
}

/// The view of [`Payment2DSuccessResponse`].
pub ghost struct SuccessResponse {
    pub status_code: i64,
    pub status_description: Seq<char>,
    pub data: SuccessData,
}

/// The view of [`Payment2DInvalidHashData`].
pub ghost struct InvalidHashData {
    pub invoice_id: Seq<char>,
    pub order_no: Seq<char>,
    pub order_id: Seq<char>,
    pub credit_card_no: Seq<char>,
    pub transaction_type: Seq<char>,
    pub payment_status: i64,
    pub payment_method: i64,
    pub error_code: i64,
    pub error: Seq<char>,
    pub auth_code: Seq<char>,
    pub hash_key: Seq<char>,
}

/// The view of [`Payment2DInvalidSubData`].
pub ghost struct InvalidSubData {
    pub status_code: i64,
    pub status_description: Seq<char>,
    pub data: InvalidHashData,
}

/// The view of [`Payment2DInvalidHashResponse`].
pub ghost struct InvalidHashResponse {
    pub data: InvalidSubData,
    pub message: Seq<char>,
}

/// The view of [`Payment2DErrorsBody`].
pub ghost struct ErrorsBody {
    pub merchant_key: Seq<Seq<char>>,
}

/// The view of [`Payment2DErrorResponse`].
pub ghost struct ErrorResponse {
    pub message: Seq<char>,
    pub errors: ErrorsBody,
}

/// The view of [`Payment2DResponse`].
pub ghost enum Outcome {
    Success(SuccessResponse),
    InvalidHash(InvalidHashResponse),
    Error(ErrorResponse),
}

/// The characters of each string of a sequence.
pub open spec fn texts_of(strings: Seq<String>) -> Seq<Seq<char>> {
    Seq::new(strings.len(), |i: int| strings[i]@)
}

impl View for Payment2DSuccessData {
    type V = SuccessData;

    open spec fn view(&self) -> SuccessData {
        SuccessData {
            order_no: self.order_no@,
            order_id: self.order_id@,
            invoice_id: self.invoice_id@,
            credit_card_no: self.credit_card_no@,
            transaction_type: self.transaction_type@,
            payment_status: self.payment_status,
            payment_method: self.payment_method,
            error_code: self.error_code,
            error: self.error@,
            auth_code: self.auth_code,
            merchant_commission: self.merchant_commission,
            user_commission: self.user_commission,
            merchant_commission_percentage: self.merchant_commission_percentage,
            merchant_commission_fixed: self.merchant_commission_fixed,
            payment_reason_code: self.payment_reason_code@,
            payment_reason_code_detail: self.payment_reason_code_detail@,
            hash_key: self.hash_key@,
            original_bank_error_code: self.original_bank_error_code@,
            original_bank_error_description: self.original_bank_error_description@,
        }
    }
}

impl View for Payment2DSuccessResponse {
    type V = SuccessResponse;

    open spec fn view(&self) -> SuccessResponse {
        SuccessResponse {
            status_code: self.status_code,
            status_description: self.status_description@,
            data: self.data@,
        }
    }
}

impl View for Payment2DInvalidHashData {
    type V = InvalidHashData;

    open spec fn view(&self) -> InvalidHashData {
        InvalidHashData {
            invoice_id: self.invoice_id@,
            order_no: self.order_no@,
            order_id: self.order_id@,
            credit_card_no: self.credit_card_no@,
            transaction_type: self.transaction_type@,
            payment_status: self.payment_status,
            payment_method: self.payment_method,
            error_code: self.error_code,
            error: self.error@,
            auth_code: self.auth_code@,
            hash_key: self.hash_key@,
        }
    }
}

impl View for Payment2DInvalidSubData {
    type V = InvalidSubData;

    open spec fn view(&self) -> InvalidSubData {
        InvalidSubData {
            status_code: self.status_code,
            status_description: self.status_description@,
            data: self.data@,
        }
    }
}

impl View for Payment2DInvalidHashResponse {
    type V = InvalidHashResponse;

    open spec fn view(&self) -> InvalidHashResponse {
        InvalidHashResponse {
            data: self.data@,
            message: self.message@,
        }
    }
}

impl View for Payment2DErrorsBody {
    type V = ErrorsBody;

    open spec fn view(&self) -> ErrorsBody {
        ErrorsBody {
            merchant_key: texts_of(self.merchant_key@),
        }
    }
}

impl View for Payment2DErrorResponse {
    type V = ErrorResponse;

    open spec fn view(&self) -> ErrorResponse {
        ErrorResponse {
            message: self.message@,
            errors: self.errors@,
        }
    }
}

impl View for Payment2DResponse {
    type V = Outcome;

    open spec fn view(&self) -> Outcome {
        match self {
            Payment2DResponse::Success(x) => Outcome::Success(x@),
            Payment2DResponse::InvalidHash(x) => Outcome::InvalidHash(x@),
            Payment2DResponse::Error(x) => Outcome::Error(x@),
        }
    }
}

/// The string that a document holds under a key.
pub open spec fn text_at(d: Doc, key: Seq<char>) -> Option<Seq<char>> {
    match d.member(key) {
        Some(v) => v.text(),
        None => None,
    }
}

/// The signed 64-bit integer that a document holds under a key.
pub open spec fn int_at(d: Doc, key: Seq<char>) -> Option<i64> {
    match d.member(key) {
        Some(v) => v.integer(),
        None => None,
    }
}

/// The number, of any form, that a document holds under a key.
pub open spec fn number_at(d: Doc, key: Seq<char>) -> Option<Number> {
    match d.member(key) {
        Some(v) => v.number(),
        None => None,
    }
}

/// The strings of the array of strings that a document holds under a key.
pub open spec fn texts_at(d: Doc, key: Seq<char>) -> Option<Seq<Seq<char>>> {
    match d.member(key) {
        Some(v) => v.texts(),
        None => None,
    }
}

/// The record of a payment that went through, where a document has that shape:
/// every member is there and of its kind. Here `auth_code` is an integer.
pub open spec fn success_data_of(d: Doc) -> Option<SuccessData> {
    if text_at(d, "order_no"@) is Some
        && text_at(d, "order_id"@) is Some
        && text_at(d, "invoice_id"@) is Some
        && text_at(d, "credit_card_no"@) is Some
        && text_at(d, "transaction_type"@) is Some
        && int_at(d, "payment_status"@) is Some
        && int_at(d, "payment_method"@) is Some
        && int_at(d, "error_code"@) is Some
        && text_at(d, "error"@) is Some
        && int_at(d, "auth_code"@) is Some
        && number_at(d, "merchant_commission"@) is Some
        && int_at(d, "user_commission"@) is Some
        && number_at(d, "merchant_commission_percentage"@) is Some
        && int_at(d, "merchant_commission_fixed"@) is Some
        && text_at(d, "payment_reason_code"@) is Some
        && text_at(d, "payment_reason_code_detail"@) is Some
        && text_at(d, "hash_key"@) is Some
        && text_at(d, "original_bank_error_code"@) is Some
        && text_at(d, "original_bank_error_description"@) is Some {
        Some(
            SuccessData {
                order_no: text_at(d, "order_no"@)->Some_0,
                order_id: text_at(d, "order_id"@)->Some_0,
                invoice_id: text_at(d, "invoice_id"@)->Some_0,
                credit_card_no: text_at(d, "credit_card_no"@)->Some_0,
                transaction_type: text_at(d, "transaction_type"@)->Some_0,
                payment_status: int_at(d, "payment_status"@)->Some_0,
                payment_method: int_at(d, "payment_method"@)->Some_0,
                error_code: int_at(d, "error_code"@)->Some_0,
                error: text_at(d, "error"@)->Some_0,
                auth_code: int_at(d, "auth_code"@)->Some_0,
                merchant_commission: number_at(d, "merchant_commission"@)->Some_0,
                user_commission: int_at(d, "user_commission"@)->Some_0,
                merchant_commission_percentage: number_at(d, "merchant_commission_percentage"@)->Some_0,
                merchant_commission_fixed: int_at(d, "merchant_commission_fixed"@)->Some_0,
                payment_reason_code: text_at(d, "payment_reason_code"@)->Some_0,
                payment_reason_code_detail: text_at(d, "payment_reason_code_detail"@)->Some_0,
                hash_key: text_at(d, "hash_key"@)->Some_0,
                original_bank_error_code: text_at(d, "original_bank_error_code"@)->Some_0,
                original_bank_error_description: text_at(d, "original_bank_error_description"@)->Some_0,
            },
        )
    } else {
        None
    }
}

/// The record of a refused hash, where a document has that shape: every member
/// is there and of its kind. Here `auth_code` is a string.
pub open spec fn invalid_hash_data_of(d: Doc) -> Option<InvalidHashData> {
    if text_at(d, "invoice_id"@) is Some
        && text_at(d, "order_no"@) is Some
        && text_at(d, "order_id"@) is Some
        && text_at(d, "credit_card_no"@) is Some
        && text_at(d, "transaction_type"@) is Some
        && int_at(d, "payment_status"@) is Some
        && int_at(d, "payment_method"@) is Some
        && int_at(d, "error_code"@) is Some
        && text_at(d, "error"@) is Some
        && text_at(d, "auth_code"@) is Some
        && text_at(d, "hash_key"@) is Some {
        Some(
            InvalidHashData {
                invoice_id: text_at(d, "invoice_id"@)->Some_0,
                order_no: text_at(d, "order_no"@)->Some_0,
                order_id: text_at(d, "order_id"@)->Some_0,
                credit_card_no: text_at(d, "credit_card_no"@)->Some_0,
                transaction_type: text_at(d, "transaction_type"@)->Some_0,
                payment_status: int_at(d, "payment_status"@)->Some_0,
                payment_method: int_at(d, "payment_method"@)->Some_0,
                error_code: int_at(d, "error_code"@)->Some_0,
                error: text_at(d, "error"@)->Some_0,
                auth_code: text_at(d, "auth_code"@)->Some_0,
                hash_key: text_at(d, "hash_key"@)->Some_0,
            },
        )
    } else {
        None
    }
}

/// Whether a key is one that the record of a payment that went through is
/// read by.
pub open spec fn is_success_data_key(key: Seq<char>) -> bool {
    key == "order_no"@
        || key == "order_id"@
        || key == "invoice_id"@
        || key == "credit_card_no"@
        || key == "transaction_type"@
        || key == "payment_status"@
        || key == "payment_method"@
        || key == "error_code"@
        || key == "error"@
        || key == "auth_code"@
        || key == "merchant_commission"@
        || key == "user_commission"@
        || key == "merchant_commission_percentage"@
        || key == "merchant_commission_fixed"@
        || key == "payment_reason_code"@
        || key == "payment_reason_code_detail"@
        || key == "hash_key"@
        || key == "original_bank_error_code"@
        || key == "original_bank_error_description"@
}

/// Whether a key is one that the record of a refused hash is read by.
pub open spec fn is_invalid_hash_data_key(key: Seq<char>) -> bool {
    key == "invoice_id"@
        || key == "order_no"@
        || key == "order_id"@
        || key == "credit_card_no"@
        || key == "transaction_type"@
        || key == "payment_status"@
        || key == "payment_method"@
        || key == "error_code"@
        || key == "error"@
        || key == "auth_code"@
        || key == "hash_key"@
}

/// Whether a key is one that a status around a record is read by.
pub open spec fn is_status_key(key: Seq<char>) -> bool {
    key == "status_code"@
        || key == "status_description"@
        || key == "data"@
}

/// Whether a key is one that an answer is read by, at its top.
pub open spec fn is_answer_key(key: Seq<char>) -> bool {
    key == "status_code"@
        || key == "status_description"@
        || key == "data"@
        || key == "message"@
        || key == "errors"@
}

/// The answer to a payment that went through, where a document has that
/// shape.
pub open spec fn success_of(d: Doc) -> Option<SuccessResponse> {
    if int_at(d, "status_code"@) is Some
        && text_at(d, "status_description"@) is Some
        && d.member("data"@) is Some
        && success_data_of(d.member("data"@)->Some_0) is Some {
        Some(
            SuccessResponse {
                status_code: int_at(d, "status_code"@)->Some_0,
                status_description: text_at(d, "status_description"@)->Some_0,
                data: success_data_of(d.member("data"@)->Some_0)->Some_0,
            },
        )
    } else {
        None
    }
}

/// The status of a refused hash, where a document has that shape.
pub open spec fn invalid_sub_data_of(d: Doc) -> Option<InvalidSubData> {
    if int_at(d, "status_code"@) is Some
        && text_at(d, "status_description"@) is Some
        && d.member("data"@) is Some
        && invalid_hash_data_of(d.member("data"@)->Some_0) is Some {
        Some(
            InvalidSubData {
                status_code: int_at(d, "status_code"@)->Some_0,
                status_description: text_at(d, "status_description"@)->Some_0,
                data: invalid_hash_data_of(d.member("data"@)->Some_0)->Some_0,
            },
        )
    } else {
        None
    }
}

/// The answer to a refused hash, where a document has that shape.
pub open spec fn invalid_hash_of(d: Doc) -> Option<InvalidHashResponse> {
    if d.member("data"@) is Some
        && invalid_sub_data_of(d.member("data"@)->Some_0) is Some
        && text_at(d, "message"@) is Some {
        Some(
            InvalidHashResponse {
                data: invalid_sub_data_of(d.member("data"@)->Some_0)->Some_0,
                message: text_at(d, "message"@)->Some_0,
            },
        )
    } else {
        None
    }
}

/// The complaints about single fields, where a document has that shape.
pub open spec fn errors_body_of(d: Doc) -> Option<ErrorsBody> {
    if texts_at(d, "merchant_key"@) is Some {
        Some(ErrorsBody { merchant_key: texts_at(d, "merchant_key"@)->Some_0 })
    } else {
        None
    }
}

/// The answer to an invalid request, where a document has that shape.
pub open spec fn error_of(d: Doc) -> Option<ErrorResponse> {
    if text_at(d, "message"@) is Some
        && d.member("errors"@) is Some
        && errors_body_of(d.member("errors"@)->Some_0) is Some {
        Some(
            ErrorResponse {
                message: text_at(d, "message"@)->Some_0,
                errors: errors_body_of(d.member("errors"@)->Some_0)->Some_0,
            },
        )
    } else {
        None
    }
}

/// The outcome that a document stands for: the first of success, refused hash
/// and invalid request whose shape it has, and `None` where it has none of
/// the three.
pub open spec fn classification(d: Doc) -> Option<Outcome> {
    if success_of(d) is Some {
        Some(Outcome::Success(success_of(d)->Some_0))
    } else if invalid_hash_of(d) is Some {
        Some(Outcome::InvalidHash(invalid_hash_of(d)->Some_0))
    } else if error_of(d) is Some {
        Some(Outcome::Error(error_of(d)->Some_0))
    } else {
        None
    }
}

/// What decoding the body of an answer gives: the outcome, or the reason why
/// there is none. `document` is what the body denotes, `None` where it is not
/// JSON.
pub open spec fn decoding(document: Option<Doc>) -> Result<Outcome, Rejection> {
    match document {
        None => Err(Rejection::Malformed),
        Some(d) => match classification(d) {
            Some(outcome) => Ok(outcome),
            None => Err(Rejection::Unmatched(d)),
        },
    }
}

/// Why the body of an answer gives no outcome.
pub ghost enum Rejection {
    /// The body is not JSON.
    Malformed,
    /// The body is this document, which has none of the three shapes.
    Unmatched(Doc),
}

fn read_text(d: &Json, key: &str) -> (r: Option<String>)
    ensures
        match r {
            Some(s) => text_at(d@, key@) == Some(s@),
            None => text_at(d@, key@) is None,
        },
{
    match d.get(key) {
        Some(v) => match v.as_string() {
            Some(s) => Some(s.clone()),
            None => None,
        },
        None => None,
    }
}

fn read_int(d: &Json, key: &str) -> (r: Option<i64>)
    ensures
        r == int_at(d@, key@),
{
    match d.get(key) {
        Some(v) => v.as_i64(),
        None => None,
    }
}

fn read_number(d: &Json, key: &str) -> (r: Option<Number>)
    ensures
        r == number_at(d@, key@),
{
    match d.get(key) {
        Some(v) => v.as_number(),
        None => None,
    }
}

fn read_texts(d: &Json, key: &str) -> (r: Option<Vec<String>>)
    ensures
        match r {
            Some(v) => texts_at(d@, key@) == Some(texts_of(v@)),
            None => texts_at(d@, key@) is None,
        },
{
    let items = match d.get(key) {
        Some(v) => match v.as_array() {
            Some(items) => items,
            None => return None,
        },
        None => return None,
    };
    let ghost docs = views(items@);
    let mut out: Vec<String> = Vec::new();
    let mut i: usize = 0;
    while i < items.len()
        invariant
            i <= items@.len(),
            out@.len() == i,
            docs == views(items@),
            d@.member(key@) == Some(Doc::Array(docs)),
            forall|k: int| 0 <= k < i ==> (#[trigger] docs[k]) == Doc::Text(out@[k]@),
        decreases items@.len() - i,
    {
        match items[i].as_string() {
            Some(s) => {
                out.push(s.clone());
            },
            None => {
                assert(!(docs[i as int] is Text));
                return None;
            },
        }
        i += 1;
    }
    assert(Doc::Array(docs).texts()->Some_0 =~= texts_of(out@));
    Some(out)
}

/// Reads the record of a payment that went through.
fn read_success_data(d: &Json) -> (r: Option<Payment2DSuccessData>)
    ensures
        match r {
            Some(x) => success_data_of(d@) == Some(x@),
            None => success_data_of(d@) is None,
        },
{
    let order_no = match read_text(d, "order_no") {
        Some(x) => x,
        None => return None,
    };
    let order_id = match read_text(d, "order_id") {
        Some(x) => x,
        None => return None,
    };
    let invoice_id = match read_text(d, "invoice_id") {
        Some(x) => x,
        None => return None,
    };
    let credit_card_no = match read_text(d, "credit_card_no") {
        Some(x) => x,
        None => return None,
    };
    let transaction_type = match read_text(d, "transaction_type") {
        Some(x) => x,
        None => return None,
    };
    let payment_status = match read_int(d, "payment_status") {
        Some(x) => x,
        None => return None,
    };
    let payment_method = match read_int(d, "payment_method") {
        Some(x) => x,
        None => return None,
    };
    let error_code = match read_int(d, "error_code") {
        Some(x) => x,
        None => return None,
    };
    let error = match read_text(d, "error") {
        Some(x) => x,
        None => return None,
    };
    let auth_code = match read_int(d, "auth_code") {
        Some(x) => x,
        None => return None,
    };
    let merchant_commission = match read_number(d, "merchant_commission") {
        Some(x) => x,
        None => return None,
    };
    let user_commission = match read_int(d, "user_commission") {
        Some(x) => x,
        None => return None,
    };
    let merchant_commission_percentage = match read_number(d, "merchant_commission_percentage") {
        Some(x) => x,
        None => return None,
    };
    let merchant_commission_fixed = match read_int(d, "merchant_commission_fixed") {
        Some(x) => x,
        None => return None,
    };
    let payment_reason_code = match read_text(d, "payment_reason_code") {
        Some(x) => x,
        None => return None,
    };
    let payment_reason_code_detail = match read_text(d, "payment_reason_code_detail") {
        Some(x) => x,
        None => return None,
    };
    let hash_key = match read_text(d, "hash_key") {
        Some(x) => x,
        None => return None,
    };
    let original_bank_error_code = match read_text(d, "original_bank_error_code") {
        Some(x) => x,
        None => return None,
    };
    let original_bank_error_description = match read_text(d, "original_bank_error_description") {
        Some(x) => x,
        None => return None,
    };
    Some(Payment2DSuccessData { order_no, order_id, invoice_id, credit_card_no, transaction_type, payment_status, payment_method, error_code, error, auth_code, merchant_commission, user_commission, merchant_commission_percentage, merchant_commission_fixed, payment_reason_code, payment_reason_code_detail, hash_key, original_bank_error_code, original_bank_error_description })
}

/// Reads the record of a refused hash.
fn read_invalid_hash_data(d: &Json) -> (r: Option<Payment2DInvalidHashData>)
    ensures
        match r {
            Some(x) => invalid_hash_data_of(d@) == Some(x@),
            None => invalid_hash_data_of(d@) is None,
        },
{
    let invoice_id = match read_text(d, "invoice_id") {
        Some(x) => x,
        None => return None,
    };
    let order_no = match read_text(d, "order_no") {
        Some(x) => x,
        None => return None,
    };
    let order_id = match read_text(d, "order_id") {
        Some(x) => x,
        None => return None,
    };
    let credit_card_no = match read_text(d, "credit_card_no") {
        Some(x) => x,
        None => return None,
    };
    let transaction_type = match read_text(d, "transaction_type") {
        Some(x) => x,
        None => return None,
    };
    let payment_status = match read_int(d, "payment_status") {
        Some(x) => x,
        None => return None,
    };
    let payment_method = match read_int(d, "payment_method") {
        Some(x) => x,
        None => return None,
    };
    let error_code = match read_int(d, "error_code") {
        Some(x) => x,
        None => return None,
    };
    let error = match read_text(d, "error") {
        Some(x) => x,
        None => return None,
    };
    let auth_code = match read_text(d, "auth_code") {
        Some(x) => x,
        None => return None,
    };
    let hash_key = match read_text(d, "hash_key") {
        Some(x) => x,
        None => return None,
    };
    Some(Payment2DInvalidHashData { invoice_id, order_no, order_id, credit_card_no, transaction_type, payment_status, payment_method, error_code, error, auth_code, hash_key })
}

fn read_success(d: &Json) -> (r: Option<Payment2DSuccessResponse>)
    ensures
        match r {
            Some(x) => success_of(d@) == Some(x@),
            None => success_of(d@) is None,
        },
{
    let status_code = match read_int(d, "status_code") {
        Some(x) => x,
        None => return None,
    };
    let status_description = match read_text(d, "status_description") {
        Some(x) => x,
        None => return None,
    };
    let data = match d.get("data") {
        Some(inner) => match read_success_data(inner) {
            Some(x) => x,
            None => return None,
        },
        None => return None,
    };
    Some(Payment2DSuccessResponse { status_code, status_description, data })
}

fn read_invalid_sub_data(d: &Json) -> (r: Option<Payment2DInvalidSubData>)
    ensures
        match r {
            Some(x) => invalid_sub_data_of(d@) == Some(x@),
            None => invalid_sub_data_of(d@) is None,
        },
{
    let status_code = match read_int(d, "status_code") {
        Some(x) => x,
        None => return None,
    };
    let status_description = match read_text(d, "status_description") {
        Some(x) => x,
        None => return None,
    };
    let data = match d.get("data") {
        Some(inner) => match read_invalid_hash_data(inner) {
            Some(x) => x,
            None => return None,
        },
        None => return None,
    };
    Some(Payment2DInvalidSubData { status_code, status_description, data })
}

fn read_invalid_hash(d: &Json) -> (r: Option<Payment2DInvalidHashResponse>)
    ensures
        match r {
            Some(x) => invalid_hash_of(d@) == Some(x@),
            None => invalid_hash_of(d@) is None,
        },
{
    let data = match d.get("data") {
        Some(inner) => match read_invalid_sub_data(inner) {
            Some(x) => x,
            None => return None,
        },
        None => return None,
    };
    let message = match read_text(d, "message") {
        Some(x) => x,
        None => return None,
    };
    Some(Payment2DInvalidHashResponse { data, message })
}

fn read_error(d: &Json) -> (r: Option<Payment2DErrorResponse>)
    ensures
        match r {
            Some(x) => error_of(d@) == Some(x@),
            None => error_of(d@) is None,
        },
{
    let message = match read_text(d, "message") {
        Some(x) => x,
        None => return None,
    };
    let errors = match d.get("errors") {
        Some(inner) => match read_texts(inner, "merchant_key") {
            Some(merchant_key) => Payment2DErrorsBody { merchant_key },
            None => return None,
        },
        None => return None,
    };
    Some(Payment2DErrorResponse { message, errors })
}

impl Payment2DResponse {
    /// The outcome that a document stands for, by its shape.
    pub fn recognize(doc: &Json) -> (r: Option<Payment2DResponse>)
        ensures
            match r {
                Some(x) => classification(doc@) == Some(x@),
                None => classification(doc@) is None,
            },
    {
        if let Some(x) = read_success(doc) {
            return Some(Payment2DResponse::Success(x));
        }
        if let Some(x) = read_invalid_hash(doc) {
            return Some(Payment2DResponse::InvalidHash(x));
        }
        if let Some(x) = read_error(doc) {
            return Some(Payment2DResponse::Error(x));
        }
        None
    }

    /// Classifies the document of an answer. A document with none of the
    /// three shapes comes back inside the error, untouched.
    pub fn classify(doc: Json) -> (r: Result<Payment2DResponse, GatewayError>)
        ensures
            match r {
                Ok(x) => classification(doc@) == Some(x@),
                Err(e) => classification(doc@) is None && e == GatewayError::Decode(
                    DecodeError::Unmatched { document: doc },
                ),
            },
    {
        match Payment2DResponse::recognize(&doc) {
            Some(x) => Ok(x),
            None => Err(GatewayError::Decode(DecodeError::Unmatched { document: doc })),
        }
    }

    /// Decodes the body of an answer: reads the bytes as JSON, then classifies
    /// the document. What is refused comes back inside the error: the body
    /// that is not JSON, or the document that has none of the three shapes.
    pub fn decode(body: Vec<u8>) -> (r: Result<Payment2DResponse, GatewayError>)
        ensures
            match decoding(parsed(body@)) {
                Ok(outcome) => r matches Ok(x) && x@ == outcome,
                Err(Rejection::Malformed) => r matches Err(
                    GatewayError::Decode(DecodeError::Malformed { body: kept, .. }),
                ) && kept == body,
                Err(Rejection::Unmatched(d)) => r matches Err(
                    GatewayError::Decode(DecodeError::Unmatched { document }),
                ) && document@ == d,
            },
    {
        match Json::parse(body.as_slice()) {
            Ok(doc) => Payment2DResponse::classify(doc),
            Err(cause) => Err(GatewayError::Decode(DecodeError::Malformed { body, cause })),
        }
    }
}

} // verus!
