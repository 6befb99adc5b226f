//! What holds of the library as a whole.

use crate::document::{find_from, lemma_find_concat, Doc, Number};
use crate::response::{
    classification, error_of, errors_body_of, int_at, invalid_hash_data_of, invalid_hash_of,
    invalid_sub_data_of, is_answer_key, is_invalid_hash_data_key, is_status_key,
    is_success_data_key, success_data_of, success_of, text_at, Outcome,
};
use crate::token::{amount_doc, item_documents, optional_int, optional_text, Payment2DBody};
use crate::{api_base_of, production_api_base, sandbox_api_base};
use vstd::prelude::*;

verus! {

/// Every choice of environment resolves to one of two fixed base addresses:
/// the sandbox's for the sandbox, the production one otherwise. The two
/// differ.
pub proof fn law_base_address(dev_mode: bool)
    ensures
        api_base_of(true) == "https://test.vepara.com.tr/ccpayment"@,
        api_base_of(false) == "https://app.vepara.com.tr/ccpayment"@,
        api_base_of(dev_mode) == sandbox_api_base() || api_base_of(dev_mode)
            == production_api_base(),
        sandbox_api_base() != production_api_base(),
{
    reveal_strlit("https://test.vepara.com.tr/ccpayment");
    reveal_strlit("https://app.vepara.com.tr/ccpayment");
    assert(sandbox_api_base().len() != production_api_base().len());
}

/// An answer is classified by what it holds under the five keys that an
/// answer is read by, and by nothing else: two documents that agree there
/// have the same classification.
pub proof fn law_classification_reads_known_members(a: Doc, b: Doc)
    requires
        forall|key: Seq<char>| is_answer_key(key) ==> a.member(key) == b.member(key),
    ensures
        classification(a) == classification(b),
{
    assert(is_answer_key("status_code"@));
    assert(is_answer_key("status_description"@));
    assert(is_answer_key("data"@));
    assert(is_answer_key("message"@));
    assert(is_answer_key("errors"@));
}

/// A member under a key that an answer is not read by, put in anywhere at
/// the top of an answer, does not change the classification.
pub proof fn law_extra_member_is_ignored(answer: Doc, at: int, key: Seq<char>, value: Doc)
    requires
        answer matches Doc::Object(members) && 0 <= at <= members.len(),
        !is_answer_key(key),
    ensures
        classification(answer.with_extra(at, key, value)) == classification(answer),
{
    let longer = answer.with_extra(at, key, value);
    assert forall|known: Seq<char>| is_answer_key(known) implies longer.member(known)
        == answer.member(known) by {
        answer.lemma_member_with_extra(at, key, value, known);
    }
    law_classification_reads_known_members(longer, answer);
}

/// A record is read by what it holds under the keys of its shape, and by
/// nothing else: two documents that agree under the keys of a shape give the
/// same record of that shape, or both give none.
pub proof fn law_records_read_known_members(a: Doc, b: Doc)
    ensures
        (forall|key: Seq<char>| is_success_data_key(key) ==> a.member(key) == b.member(key))
            ==> success_data_of(a) == success_data_of(b),
        (forall|key: Seq<char>| is_invalid_hash_data_key(key) ==> a.member(key) == b.member(key))
            ==> invalid_hash_data_of(a) == invalid_hash_data_of(b),
        a.member("merchant_key"@) == b.member("merchant_key"@) ==> errors_body_of(a)
            == errors_body_of(b),
{
    if forall|key: Seq<char>| is_success_data_key(key) ==> a.member(key) == b.member(key) {
        assert(is_success_data_key("order_no"@));
        assert(is_success_data_key("order_id"@));
        assert(is_success_data_key("invoice_id"@));
        assert(is_success_data_key("credit_card_no"@));
        assert(is_success_data_key("transaction_type"@));
        assert(is_success_data_key("payment_status"@));
        assert(is_success_data_key("payment_method"@));
        assert(is_success_data_key("error_code"@));
        assert(is_success_data_key("error"@));
        assert(is_success_data_key("auth_code"@));
        assert(is_success_data_key("merchant_commission"@));
        assert(is_success_data_key("user_commission"@));
        assert(is_success_data_key("merchant_commission_percentage"@));
        assert(is_success_data_key("merchant_commission_fixed"@));
        assert(is_success_data_key("payment_reason_code"@));
        assert(is_success_data_key("payment_reason_code_detail"@));
        assert(is_success_data_key("hash_key"@));
        assert(is_success_data_key("original_bank_error_code"@));
        assert(is_success_data_key("original_bank_error_description"@));
    }
    if forall|key: Seq<char>| is_invalid_hash_data_key(key) ==> a.member(key) == b.member(key) {
        assert(is_invalid_hash_data_key("invoice_id"@));
        assert(is_invalid_hash_data_key("order_no"@));
        assert(is_invalid_hash_data_key("order_id"@));
        assert(is_invalid_hash_data_key("credit_card_no"@));
        assert(is_invalid_hash_data_key("transaction_type"@));
        assert(is_invalid_hash_data_key("payment_status"@));
        assert(is_invalid_hash_data_key("payment_method"@));
        assert(is_invalid_hash_data_key("error_code"@));
        assert(is_invalid_hash_data_key("error"@));
        assert(is_invalid_hash_data_key("auth_code"@));
        assert(is_invalid_hash_data_key("hash_key"@));
    }
}

/// A member under a key that a record's shape does not read, put in anywhere
/// in the record, changes nothing of what the record is read as.
pub proof fn law_extra_member_in_record_is_ignored(record: Doc, at: int, key: Seq<char>, value: Doc)
    requires
        record matches Doc::Object(members) && 0 <= at <= members.len(),
    ensures
        !is_success_data_key(key) ==> success_data_of(record.with_extra(at, key, value))
            == success_data_of(record),
        !is_invalid_hash_data_key(key) ==> invalid_hash_data_of(record.with_extra(at, key, value))
            == invalid_hash_data_of(record),
        !is_status_key(key) ==> invalid_sub_data_of(record.with_extra(at, key, value))
            == invalid_sub_data_of(record),
        key != "merchant_key"@ ==> errors_body_of(record.with_extra(at, key, value))
            == errors_body_of(record),
{
    let longer = record.with_extra(at, key, value);
    assert forall|known: Seq<char>| known != key implies longer.member(known) == record.member(
        known,
    ) by {
        record.lemma_member_with_extra(at, key, value, known);
    }
    law_records_read_known_members(longer, record);
    if !is_status_key(key) {
        assert(is_status_key("status_code"@));
        assert(is_status_key("status_description"@));
        assert(is_status_key("data"@));
    }
}

/// The five keys that an answer is read by are five different keys.
proof fn lemma_answer_keys_differ()
    ensures
        "data"@ != "status_code"@,
        "data"@ != "status_description"@,
        "data"@ != "message"@,
        "data"@ != "errors"@,
        "errors"@ != "status_code"@,
        "errors"@ != "status_description"@,
        "errors"@ != "message"@,
{
    reveal_strlit("data");
    reveal_strlit("status_code");
    reveal_strlit("status_description");
    reveal_strlit("message");
    reveal_strlit("errors");
    assert("data"@.len() == 4);
    assert("errors"@.len() == 6);
    assert("message"@.len() == 7);
    assert("status_code"@.len() == 11);
    assert("status_description"@.len() == 18);
}

/// A member that no shape reads, put in anywhere in what an answer holds
/// under `data`, does not change the classification.
pub proof fn law_extra_member_in_data_is_ignored(
    answer: Doc,
    at: int,
    key: Seq<char>,
    value: Doc,
)
    requires
        answer is Object,
        answer.member("data"@) matches Some(Doc::Object(members)) && 0 <= at <= members.len(),
        !is_success_data_key(key),
        !is_status_key(key),
    ensures
        classification(
            answer.with("data"@, answer.member("data"@)->Some_0.with_extra(at, key, value)),
        ) == classification(answer),
{
    let record = answer.member("data"@)->Some_0;
    let longer = record.with_extra(at, key, value);
    let changed = answer.with("data"@, longer);
    lemma_answer_keys_differ();
    answer.lemma_member_with("data"@, longer, "status_code"@);
    answer.lemma_member_with("data"@, longer, "status_description"@);
    answer.lemma_member_with("data"@, longer, "message"@);
    answer.lemma_member_with("data"@, longer, "errors"@);
    law_extra_member_in_record_is_ignored(record, at, key, value);
}

/// A member that the record of a refused hash is not read by, put in anywhere
/// in that record, two levels down, does not change the classification.
pub proof fn law_extra_member_in_inner_data_is_ignored(
    answer: Doc,
    at: int,
    key: Seq<char>,
    value: Doc,
)
    requires
        answer is Object,
        answer.member("data"@) matches Some(Doc::Object(outer)),
        answer.member("data"@)->Some_0.member("data"@) matches Some(Doc::Object(members)) && 0
            <= at <= members.len(),
        !is_invalid_hash_data_key(key),
    ensures
        classification(
            answer.with(
                "data"@,
                answer.member("data"@)->Some_0.with(
                    "data"@,
                    answer.member("data"@)->Some_0.member("data"@)->Some_0.with_extra(
                        at,
                        key,
                        value,
                    ),
                ),
            ),
        ) == classification(answer),
{
    let status = answer.member("data"@)->Some_0;
    let record = status.member("data"@)->Some_0;
    let longer = record.with_extra(at, key, value);
    let new_status = status.with("data"@, longer);
    let changed = answer.with("data"@, new_status);
    lemma_answer_keys_differ();
    lemma_record_key_lengths();
    answer.lemma_member_with("data"@, new_status, "status_code"@);
    answer.lemma_member_with("data"@, new_status, "status_description"@);
    answer.lemma_member_with("data"@, new_status, "message"@);
    answer.lemma_member_with("data"@, new_status, "errors"@);
    assert forall|known: Seq<char>| known != "data"@ implies new_status.member(known)
        == status.member(known) by {
        status.lemma_member_with("data"@, longer, known);
    }
    status.lemma_member_with("data"@, longer, "data"@);
    law_records_read_known_members(new_status, status);
    law_extra_member_in_record_is_ignored(record, at, key, value);
}

/// A member other than `merchant_key`, put in anywhere in what an answer
/// holds under `errors`, does not change the classification.
pub proof fn law_extra_member_in_errors_is_ignored(
    answer: Doc,
    at: int,
    key: Seq<char>,
    value: Doc,
)
    requires
        answer is Object,
        answer.member("errors"@) matches Some(Doc::Object(members)) && 0 <= at <= members.len(),
        key != "merchant_key"@,
    ensures
        classification(
            answer.with("errors"@, answer.member("errors"@)->Some_0.with_extra(at, key, value)),
        ) == classification(answer),
{
    let record = answer.member("errors"@)->Some_0;
    let longer = record.with_extra(at, key, value);
    lemma_answer_keys_differ();
    answer.lemma_member_with("errors"@, longer, "status_code"@);
    answer.lemma_member_with("errors"@, longer, "status_description"@);
    answer.lemma_member_with("errors"@, longer, "message"@);
    answer.lemma_member_with("errors"@, longer, "data"@);
    law_extra_member_in_record_is_ignored(record, at, key, value);
}

/// The lengths of the keys of a payment's record, and of `data`. `auth_code`
/// and `data` have lengths of their own, so neither is another key of a
/// record.
proof fn lemma_record_key_lengths()
    ensures
        "order_no"@.len() == 8,
        "order_id"@.len() == 8,
        "invoice_id"@.len() == 10,
        "credit_card_no"@.len() == 14,
        "transaction_type"@.len() == 16,
        "payment_status"@.len() == 14,
        "payment_method"@.len() == 14,
        "error_code"@.len() == 10,
        "error"@.len() == 5,
        "auth_code"@.len() == 9,
        "merchant_commission"@.len() == 19,
        "user_commission"@.len() == 15,
        "merchant_commission_percentage"@.len() == 30,
        "merchant_commission_fixed"@.len() == 25,
        "payment_reason_code"@.len() == 19,
        "payment_reason_code_detail"@.len() == 26,
        "hash_key"@.len() == 8,
        "original_bank_error_code"@.len() == 24,
        "original_bank_error_description"@.len() == 31,
        "data"@.len() == 4,
{
    reveal_strlit("order_no");
    reveal_strlit("order_id");
    reveal_strlit("invoice_id");
    reveal_strlit("credit_card_no");
    reveal_strlit("transaction_type");
    reveal_strlit("payment_status");
    reveal_strlit("payment_method");
    reveal_strlit("error_code");
    reveal_strlit("error");
    reveal_strlit("auth_code");
    reveal_strlit("merchant_commission");
    reveal_strlit("user_commission");
    reveal_strlit("merchant_commission_percentage");
    reveal_strlit("merchant_commission_fixed");
    reveal_strlit("payment_reason_code");
    reveal_strlit("payment_reason_code_detail");
    reveal_strlit("hash_key");
    reveal_strlit("original_bank_error_code");
    reveal_strlit("original_bank_error_description");
    reveal_strlit("data");
}

/// Whether a key is a key of a payment's record other than `auth_code`.
pub open spec fn is_other_record_key(key: Seq<char>) -> bool {
    key == "order_no"@ || key == "order_id"@ || key == "invoice_id"@ || key == "credit_card_no"@
        || key == "transaction_type"@ || key == "payment_status"@ || key == "payment_method"@
        || key == "error_code"@ || key == "error"@ || key == "merchant_commission"@ || key
        == "user_commission"@ || key == "merchant_commission_percentage"@ || key
        == "merchant_commission_fixed"@ || key == "payment_reason_code"@ || key
        == "payment_reason_code_detail"@ || key == "hash_key"@ || key
        == "original_bank_error_code"@ || key == "original_bank_error_description"@
}

/// The kind of `auth_code` tells the two records of a payment apart. No
/// document is a record of both shapes. The record of a payment that went
/// through, with a string put in for its `auth_code`, is the record of a
/// refused hash and no longer that of a payment that went through. The record
/// of a refused hash, with an integer put in for its `auth_code`, is no
/// longer the record of a refused hash.
pub proof fn law_auth_code_decides(record: Doc, code: Doc)
    requires
        record is Object,
    ensures
        !(success_data_of(record) is Some && invalid_hash_data_of(record) is Some),
        success_data_of(record) is Some ==> int_at(record, "auth_code"@) is Some,
        invalid_hash_data_of(record) is Some ==> text_at(record, "auth_code"@) is Some,
        success_data_of(record) is Some && code is Text ==> {
            &&& invalid_hash_data_of(record.with("auth_code"@, code)) is Some
            &&& success_data_of(record.with("auth_code"@, code)) is None
        },
        invalid_hash_data_of(record) is Some && code.integer() is Some ==> invalid_hash_data_of(
            record.with("auth_code"@, code),
        ) is None,
{
    let changed = record.with("auth_code"@, code);
    lemma_record_key_lengths();
    assert forall|key: Seq<char>| #[trigger] is_other_record_key(key) implies changed.member(key)
        == record.member(key) by {
        record.lemma_member_with("auth_code"@, code, key);
    }
    record.lemma_member_with("auth_code"@, code, "auth_code"@);
    assert(is_other_record_key("order_no"@));
    assert(is_other_record_key("order_id"@));
    assert(is_other_record_key("invoice_id"@));
    assert(is_other_record_key("credit_card_no"@));
    assert(is_other_record_key("transaction_type"@));
    assert(is_other_record_key("payment_status"@));
    assert(is_other_record_key("payment_method"@));
    assert(is_other_record_key("error_code"@));
    assert(is_other_record_key("error"@));
    assert(is_other_record_key("hash_key"@));
}

/// What the outcome says of `auth_code`: in an answer classified as a payment
/// that went through, the record under `data` holds an integer there; in one
/// classified as a refused hash, the record under `data`, `data` holds a
/// string there.
pub proof fn law_outcome_follows_auth_code(answer: Doc)
    ensures
        classification(answer) matches Some(Outcome::Success(_)) ==> int_at(
            answer.member("data"@)->Some_0,
            "auth_code"@,
        ) is Some,
        classification(answer) matches Some(Outcome::InvalidHash(_)) ==> text_at(
            answer.member("data"@)->Some_0.member("data"@)->Some_0,
            "auth_code"@,
        ) is Some,
{
}

/// Put a string in for the `auth_code` of an answer classified as a payment
/// that went through, and it is no longer classified so. Put an integer in
/// for the `auth_code` of an answer with the shape of a refused hash, and it
/// no longer has that shape.
pub proof fn law_auth_code_changes_the_outcome(answer: Doc, code: Doc)
    requires
        answer is Object,
    ensures
        success_of(answer) is Some && code is Text ==> !(classification(
            answer.with("data"@, answer.member("data"@)->Some_0.with("auth_code"@, code)),
        ) matches Some(Outcome::Success(_))),
        invalid_hash_of(answer) is Some && code.integer() is Some ==> invalid_hash_of(
            answer.with(
                "data"@,
                answer.member("data"@)->Some_0.with(
                    "data"@,
                    answer.member("data"@)->Some_0.member("data"@)->Some_0.with(
                        "auth_code"@,
                        code,
                    ),
                ),
            ),
        ) is None,
{
    lemma_answer_keys_differ();
    if success_of(answer) is Some && code is Text {
        let record = answer.member("data"@)->Some_0;
        let changed = record.with("auth_code"@, code);
        answer.lemma_member_with("data"@, changed, "data"@);
        law_auth_code_decides(record, code);
    }
    if invalid_hash_of(answer) is Some && code.integer() is Some {
        let status = answer.member("data"@)->Some_0;
        let record = status.member("data"@)->Some_0;
        let changed = record.with("auth_code"@, code);
        let new_status = status.with("data"@, changed);
        answer.lemma_member_with("data"@, new_status, "data"@);
        status.lemma_member_with("data"@, changed, "data"@);
        law_auth_code_decides(record, code);
    }
}

/// An answer that does not hold both `status_code` and `message`, nor both
/// `data` and `errors`, has the shape of one outcome at most.
pub proof fn law_shapes_exclude(answer: Doc)
    requires
        !(answer.member("status_code"@) is Some && answer.member("message"@) is Some),
        !(answer.member("data"@) is Some && answer.member("errors"@) is Some),
    ensures
        !(success_of(answer) is Some && invalid_hash_of(answer) is Some),
        !(success_of(answer) is Some && error_of(answer) is Some),
        !(invalid_hash_of(answer) is Some && error_of(answer) is Some),
{
}

/// The shapes are tried in a fixed order: an answer with the shape of a
/// payment that went through is classified so whatever else it holds, one
/// with the shape of a refused hash unless it has the first shape too, one
/// with the shape of an invalid request unless it has one of the other two.
/// An answer with none of the three shapes is not classified at all.
pub proof fn law_first_shape_decides(answer: Doc)
    ensures
        success_of(answer) is Some ==> classification(answer) == Some(
            Outcome::Success(success_of(answer)->Some_0),
        ),
        success_of(answer) is None && invalid_hash_of(answer) is Some ==> classification(answer)
            == Some(Outcome::InvalidHash(invalid_hash_of(answer)->Some_0)),
        success_of(answer) is None && invalid_hash_of(answer) is None && error_of(answer) is Some
            ==> classification(answer) == Some(Outcome::Error(error_of(answer)->Some_0)),
        classification(answer) is None <==> success_of(answer) is None && invalid_hash_of(answer)
            is None && error_of(answer) is None,
{
}

/// What a request holds under each of the gateway's names: every required
/// field under its own name, a string as a string and an integer as an
/// integer, and an optional field under its name where it is there and
/// nowhere where it is absent.
pub proof fn law_request_members(body: Payment2DBody)
    ensures
        body.document().member("cc_holder_name"@) == Some(Doc::Text(body.cc_holder_name@)),
        body.document().member("cc_no"@) == Some(Doc::Text(body.cc_no@)),
        body.document().member("expiry_year"@) == Some(
            Doc::Number(Number::of_i32(body.expiry_year)),
        ),
        body.document().member("expiry_month"@) == Some(
            Doc::Number(Number::of_i32(body.expiry_month)),
        ),
        body.document().member("cvv"@) == match body.cvv {
            Some(cvv) => Some(Doc::Number(Number::of_i32(cvv))),
            None => None,
        },
        body.document().member("currency_code"@) == Some(Doc::Text(body.currency_code@)),
        body.document().member("installments_number"@) == Some(
            Doc::Number(Number::of_i32(body.installments_number)),
        ),
        body.document().member("invoice_id"@) == Some(Doc::Text(body.invoice_id@)),
        body.document().member("invoice_description"@) == Some(
            Doc::Text(body.invoice_description@),
        ),
        body.document().member("name"@) == Some(Doc::Text(body.name@)),
        body.document().member("surname"@) == Some(Doc::Text(body.surname@)),
        body.document().member("total"@) == Some(amount_doc(body.total)),
        body.document().member("merchant_key"@) == Some(Doc::Text(body.merchant_key@)),
        body.document().member("items"@) == Some(Doc::Array(item_documents(body.items@))),
        body.document().member("hash_key"@) == Some(Doc::Text(body.hash_key@)),
        body.document().member("vpos_type"@) == match body.vpos_type {
            Some(vpos_type) => Some(Doc::Text(vpos_type@)),
            None => None,
        },
        body.document().member("identity_number"@) == match body.identity_number {
            Some(identity_number) => Some(Doc::Text(identity_number@)),
            None => None,
        },
{
    lemma_request_key_marks();
    let card = body.card_members();
    let cvv = optional_int("cvv"@, body.cvv);
    let invoice = body.invoice_members();
    let vpos = optional_text("vpos_type"@, body.vpos_type);
    let identity = optional_text("identity_number"@, body.identity_number);
    reveal_with_fuel(find_from, 11);
    assert forall|key: Seq<char>|
        find_from(#[trigger] (card + cvv + invoice + vpos + identity), key, 0) == match find_from(
            card,
            key,
            0,
        ) {
            Some(value) => Some(value),
            None => match find_from(cvv, key, 0) {
                Some(value) => Some(value),
                None => match find_from(invoice, key, 0) {
                    Some(value) => Some(value),
                    None => match find_from(vpos, key, 0) {
                        Some(value) => Some(value),
                        None => find_from(identity, key, 0),
                    },
                },
            },
        } by {
        lemma_find_concat(card, cvv, key, 0);
        lemma_find_concat(card + cvv, invoice, key, 0);
        lemma_find_concat(card + cvv + invoice, vpos, key, 0);
        lemma_find_concat(card + cvv + invoice + vpos, identity, key, 0);
    }
}

/// What the gateway echoes comes back as it was sent. Where the record of an
/// answer holds under `invoice_id` what the request held there, the outcome
/// carries the request's invoice number; the same of `hash_key`. The record is
/// the one under `data` for a payment that went through, and the one under
/// `data`, `data` for a refused hash.
pub proof fn law_echoed_fields_match(body: Payment2DBody, answer: Doc)
    ensures
        classification(answer) matches Some(Outcome::Success(success)) ==> {
            let record = answer.member("data"@)->Some_0;
            &&& record.member("invoice_id"@) == body.document().member("invoice_id"@)
                ==> success.data.invoice_id == body.invoice_id@
            &&& record.member("hash_key"@) == body.document().member("hash_key"@)
                ==> success.data.hash_key == body.hash_key@
        },
        classification(answer) matches Some(Outcome::InvalidHash(refused)) ==> {
            let record = answer.member("data"@)->Some_0.member("data"@)->Some_0;
            &&& record.member("invoice_id"@) == body.document().member("invoice_id"@)
                ==> refused.data.data.invoice_id == body.invoice_id@
            &&& record.member("hash_key"@) == body.document().member("hash_key"@)
                ==> refused.data.data.hash_key == body.hash_key@
        },
{
    law_request_members(body);
}

/// What tells the names of a request's fields apart: the length of a name,
/// its first character and its third.
spec fn mark(key: Seq<char>) -> (nat, char, char) {
    (key.len(), key[0], key[2])
}

/// The marks of the seventeen names of a request's fields. No two are the
/// same, so no two names are.
proof fn lemma_request_key_marks()
    ensures
        mark("cc_holder_name"@) == (14nat, 'c', '_'),
        mark("cc_no"@) == (5nat, 'c', '_'),
        mark("expiry_year"@) == (11nat, 'e', 'p'),
        mark("expiry_month"@) == (12nat, 'e', 'p'),
        mark("cvv"@) == (3nat, 'c', 'v'),
        mark("currency_code"@) == (13nat, 'c', 'r'),
        mark("installments_number"@) == (19nat, 'i', 's'),
        mark("invoice_id"@) == (10nat, 'i', 'v'),
        mark("invoice_description"@) == (19nat, 'i', 'v'),
        mark("name"@) == (4nat, 'n', 'm'),
        mark("surname"@) == (7nat, 's', 'r'),
        mark("total"@) == (5nat, 't', 't'),
        mark("merchant_key"@) == (12nat, 'm', 'r'),
        mark("items"@) == (5nat, 'i', 'e'),
        mark("hash_key"@) == (8nat, 'h', 's'),
        mark("vpos_type"@) == (9nat, 'v', 'o'),
        mark("identity_number"@) == (15nat, 'i', 'e'),
{
    reveal_strlit("cc_holder_name");
    reveal_strlit("cc_no");
    reveal_strlit("expiry_year");
    reveal_strlit("expiry_month");
    reveal_strlit("cvv");
    reveal_strlit("currency_code");
    reveal_strlit("installments_number");
    reveal_strlit("invoice_id");
    reveal_strlit("invoice_description");
    reveal_strlit("name");
    reveal_strlit("surname");
    reveal_strlit("total");
    reveal_strlit("merchant_key");
    reveal_strlit("items");
    reveal_strlit("hash_key");
    reveal_strlit("vpos_type");
    reveal_strlit("identity_number");
}

} // verus!
