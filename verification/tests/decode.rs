//! Decoding responses: which shape an object is read as, and when reading fails.
use miniserde::json::{Number, Value};
use stripe_api::customer::object::{Customer, CustomerBuilder, DeletedCustomer, DeletedCustomerBuilder};
use stripe_api::customer::page::{customers_from_items, CustomerList, CustomerSearchList};
use stripe_api::customer::retrieve::{RetrieveCustomerReturned, RetrieveCustomerReturnedBuilder};
use stripe_api::json::{JsonNumber, JsonObject, JsonValue};
use stripe_api::portal_flows::{
    PortalFlowsAfterCompletionHostedConfirmation, PortalFlowsAfterCompletionHostedConfirmationBuilder,
};
use stripe_api::setup_attempt::{
    SetupAttemptPaymentMethodDetails, SetupAttemptPaymentMethodDetailsBuilder,
};
use stripe_api::treasury::{
    TreasuryFinancialAccountsResourceStatusDetails,
    TreasuryFinancialAccountsResourceStatusDetailsBuilder,
};

fn text(s: &str) -> JsonValue {
    JsonValue::String(s.to_string())
}

fn whole(i: i64) -> JsonValue {
    JsonValue::Number(JsonNumber::Signed(i))
}

fn entries(items: Vec<(&str, JsonValue)>) -> JsonObject {
    JsonObject { entries: items.into_iter().map(|(k, v)| (k.to_string(), v)).collect() }
}

fn object(items: Vec<(&str, JsonValue)>) -> JsonValue {
    JsonValue::Object(entries(items))
}

fn lift(value: Value) -> JsonValue {
    match value {
        Value::Null => JsonValue::Null,
        Value::Bool(b) => JsonValue::Bool(b),
        Value::Number(Number::U64(n)) => JsonValue::Number(JsonNumber::Unsigned(n)),
        Value::Number(Number::I64(n)) => JsonValue::Number(JsonNumber::Signed(n)),
        Value::Number(Number::F64(n)) => JsonValue::Number(JsonNumber::Float(n.to_bits())),
        Value::String(s) => JsonValue::String(s),
        Value::Array(items) => JsonValue::Array(items.into_iter().map(lift).collect()),
        Value::Object(o) => JsonValue::Object(JsonObject {
            entries: o.into_iter().map(|(k, v)| (k, lift(v))).collect(),
        }),
    }
}

fn parse(json: &str) -> JsonValue {
    lift(miniserde::json::from_str::<Value>(json).unwrap())
}

fn live(id: &str) -> Customer {
    Customer {
        address: None,
        balance: None,
        created: None,
        currency: None,
        delinquent: None,
        description: None,
        email: None,
        id: id.to_string(),
        invoice_prefix: None,
        livemode: None,
        metadata: None,
        name: None,
        next_invoice_sequence: None,
        phone: None,
        shipping: None,
    }
}

fn deleted(id: &str) -> DeletedCustomer {
    DeletedCustomer { deleted: true, id: id.to_string() }
}

#[test]
fn deleted_marker_selects_the_deleted_shape() {
    let payload = parse(r#"{"id": "cus_1", "deleted": true}"#);
    assert_eq!(
        RetrieveCustomerReturned::from_value(payload),
        Some(RetrieveCustomerReturned::DeletedCustomer(deleted("cus_1")))
    );
}

#[test]
fn no_marker_selects_the_live_shape() {
    let payload = parse(r#"{"id": "cus_1", "email": "a@b.com"}"#);
    let mut expected = live("cus_1");
    expected.email = Some("a@b.com".to_string());
    assert_eq!(
        RetrieveCustomerReturned::from_value(payload),
        Some(RetrieveCustomerReturned::Customer(expected))
    );
}

#[test]
fn deleted_marker_wins_over_live_fields() {
    let payload = parse(
        r#"{"email": "a@b.com", "name": "Ann", "balance": 5, "deleted": true, "id": "cus_1", "livemode": false}"#,
    );
    assert_eq!(
        RetrieveCustomerReturned::from_value(payload),
        Some(RetrieveCustomerReturned::DeletedCustomer(deleted("cus_1")))
    );
    let marker_first = object(vec![("deleted", JsonValue::Bool(true)), ("id", text("cus_2"))]);
    assert_eq!(
        RetrieveCustomerReturned::from_value(marker_first),
        Some(RetrieveCustomerReturned::DeletedCustomer(deleted("cus_2")))
    );
}

#[test]
fn a_marker_that_is_not_true_selects_the_live_shape() {
    for marker in [JsonValue::Bool(false), JsonValue::Null, text("true"), whole(1)] {
        let payload = object(vec![("id", text("cus_1")), ("deleted", marker)]);
        assert_eq!(
            RetrieveCustomerReturned::from_value(payload),
            Some(RetrieveCustomerReturned::Customer(live("cus_1")))
        );
    }
}

#[test]
fn the_chosen_shape_is_not_traded_for_the_other() {
    // Marked deleted, but without the id that the deleted shape needs.
    let payload = object(vec![("deleted", JsonValue::Bool(true)), ("email", text("a@b.com"))]);
    assert_eq!(RetrieveCustomerReturned::from_value(payload), None);
    // Not marked, and without the id that the live shape needs.
    let payload = object(vec![("email", text("a@b.com"))]);
    assert_eq!(RetrieveCustomerReturned::from_value(payload), None);
    // Marked deleted, with an id that is no text.
    let payload = object(vec![("deleted", JsonValue::Bool(true)), ("id", whole(1))]);
    assert_eq!(RetrieveCustomerReturned::from_value(payload), None);
    // Not marked, with a live field of the wrong type.
    let payload = object(vec![("id", text("cus_1")), ("email", whole(1))]);
    assert_eq!(RetrieveCustomerReturned::from_value(payload), None);
    assert_eq!(RetrieveCustomerReturned::from_value(object(vec![])), None);
}

#[test]
fn only_objects_decode() {
    for payload in [
        JsonValue::Null,
        JsonValue::Bool(true),
        whole(1),
        text("cus_1"),
        JsonValue::Array(vec![object(vec![("id", text("cus_1"))])]),
    ] {
        assert_eq!(RetrieveCustomerReturned::from_value(payload), None);
    }
    assert_eq!(Customer::from_value(JsonValue::Null), None);
    assert_eq!(DeletedCustomer::from_value(text("x")), None);
    assert_eq!(PortalFlowsAfterCompletionHostedConfirmation::from_value(whole(0)), None);
    assert_eq!(TreasuryFinancialAccountsResourceStatusDetails::from_value(JsonValue::Null), None);
    assert_eq!(SetupAttemptPaymentMethodDetails::from_value(JsonValue::Array(vec![])), None);
}

#[test]
fn decoding_twice_gives_equal_results() {
    let json = r#"{"id": "cus_1", "email": "a@b.com", "balance": -20, "address": {"city": "Paris"}}"#;
    let first = RetrieveCustomerReturned::from_value(parse(json));
    let second = RetrieveCustomerReturned::from_value(parse(json));
    assert!(first.is_some());
    assert_eq!(first, second);
    let payload = parse(json);
    let copy = payload.deep_clone();
    assert_eq!(payload, copy);
    assert_eq!(RetrieveCustomerReturned::from_value(payload), RetrieveCustomerReturned::from_value(copy));
    let gone = r#"{"id": "cus_1", "deleted": true}"#;
    assert_eq!(
        RetrieveCustomerReturned::from_value(parse(gone)),
        RetrieveCustomerReturned::from_value(parse(gone))
    );
    let broken = r#"{"deleted": true}"#;
    assert_eq!(RetrieveCustomerReturned::from_value(parse(broken)), None);
    assert_eq!(RetrieveCustomerReturned::from_value(parse(broken)), None);
}

#[test]
fn the_last_entry_of_a_name_counts() {
    let payload = object(vec![("id", text("cus_1")), ("deleted", JsonValue::Bool(true)), ("id", text("cus_2"))]);
    assert_eq!(
        RetrieveCustomerReturned::from_value(payload),
        Some(RetrieveCustomerReturned::DeletedCustomer(deleted("cus_2")))
    );
    let payload = object(vec![("id", text("cus_1")), ("deleted", JsonValue::Bool(true)), ("deleted", JsonValue::Bool(false))]);
    assert_eq!(
        RetrieveCustomerReturned::from_value(payload),
        Some(RetrieveCustomerReturned::Customer(live("cus_1")))
    );
}

#[test]
fn customer_with_every_field() {
    let payload = parse(
        r#"{
            "address": {"city": "Paris", "line1": null},
            "balance": -500,
            "created": 1700000000,
            "currency": "eur",
            "delinquent": false,
            "description": "d",
            "email": "a@b.com",
            "id": "cus_1",
            "invoice_prefix": "ABC",
            "livemode": true,
            "metadata": {"k": "v"},
            "name": "Ann",
            "next_invoice_sequence": 3,
            "object": "customer",
            "phone": "+33",
            "shipping": {"name": "Ann"},
            "tax_ids": {"data": []}
        }"#,
    );
    let expected = Customer {
        address: Some(entries(vec![("city", text("Paris")), ("line1", JsonValue::Null)])),
        balance: Some(-500),
        created: Some(1700000000),
        currency: Some("eur".to_string()),
        delinquent: Some(false),
        description: Some("d".to_string()),
        email: Some("a@b.com".to_string()),
        id: "cus_1".to_string(),
        invoice_prefix: Some("ABC".to_string()),
        livemode: Some(true),
        metadata: Some(entries(vec![("k", text("v"))])),
        name: Some("Ann".to_string()),
        next_invoice_sequence: Some(3),
        phone: Some("+33".to_string()),
        shipping: Some(entries(vec![("name", text("Ann"))])),
    };
    assert_eq!(Customer::from_value(payload), Some(expected));
}

#[test]
fn null_reads_as_unset() {
    let payload = parse(
        r#"{"id": "cus_1", "email": null, "balance": null, "delinquent": null, "address": null}"#,
    );
    assert_eq!(Customer::from_value(payload), Some(live("cus_1")));
    assert_eq!(Customer::from_value(parse(r#"{"id": null}"#)), None);
}

#[test]
fn fields_of_the_wrong_type_do_not_read() {
    for (name, value) in [
        ("address", text("x")),
        ("balance", text("1")),
        ("balance", JsonValue::Number(JsonNumber::Float(0x3ff8000000000000))),
        ("balance", JsonValue::Number(JsonNumber::Unsigned(9223372036854775808))),
        ("created", JsonValue::Bool(true)),
        ("currency", whole(1)),
        ("delinquent", text("false")),
        ("description", JsonValue::Array(vec![])),
        ("email", object(vec![])),
        ("invoice_prefix", whole(0)),
        ("livemode", whole(1)),
        ("metadata", JsonValue::Array(vec![])),
        ("name", JsonValue::Bool(false)),
        ("next_invoice_sequence", text("1")),
        ("phone", whole(33)),
        ("shipping", text("x")),
    ] {
        let payload = object(vec![("id", text("cus_1")), (name, value)]);
        assert_eq!(Customer::from_value(payload), None, "{}", name);
    }
}

#[test]
fn whole_numbers_read_whatever_their_sign_form() {
    let payload = object(vec![
        ("id", text("cus_1")),
        ("balance", JsonValue::Number(JsonNumber::Unsigned(9223372036854775807))),
        ("created", JsonValue::Number(JsonNumber::Signed(-9223372036854775808))),
        ("next_invoice_sequence", JsonValue::Number(JsonNumber::Unsigned(0))),
    ]);
    let mut expected = live("cus_1");
    expected.balance = Some(i64::MAX);
    expected.created = Some(i64::MIN);
    expected.next_invoice_sequence = Some(0);
    assert_eq!(Customer::from_value(payload), Some(expected));
    assert_eq!(JsonNumber::Unsigned(7).as_i64(), Some(7));
    assert_eq!(JsonNumber::Signed(-7).as_i64(), Some(-7));
    assert_eq!(JsonNumber::Unsigned(u64::MAX).as_i64(), None);
    assert_eq!(JsonNumber::Float(0).as_i64(), None);
}

#[test]
fn deleted_customer_needs_its_marker_and_its_id() {
    assert_eq!(
        DeletedCustomer::from_value(parse(r#"{"id": "cus_1", "deleted": true, "object": "customer"}"#)),
        Some(deleted("cus_1"))
    );
    assert_eq!(DeletedCustomer::from_value(parse(r#"{"id": "cus_1", "deleted": false}"#)), None);
    assert_eq!(DeletedCustomer::from_value(parse(r#"{"id": "cus_1"}"#)), None);
    assert_eq!(DeletedCustomer::from_value(parse(r#"{"deleted": true}"#)), None);
    assert_eq!(DeletedCustomer::from_value(parse(r#"{"id": "cus_1", "deleted": null}"#)), None);
}

#[test]
fn buffered_entries_decode_like_the_object() {
    let mut builder = RetrieveCustomerReturnedBuilder::deser_default();
    assert_eq!(builder, RetrieveCustomerReturnedBuilder::default());
    builder.key("email", text("a@b.com"));
    builder.key("id", text("cus_1"));
    builder.key("deleted", JsonValue::Bool(true));
    assert_eq!(builder.inner.entries.len(), 3);
    assert_eq!(
        builder.take_out(),
        Some(RetrieveCustomerReturned::DeletedCustomer(deleted("cus_1")))
    );
    assert_eq!(builder.inner.entries.len(), 0);
    assert_eq!(builder.take_out(), None);
    builder.key("id", text("cus_2"));
    assert_eq!(builder.take_out(), Some(RetrieveCustomerReturned::Customer(live("cus_2"))));
}

#[test]
fn marker_lookup() {
    assert!(RetrieveCustomerReturned::is_marked_deleted(&entries(vec![("deleted", JsonValue::Bool(true))])));
    assert!(!RetrieveCustomerReturned::is_marked_deleted(&entries(vec![("deleted", JsonValue::Bool(false))])));
    assert!(!RetrieveCustomerReturned::is_marked_deleted(&entries(vec![("Deleted", JsonValue::Bool(true))])));
    assert!(!RetrieveCustomerReturned::is_marked_deleted(&entries(vec![])));
}

#[test]
fn customer_builder_steps() {
    let mut builder = CustomerBuilder::deser_default();
    assert_eq!(builder.id, None);
    assert_eq!(builder.email, Some(None));
    assert_eq!(builder.take_out(), None);
    assert_eq!(builder.email, None);
    let mut builder = CustomerBuilder::deser_default();
    builder.id = Some("cus_1".to_string());
    assert_eq!(builder.take_out(), Some(live("cus_1")));
    assert_eq!(builder.id, None);
    assert_eq!(builder.take_out(), None);
    let mut builder = DeletedCustomerBuilder::deser_default();
    assert_eq!(builder.deleted, None);
    builder.deleted = Some(true);
    builder.id = Some("cus_1".to_string());
    assert_eq!(builder.take_out(), Some(deleted("cus_1")));
}

#[test]
fn portal_flows_confirmation() {
    assert_eq!(
        PortalFlowsAfterCompletionHostedConfirmation::from_value(parse(r#"{"custom_message": "bye"}"#)),
        Some(PortalFlowsAfterCompletionHostedConfirmation { custom_message: Some("bye".to_string()) })
    );
    assert_eq!(
        PortalFlowsAfterCompletionHostedConfirmation::from_value(parse(r#"{"custom_message": null}"#)),
        Some(PortalFlowsAfterCompletionHostedConfirmation { custom_message: None })
    );
    assert_eq!(
        PortalFlowsAfterCompletionHostedConfirmation::from_value(parse(r#"{"other": 1}"#)),
        Some(PortalFlowsAfterCompletionHostedConfirmation { custom_message: None })
    );
    assert_eq!(
        PortalFlowsAfterCompletionHostedConfirmation::from_value(parse(r#"{"custom_message": 1}"#)),
        None
    );
    let mut builder = PortalFlowsAfterCompletionHostedConfirmationBuilder::deser_default();
    assert_eq!(builder.custom_message, Some(None));
    builder.custom_message = Some(Some("x".to_string()));
    assert_eq!(
        builder.take_out(),
        Some(PortalFlowsAfterCompletionHostedConfirmation { custom_message: Some("x".to_string()) })
    );
    assert_eq!(builder.custom_message, None);
    assert_eq!(builder.take_out(), None);
}

#[test]
fn treasury_status_details() {
    assert_eq!(
        TreasuryFinancialAccountsResourceStatusDetails::from_value(
            parse(r#"{"closed": {"reasons": ["account_rejected"]}}"#)
        ),
        Some(TreasuryFinancialAccountsResourceStatusDetails {
            closed: Some(entries(vec![("reasons", JsonValue::Array(vec![text("account_rejected")]))])),
        })
    );
    assert_eq!(
        TreasuryFinancialAccountsResourceStatusDetails::from_value(parse(r#"{}"#)),
        Some(TreasuryFinancialAccountsResourceStatusDetails { closed: None })
    );
    assert_eq!(
        TreasuryFinancialAccountsResourceStatusDetails::from_value(parse(r#"{"closed": []}"#)),
        None
    );
    let mut builder = TreasuryFinancialAccountsResourceStatusDetailsBuilder::deser_default();
    assert_eq!(builder.closed, Some(None));
    assert_eq!(
        builder.take_out(),
        Some(TreasuryFinancialAccountsResourceStatusDetails { closed: None })
    );
    assert_eq!(builder.take_out(), None);
}

fn no_details(type_: &str) -> SetupAttemptPaymentMethodDetails {
    SetupAttemptPaymentMethodDetails {
        acss_debit: None,
        amazon_pay: None,
        au_becs_debit: None,
        bacs_debit: None,
        bancontact: None,
        boleto: None,
        card: None,
        card_present: None,
        cashapp: None,
        ideal: None,
        klarna: None,
        link: None,
        paypal: None,
        revolut_pay: None,
        sepa_debit: None,
        sofort: None,
        type_: type_.to_string(),
        us_bank_account: None,
    }
}

#[test]
fn setup_attempt_details() {
    assert_eq!(
        SetupAttemptPaymentMethodDetails::from_value(parse(r#"{"type": "card"}"#)),
        Some(no_details("card"))
    );
    let mut expected = no_details("card");
    expected.card = Some(entries(vec![("brand", text("visa"))]));
    expected.us_bank_account = Some(entries(vec![]));
    assert_eq!(
        SetupAttemptPaymentMethodDetails::from_value(parse(
            r#"{"card": {"brand": "visa"}, "type": "card", "us_bank_account": {}, "sofort": null}"#
        )),
        Some(expected)
    );
    assert_eq!(SetupAttemptPaymentMethodDetails::from_value(parse(r#"{}"#)), None);
    assert_eq!(SetupAttemptPaymentMethodDetails::from_value(parse(r#"{"type": null}"#)), None);
    assert_eq!(
        SetupAttemptPaymentMethodDetails::from_value(parse(r#"{"type": "card", "card": "x"}"#)),
        None
    );
    for name in [
        "acss_debit", "amazon_pay", "au_becs_debit", "bacs_debit", "bancontact", "boleto", "card",
        "card_present", "cashapp", "ideal", "klarna", "link", "paypal", "revolut_pay",
        "sepa_debit", "sofort", "us_bank_account",
    ] {
        let bad = object(vec![("type", text("t")), (name, whole(1))]);
        assert_eq!(SetupAttemptPaymentMethodDetails::from_value(bad), None, "{}", name);
        let good = object(vec![("type", text("t")), (name, object(vec![("a", whole(1))]))]);
        let decoded = SetupAttemptPaymentMethodDetails::from_value(good).unwrap();
        assert_ne!(decoded, no_details("t"), "{}", name);
    }
    let mut builder = SetupAttemptPaymentMethodDetailsBuilder::deser_default();
    assert_eq!(builder.type_, None);
    assert_eq!(builder.card, Some(None));
    assert_eq!(builder.take_out(), None);
    let mut builder = SetupAttemptPaymentMethodDetailsBuilder::deser_default();
    builder.type_ = Some("card".to_string());
    assert_eq!(builder.take_out(), Some(no_details("card")));
}

#[test]
fn object_fields() {
    let o = entries(vec![
        ("a", whole(1)),
        ("b", text("x")),
        ("a", whole(2)),
        ("c", JsonValue::Null),
        ("d", JsonValue::Bool(true)),
        ("e", object(vec![("f", whole(0))])),
    ]);
    assert_eq!(o.get("a"), Some(&whole(2)));
    assert_eq!(o.get("b"), Some(&text("x")));
    assert_eq!(o.get("z"), None);
    assert_eq!(o.get(""), None);
    assert_eq!(o.text("b"), Some("x".to_string()));
    assert_eq!(o.text("a"), None);
    assert_eq!(o.text("c"), None);
    assert_eq!(o.text("z"), None);
    assert_eq!(o.opt_text("b"), Some(Some("x".to_string())));
    assert_eq!(o.opt_text("c"), Some(None));
    assert_eq!(o.opt_text("z"), Some(None));
    assert_eq!(o.opt_text("a"), None);
    assert_eq!(o.opt_whole("a"), Some(Some(2)));
    assert_eq!(o.opt_whole("c"), Some(None));
    assert_eq!(o.opt_whole("z"), Some(None));
    assert_eq!(o.opt_whole("b"), None);
    assert_eq!(o.opt_flag("d"), Some(Some(true)));
    assert_eq!(o.opt_flag("c"), Some(None));
    assert_eq!(o.opt_flag("a"), None);
    assert_eq!(o.truth("d"), Some(true));
    assert_eq!(o.truth("c"), None);
    assert_eq!(o.truth("z"), None);
    assert_eq!(o.opt_nested("e"), Some(Some(entries(vec![("f", whole(0))]))));
    assert_eq!(o.opt_nested("c"), Some(None));
    assert_eq!(o.opt_nested("a"), None);
    assert_eq!(o.deep_clone(), o);
    let mut p = JsonObject::new();
    assert_eq!(p.entries.len(), 0);
    p.push("k".to_string(), whole(1));
    assert_eq!(p, entries(vec![("k", whole(1))]));
}

#[test]
fn page_of_a_listing() {
    let page = CustomerList::from_value(parse(
        r#"{"object": "list", "url": "/v1/customers", "has_more": true,
            "data": [{"id": "cus_1"}, {"id": "cus_2", "email": "a@b.com"}]}"#,
    ))
    .unwrap();
    let mut second = live("cus_2");
    second.email = Some("a@b.com".to_string());
    assert_eq!(
        page,
        CustomerList {
            data: vec![live("cus_1"), second],
            has_more: true,
            url: "/v1/customers".to_string(),
        }
    );
    assert_eq!(page.cursor(), Some("cus_2"));
}

#[test]
fn empty_page_has_no_cursor() {
    let page = CustomerList::from_value(parse(r#"{"url": "/v1/customers", "has_more": false, "data": []}"#))
        .unwrap();
    assert_eq!(page, CustomerList { data: vec![], has_more: false, url: "/v1/customers".to_string() });
    assert_eq!(page.cursor(), None);
}

#[test]
fn pages_that_do_not_decode() {
    for json in [
        r#"{"has_more": false, "data": []}"#,
        r#"{"url": "/v1/customers", "data": []}"#,
        r#"{"url": "/v1/customers", "has_more": false}"#,
        r#"{"url": "/v1/customers", "has_more": null, "data": []}"#,
        r#"{"url": "/v1/customers", "has_more": false, "data": {}}"#,
        r#"{"url": "/v1/customers", "has_more": false, "data": [{"id": "cus_1"}, {"email": "x"}]}"#,
        r#"{"url": "/v1/customers", "has_more": false, "data": [{"id": "cus_1"}, "cus_2"]}"#,
        r#"{"url": 1, "has_more": false, "data": []}"#,
        r#"[]"#,
    ] {
        assert_eq!(CustomerList::from_value(parse(json)), None, "{}", json);
        assert_eq!(CustomerSearchList::from_value(parse(json)), None, "{}", json);
    }
    assert_eq!(
        CustomerSearchList::from_value(parse(
            r#"{"url": "/v1/customers/search", "has_more": false, "data": [], "next_page": 3}"#
        )),
        None
    );
}

#[test]
fn page_of_a_search() {
    let page = CustomerSearchList::from_value(parse(
        r#"{"object": "search_result", "url": "/v1/customers/search", "has_more": true,
            "next_page": "tok_2", "data": [{"id": "cus_1"}]}"#,
    ))
    .unwrap();
    assert_eq!(
        page,
        CustomerSearchList {
            data: vec![live("cus_1")],
            has_more: true,
            next_page: Some("tok_2".to_string()),
            url: "/v1/customers/search".to_string(),
        }
    );
    assert_eq!(page.cursor(), Some("tok_2"));
    let last = CustomerSearchList::from_value(parse(
        r#"{"url": "/v1/customers/search", "has_more": false, "next_page": null, "data": []}"#,
    ))
    .unwrap();
    assert_eq!(last.cursor(), None);
    assert_eq!(last.next_page, None);
}

#[test]
fn customers_from_an_array() {
    assert_eq!(customers_from_items(&vec![]), Some(vec![]));
    assert_eq!(
        customers_from_items(&vec![object(vec![("id", text("cus_1"))])]),
        Some(vec![live("cus_1")])
    );
    assert_eq!(customers_from_items(&vec![object(vec![("id", text("cus_1"))]), JsonValue::Null]), None);
}

#[test]
fn required_readers() {
    let o = entries(vec![("a", JsonValue::Bool(false)), ("b", JsonValue::Array(vec![whole(1)])), ("c", JsonValue::Null)]);
    assert_eq!(o.flag("a"), Some(false));
    assert_eq!(o.flag("b"), None);
    assert_eq!(o.flag("c"), None);
    assert_eq!(o.flag("z"), None);
    assert_eq!(o.items("b"), Some(&vec![whole(1)]));
    assert_eq!(o.items("a"), None);
    assert_eq!(o.items("c"), None);
    assert_eq!(o.items("z"), None);
}

#[test]
fn entries_taken_one_by_one() {
    let mut builder = PortalFlowsAfterCompletionHostedConfirmationBuilder::deser_default();
    assert!(builder.key("other", &whole(1)));
    assert_eq!(builder.custom_message, Some(None));
    assert!(!builder.key("custom_message", &whole(1)));
    assert_eq!(builder.custom_message, Some(None));
    assert!(builder.key("custom_message", &text("bye")));
    assert_eq!(builder.custom_message, Some(Some("bye".to_string())));
    assert!(builder.key("custom_message", &JsonValue::Null));
    assert_eq!(builder.custom_message, Some(None));
    assert!(builder.key("custom_message", &text("again")));
    assert_eq!(
        builder.take_out(),
        Some(PortalFlowsAfterCompletionHostedConfirmation {
            custom_message: Some("again".to_string())
        })
    );
}

#[test]
fn entries_taken_one_by_one_decode_like_the_object() {
    let payload = entries(vec![
        ("object", text("customer")),
        ("id", text("cus_1")),
        ("balance", whole(3)),
        ("email", text("a@b.com")),
        ("livemode", JsonValue::Bool(false)),
        ("address", object(vec![("city", text("Paris"))])),
        ("email", text("c@d.com")),
    ]);
    let mut builder = CustomerBuilder::deser_default();
    for (name, value) in &payload.entries {
        assert!(builder.key(name, value), "{}", name);
    }
    let streamed = builder.take_out();
    assert!(streamed.is_some());
    assert_eq!(streamed, Customer::from_object(&payload));
    assert_eq!(streamed.unwrap().email, Some("c@d.com".to_string()));
}

#[test]
fn customer_builder_takes_each_field() {
    let mut builder = CustomerBuilder::deser_default();
    assert!(builder.key("address", &object(vec![])));
    assert!(builder.key("balance", &whole(1)));
    assert!(builder.key("created", &whole(2)));
    assert!(builder.key("currency", &text("eur")));
    assert!(builder.key("delinquent", &JsonValue::Bool(true)));
    assert!(builder.key("description", &text("d")));
    assert!(builder.key("email", &text("e")));
    assert!(builder.key("id", &text("cus_1")));
    assert!(builder.key("invoice_prefix", &text("p")));
    assert!(builder.key("livemode", &JsonValue::Bool(true)));
    assert!(builder.key("metadata", &object(vec![])));
    assert!(builder.key("name", &text("n")));
    assert!(builder.key("next_invoice_sequence", &whole(3)));
    assert!(builder.key("phone", &text("t")));
    assert!(builder.key("shipping", &object(vec![])));
    assert!(!builder.key("id", &JsonValue::Null));
    assert!(!builder.key("balance", &text("1")));
    assert!(!builder.key("shipping", &text("x")));
    assert_eq!(
        builder.take_out(),
        Some(Customer {
            address: Some(entries(vec![])),
            balance: Some(1),
            created: Some(2),
            currency: Some("eur".to_string()),
            delinquent: Some(true),
            description: Some("d".to_string()),
            email: Some("e".to_string()),
            id: "cus_1".to_string(),
            invoice_prefix: Some("p".to_string()),
            livemode: Some(true),
            metadata: Some(entries(vec![])),
            name: Some("n".to_string()),
            next_invoice_sequence: Some(3),
            phone: Some("t".to_string()),
            shipping: Some(entries(vec![])),
        })
    );
}

#[test]
fn deleted_customer_builder_refuses_a_false_marker() {
    let mut builder = DeletedCustomerBuilder::deser_default();
    assert!(!builder.key("deleted", &JsonValue::Bool(false)));
    assert!(!builder.key("deleted", &JsonValue::Null));
    assert!(builder.key("deleted", &JsonValue::Bool(true)));
    assert!(builder.key("id", &text("cus_1")));
    assert!(builder.key("email", &whole(1)));
    assert_eq!(builder.take_out(), Some(deleted("cus_1")));
}

#[test]
fn setup_attempt_builder_takes_each_field() {
    let names = [
        "acss_debit", "amazon_pay", "au_becs_debit", "bacs_debit", "bancontact", "boleto", "card",
        "card_present", "cashapp", "ideal", "klarna", "link", "paypal", "revolut_pay",
        "sepa_debit", "sofort", "us_bank_account",
    ];
    for name in names {
        let mut builder = SetupAttemptPaymentMethodDetailsBuilder::deser_default();
        assert!(builder.key("type", &text("t")));
        assert!(!builder.key(name, &text("x")), "{}", name);
        assert!(builder.key(name, &object(vec![("a", whole(1))])), "{}", name);
        let streamed = builder.take_out();
        let payload = object(vec![("type", text("t")), (name, object(vec![("a", whole(1))]))]);
        assert_eq!(streamed, SetupAttemptPaymentMethodDetails::from_value(payload), "{}", name);
        assert_ne!(streamed, Some(no_details("t")), "{}", name);
    }
    let mut builder = SetupAttemptPaymentMethodDetailsBuilder::deser_default();
    assert!(!builder.key("type", &JsonValue::Null));
    assert!(builder.key("types", &JsonValue::Null));
    assert_eq!(builder.take_out(), None);
}

#[test]
fn treasury_builder_takes_its_field() {
    let mut builder = TreasuryFinancialAccountsResourceStatusDetailsBuilder::deser_default();
    assert!(!builder.key("closed", &JsonValue::Array(vec![])));
    assert!(builder.key("closed", &object(vec![("reasons", JsonValue::Array(vec![]))])));
    assert_eq!(
        builder.take_out(),
        Some(TreasuryFinancialAccountsResourceStatusDetails {
            closed: Some(entries(vec![("reasons", JsonValue::Array(vec![]))])),
        })
    );
}

#[test]
fn value_readers() {
    assert_eq!(text("x").text(), Some("x".to_string()));
    assert_eq!(JsonValue::Null.text(), None);
    assert_eq!(JsonValue::Bool(true).truth(), Some(true));
    assert_eq!(JsonValue::Bool(false).truth(), None);
    assert_eq!(JsonValue::Bool(false).flag(), Some(false));
    assert_eq!(whole(0).flag(), None);
    assert_eq!(JsonValue::Array(vec![]).items(), Some(&vec![]));
    assert_eq!(object(vec![]).items(), None);
    assert_eq!(text("x").opt_text(), Some(Some("x".to_string())));
    assert_eq!(JsonValue::Null.opt_text(), Some(None));
    assert_eq!(whole(1).opt_text(), None);
    assert_eq!(JsonValue::Bool(true).opt_flag(), Some(Some(true)));
    assert_eq!(JsonValue::Null.opt_flag(), Some(None));
    assert_eq!(text("true").opt_flag(), None);
    assert_eq!(whole(-4).opt_whole(), Some(Some(-4)));
    assert_eq!(JsonValue::Null.opt_whole(), Some(None));
    assert_eq!(JsonValue::Number(JsonNumber::Float(0)).opt_whole(), None);
    assert_eq!(object(vec![("a", whole(1))]).opt_nested(), Some(Some(entries(vec![("a", whole(1))]))));
    assert_eq!(JsonValue::Null.opt_nested(), Some(None));
    assert_eq!(JsonValue::Array(vec![]).opt_nested(), None);
    let nested = object(vec![("a", JsonValue::Array(vec![whole(1), object(vec![("b", JsonValue::Null)])]))]);
    assert_eq!(nested.deep_clone(), nested);
}
