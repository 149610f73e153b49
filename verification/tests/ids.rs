use prefixed_ids::error::ParseIdError;
use prefixed_ids::kinds::{
    ChargeId, CouponId, CustomerId, InvoiceId, InvoiceItemId, PaymentMethodId, SubscriptionLineId,
    TransferId,
};
use prefixed_ids::unions::{BalanceTransactionSourceId, InvoiceLineItemId};

#[test]
fn test_parse_customer() {
    assert!(CustomerId::parse("cus_123").is_ok());
    let bad_parse = CustomerId::parse("zzz_123");
    assert!(bad_parse.is_err());
    if let Err(err) = bad_parse {
        assert_eq!(
            err.message(),
            "invalid `CustomerId`, expected id to start with \"cus_\""
        );
    }
}

#[test]
fn test_parse_charge() {
    assert!(ChargeId::parse("ch_123").is_ok());
    assert!(ChargeId::parse("py_123").is_ok());
    let bad_parse = ChargeId::parse("zz_123");
    assert!(bad_parse.is_err());
    if let Err(err) = bad_parse {
        assert_eq!(
            err.message(),
            "invalid `ChargeId`, expected id to start with \"ch_\" or \"py_\""
        );
    }
}

#[test]
fn test_accepted_prefix_round_trips() {
    let id = CustomerId::parse("cus_123").unwrap();
    assert_eq!(id.as_str(), "cus_123");
    let again = CustomerId::parse(id.as_str()).unwrap();
    assert!(id == again);

    let charge = ChargeId::parse("py_9X").unwrap();
    assert_eq!(charge.as_str(), "py_9X");
    assert!(charge == ChargeId::parse(charge.as_str()).unwrap());

    let clone = id.clone();
    assert!(clone == id);
    assert_eq!(clone.as_str(), "cus_123");

    // Equality against raw strings compares the payload directly.
    assert!(id == "cus_123");
    assert!(!(id == "cus_124"));
}

#[test]
fn test_freeform_accepts_anything() {
    let empty = CouponId::parse("").unwrap();
    assert_eq!(empty.as_str(), "");
    let odd = CouponId::parse("zz_123").unwrap();
    assert_eq!(odd.as_str(), "zz_123");
    let word = CouponId::parse("SUMMER-SALE").unwrap();
    assert_eq!(word.as_str(), "SUMMER-SALE");
    assert!(word == CouponId::parse(word.as_str()).unwrap());
}

#[test]
fn test_error_accessors() {
    let err: ParseIdError = CustomerId::parse("x").unwrap_err();
    assert_eq!(err.typename(), "CustomerId");
    assert_eq!(err.expected(), "id to start with \"cus_\"");
}

#[test]
fn test_prefixes_accessor() {
    assert_eq!(CustomerId::prefixes(), vec!["cus_"]);
    assert_eq!(ChargeId::prefixes(), vec!["ch_", "py_"]);
    assert!(ChargeId::is_valid_prefix("ch_"));
    assert!(ChargeId::is_valid_prefix("py_"));
    assert!(!ChargeId::is_valid_prefix("cus_"));
    assert!(!ChargeId::is_valid_prefix("ch"));
}

#[test]
fn test_payment_method_bare_prefix() {
    // The accepted prefix of this kind is "pm", with no separator; it is
    // preserved as declared, so any string starting with "pm" parses.
    assert!(PaymentMethodId::parse("pm_123").is_ok());
    assert!(PaymentMethodId::parse("pmX").is_ok());
    let err = PaymentMethodId::parse("zz").unwrap_err();
    assert_eq!(
        err.message(),
        "invalid `PaymentMethodId`, expected id to start with \"pm\""
    );
}

#[test]
fn test_nullable_invoice_id() {
    let absent = InvoiceId::parse("").unwrap();
    assert!(absent.is_none());
    assert_eq!(absent.as_str(), "");
    assert_eq!(absent.wire_text(), None);
    assert!(absent == InvoiceId::none());

    let real = InvoiceId::parse("in_123").unwrap();
    assert!(!real.is_none());
    assert_eq!(real.wire_text(), Some("in_123"));

    // The empty string bypasses prefix validation only for a nullable kind.
    assert!(CustomerId::parse("").is_err());
    assert_eq!(CustomerId::parse("").unwrap_err().typename(), "CustomerId");
}

#[test]
fn test_ordering_is_lexicographic() {
    let a = CustomerId::parse("cus_1").unwrap();
    let b = CustomerId::parse("cus_2").unwrap();
    assert!(a < b);
    assert!(b > a);
    assert!(a <= CustomerId::parse("cus_1").unwrap());
    let short = CustomerId::parse("cus_").unwrap();
    assert!(short < a);
}

#[test]
fn test_union_dispatch() {
    let charge = BalanceTransactionSourceId::parse("ch_123").unwrap();
    assert!(matches!(charge, BalanceTransactionSourceId::Charge(_)));
    assert_eq!(charge.as_str(), "ch_123");

    // The alternate accepted prefix routes to the same variant.
    let alt = BalanceTransactionSourceId::parse("py_123").unwrap();
    assert!(matches!(alt, BalanceTransactionSourceId::Charge(_)));
    assert_eq!(alt.as_str(), "py_123");

    let payout = BalanceTransactionSourceId::parse("po_1").unwrap();
    assert!(matches!(payout, BalanceTransactionSourceId::Payout(_)));
    assert!(payout == "po_1");

    let err = BalanceTransactionSourceId::parse("zz_1").unwrap_err();
    assert_eq!(
        err.message(),
        "invalid `BalanceTransactionSourceId`, expected unknown id prefix"
    );
}

#[test]
fn test_union_missing_separator() {
    let err = BalanceTransactionSourceId::parse("nounderscore").unwrap_err();
    assert_eq!(err.typename(), "BalanceTransactionSourceId");
    assert_eq!(err.expected(), "id to start with a prefix (as in 'prefix_')");

    let err = InvoiceLineItemId::parse("").unwrap_err();
    assert_eq!(err.expected(), "id to start with a prefix (as in 'prefix_')");
}

#[test]
fn test_union_absent_value() {
    // The absent variant is never produced by parsing; built explicitly,
    // its rendered text is empty.
    let absent = BalanceTransactionSourceId::Absent;
    assert_eq!(absent.as_str(), "");
    assert!(BalanceTransactionSourceId::parse("").is_err());
}

#[test]
fn test_union_from_scalar() {
    let transfer = TransferId::parse("tr_77").unwrap();
    let wrapped = BalanceTransactionSourceId::from(transfer);
    assert!(matches!(wrapped, BalanceTransactionSourceId::Transfer(_)));
    assert_eq!(wrapped.as_str(), "tr_77");
    assert!(wrapped == BalanceTransactionSourceId::parse("tr_77").unwrap());
}

#[test]
fn test_union_equality_and_ordering() {
    let a = BalanceTransactionSourceId::parse("ch_1").unwrap();
    let b = BalanceTransactionSourceId::parse("ch_2").unwrap();
    assert!(a == BalanceTransactionSourceId::parse("ch_1").unwrap());
    assert!(a != b);
    assert!(a < b);
    assert!(BalanceTransactionSourceId::Absent < a);
}

#[test]
fn test_invoice_line_item_union() {
    let item = InvoiceLineItemId::parse("ii_1").unwrap();
    assert!(matches!(item, InvoiceLineItemId::Item(_)));
    assert_eq!(item.as_str(), "ii_1");

    let sub = InvoiceLineItemId::parse("sli_1").unwrap();
    assert!(matches!(sub, InvoiceLineItemId::Subscription(_)));

    let from_item = InvoiceLineItemId::from(InvoiceItemId::parse("ii_9").unwrap());
    assert_eq!(from_item.as_str(), "ii_9");
    let from_sub = InvoiceLineItemId::from(SubscriptionLineId::parse("sli_9").unwrap());
    assert_eq!(from_sub.as_str(), "sli_9");

    let err = InvoiceLineItemId::parse("cus_1").unwrap_err();
    assert_eq!(
        err.message(),
        "invalid `InvoiceLineItemId`, expected unknown id prefix"
    );
}
