//! The concrete identifier kinds.
//!
//! Each kind is a zero-sized marker implementing `IdKind`: pure data — a
//! name, the accepted prefixes in declared order, and the freeform/nullable
//! capabilities. The full catalogue of such declarations is open-ended;
//! these are the kinds the unions and the nullable and freeform behaviours
//! are built from, and adding another is a matter of one more marker.

use vstd::prelude::*;

verus! {

use crate::scalar::{Id, IdKind};

/// An id for an application fee; accepts `fee_`.
#[derive(Debug, Hash)]
pub struct ApplicationFeeKind;

impl IdKind for ApplicationFeeKind {
    open spec fn spec_name() -> Seq<char> {
        "ApplicationFeeId"@
    }

    open spec fn spec_prefixes() -> Seq<Seq<char>> {
        seq!["fee_"@]
    }

    open spec fn spec_freeform() -> bool {
        false
    }

    open spec fn spec_nullable() -> bool {
        false
    }

    fn name() -> (r: &'static str) {
        "ApplicationFeeId"
    }

    fn prefixes() -> (r: Vec<&'static str>) {
        vec!["fee_"]
    }

    fn freeform() -> (b: bool) {
        false
    }

    fn nullable() -> (b: bool) {
        false
    }

    proof fn kind_wf() {
    }
}

pub type ApplicationFeeId = Id<ApplicationFeeKind>;

/// An id for a charge; accepts `ch_` and, alternatively, `py_`.
#[derive(Debug, Hash)]
pub struct ChargeKind;

impl IdKind for ChargeKind {
    open spec fn spec_name() -> Seq<char> {
        "ChargeId"@
    }

    open spec fn spec_prefixes() -> Seq<Seq<char>> {
        seq!["ch_"@, "py_"@]
    }

    open spec fn spec_freeform() -> bool {
        false
    }

    open spec fn spec_nullable() -> bool {
        false
    }

    fn name() -> (r: &'static str) {
        "ChargeId"
    }

    fn prefixes() -> (r: Vec<&'static str>) {
        vec!["ch_", "py_"]
    }

    fn freeform() -> (b: bool) {
        false
    }

    fn nullable() -> (b: bool) {
        false
    }

    proof fn kind_wf() {
    }
}

pub type ChargeId = Id<ChargeKind>;

/// An id for a dispute; accepts `dp_` and, alternatively, `du_`.
#[derive(Debug, Hash)]
pub struct DisputeKind;

impl IdKind for DisputeKind {
    open spec fn spec_name() -> Seq<char> {
        "DisputeId"@
    }

    open spec fn spec_prefixes() -> Seq<Seq<char>> {
        seq!["dp_"@, "du_"@]
    }

    open spec fn spec_freeform() -> bool {
        false
    }

    open spec fn spec_nullable() -> bool {
        false
    }

    fn name() -> (r: &'static str) {
        "DisputeId"
    }

    fn prefixes() -> (r: Vec<&'static str>) {
        vec!["dp_", "du_"]
    }

    fn freeform() -> (b: bool) {
        false
    }

    fn nullable() -> (b: bool) {
        false
    }

    proof fn kind_wf() {
    }
}

pub type DisputeId = Id<DisputeKind>;

/// An id for an application fee refund; accepts `fr_`.
#[derive(Debug, Hash)]
pub struct ApplicationFeeRefundKind;

impl IdKind for ApplicationFeeRefundKind {
    open spec fn spec_name() -> Seq<char> {
        "ApplicationFeeRefundId"@
    }

    open spec fn spec_prefixes() -> Seq<Seq<char>> {
        seq!["fr_"@]
    }

    open spec fn spec_freeform() -> bool {
        false
    }

    open spec fn spec_nullable() -> bool {
        false
    }

    fn name() -> (r: &'static str) {
        "ApplicationFeeRefundId"
    }

    fn prefixes() -> (r: Vec<&'static str>) {
        vec!["fr_"]
    }

    fn freeform() -> (b: bool) {
        false
    }

    fn nullable() -> (b: bool) {
        false
    }

    proof fn kind_wf() {
    }
}

pub type ApplicationFeeRefundId = Id<ApplicationFeeRefundKind>;

/// An id for an issuing authorization; accepts `iauth_`.
#[derive(Debug, Hash)]
pub struct IssuingAuthorizationKind;

impl IdKind for IssuingAuthorizationKind {
    open spec fn spec_name() -> Seq<char> {
        "IssuingAuthorizationId"@
    }

    open spec fn spec_prefixes() -> Seq<Seq<char>> {
        seq!["iauth_"@]
    }

    open spec fn spec_freeform() -> bool {
        false
    }

    open spec fn spec_nullable() -> bool {
        false
    }

    fn name() -> (r: &'static str) {
        "IssuingAuthorizationId"
    }

    fn prefixes() -> (r: Vec<&'static str>) {
        vec!["iauth_"]
    }

    fn freeform() -> (b: bool) {
        false
    }

    fn nullable() -> (b: bool) {
        false
    }

    proof fn kind_wf() {
    }
}

pub type IssuingAuthorizationId = Id<IssuingAuthorizationKind>;

/// An id for an issuing transaction; accepts `ipi_`.
#[derive(Debug, Hash)]
pub struct IssuingTransactionKind;

impl IdKind for IssuingTransactionKind {
    open spec fn spec_name() -> Seq<char> {
        "IssuingTransactionId"@
    }

    open spec fn spec_prefixes() -> Seq<Seq<char>> {
        seq!["ipi_"@]
    }

    open spec fn spec_freeform() -> bool {
        false
    }

    open spec fn spec_nullable() -> bool {
        false
    }

    fn name() -> (r: &'static str) {
        "IssuingTransactionId"
    }

    fn prefixes() -> (r: Vec<&'static str>) {
        vec!["ipi_"]
    }

    fn freeform() -> (b: bool) {
        false
    }

    fn nullable() -> (b: bool) {
        false
    }

    proof fn kind_wf() {
    }
}

pub type IssuingTransactionId = Id<IssuingTransactionKind>;

/// An id for a payout; accepts `po_`.
#[derive(Debug, Hash)]
pub struct PayoutKind;

impl IdKind for PayoutKind {
    open spec fn spec_name() -> Seq<char> {
        "PayoutId"@
    }

    open spec fn spec_prefixes() -> Seq<Seq<char>> {
        seq!["po_"@]
    }

    open spec fn spec_freeform() -> bool {
        false
    }

    open spec fn spec_nullable() -> bool {
        false
    }

    fn name() -> (r: &'static str) {
        "PayoutId"
    }

    fn prefixes() -> (r: Vec<&'static str>) {
        vec!["po_"]
    }

    fn freeform() -> (b: bool) {
        false
    }

    fn nullable() -> (b: bool) {
        false
    }

    proof fn kind_wf() {
    }
}

pub type PayoutId = Id<PayoutKind>;

/// An id for a refund; accepts `re_` and, alternatively, `pyr_`.
#[derive(Debug, Hash)]
pub struct RefundKind;

impl IdKind for RefundKind {
    open spec fn spec_name() -> Seq<char> {
        "RefundId"@
    }

    open spec fn spec_prefixes() -> Seq<Seq<char>> {
        seq!["re_"@, "pyr_"@]
    }

    open spec fn spec_freeform() -> bool {
        false
    }

    open spec fn spec_nullable() -> bool {
        false
    }

    fn name() -> (r: &'static str) {
        "RefundId"
    }

    fn prefixes() -> (r: Vec<&'static str>) {
        vec!["re_", "pyr_"]
    }

    fn freeform() -> (b: bool) {
        false
    }

    fn nullable() -> (b: bool) {
        false
    }

    proof fn kind_wf() {
    }
}

pub type RefundId = Id<RefundKind>;

/// An id for a top-up; accepts `tu_`.
#[derive(Debug, Hash)]
pub struct TopupKind;

impl IdKind for TopupKind {
    open spec fn spec_name() -> Seq<char> {
        "TopupId"@
    }

    open spec fn spec_prefixes() -> Seq<Seq<char>> {
        seq!["tu_"@]
    }

    open spec fn spec_freeform() -> bool {
        false
    }

    open spec fn spec_nullable() -> bool {
        false
    }

    fn name() -> (r: &'static str) {
        "TopupId"
    }

    fn prefixes() -> (r: Vec<&'static str>) {
        vec!["tu_"]
    }

    fn freeform() -> (b: bool) {
        false
    }

    fn nullable() -> (b: bool) {
        false
    }

    proof fn kind_wf() {
    }
}

pub type TopupId = Id<TopupKind>;

/// An id for a transfer; accepts `tr_`.
#[derive(Debug, Hash)]
pub struct TransferKind;

impl IdKind for TransferKind {
    open spec fn spec_name() -> Seq<char> {
        "TransferId"@
    }

    open spec fn spec_prefixes() -> Seq<Seq<char>> {
        seq!["tr_"@]
    }

    open spec fn spec_freeform() -> bool {
        false
    }

    open spec fn spec_nullable() -> bool {
        false
    }

    fn name() -> (r: &'static str) {
        "TransferId"
    }

    fn prefixes() -> (r: Vec<&'static str>) {
        vec!["tr_"]
    }

    fn freeform() -> (b: bool) {
        false
    }

    fn nullable() -> (b: bool) {
        false
    }

    proof fn kind_wf() {
    }
}

pub type TransferId = Id<TransferKind>;

/// An id for a transfer reversal; accepts `trr_`.
#[derive(Debug, Hash)]
pub struct TransferReversalKind;

impl IdKind for TransferReversalKind {
    open spec fn spec_name() -> Seq<char> {
        "TransferReversalId"@
    }

    open spec fn spec_prefixes() -> Seq<Seq<char>> {
        seq!["trr_"@]
    }

    open spec fn spec_freeform() -> bool {
        false
    }

    open spec fn spec_nullable() -> bool {
        false
    }

    fn name() -> (r: &'static str) {
        "TransferReversalId"
    }

    fn prefixes() -> (r: Vec<&'static str>) {
        vec!["trr_"]
    }

    fn freeform() -> (b: bool) {
        false
    }

    fn nullable() -> (b: bool) {
        false
    }

    proof fn kind_wf() {
    }
}

pub type TransferReversalId = Id<TransferReversalKind>;

/// An id for a customer; accepts `cus_`.
#[derive(Debug, Hash)]
pub struct CustomerKind;

impl IdKind for CustomerKind {
    open spec fn spec_name() -> Seq<char> {
        "CustomerId"@
    }

    open spec fn spec_prefixes() -> Seq<Seq<char>> {
        seq!["cus_"@]
    }

    open spec fn spec_freeform() -> bool {
        false
    }

    open spec fn spec_nullable() -> bool {
        false
    }

    fn name() -> (r: &'static str) {
        "CustomerId"
    }

    fn prefixes() -> (r: Vec<&'static str>) {
        vec!["cus_"]
    }

    fn freeform() -> (b: bool) {
        false
    }

    fn nullable() -> (b: bool) {
        false
    }

    proof fn kind_wf() {
    }
}

pub type CustomerId = Id<CustomerKind>;

/// An id for an invoice; accepts `in_`. The one nullable kind: an upcoming
/// invoice has no id yet, and the empty string is its canonical absent value.
#[derive(Debug, Hash)]
pub struct InvoiceKind;

impl IdKind for InvoiceKind {
    open spec fn spec_name() -> Seq<char> {
        "InvoiceId"@
    }

    open spec fn spec_prefixes() -> Seq<Seq<char>> {
        seq!["in_"@]
    }

    open spec fn spec_freeform() -> bool {
        false
    }

    open spec fn spec_nullable() -> bool {
        true
    }

    fn name() -> (r: &'static str) {
        "InvoiceId"
    }

    fn prefixes() -> (r: Vec<&'static str>) {
        vec!["in_"]
    }

    fn freeform() -> (b: bool) {
        false
    }

    fn nullable() -> (b: bool) {
        true
    }

    proof fn kind_wf() {
    }
}

pub type InvoiceId = Id<InvoiceKind>;

impl InvoiceId {
    /// The canonical absent value: the empty payload, standing for an
    /// invoice that has no id yet.
    pub fn none() -> (r: Self)
        ensures
            r@.len() == 0,
            r.wf(),
    {
        let r = Self::make("");
        proof {
            reveal_strlit("");
        }
        r
    }

    /// Whether this id holds the absent (empty) payload, as an `InvoiceId`
    /// received for an upcoming invoice does.
    pub fn is_none(&self) -> (b: bool)
        ensures
            b == (self@.len() == 0),
    {
        self.as_str().is_empty()
    }
}

/// An id for a coupon. Freeform: a coupon id can be user-provided, so any
/// string at all is accepted.
#[derive(Debug, Hash)]
pub struct CouponKind;

impl IdKind for CouponKind {
    open spec fn spec_name() -> Seq<char> {
        "CouponId"@
    }

    open spec fn spec_prefixes() -> Seq<Seq<char>> {
        Seq::empty()
    }

    open spec fn spec_freeform() -> bool {
        true
    }

    open spec fn spec_nullable() -> bool {
        false
    }

    fn name() -> (r: &'static str) {
        "CouponId"
    }

    fn prefixes() -> (r: Vec<&'static str>) {
        Vec::new()
    }

    fn freeform() -> (b: bool) {
        true
    }

    fn nullable() -> (b: bool) {
        false
    }

    proof fn kind_wf() {
    }
}

pub type CouponId = Id<CouponKind>;

/// An id for a payment method; accepts `pm`. The accepted prefix really is
/// `pm` with no trailing separator; it is preserved exactly as declared.
#[derive(Debug, Hash)]
pub struct PaymentMethodKind;

impl IdKind for PaymentMethodKind {
    open spec fn spec_name() -> Seq<char> {
        "PaymentMethodId"@
    }

    open spec fn spec_prefixes() -> Seq<Seq<char>> {
        seq!["pm"@]
    }

    open spec fn spec_freeform() -> bool {
        false
    }

    open spec fn spec_nullable() -> bool {
        false
    }

    fn name() -> (r: &'static str) {
        "PaymentMethodId"
    }

    fn prefixes() -> (r: Vec<&'static str>) {
        vec!["pm"]
    }

    fn freeform() -> (b: bool) {
        false
    }

    fn nullable() -> (b: bool) {
        false
    }

    proof fn kind_wf() {
    }
}

pub type PaymentMethodId = Id<PaymentMethodKind>;

/// An id for an invoice line item; accepts `ii_`.
#[derive(Debug, Hash)]
pub struct InvoiceItemKind;

impl IdKind for InvoiceItemKind {
    open spec fn spec_name() -> Seq<char> {
        "InvoiceItemId"@
    }

    open spec fn spec_prefixes() -> Seq<Seq<char>> {
        seq!["ii_"@]
    }

    open spec fn spec_freeform() -> bool {
        false
    }

    open spec fn spec_nullable() -> bool {
        false
    }

    fn name() -> (r: &'static str) {
        "InvoiceItemId"
    }

    fn prefixes() -> (r: Vec<&'static str>) {
        vec!["ii_"]
    }

    fn freeform() -> (b: bool) {
        false
    }

    fn nullable() -> (b: bool) {
        false
    }

    proof fn kind_wf() {
    }
}

pub type InvoiceItemId = Id<InvoiceItemKind>;

/// An id for a subscription line item; accepts `sli_`.
#[derive(Debug, Hash)]
pub struct SubscriptionLineKind;

impl IdKind for SubscriptionLineKind {
    open spec fn spec_name() -> Seq<char> {
        "SubscriptionLineId"@
    }

    open spec fn spec_prefixes() -> Seq<Seq<char>> {
        seq!["sli_"@]
    }

    open spec fn spec_freeform() -> bool {
        false
    }

    open spec fn spec_nullable() -> bool {
        false
    }

    fn name() -> (r: &'static str) {
        "SubscriptionLineId"
    }

    fn prefixes() -> (r: Vec<&'static str>) {
        vec!["sli_"]
    }

    fn freeform() -> (b: bool) {
        false
    }

    fn nullable() -> (b: bool) {
        false
    }

    proof fn kind_wf() {
    }
}

pub type SubscriptionLineId = Id<SubscriptionLineKind>;

} // verus!
