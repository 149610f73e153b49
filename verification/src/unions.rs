//! Multi-kind identifier unions.
//!
//! A union is a closed set of scalar id variants sharing one textual
//! representation space. Parsing a raw string extracts its candidate prefix
//! — everything through and including the first `_` — and dispatches to the
//! first variant, in declared order, whose accepted prefixes contain that
//! exact prefix; the chosen variant then re-validates the whole string. The
//! accepted-prefix sets of the variants are disjoint by construction, so the
//! declared-order tie-break never actually chooses between two matches.

use vstd::prelude::*;

verus! {

use core::cmp::Ordering;
use vstd::string::StringExecFns;
use crate::error::ParseIdError;
use crate::kinds::{ApplicationFeeId, ApplicationFeeKind, ApplicationFeeRefundId,
    ApplicationFeeRefundKind, ChargeId, ChargeKind, DisputeId, DisputeKind, InvoiceItemId,
    InvoiceItemKind, IssuingAuthorizationId, IssuingAuthorizationKind, IssuingTransactionId,
    IssuingTransactionKind, PayoutId, PayoutKind, RefundId, RefundKind, SubscriptionLineId,
    SubscriptionLineKind, TopupId, TopupKind, TransferId, TransferKind, TransferReversalId,
    TransferReversalKind};
use crate::scalar::{IdKind, lemma_prefix_match_accepted};
use crate::text::{find_sep, has_sep, sep_prefix, starts_with, str_eq, str_lex_cmp, lex_cmp};

/// The source of a balance transaction: one of several id kinds sharing the
/// textual space, or an explicit absent value. The absent value is never
/// produced by parsing; its text is the empty string.
#[derive(Clone, Debug, Hash)]
pub enum BalanceTransactionSourceId {
    Absent,
    ApplicationFee(ApplicationFeeId),
    Charge(ChargeId),
    Dispute(DisputeId),
    ApplicationFeeRefund(ApplicationFeeRefundId),
    IssuingAuthorization(IssuingAuthorizationId),
    IssuingTransaction(IssuingTransactionId),
    Payout(PayoutId),
    Refund(RefundId),
    Topup(TopupId),
    Transfer(TransferId),
    TransferReversal(TransferReversalId),
}

impl View for BalanceTransactionSourceId {
    type V = Seq<char>;

    /// The rendered text: the active payload, or empty for the absent value.
    open spec fn view(&self) -> Seq<char> {
        match self {
            BalanceTransactionSourceId::Absent => Seq::empty(),
            BalanceTransactionSourceId::ApplicationFee(id) => id@,
            BalanceTransactionSourceId::Charge(id) => id@,
            BalanceTransactionSourceId::Dispute(id) => id@,
            BalanceTransactionSourceId::ApplicationFeeRefund(id) => id@,
            BalanceTransactionSourceId::IssuingAuthorization(id) => id@,
            BalanceTransactionSourceId::IssuingTransaction(id) => id@,
            BalanceTransactionSourceId::Payout(id) => id@,
            BalanceTransactionSourceId::Refund(id) => id@,
            BalanceTransactionSourceId::Topup(id) => id@,
            BalanceTransactionSourceId::Transfer(id) => id@,
            BalanceTransactionSourceId::TransferReversal(id) => id@,
        }
    }
}

impl BalanceTransactionSourceId {
    /// Every payload is accepted by its own kind.
    pub open spec fn wf(&self) -> bool {
        match self {
            BalanceTransactionSourceId::Absent => true,
            BalanceTransactionSourceId::ApplicationFee(id) => id.wf(),
            BalanceTransactionSourceId::Charge(id) => id.wf(),
            BalanceTransactionSourceId::Dispute(id) => id.wf(),
            BalanceTransactionSourceId::ApplicationFeeRefund(id) => id.wf(),
            BalanceTransactionSourceId::IssuingAuthorization(id) => id.wf(),
            BalanceTransactionSourceId::IssuingTransaction(id) => id.wf(),
            BalanceTransactionSourceId::Payout(id) => id.wf(),
            BalanceTransactionSourceId::Refund(id) => id.wf(),
            BalanceTransactionSourceId::Topup(id) => id.wf(),
            BalanceTransactionSourceId::Transfer(id) => id.wf(),
            BalanceTransactionSourceId::TransferReversal(id) => id.wf(),
        }
    }

    /// Some variant's accepted prefixes contain `p`.
    pub open spec fn spec_dispatchable(p: Seq<char>) -> bool {
        ||| ApplicationFeeKind::spec_prefixes().contains(p)
        ||| ChargeKind::spec_prefixes().contains(p)
        ||| DisputeKind::spec_prefixes().contains(p)
        ||| ApplicationFeeRefundKind::spec_prefixes().contains(p)
        ||| IssuingAuthorizationKind::spec_prefixes().contains(p)
        ||| IssuingTransactionKind::spec_prefixes().contains(p)
        ||| PayoutKind::spec_prefixes().contains(p)
        ||| RefundKind::spec_prefixes().contains(p)
        ||| TopupKind::spec_prefixes().contains(p)
        ||| TransferKind::spec_prefixes().contains(p)
        ||| TransferReversalKind::spec_prefixes().contains(p)
    }

    /// `r` is the variant that dispatch chooses for `raw`: the first one, in
    /// declared order, whose accepted prefixes contain the candidate prefix
    /// of `raw`, holding `raw` unchanged as its payload.
    pub open spec fn spec_dispatched(raw: Seq<char>, r: Self) -> bool {
        let p = sep_prefix(raw);
        if ApplicationFeeKind::spec_prefixes().contains(p) {
            r matches BalanceTransactionSourceId::ApplicationFee(id) && id@ == raw
        } else if ChargeKind::spec_prefixes().contains(p) {
            r matches BalanceTransactionSourceId::Charge(id) && id@ == raw
        } else if DisputeKind::spec_prefixes().contains(p) {
            r matches BalanceTransactionSourceId::Dispute(id) && id@ == raw
        } else if ApplicationFeeRefundKind::spec_prefixes().contains(p) {
            r matches BalanceTransactionSourceId::ApplicationFeeRefund(id) && id@ == raw
        } else if IssuingAuthorizationKind::spec_prefixes().contains(p) {
            r matches BalanceTransactionSourceId::IssuingAuthorization(id) && id@ == raw
        } else if IssuingTransactionKind::spec_prefixes().contains(p) {
            r matches BalanceTransactionSourceId::IssuingTransaction(id) && id@ == raw
        } else if PayoutKind::spec_prefixes().contains(p) {
            r matches BalanceTransactionSourceId::Payout(id) && id@ == raw
        } else if RefundKind::spec_prefixes().contains(p) {
            r matches BalanceTransactionSourceId::Refund(id) && id@ == raw
        } else if TopupKind::spec_prefixes().contains(p) {
            r matches BalanceTransactionSourceId::Topup(id) && id@ == raw
        } else if TransferKind::spec_prefixes().contains(p) {
            r matches BalanceTransactionSourceId::Transfer(id) && id@ == raw
        } else if TransferReversalKind::spec_prefixes().contains(p) {
            r matches BalanceTransactionSourceId::TransferReversal(id) && id@ == raw
        } else {
            false
        }
    }

    /// Parse a raw string by prefix dispatch.
    ///
    /// The candidate prefix is everything through and including the first
    /// `_`. With no `_` at all, or with a prefix no variant accepts, parsing
    /// fails; otherwise the first matching variant, in declared order, takes
    /// the whole string as its payload.
    pub fn parse(raw: &str) -> (r: Result<Self, ParseIdError>)
        ensures
            r is Ok <==> has_sep(raw@) && Self::spec_dispatchable(sep_prefix(raw@)),
            r matches Ok(v) ==> Self::spec_dispatched(raw@, v) && v@ == raw@ && v.wf(),
            r matches Err(e) ==> e.typename_spec() == "BalanceTransactionSourceId"@ && (if has_sep(
                raw@,
            ) {
                e.expected_spec() == "unknown id prefix"@
            } else {
                e.expected_spec() == "id to start with a prefix (as in 'prefix_')"@
            }),
    {
        let i: usize = match find_sep(raw) {
            Option::Some(i) => i,
            Option::None => {
                return Err(
                    ParseIdError::new(
                        "BalanceTransactionSourceId",
                        String::from_str("id to start with a prefix (as in 'prefix_')"),
                    ),
                );
            },
        };
        let prefix = raw.substring_char(0, i + 1);
        proof {
            assert(prefix@ == sep_prefix(raw@));
            assert(starts_with(raw@, prefix@));
        }
        if ApplicationFeeId::is_valid_prefix(prefix) {
            proof {
                lemma_prefix_match_accepted::<ApplicationFeeKind>(raw@, prefix@);
            }
            match ApplicationFeeId::parse(raw) {
                Ok(id) => Ok(BalanceTransactionSourceId::ApplicationFee(id)),
                Err(e) => Err(e),
            }
        } else if ChargeId::is_valid_prefix(prefix) {
            proof {
                lemma_prefix_match_accepted::<ChargeKind>(raw@, prefix@);
            }
            match ChargeId::parse(raw) {
                Ok(id) => Ok(BalanceTransactionSourceId::Charge(id)),
                Err(e) => Err(e),
            }
        } else if DisputeId::is_valid_prefix(prefix) {
            proof {
                lemma_prefix_match_accepted::<DisputeKind>(raw@, prefix@);
            }
            match DisputeId::parse(raw) {
                Ok(id) => Ok(BalanceTransactionSourceId::Dispute(id)),
                Err(e) => Err(e),
            }
        } else if ApplicationFeeRefundId::is_valid_prefix(prefix) {
            proof {
                lemma_prefix_match_accepted::<ApplicationFeeRefundKind>(raw@, prefix@);
            }
            match ApplicationFeeRefundId::parse(raw) {
                Ok(id) => Ok(BalanceTransactionSourceId::ApplicationFeeRefund(id)),
                Err(e) => Err(e),
            }
        } else if IssuingAuthorizationId::is_valid_prefix(prefix) {
            proof {
                lemma_prefix_match_accepted::<IssuingAuthorizationKind>(raw@, prefix@);
            }
            match IssuingAuthorizationId::parse(raw) {
                Ok(id) => Ok(BalanceTransactionSourceId::IssuingAuthorization(id)),
                Err(e) => Err(e),
            }
        } else if IssuingTransactionId::is_valid_prefix(prefix) {
            proof {
                lemma_prefix_match_accepted::<IssuingTransactionKind>(raw@, prefix@);
            }
            match IssuingTransactionId::parse(raw) {
                Ok(id) => Ok(BalanceTransactionSourceId::IssuingTransaction(id)),
                Err(e) => Err(e),
            }
        } else if PayoutId::is_valid_prefix(prefix) {
            proof {
                lemma_prefix_match_accepted::<PayoutKind>(raw@, prefix@);
            }
            match PayoutId::parse(raw) {
                Ok(id) => Ok(BalanceTransactionSourceId::Payout(id)),
                Err(e) => Err(e),
            }
        } else if RefundId::is_valid_prefix(prefix) {
            proof {
                lemma_prefix_match_accepted::<RefundKind>(raw@, prefix@);
            }
            match RefundId::parse(raw) {
                Ok(id) => Ok(BalanceTransactionSourceId::Refund(id)),
                Err(e) => Err(e),
            }
        } else if TopupId::is_valid_prefix(prefix) {
            proof {
                lemma_prefix_match_accepted::<TopupKind>(raw@, prefix@);
            }
            match TopupId::parse(raw) {
                Ok(id) => Ok(BalanceTransactionSourceId::Topup(id)),
                Err(e) => Err(e),
            }
        } else if TransferId::is_valid_prefix(prefix) {
            proof {
                lemma_prefix_match_accepted::<TransferKind>(raw@, prefix@);
            }
            match TransferId::parse(raw) {
                Ok(id) => Ok(BalanceTransactionSourceId::Transfer(id)),
                Err(e) => Err(e),
            }
        } else if TransferReversalId::is_valid_prefix(prefix) {
            proof {
                lemma_prefix_match_accepted::<TransferReversalKind>(raw@, prefix@);
            }
            match TransferReversalId::parse(raw) {
                Ok(id) => Ok(BalanceTransactionSourceId::TransferReversal(id)),
                Err(e) => Err(e),
            }
        } else {
            Err(
                ParseIdError::new(
                    "BalanceTransactionSourceId",
                    String::from_str("unknown id prefix"),
                ),
            )
        }
    }

    /// The rendered text of the active variant; empty for the absent value.
    pub fn as_str(&self) -> (r: &str)
        ensures
            r@ == self@,
    {
        match self {
            BalanceTransactionSourceId::Absent => {
                proof {
                    reveal_strlit("");
                    assert(""@ =~= Seq::<char>::empty());
                }
                ""
            },
            BalanceTransactionSourceId::ApplicationFee(id) => id.as_str(),
            BalanceTransactionSourceId::Charge(id) => id.as_str(),
            BalanceTransactionSourceId::Dispute(id) => id.as_str(),
            BalanceTransactionSourceId::ApplicationFeeRefund(id) => id.as_str(),
            BalanceTransactionSourceId::IssuingAuthorization(id) => id.as_str(),
            BalanceTransactionSourceId::IssuingTransaction(id) => id.as_str(),
            BalanceTransactionSourceId::Payout(id) => id.as_str(),
            BalanceTransactionSourceId::Refund(id) => id.as_str(),
            BalanceTransactionSourceId::Topup(id) => id.as_str(),
            BalanceTransactionSourceId::Transfer(id) => id.as_str(),
            BalanceTransactionSourceId::TransferReversal(id) => id.as_str(),
        }
    }
}

impl PartialEq for BalanceTransactionSourceId {
    fn eq(&self, other: &Self) -> (r: bool) {
        str_eq(self.as_str(), other.as_str())
    }
}

impl vstd::std_specs::cmp::PartialEqSpecImpl for BalanceTransactionSourceId {
    open spec fn obeys_eq_spec() -> bool {
        true
    }

    /// Unions compare by their rendered text.
    open spec fn eq_spec(&self, other: &Self) -> bool {
        self@ == other@
    }
}

impl Eq for BalanceTransactionSourceId {

}

impl PartialEq<&str> for BalanceTransactionSourceId {
    fn eq(&self, other: &&str) -> (r: bool) {
        str_eq(self.as_str(), other)
    }
}

impl vstd::std_specs::cmp::PartialEqSpecImpl<&str> for BalanceTransactionSourceId {
    open spec fn obeys_eq_spec() -> bool {
        true
    }

    /// A union equals a raw string exactly when its rendered text does.
    open spec fn eq_spec(&self, other: &&str) -> bool {
        self@ == other@
    }
}

impl PartialOrd for BalanceTransactionSourceId {
    fn partial_cmp(&self, other: &Self) -> (r: Option<Ordering>) {
        Some(str_lex_cmp(self.as_str(), other.as_str()))
    }
}

impl vstd::std_specs::cmp::PartialOrdSpecImpl for BalanceTransactionSourceId {
    open spec fn obeys_partial_cmp_spec() -> bool {
        true
    }

    /// Unions order lexicographically on their rendered text.
    open spec fn partial_cmp_spec(&self, other: &Self) -> Option<Ordering> {
        Some(lex_cmp(self@, other@))
    }
}

impl From<ApplicationFeeId> for BalanceTransactionSourceId {
    /// Wrap an already-validated id: total, no re-validation.
    fn from(id: ApplicationFeeId) -> (r: Self) {
        BalanceTransactionSourceId::ApplicationFee(id)
    }
}

impl vstd::std_specs::convert::FromSpecImpl<ApplicationFeeId> for BalanceTransactionSourceId {
    open spec fn obeys_from_spec() -> bool {
        true
    }

    open spec fn from_spec(id: ApplicationFeeId) -> Self {
        BalanceTransactionSourceId::ApplicationFee(id)
    }
}

impl From<ChargeId> for BalanceTransactionSourceId {
    /// Wrap an already-validated id: total, no re-validation.
    fn from(id: ChargeId) -> (r: Self) {
        BalanceTransactionSourceId::Charge(id)
    }
}

impl vstd::std_specs::convert::FromSpecImpl<ChargeId> for BalanceTransactionSourceId {
    open spec fn obeys_from_spec() -> bool {
        true
    }

    open spec fn from_spec(id: ChargeId) -> Self {
        BalanceTransactionSourceId::Charge(id)
    }
}

impl From<DisputeId> for BalanceTransactionSourceId {
    /// Wrap an already-validated id: total, no re-validation.
    fn from(id: DisputeId) -> (r: Self) {
        BalanceTransactionSourceId::Dispute(id)
    }
}

impl vstd::std_specs::convert::FromSpecImpl<DisputeId> for BalanceTransactionSourceId {
    open spec fn obeys_from_spec() -> bool {
        true
    }

    open spec fn from_spec(id: DisputeId) -> Self {
        BalanceTransactionSourceId::Dispute(id)
    }
}

impl From<ApplicationFeeRefundId> for BalanceTransactionSourceId {
    /// Wrap an already-validated id: total, no re-validation.
    fn from(id: ApplicationFeeRefundId) -> (r: Self) {
        BalanceTransactionSourceId::ApplicationFeeRefund(id)
    }
}

impl vstd::std_specs::convert::FromSpecImpl<ApplicationFeeRefundId> for BalanceTransactionSourceId {
    open spec fn obeys_from_spec() -> bool {
        true
    }

    open spec fn from_spec(id: ApplicationFeeRefundId) -> Self {
        BalanceTransactionSourceId::ApplicationFeeRefund(id)
    }
}

impl From<IssuingAuthorizationId> for BalanceTransactionSourceId {
    /// Wrap an already-validated id: total, no re-validation.
    fn from(id: IssuingAuthorizationId) -> (r: Self) {
        BalanceTransactionSourceId::IssuingAuthorization(id)
    }
}

impl vstd::std_specs::convert::FromSpecImpl<IssuingAuthorizationId> for BalanceTransactionSourceId {
    open spec fn obeys_from_spec() -> bool {
        true
    }

    open spec fn from_spec(id: IssuingAuthorizationId) -> Self {
        BalanceTransactionSourceId::IssuingAuthorization(id)
    }
}

impl From<IssuingTransactionId> for BalanceTransactionSourceId {
    /// Wrap an already-validated id: total, no re-validation.
    fn from(id: IssuingTransactionId) -> (r: Self) {
        BalanceTransactionSourceId::IssuingTransaction(id)
    }
}

impl vstd::std_specs::convert::FromSpecImpl<IssuingTransactionId> for BalanceTransactionSourceId {
    open spec fn obeys_from_spec() -> bool {
        true
    }

    open spec fn from_spec(id: IssuingTransactionId) -> Self {
        BalanceTransactionSourceId::IssuingTransaction(id)
    }
}

impl From<PayoutId> for BalanceTransactionSourceId {
    /// Wrap an already-validated id: total, no re-validation.
    fn from(id: PayoutId) -> (r: Self) {
        BalanceTransactionSourceId::Payout(id)
    }
}

impl vstd::std_specs::convert::FromSpecImpl<PayoutId> for BalanceTransactionSourceId {
    open spec fn obeys_from_spec() -> bool {
        true
    }

    open spec fn from_spec(id: PayoutId) -> Self {
        BalanceTransactionSourceId::Payout(id)
    }
}

impl From<RefundId> for BalanceTransactionSourceId {
    /// Wrap an already-validated id: total, no re-validation.
    fn from(id: RefundId) -> (r: Self) {
        BalanceTransactionSourceId::Refund(id)
    }
}

impl vstd::std_specs::convert::FromSpecImpl<RefundId> for BalanceTransactionSourceId {
    open spec fn obeys_from_spec() -> bool {
        true
    }

    open spec fn from_spec(id: RefundId) -> Self {
        BalanceTransactionSourceId::Refund(id)
    }
}

impl From<TopupId> for BalanceTransactionSourceId {
    /// Wrap an already-validated id: total, no re-validation.
    fn from(id: TopupId) -> (r: Self) {
        BalanceTransactionSourceId::Topup(id)
    }
}

impl vstd::std_specs::convert::FromSpecImpl<TopupId> for BalanceTransactionSourceId {
    open spec fn obeys_from_spec() -> bool {
        true
    }

    open spec fn from_spec(id: TopupId) -> Self {
        BalanceTransactionSourceId::Topup(id)
    }
}

impl From<TransferId> for BalanceTransactionSourceId {
    /// Wrap an already-validated id: total, no re-validation.
    fn from(id: TransferId) -> (r: Self) {
        BalanceTransactionSourceId::Transfer(id)
    }
}

impl vstd::std_specs::convert::FromSpecImpl<TransferId> for BalanceTransactionSourceId {
    open spec fn obeys_from_spec() -> bool {
        true
    }

    open spec fn from_spec(id: TransferId) -> Self {
        BalanceTransactionSourceId::Transfer(id)
    }
}

impl From<TransferReversalId> for BalanceTransactionSourceId {
    /// Wrap an already-validated id: total, no re-validation.
    fn from(id: TransferReversalId) -> (r: Self) {
        BalanceTransactionSourceId::TransferReversal(id)
    }
}

impl vstd::std_specs::convert::FromSpecImpl<TransferReversalId> for BalanceTransactionSourceId {
    open spec fn obeys_from_spec() -> bool {
        true
    }

    open spec fn from_spec(id: TransferReversalId) -> Self {
        BalanceTransactionSourceId::TransferReversal(id)
    }
}

/// Law: the variants' accepted-prefix sets are pairwise disjoint, so the
/// declared-order tie-break never actually chooses between two matches:
/// dispatch picks a variant exactly when that variant's own kind accepts the
/// candidate prefix.
pub proof fn lemma_bts_dispatch_unambiguous(raw: Seq<char>, r: BalanceTransactionSourceId)
    requires
        BalanceTransactionSourceId::spec_dispatched(raw, r),
    ensures
        ApplicationFeeKind::spec_prefixes().contains(sep_prefix(raw)) <==> r matches BalanceTransactionSourceId::ApplicationFee(_),
        ChargeKind::spec_prefixes().contains(sep_prefix(raw)) <==> r matches BalanceTransactionSourceId::Charge(_),
        DisputeKind::spec_prefixes().contains(sep_prefix(raw)) <==> r matches BalanceTransactionSourceId::Dispute(_),
        ApplicationFeeRefundKind::spec_prefixes().contains(sep_prefix(raw)) <==> r matches BalanceTransactionSourceId::ApplicationFeeRefund(_),
        IssuingAuthorizationKind::spec_prefixes().contains(sep_prefix(raw)) <==> r matches BalanceTransactionSourceId::IssuingAuthorization(_),
        IssuingTransactionKind::spec_prefixes().contains(sep_prefix(raw)) <==> r matches BalanceTransactionSourceId::IssuingTransaction(_),
        PayoutKind::spec_prefixes().contains(sep_prefix(raw)) <==> r matches BalanceTransactionSourceId::Payout(_),
        RefundKind::spec_prefixes().contains(sep_prefix(raw)) <==> r matches BalanceTransactionSourceId::Refund(_),
        TopupKind::spec_prefixes().contains(sep_prefix(raw)) <==> r matches BalanceTransactionSourceId::Topup(_),
        TransferKind::spec_prefixes().contains(sep_prefix(raw)) <==> r matches BalanceTransactionSourceId::Transfer(_),
        TransferReversalKind::spec_prefixes().contains(sep_prefix(raw)) <==> r matches BalanceTransactionSourceId::TransferReversal(_),
{
    reveal_strlit("fee_");
    reveal_strlit("ch_");
    reveal_strlit("py_");
    reveal_strlit("dp_");
    reveal_strlit("du_");
    reveal_strlit("fr_");
    reveal_strlit("iauth_");
    reveal_strlit("ipi_");
    reveal_strlit("po_");
    reveal_strlit("re_");
    reveal_strlit("pyr_");
    reveal_strlit("tu_");
    reveal_strlit("tr_");
    reveal_strlit("trr_");
    assert("fee_"@[0] == 'f' && "fee_"@.len() == 4);
    assert("ch_"@[0] == 'c' && "ch_"@.len() == 3);
    assert("py_"@[0] == 'p' && "py_"@[1] == 'y' && "py_"@.len() == 3);
    assert("dp_"@[0] == 'd' && "dp_"@[1] == 'p' && "dp_"@.len() == 3);
    assert("du_"@[0] == 'd' && "du_"@[1] == 'u' && "du_"@.len() == 3);
    assert("fr_"@[0] == 'f' && "fr_"@.len() == 3);
    assert("iauth_"@[0] == 'i' && "iauth_"@.len() == 6);
    assert("ipi_"@[0] == 'i' && "ipi_"@.len() == 4);
    assert("po_"@[0] == 'p' && "po_"@[1] == 'o' && "po_"@.len() == 3);
    assert("re_"@[0] == 'r' && "re_"@.len() == 3);
    assert("pyr_"@[0] == 'p' && "pyr_"@.len() == 4);
    assert("tu_"@[0] == 't' && "tu_"@[1] == 'u' && "tu_"@.len() == 3);
    assert("tr_"@[0] == 't' && "tr_"@[1] == 'r' && "tr_"@.len() == 3);
    assert("trr_"@[0] == 't' && "trr_"@.len() == 4);
}

/// A line item of an invoice: either an invoice item or a subscription line.
#[derive(Clone, Debug, Hash)]
pub enum InvoiceLineItemId {
    Item(InvoiceItemId),
    Subscription(SubscriptionLineId),
}

impl View for InvoiceLineItemId {
    type V = Seq<char>;

    /// The rendered text: the active payload.
    open spec fn view(&self) -> Seq<char> {
        match self {
            InvoiceLineItemId::Item(id) => id@,
            InvoiceLineItemId::Subscription(id) => id@,
        }
    }
}

impl InvoiceLineItemId {
    /// Every payload is accepted by its own kind.
    pub open spec fn wf(&self) -> bool {
        match self {
            InvoiceLineItemId::Item(id) => id.wf(),
            InvoiceLineItemId::Subscription(id) => id.wf(),
        }
    }

    /// Some variant's accepted prefixes contain `p`.
    pub open spec fn spec_dispatchable(p: Seq<char>) -> bool {
        ||| InvoiceItemKind::spec_prefixes().contains(p)
        ||| SubscriptionLineKind::spec_prefixes().contains(p)
    }

    /// `r` is the variant that dispatch chooses for `raw`.
    pub open spec fn spec_dispatched(raw: Seq<char>, r: Self) -> bool {
        let p = sep_prefix(raw);
        if InvoiceItemKind::spec_prefixes().contains(p) {
            r matches InvoiceLineItemId::Item(id) && id@ == raw
        } else if SubscriptionLineKind::spec_prefixes().contains(p) {
            r matches InvoiceLineItemId::Subscription(id) && id@ == raw
        } else {
            false
        }
    }

    /// Parse a raw string by prefix dispatch, as for every union.
    pub fn parse(raw: &str) -> (r: Result<Self, ParseIdError>)
        ensures
            r is Ok <==> has_sep(raw@) && Self::spec_dispatchable(sep_prefix(raw@)),
            r matches Ok(v) ==> Self::spec_dispatched(raw@, v) && v@ == raw@ && v.wf(),
            r matches Err(e) ==> e.typename_spec() == "InvoiceLineItemId"@ && (if has_sep(raw@) {
                e.expected_spec() == "unknown id prefix"@
            } else {
                e.expected_spec() == "id to start with a prefix (as in 'prefix_')"@
            }),
    {
        let i: usize = match find_sep(raw) {
            Option::Some(i) => i,
            Option::None => {
                return Err(
                    ParseIdError::new(
                        "InvoiceLineItemId",
                        String::from_str("id to start with a prefix (as in 'prefix_')"),
                    ),
                );
            },
        };
        let prefix = raw.substring_char(0, i + 1);
        proof {
            assert(prefix@ == sep_prefix(raw@));
            assert(starts_with(raw@, prefix@));
        }
        if InvoiceItemId::is_valid_prefix(prefix) {
            proof {
                lemma_prefix_match_accepted::<InvoiceItemKind>(raw@, prefix@);
            }
            match InvoiceItemId::parse(raw) {
                Ok(id) => Ok(InvoiceLineItemId::Item(id)),
                Err(e) => Err(e),
            }
        } else if SubscriptionLineId::is_valid_prefix(prefix) {
            proof {
                lemma_prefix_match_accepted::<SubscriptionLineKind>(raw@, prefix@);
            }
            match SubscriptionLineId::parse(raw) {
                Ok(id) => Ok(InvoiceLineItemId::Subscription(id)),
                Err(e) => Err(e),
            }
        } else {
            Err(ParseIdError::new("InvoiceLineItemId", String::from_str("unknown id prefix")))
        }
    }

    /// The rendered text of the active variant.
    pub fn as_str(&self) -> (r: &str)
        ensures
            r@ == self@,
    {
        match self {
            InvoiceLineItemId::Item(id) => id.as_str(),
            InvoiceLineItemId::Subscription(id) => id.as_str(),
        }
    }
}

impl PartialEq for InvoiceLineItemId {
    fn eq(&self, other: &Self) -> (r: bool) {
        str_eq(self.as_str(), other.as_str())
    }
}

impl vstd::std_specs::cmp::PartialEqSpecImpl for InvoiceLineItemId {
    open spec fn obeys_eq_spec() -> bool {
        true
    }

    /// Unions compare by their rendered text.
    open spec fn eq_spec(&self, other: &Self) -> bool {
        self@ == other@
    }
}

impl Eq for InvoiceLineItemId {

}

impl PartialEq<&str> for InvoiceLineItemId {
    fn eq(&self, other: &&str) -> (r: bool) {
        str_eq(self.as_str(), other)
    }
}

impl vstd::std_specs::cmp::PartialEqSpecImpl<&str> for InvoiceLineItemId {
    open spec fn obeys_eq_spec() -> bool {
        true
    }

    /// A union equals a raw string exactly when its rendered text does.
    open spec fn eq_spec(&self, other: &&str) -> bool {
        self@ == other@
    }
}

impl PartialOrd for InvoiceLineItemId {
    fn partial_cmp(&self, other: &Self) -> (r: Option<Ordering>) {
        Some(str_lex_cmp(self.as_str(), other.as_str()))
    }
}

impl vstd::std_specs::cmp::PartialOrdSpecImpl for InvoiceLineItemId {
    open spec fn obeys_partial_cmp_spec() -> bool {
        true
    }

    /// Unions order lexicographically on their rendered text.
    open spec fn partial_cmp_spec(&self, other: &Self) -> Option<Ordering> {
        Some(lex_cmp(self@, other@))
    }
}

/// Law: the two variants' accepted-prefix sets are disjoint, so dispatch
/// picks a variant exactly when that variant's own kind accepts the
/// candidate prefix.
pub proof fn lemma_line_item_dispatch_unambiguous(raw: Seq<char>, r: InvoiceLineItemId)
    requires
        InvoiceLineItemId::spec_dispatched(raw, r),
    ensures
        InvoiceItemKind::spec_prefixes().contains(sep_prefix(raw)) <==> r matches InvoiceLineItemId::Item(_),
        SubscriptionLineKind::spec_prefixes().contains(sep_prefix(raw)) <==> r matches InvoiceLineItemId::Subscription(_),
{
    reveal_strlit("ii_");
    reveal_strlit("sli_");
    assert("ii_"@.len() == 3);
    assert("sli_"@.len() == 4);
}

impl From<InvoiceItemId> for InvoiceLineItemId {
    /// Wrap an already-validated id: total, no re-validation.
    fn from(id: InvoiceItemId) -> (r: Self) {
        InvoiceLineItemId::Item(id)
    }
}

impl vstd::std_specs::convert::FromSpecImpl<InvoiceItemId> for InvoiceLineItemId {
    open spec fn obeys_from_spec() -> bool {
        true
    }

    open spec fn from_spec(id: InvoiceItemId) -> Self {
        InvoiceLineItemId::Item(id)
    }
}

impl From<SubscriptionLineId> for InvoiceLineItemId {
    /// Wrap an already-validated id: total, no re-validation.
    fn from(id: SubscriptionLineId) -> (r: Self) {
        InvoiceLineItemId::Subscription(id)
    }
}

impl vstd::std_specs::convert::FromSpecImpl<SubscriptionLineId> for InvoiceLineItemId {
    open spec fn obeys_from_spec() -> bool {
        true
    }

    open spec fn from_spec(id: SubscriptionLineId) -> Self {
        InvoiceLineItemId::Subscription(id)
    }
}

} // verus!
