//! The record model: the typed shape of one decoded input row.
//!
//! A row describes one financial event. Its kind determines which of the
//! optional fields are semantically required; the absence of a required
//! field is a fatal input error that the engine reports, never defaults.

use vstd::prelude::*;

use crate::decimal::Decimal;
use crate::timestamp::Timestamp;

verus! {

/// The closed set of transaction kinds an input row can carry.
#[derive(Clone, Copy, PartialEq, Eq, Structural, Debug)]
pub enum TransactionKind {
    Dividend,
    InterestFromCash,
    MonthlyStatement,
    Order,
    SippAnnualStatement,
    SippPresaleIllustration,
    TaxRelief,
    TopUp,
}

/// The direction of a trade order.
#[derive(Clone, Copy, PartialEq, Eq, Structural, Debug)]
pub enum OrderDirection {
    Buy,
    Sell,
}

/// One decoded input row.
#[derive(Debug)]
pub struct TransactionRecord {
    pub kind: TransactionKind,
    pub timestamp: Timestamp,
    pub total_amount: Option<Decimal>,
    pub price_per_share: Option<Decimal>,
    pub order_direction: Option<OrderDirection>,
    pub ticker: Option<String>,
    pub stamp_duty: Option<Decimal>,
    pub quantity: Option<Decimal>,
    pub fx_fee_amount: Option<Decimal>,
}

/// A field that some record kind requires.
#[derive(Clone, Copy, PartialEq, Eq, Structural, Debug)]
pub enum FieldName {
    TotalAmount,
    PricePerShare,
    OrderDirection,
    Ticker,
    Quantity,
}

/// A fatal conversion error: the record's kind and what it lacked.
#[derive(Clone, Copy, PartialEq, Eq, Structural, Debug)]
pub enum ConvertError {
    /// A field required by the record's kind is absent.
    MissingRequiredField(TransactionKind, FieldName),
    /// An order without a direction is not a meaningful combination.
    InvalidFieldCombination(TransactionKind),
}

/// The kinds routed to the credit branch.
pub open spec fn is_credit_kind(k: TransactionKind) -> bool {
    k is Dividend || k is InterestFromCash || k is TaxRelief || k is TopUp
}

/// The kinds that carry no transferable value and produce empty output.
pub open spec fn is_empty_kind(k: TransactionKind) -> bool {
    k is MonthlyStatement || k is SippAnnualStatement || k is SippPresaleIllustration
}

impl TransactionRecord {
    /// Every value the record holds is itself well formed: the timestamp is
    /// a calendar instant and each present decimal is in minimal form.
    pub open spec fn wf(self) -> bool {
        &&& self.timestamp.wf()
        &&& (self.total_amount matches Some(d) ==> d.wf())
        &&& (self.price_per_share matches Some(d) ==> d.wf())
        &&& (self.stamp_duty matches Some(d) ==> d.wf())
        &&& (self.quantity matches Some(d) ==> d.wf())
        &&& (self.fx_fee_amount matches Some(d) ==> d.wf())
    }

    /// Every field that this record's kind requires is present.
    pub open spec fn fields_ok(self) -> bool {
        match self.kind {
            TransactionKind::Order => {
                &&& self.order_direction is Some
                &&& self.ticker is Some
                &&& self.quantity is Some
                &&& self.price_per_share is Some
                &&& self.total_amount is Some
            },
            TransactionKind::Dividend => self.total_amount is Some && self.ticker is Some,
            TransactionKind::InterestFromCash | TransactionKind::TaxRelief
                | TransactionKind::TopUp => self.total_amount is Some,
            _ => true,
        }
    }

    /// The error reported for a record whose kind misses a required field:
    /// the first violation in the order the fields are consumed.
    pub open spec fn spec_first_error(self) -> ConvertError {
        match self.kind {
            TransactionKind::Order => {
                if self.order_direction is None {
                    ConvertError::InvalidFieldCombination(TransactionKind::Order)
                } else if self.ticker is None {
                    ConvertError::MissingRequiredField(TransactionKind::Order, FieldName::Ticker)
                } else if self.quantity is None {
                    ConvertError::MissingRequiredField(TransactionKind::Order, FieldName::Quantity)
                } else if self.price_per_share is None {
                    ConvertError::MissingRequiredField(
                        TransactionKind::Order,
                        FieldName::PricePerShare,
                    )
                } else {
                    ConvertError::MissingRequiredField(
                        TransactionKind::Order,
                        FieldName::TotalAmount,
                    )
                }
            },
            _ => {
                if self.total_amount is None {
                    ConvertError::MissingRequiredField(self.kind, FieldName::TotalAmount)
                } else {
                    ConvertError::MissingRequiredField(self.kind, FieldName::Ticker)
                }
            },
        }
    }
}

} // verus!
