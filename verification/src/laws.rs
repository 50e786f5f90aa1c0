//! The laws of the conversion, stated over the engine's own specifications
//! and proved once and for all.

use vstd::prelude::*;

use crate::decimal::{lemma_neg_scaled, spec_signed_mantissa};
use crate::engine::{
    spec_checking_account, spec_fees_account, spec_format, spec_income_account,
    spec_instrument_account, spec_marker_str, spec_postings, spec_stamp_account, Posting,
};
use crate::record::{is_credit_kind, is_empty_kind, TransactionRecord};
use crate::ticker::{
    lemma_strip_dots_len, lemma_strip_dots_no_dot, spec_strip_dots, spec_unit_symbol,
};
use crate::timestamp::{lemma_date_str_len, Timestamp};

verus! {

/// The ledger-currency value of one posting, scaled by `10^s`: a posting
/// with a per-unit cost counts for its amount times that cost, one without
/// counts for its amount.
pub open spec fn posting_gbp_scaled(p: Posting, s: nat) -> int {
    match p.cost {
        Some(c) => spec_signed_mantissa(p.amount) * c.scaled((s - p.amount.scale) as nat),
        None => p.amount.scaled(s),
    }
}

/// The summed ledger-currency value of a sequence of postings, scaled by
/// `10^s`.
pub open spec fn sum_gbp_scaled(ps: Seq<Posting>, s: nat) -> int
    decreases ps.len(),
{
    if ps.len() == 0 {
        0
    } else {
        posting_gbp_scaled(ps.first(), s) + sum_gbp_scaled(ps.drop_first(), s)
    }
}

/// Summing distributes over concatenation of posting sequences.
proof fn lemma_sum_append(a: Seq<Posting>, b: Seq<Posting>, s: nat)
    ensures
        sum_gbp_scaled(a + b, s) == sum_gbp_scaled(a, s) + sum_gbp_scaled(b, s),
    decreases a.len(),
{
    if a.len() == 0 {
        assert(a + b =~= b);
    } else {
        lemma_sum_append(a.drop_first(), b, s);
        assert((a + b).drop_first() =~= a.drop_first() + b);
        assert((a + b).first() == a.first());
    }
}

/// Balance invariant of the credit branch: the entry of a credit record
/// holds exactly two postings, and their signed amounts are exact negatives
/// of one another, so they sum to zero at any common scale.
pub proof fn lemma_credit_balance(r: TransactionRecord, account: Seq<char>, s: nat)
    requires
        is_credit_kind(r.kind),
        r.fields_ok(),
        r.total_amount->Some_0.scale <= s,
    ensures
        spec_postings(r, account).len() == 2,
        sum_gbp_scaled(spec_postings(r, account), s) == 0,
{
    let total = r.total_amount->Some_0;
    let ps = spec_postings(r, account);
    lemma_neg_scaled(total, s);
    reveal_with_fuel(sum_gbp_scaled, 3);
    assert(ps.first() == ps[0]);
    assert(ps.drop_first().first() == ps[1]);
    assert(ps.drop_first().drop_first() =~= Seq::<Posting>::empty());
    assert(sum_gbp_scaled(ps, s) == total.scaled(s) + (total.spec_neg().scaled(s) + 0));
}

/// The scaled cost of an order's instrument leg: signed quantity times
/// per-unit price.
pub open spec fn spec_order_cost_scaled(r: TransactionRecord, s: nat) -> int
    recommends
        r.kind is Order,
        r.fields_ok(),
{
    spec_signed_mantissa(r.quantity->Some_0) * r.price_per_share->Some_0.scaled(
        (s - r.quantity->Some_0.scale) as nat,
    )
}

/// The scaled conversion fee of an order, zero when none was charged.
pub open spec fn spec_order_fee_scaled(r: TransactionRecord, s: nat) -> int {
    if r.fx_fee_amount is Some {
        r.fx_fee_amount->Some_0.scaled(s)
    } else {
        0
    }
}

/// The scaled stamp duty of an order, zero when absent or exactly zero.
pub open spec fn spec_order_duty_scaled(r: TransactionRecord, s: nat) -> int {
    if r.stamp_duty is Some && r.stamp_duty->Some_0.mantissa != 0 {
        r.stamp_duty->Some_0.scaled(s)
    } else {
        0
    }
}

/// All of an order's decimal scales fit below the common scale `s`.
pub open spec fn order_scales_fit(r: TransactionRecord, s: nat) -> bool {
    &&& r.quantity->Some_0.scale + r.price_per_share->Some_0.scale <= s
    &&& r.total_amount->Some_0.scale <= s
    &&& (r.fx_fee_amount matches Some(d) ==> d.scale <= s)
    &&& (r.stamp_duty matches Some(d) ==> d.scale <= s)
}

/// The cash leg of the order matches its instrument cost and charges: for a
/// buy the total spent is cost plus fee plus duty, for a sell the total
/// received is cost less fee less duty.
pub open spec fn order_consistent_at(r: TransactionRecord, s: nat) -> bool
    recommends
        r.kind is Order,
        r.fields_ok(),
{
    if r.order_direction->Some_0 is Buy {
        r.total_amount->Some_0.scaled(s) == spec_order_cost_scaled(r, s) + spec_order_fee_scaled(
            r,
            s,
        ) + spec_order_duty_scaled(r, s)
    } else {
        r.total_amount->Some_0.scaled(s) == spec_order_cost_scaled(r, s) - spec_order_fee_scaled(
            r,
            s,
        ) - spec_order_duty_scaled(r, s)
    }
}

/// Balance invariant of the order branch: whenever the record's cash leg is
/// consistent with its instrument cost and charges, the ledger-currency
/// values of the entry's postings sum to zero, the instrument leg counted
/// at its per-unit cost.
pub proof fn lemma_order_balance(r: TransactionRecord, account: Seq<char>, s: nat)
    requires
        r.kind is Order,
        r.fields_ok(),
        order_scales_fit(r, s),
        order_consistent_at(r, s),
    ensures
        sum_gbp_scaled(spec_postings(r, account), s) == 0,
{
    let t = (r.ticker->Some_0)@;
    let qty = r.quantity->Some_0;
    let price = r.price_per_share->Some_0;
    let total = r.total_amount->Some_0;
    let instrument = Posting {
        account: spec_instrument_account(account, t),
        amount: if r.order_direction->Some_0 is Sell {
            qty.spec_neg()
        } else {
            qty
        },
        unit: spec_unit_symbol(t),
        cost: Some(price),
    };
    let fee = if r.fx_fee_amount is Some {
        seq![
            Posting {
                account: spec_fees_account(account),
                amount: r.fx_fee_amount->Some_0,
                unit: "GBP"@,
                cost: None,
            },
        ]
    } else {
        Seq::<Posting>::empty()
    };
    let stamp = if r.stamp_duty is Some && r.stamp_duty->Some_0.mantissa != 0 {
        seq![
            Posting {
                account: spec_stamp_account(account),
                amount: r.stamp_duty->Some_0,
                unit: "GBP"@,
                cost: None,
            },
        ]
    } else {
        Seq::<Posting>::empty()
    };
    let checking = Posting {
        account: spec_checking_account(account),
        amount: if r.order_direction->Some_0 is Buy {
            total.spec_neg()
        } else {
            total
        },
        unit: "GBP"@,
        cost: None,
    };
    let ps = spec_postings(r, account);
    assert(ps == seq![instrument] + fee + stamp + seq![checking]);
    lemma_sum_append(seq![instrument] + fee + stamp, seq![checking], s);
    lemma_sum_append(seq![instrument] + fee, stamp, s);
    lemma_sum_append(seq![instrument], fee, s);
    lemma_sum_singleton(instrument, s);
    lemma_sum_singleton(checking, s);
    if r.fx_fee_amount is Some {
        lemma_sum_singleton(fee.first(), s);
        assert(fee =~= seq![fee.first()]);
    }
    if r.stamp_duty is Some && r.stamp_duty->Some_0.mantissa != 0 {
        lemma_sum_singleton(stamp.first(), s);
        assert(stamp =~= seq![stamp.first()]);
    }
    lemma_neg_scaled(total, s);
    // The instrument leg's value is plus or minus quantity times price.
    assert(instrument.amount.scale == qty.scale);
    assert(spec_signed_mantissa(qty.spec_neg()) == -spec_signed_mantissa(qty));
    let p = price.scaled((s - qty.scale) as nat);
    assert((-spec_signed_mantissa(qty)) * p == -(spec_signed_mantissa(qty) * p))
        by (nonlinear_arith);
}

/// The sum over a single posting is that posting's value.
proof fn lemma_sum_singleton(p: Posting, s: nat)
    ensures
        sum_gbp_scaled(seq![p], s) == posting_gbp_scaled(p, s),
{
    reveal_with_fuel(sum_gbp_scaled, 2);
    assert(seq![p].drop_first() =~= Seq::<Posting>::empty());
    assert(sum_gbp_scaled(seq![p], s) == posting_gbp_scaled(p, s) + 0);
}

/// Idempotence: the conversion's output is pinned to a function of the
/// record, the account and the reference instant alone, so two conversions
/// of the identical record and account at the same instant agree byte for
/// byte.
pub proof fn lemma_format_idempotent(
    r: TransactionRecord,
    account: Seq<char>,
    now: Timestamp,
    out1: Seq<char>,
    out2: Seq<char>,
)
    requires
        out1 == spec_format(r, account, now),
        out2 == spec_format(r, account, now),
    ensures
        out1 == out2,
{
}

/// Emptiness: the statement kinds produce exactly the empty string, for any
/// field combination and at any instant.
pub proof fn lemma_empty_kinds(r: TransactionRecord, account: Seq<char>, now: Timestamp)
    requires
        is_empty_kind(r.kind),
    ensures
        spec_format(r, account, now) == Seq::<char>::empty(),
{
}

/// Ticker normalization in an order's entry: the instrument account path
/// ends in the dot-stripped symbol, which holds no `.` and is never longer
/// than the raw ticker, while the unit symbol doubles a one-character
/// ticker.
pub proof fn lemma_order_ticker_normalization(r: TransactionRecord, account: Seq<char>)
    requires
        r.kind is Order,
        r.fields_ok(),
    ensures
        ({
            let t = (r.ticker->Some_0)@;
            let instrument = spec_postings(r, account)[0];
            &&& instrument.account == spec_instrument_account(account, t)
            &&& instrument.unit == spec_unit_symbol(t)
            &&& forall|i: int|
                0 <= i < spec_strip_dots(t).len() ==> #[trigger] spec_strip_dots(t)[i] != '.'
            &&& spec_strip_dots(t).len() <= t.len()
            &&& (t.len() == 1 ==> instrument.unit == t + t)
        }),
{
    let t = (r.ticker->Some_0)@;
    lemma_strip_dots_no_dot(t);
    lemma_strip_dots_len(t);
}

/// Ticker normalization in a dividend's entry: the income account path
/// carries the dot-stripped, never-doubled symbol as its extra segment.
pub proof fn lemma_dividend_ticker_normalization(r: TransactionRecord, account: Seq<char>)
    requires
        r.kind is Dividend,
        r.fields_ok(),
    ensures
        ({
            let t = (r.ticker->Some_0)@;
            &&& spec_postings(r, account)[1].account == spec_income_account(r, account)
            &&& forall|i: int|
                0 <= i < spec_strip_dots(t).len() ==> #[trigger] spec_strip_dots(t)[i] != '.'
            &&& spec_strip_dots(t).len() <= t.len()
        }),
{
    let t = (r.ticker->Some_0)@;
    lemma_strip_dots_no_dot(t);
    lemma_strip_dots_len(t);
}

/// Status marker: a record dated at or before the reference instant renders
/// the cleared marker, one dated strictly later renders the pending marker,
/// and the marker stands right after the ten-character date in the output.
pub proof fn lemma_status_marker(r: TransactionRecord, account: Seq<char>, now: Timestamp)
    requires
        !is_empty_kind(r.kind),
        r.fields_ok(),
        r.timestamp.wf(),
    ensures
        r.timestamp.spec_le(now) ==> spec_marker_str(r.timestamp, now) == " * "@,
        !r.timestamp.spec_le(now) ==> spec_marker_str(r.timestamp, now) == " ! "@,
        spec_marker_str(r.timestamp, now) == " * "@ ==> r.timestamp.spec_le(now),
        spec_format(r, account, now).subrange(10, 13) == spec_marker_str(r.timestamp, now),
{
    reveal_strlit(" * ");
    reveal_strlit(" ! ");
    assert(" * "@.len() == 3);
    assert(" ! "@.len() == 3);
    assert(" * "@[1] != " ! "@[1]);
    lemma_date_str_len(r.timestamp);
    assert(spec_format(r, account, now).subrange(10, 13) =~= spec_marker_str(r.timestamp, now));
}

} // verus!
