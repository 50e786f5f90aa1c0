//! The transformation engine: from one record and an account name to a
//! ledger entry.
//!
//! The entry a record produces is specified twice over, from one set of
//! definitions: as a sequence of postings ([`spec_postings`]), over which
//! the balance laws are stated, and as the exact text the conversion emits
//! ([`spec_format`]), which every formatting function is proved to produce.

use vstd::prelude::*;

use crate::clock::now_timestamp;
use crate::decimal::{spec_decimal_str, Decimal};
use crate::record::{
    is_credit_kind, is_empty_kind, ConvertError, FieldName, OrderDirection, TransactionKind,
    TransactionRecord,
};
use crate::ticker::{spec_strip_dots, spec_unit_symbol, format_ticker, strip_dots};
use crate::timestamp::{date_string, spec_date_str, Timestamp};

verus! {

/// One ledger posting: an account path, a signed amount in a unit, and an
/// optional per-unit cost in the ledger currency.
pub struct Posting {
    pub account: Seq<char>,
    pub amount: Decimal,
    pub unit: Seq<char>,
    pub cost: Option<Decimal>,
}

/// The cleared (`*`) or pending (`!`) marker: cleared when the event is at
/// or before the reference instant, pending when it is strictly later.
pub open spec fn spec_marker_str(ts: Timestamp, now: Timestamp) -> Seq<char> {
    if ts.spec_le(now) {
        " * "@
    } else {
        " ! "@
    }
}

/// The header line: date, status marker and quoted description.
pub open spec fn spec_header(ts: Timestamp, now: Timestamp, desc: Seq<char>) -> Seq<char> {
    spec_date_str(ts) + spec_marker_str(ts, now) + "\""@ + desc + "\""@ + "\n"@
}

/// The free-text description of a credit record.
pub open spec fn spec_credit_desc(k: TransactionKind) -> Seq<char>
    recommends
        is_credit_kind(k),
{
    match k {
        TransactionKind::Dividend => "Dividend"@,
        TransactionKind::InterestFromCash => "Interest from cash"@,
        TransactionKind::TaxRelief => "Tax Relief"@,
        _ => "Top Up"@,
    }
}

/// The description of a record: the trade direction and raw ticker for an
/// order, the kind's fixed text for a credit.
pub open spec fn spec_desc(r: TransactionRecord) -> Seq<char>
    recommends
        r.fields_ok(),
{
    if r.kind is Order {
        (if r.order_direction->Some_0 is Buy {
            "Buy "@
        } else {
            "Sell "@
        }) + (r.ticker->Some_0)@
    } else {
        spec_credit_desc(r.kind)
    }
}

/// The checking account of the target account.
pub open spec fn spec_checking_account(account: Seq<char>) -> Seq<char> {
    "Assets:UK:Freetrade:"@ + account + ":Checking"@
}

/// The leaf segment of the income account for a credit kind.
pub open spec fn spec_income_leaf(k: TransactionKind) -> Seq<char>
    recommends
        is_credit_kind(k),
{
    match k {
        TransactionKind::Dividend => ":Dividend"@,
        TransactionKind::InterestFromCash => ":Interest"@,
        TransactionKind::TaxRelief => ":TaxRelief"@,
        _ => ":TopUp"@,
    }
}

/// The income account a credit record is debited from; dividends carry the
/// normalized ticker as an extra segment.
pub open spec fn spec_income_account(r: TransactionRecord, account: Seq<char>) -> Seq<char>
    recommends
        is_credit_kind(r.kind),
        r.fields_ok(),
{
    "Income:UK:Freetrade:"@ + account + (if r.kind is Dividend {
        ":"@ + spec_strip_dots((r.ticker->Some_0)@)
    } else {
        Seq::<char>::empty()
    }) + spec_income_leaf(r.kind)
}

/// The instrument account of an order: the target account plus the
/// normalized ticker.
pub open spec fn spec_instrument_account(account: Seq<char>, t: Seq<char>) -> Seq<char> {
    "Assets:UK:Freetrade:"@ + account + ":"@ + spec_strip_dots(t)
}

/// The expense account for currency-conversion fees.
pub open spec fn spec_fees_account(account: Seq<char>) -> Seq<char> {
    "Expenses:UK:Freetrade:"@ + account + ":Fees"@
}

/// The expense account for stamp duty.
pub open spec fn spec_stamp_account(account: Seq<char>) -> Seq<char> {
    "Expenses:UK:Freetrade:"@ + account + ":StampDuty"@
}

/// The ordered postings of a record's entry. Meaningful when the record's
/// required fields are present; the empty kinds have no postings.
pub open spec fn spec_postings(r: TransactionRecord, account: Seq<char>) -> Seq<Posting>
    recommends
        r.fields_ok(),
{
    if is_credit_kind(r.kind) {
        let total = r.total_amount->Some_0;
        seq![
            Posting {
                account: spec_checking_account(account),
                amount: total,
                unit: "GBP"@,
                cost: None,
            },
            Posting {
                account: spec_income_account(r, account),
                amount: total.spec_neg(),
                unit: "GBP"@,
                cost: None,
            },
        ]
    } else if r.kind is Order {
        let t = (r.ticker->Some_0)@;
        let qty = r.quantity->Some_0;
        let total = r.total_amount->Some_0;
        let instrument = Posting {
            account: spec_instrument_account(account, t),
            amount: if r.order_direction->Some_0 is Sell {
                qty.spec_neg()
            } else {
                qty
            },
            unit: spec_unit_symbol(t),
            cost: Some(r.price_per_share->Some_0),
        };
        let fee = if r.fx_fee_amount is Some {
            seq![
                Posting {
                    account: spec_fees_account(account),
                    amount: r.fx_fee_amount->Some_0,
                    unit: "GBP"@,
                    cost: None,
                },
            ]
        } else {
            Seq::<Posting>::empty()
        };
        let stamp = if r.stamp_duty is Some && r.stamp_duty->Some_0.mantissa != 0 {
            seq![
                Posting {
                    account: spec_stamp_account(account),
                    amount: r.stamp_duty->Some_0,
                    unit: "GBP"@,
                    cost: None,
                },
            ]
        } else {
            Seq::<Posting>::empty()
        };
        let checking = Posting {
            account: spec_checking_account(account),
            amount: if r.order_direction->Some_0 is Buy {
                total.spec_neg()
            } else {
                total
            },
            unit: "GBP"@,
            cost: None,
        };
        seq![instrument] + fee + stamp + seq![checking]
    } else {
        Seq::<Posting>::empty()
    }
}

/// The cost annotation of a posting, empty when it has none.
pub open spec fn spec_cost_str(cost: Option<Decimal>) -> Seq<char> {
    match cost {
        Some(c) => " {"@ + spec_decimal_str(c) + " GBP}"@,
        None => Seq::<char>::empty(),
    }
}

/// One rendered posting line: four spaces of indent, the account path, the
/// amount, the unit and the cost annotation, newline-terminated.
pub open spec fn spec_render_posting(p: Posting) -> Seq<char> {
    "    "@ + p.account + " "@ + spec_decimal_str(p.amount) + " "@ + p.unit + spec_cost_str(p.cost)
        + "\n"@
}

/// The rendered posting lines, in order.
pub open spec fn spec_render_postings(ps: Seq<Posting>) -> Seq<char>
    decreases ps.len(),
{
    if ps.len() == 0 {
        Seq::<char>::empty()
    } else {
        spec_render_posting(ps.first()) + spec_render_postings(ps.drop_first())
    }
}

/// The complete text of a record's entry: header line then posting lines.
pub open spec fn spec_entry_text(r: TransactionRecord, account: Seq<char>, now: Timestamp)
    -> Seq<char>
    recommends
        r.fields_ok(),
        !is_empty_kind(r.kind),
{
    spec_header(r.timestamp, now, spec_desc(r)) + spec_render_postings(spec_postings(r, account))
}

/// What the conversion of a record emits: nothing for the kinds without
/// transferable value, the full entry otherwise.
pub open spec fn spec_format(r: TransactionRecord, account: Seq<char>, now: Timestamp)
    -> Seq<char>
    recommends
        r.fields_ok(),
{
    if is_empty_kind(r.kind) {
        Seq::<char>::empty()
    } else {
        spec_entry_text(r, account, now)
    }
}

/// Rendering one more posting appends exactly its line.
pub proof fn lemma_render_snoc(ps: Seq<Posting>, p: Posting)
    ensures
        spec_render_postings(ps.push(p)) == spec_render_postings(ps) + spec_render_posting(p),
    decreases ps.len(),
{
    reveal_with_fuel(spec_render_postings, 3);
    if ps.len() == 0 {
        assert(ps.push(p).first() == p);
        assert(ps.push(p).drop_first() =~= Seq::<Posting>::empty());
        assert(spec_render_postings(ps.push(p)) == spec_render_posting(p)
            + Seq::<char>::empty());
        assert(spec_render_posting(p) + Seq::<char>::empty() =~= Seq::<char>::empty()
            + spec_render_posting(p));
    } else {
        lemma_render_snoc(ps.drop_first(), p);
        assert(ps.push(p).first() == ps.first());
        assert(ps.push(p).drop_first() =~= ps.drop_first().push(p));
        assert(spec_render_postings(ps.push(p)) == spec_render_posting(ps.first()) + (
        spec_render_postings(ps.drop_first()) + spec_render_posting(p)));
        assert(spec_render_posting(ps.first()) + (spec_render_postings(ps.drop_first())
            + spec_render_posting(p)) =~= (spec_render_posting(ps.first())
            + spec_render_postings(ps.drop_first())) + spec_render_posting(p));
    }
}

fn credit_desc(k: TransactionKind) -> (r: &'static str)
    requires
        is_credit_kind(k),
    ensures
        r@ == spec_credit_desc(k),
{
    if k == TransactionKind::Dividend {
        "Dividend"
    } else if k == TransactionKind::InterestFromCash {
        "Interest from cash"
    } else if k == TransactionKind::TaxRelief {
        "Tax Relief"
    } else {
        "Top Up"
    }
}

fn income_leaf(k: TransactionKind) -> (r: &'static str)
    requires
        is_credit_kind(k),
    ensures
        r@ == spec_income_leaf(k),
{
    if k == TransactionKind::Dividend {
        ":Dividend"
    } else if k == TransactionKind::InterestFromCash {
        ":Interest"
    } else if k == TransactionKind::TaxRelief {
        ":TaxRelief"
    } else {
        ":TopUp"
    }
}

/// Appends the rendered checking-account posting line for `amount`.
fn append_checking_line(buf: &mut String, account: &str, amount: &Decimal)
    ensures
        final(buf)@ == old(buf)@ + spec_render_posting(
            Posting {
                account: spec_checking_account(account@),
                amount: *amount,
                unit: "GBP"@,
                cost: None,
            },
        ),
{
    buf.append("    ");
    buf.append("Assets:UK:Freetrade:");
    buf.append(account);
    buf.append(":Checking");
    buf.append(" ");
    let amount_text = amount.to_text();
    buf.append(amount_text.as_str());
    buf.append(" ");
    buf.append("GBP");
    buf.append("\n");
    proof {
        assert(buf@ =~= old(buf)@ + spec_render_posting(
            Posting {
                account: spec_checking_account(account@),
                amount: *amount,
                unit: "GBP"@,
                cost: None,
            },
        ));
    }
}

/// Appends the rendered expense posting line for `amount`, under the given
/// leaf segment of the expense account.
fn append_expense_line(buf: &mut String, account: &str, leaf: &str, amount: &Decimal)
    ensures
        final(buf)@ == old(buf)@ + spec_render_posting(
            Posting {
                account: "Expenses:UK:Freetrade:"@ + account@ + leaf@,
                amount: *amount,
                unit: "GBP"@,
                cost: None,
            },
        ),
{
    buf.append("    ");
    buf.append("Expenses:UK:Freetrade:");
    buf.append(account);
    buf.append(leaf);
    buf.append(" ");
    let amount_text = amount.to_text();
    buf.append(amount_text.as_str());
    buf.append(" ");
    buf.append("GBP");
    buf.append("\n");
    proof {
        assert(buf@ =~= old(buf)@ + spec_render_posting(
            Posting {
                account: "Expenses:UK:Freetrade:"@ + account@ + leaf@,
                amount: *amount,
                unit: "GBP"@,
                cost: None,
            },
        ));
    }
}

/// Appends the rendered instrument posting line of an order: the signed
/// quantity of the ticker's unit symbol, annotated with its per-unit cost.
fn append_instrument_line(
    buf: &mut String,
    account: &str,
    ticker: &str,
    amount: &Decimal,
    price: &Decimal,
)
    ensures
        final(buf)@ == old(buf)@ + spec_render_posting(
            Posting {
                account: spec_instrument_account(account@, ticker@),
                amount: *amount,
                unit: spec_unit_symbol(ticker@),
                cost: Some(*price),
            },
        ),
{
    buf.append("    ");
    buf.append("Assets:UK:Freetrade:");
    buf.append(account);
    buf.append(":");
    let stripped = strip_dots(ticker);
    buf.append(stripped.as_str());
    buf.append(" ");
    let amount_text = amount.to_text();
    buf.append(amount_text.as_str());
    buf.append(" ");
    let unit = format_ticker(ticker);
    buf.append(unit.as_str());
    buf.append(" {");
    let price_text = price.to_text();
    buf.append(price_text.as_str());
    buf.append(" GBP}");
    buf.append("\n");
    proof {
        assert(buf@ =~= old(buf)@ + spec_render_posting(
            Posting {
                account: spec_instrument_account(account@, ticker@),
                amount: *amount,
                unit: spec_unit_symbol(ticker@),
                cost: Some(*price),
            },
        ));
    }
}

/// Appends the `YYYY-MM-DD` date of `ts` to `buf`.
pub fn format_timestamp(buf: &mut String, ts: &Timestamp)
    ensures
        final(buf)@ == old(buf)@ + spec_date_str(*ts),
{
    let date = date_string(ts);
    buf.append(date.as_str());
}

impl TransactionRecord {
    /// Appends this record's date and its cleared or pending status marker,
    /// judged against the reference instant `now`.
    fn write_timestamp(&self, buf: &mut String, now: &Timestamp)
        requires
            self.timestamp.wf(),
            now.wf(),
        ensures
            final(buf)@ == old(buf)@ + spec_date_str(self.timestamp)
                + spec_marker_str(self.timestamp, *now),
    {
        format_timestamp(buf, &self.timestamp);
        if self.timestamp.le(now) {
            buf.append(" * ");
        } else {
            buf.append(" ! ");
        }
    }

    /// The credit branch: a description selected by kind, the checking
    /// account credited by the total amount, and an income account debited
    /// by its exact negation.
    #[verifier::rlimit(100)]
    fn format_credit(&self, account: &str, now: &Timestamp) -> (r: Result<String, ConvertError>)
        requires
            self.wf(),
            now.wf(),
            is_credit_kind(self.kind),
        ensures
            match r {
                Ok(s) => self.fields_ok() && s@ == spec_format(*self, account@, *now),
                Err(e) => !self.fields_ok() && e == self.spec_first_error(),
            },
    {
        let total = match self.total_amount {
            Some(d) => d,
            None => {
                return Err(
                    ConvertError::MissingRequiredField(self.kind, FieldName::TotalAmount),
                );
            },
        };
        let mut buf = String::new();
        self.write_timestamp(&mut buf, now);
        buf.append("\"");
        buf.append(credit_desc(self.kind));
        buf.append("\"");
        buf.append("\n");
        let ghost header = spec_header(self.timestamp, *now, spec_desc(*self));
        proof {
            assert(buf@ =~= header);
        }
        // Checking posting
        append_checking_line(&mut buf, account, &total);
        let ghost p1 = Posting {
            account: spec_checking_account(account@),
            amount: total,
            unit: "GBP"@,
            cost: None,
        };
        proof {
            assert(buf@ =~= header + spec_render_posting(p1));
        }
        // Income posting
        buf.append("    ");
        buf.append("Income:UK:Freetrade:");
        buf.append(account);
        if self.kind == TransactionKind::Dividend {
            let t = match &self.ticker {
                Some(t) => t,
                None => {
                    return Err(
                        ConvertError::MissingRequiredField(self.kind, FieldName::Ticker),
                    );
                },
            };
            buf.append(":");
            let stripped = strip_dots(t.as_str());
            buf.append(stripped.as_str());
        }
        buf.append(income_leaf(self.kind));
        proof {
            assert(buf@ =~= header + spec_render_posting(p1) + "    "@ + spec_income_account(
                *self,
                account@,
            ));
        }
        buf.append(" ");
        let neg_total = total.neg();
        let neg_text = neg_total.to_text();
        buf.append(neg_text.as_str());
        buf.append(" ");
        buf.append("GBP");
        buf.append("\n");
        proof {
            let p2 = Posting {
                account: spec_income_account(*self, account@),
                amount: total.spec_neg(),
                unit: "GBP"@,
                cost: None,
            };
            assert(buf@ =~= header + spec_render_posting(p1) + spec_render_posting(p2));
            reveal_with_fuel(spec_render_postings, 4);
            let ps = spec_postings(*self, account@);
            assert(ps =~= seq![p1, p2]);
            assert(ps.drop_first() =~= seq![p2]);
            assert(seq![p2].drop_first() =~= Seq::<Posting>::empty());
            assert(spec_render_postings(ps) == spec_render_posting(p1) + (spec_render_posting(p2)
                + Seq::<char>::empty()));
            assert(buf@ =~= spec_format(*self, account@, *now));
        }
        Ok(buf)
    }

    /// The order branch: an instrument posting for the signed quantity at a
    /// per-unit cost, optional fee and stamp-duty expense postings, and the
    /// checking account moved opposite to the instrument.
    #[verifier::rlimit(100)]
    fn format_order(&self, account: &str, now: &Timestamp) -> (r: Result<String, ConvertError>)
        requires
            self.wf(),
            now.wf(),
            self.kind is Order,
        ensures
            match r {
                Ok(s) => self.fields_ok() && s@ == spec_format(*self, account@, *now),
                Err(e) => !self.fields_ok() && e == self.spec_first_error(),
            },
    {
        let direction = match self.order_direction {
            Some(d) => d,
            None => {
                return Err(ConvertError::InvalidFieldCombination(TransactionKind::Order));
            },
        };
        let ticker = match &self.ticker {
            Some(t) => t,
            None => {
                return Err(
                    ConvertError::MissingRequiredField(TransactionKind::Order, FieldName::Ticker),
                );
            },
        };
        let quantity = match self.quantity {
            Some(d) => d,
            None => {
                return Err(
                    ConvertError::MissingRequiredField(
                        TransactionKind::Order,
                        FieldName::Quantity,
                    ),
                );
            },
        };
        let price = match self.price_per_share {
            Some(d) => d,
            None => {
                return Err(
                    ConvertError::MissingRequiredField(
                        TransactionKind::Order,
                        FieldName::PricePerShare,
                    ),
                );
            },
        };
        let total = match self.total_amount {
            Some(d) => d,
            None => {
                return Err(
                    ConvertError::MissingRequiredField(
                        TransactionKind::Order,
                        FieldName::TotalAmount,
                    ),
                );
            },
        };
        let mut buf = String::new();
        self.write_timestamp(&mut buf, now);
        buf.append("\"");
        if direction == OrderDirection::Buy {
            buf.append("Buy ");
        } else {
            buf.append("Sell ");
        }
        buf.append(ticker.as_str());
        buf.append("\"");
        buf.append("\n");
        let ghost header = spec_header(self.timestamp, *now, spec_desc(*self));
        proof {
            assert(buf@ =~= header);
        }
        let ghost mut ps: Seq<Posting> = Seq::<Posting>::empty();
        // Instrument posting
        let signed_qty = if direction == OrderDirection::Sell {
            quantity.neg()
        } else {
            quantity
        };
        append_instrument_line(&mut buf, account, ticker.as_str(), &signed_qty, &price);
        proof {
            let p = Posting {
                account: spec_instrument_account(account@, ticker@),
                amount: signed_qty,
                unit: spec_unit_symbol(ticker@),
                cost: Some(price),
            };
            lemma_render_snoc(ps, p);
            ps = ps.push(p);
            assert(buf@ =~= header + spec_render_postings(ps));
        }
        // FX fee posting
        if let Some(fx_fee) = self.fx_fee_amount {
            append_expense_line(&mut buf, account, ":Fees", &fx_fee);
            proof {
                let p = Posting {
                    account: spec_fees_account(account@),
                    amount: fx_fee,
                    unit: "GBP"@,
                    cost: None,
                };
                assert(spec_fees_account(account@) =~= "Expenses:UK:Freetrade:"@ + account@
                    + ":Fees"@);
                lemma_render_snoc(ps, p);
                ps = ps.push(p);
                assert(buf@ =~= header + spec_render_postings(ps));
            }
        }
        // Stamp duty posting; a duty of exactly zero is suppressed
        if let Some(stamp_duty) = self.stamp_duty {
            if stamp_duty.mantissa != 0 {
                append_expense_line(&mut buf, account, ":StampDuty", &stamp_duty);
                proof {
                    let p = Posting {
                        account: spec_stamp_account(account@),
                        amount: stamp_duty,
                        unit: "GBP"@,
                        cost: None,
                    };
                    assert(spec_stamp_account(account@) =~= "Expenses:UK:Freetrade:"@ + account@
                        + ":StampDuty"@);
                    lemma_render_snoc(ps, p);
                    ps = ps.push(p);
                    assert(buf@ =~= header + spec_render_postings(ps));
                }
            }
        }
        // Checking posting
        let signed_total = if direction == OrderDirection::Buy {
            total.neg()
        } else {
            total
        };
        append_checking_line(&mut buf, account, &signed_total);
        proof {
            let p = Posting {
                account: spec_checking_account(account@),
                amount: signed_total,
                unit: "GBP"@,
                cost: None,
            };
            lemma_render_snoc(ps, p);
            ps = ps.push(p);
            assert(buf@ =~= header + spec_render_postings(ps));
            assert(ps =~= spec_postings(*self, account@));
            assert(buf@ =~= spec_format(*self, account@, *now));
        }
        Ok(buf)
    }

    /// Converts this record into its ledger text: empty for the kinds that
    /// carry no transferable value, one balanced entry otherwise. The
    /// reference instant `now` decides the cleared or pending marker.
    pub fn format(&self, account: &str, now: &Timestamp) -> (r: Result<String, ConvertError>)
        requires
            self.wf(),
            now.wf(),
        ensures
            match r {
                Ok(s) => self.fields_ok() && s@ == spec_format(*self, account@, *now),
                Err(e) => !self.fields_ok() && e == self.spec_first_error(),
            },
    {
        match self.kind {
            TransactionKind::Order => self.format_order(account, now),
            TransactionKind::Dividend | TransactionKind::InterestFromCash
                | TransactionKind::TaxRelief | TransactionKind::TopUp => self.format_credit(
                account,
                now,
            ),
            _ => Ok(String::new()),
        }
    }

    /// Converts this record with the machine clock as the reference
    /// instant, as the surrounding pipeline does. Whichever instant the
    /// clock returned, the output is the exact conversion at that instant.
    pub fn format_now(&self, account: &str) -> (r: Result<String, ConvertError>)
        requires
            self.wf(),
        ensures
            match r {
                Ok(s) => self.fields_ok() && exists|now: Timestamp|
                    now.wf() && s@ == spec_format(*self, account@, now),
                Err(e) => !self.fields_ok() && e == self.spec_first_error(),
            },
    {
        let now = now_timestamp();
        self.format(account, &now)
    }
}

} // verus!
