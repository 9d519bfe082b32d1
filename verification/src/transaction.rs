//! The record of a transaction, and of the parts it is made of.

use vstd::prelude::*;
use crate::calendar::{Date, DateTime};
use crate::ledger::{
    AccountPosting, AccountPostingView, CurrencyAmount, CurrencyAmountView, Flag,
    LedgerTransaction, LedgerTransactionView,
};
use crate::span::Span;
use crate::value::{texts, views, Value, ValueView};

verus! {

/// The absent value. It is attributed to nowhere, whatever the span of the
/// record it stands in.
pub open spec fn absent() -> ValueView {
    ValueView::Nothing { span: Span::unknown() }
}

/// The text `text`.
pub open spec fn text_value(text: Seq<char>, span: Span) -> ValueView {
    ValueView::String { val: text, span }
}

/// A text that may be missing: the text where there is one, else the absent
/// value. An empty text is a text.
pub open spec fn optional_text_value(text: Option<Seq<char>>, span: Span) -> ValueView {
    match text {
        Some(text) => text_value(text, span),
        None => absent(),
    }
}

/// A date in the output: the start of that day in UTC.
pub open spec fn date_value(date: Date, span: Span) -> ValueView {
    ValueView::Date { val: DateTime::midnight_utc(date), span }
}

/// How a flag is written in the output: `!` for pending, `*` for cleared and
/// for no flag at all.
pub open spec fn flag_text(flag: Option<Flag>) -> Seq<char> {
    match flag {
        Some(Flag::Pending) => "!"@,
        Some(Flag::Cleared) | None => "*"@,
    }
}

/// A flag in the output.
pub open spec fn flag_value(flag: Option<Flag>, span: Span) -> ValueView {
    text_value(flag_text(flag), span)
}

/// A number in the output: the floating-point number with the bit pattern
/// `bits`, or the absent value where there is none.
pub open spec fn number_value(bits: Option<u64>, span: Span) -> ValueView {
    match bits {
        Some(bits) => ValueView::Float { bits, span },
        None => absent(),
    }
}

/// The record of `number` units of `currency`: one value, which goes by the
/// name of the currency.
pub open spec fn amount_record_of(currency: Seq<char>, number: Option<u64>, span: Span)
    -> ValueView {
    ValueView::Record { cols: seq![currency], vals: seq![number_value(number, span)], span }
}

/// The floating-point number of an amount: its expression worked out in
/// decimal arithmetic and then converted. `None` where the expression has no
/// value or the value has no finite floating-point form.
pub open spec fn amount_number(amount: CurrencyAmountView) -> Option<u64> {
    match amount.value() {
        Some(number) => number.to_float_bits(),
        None => None,
    }
}

/// The record of an amount.
pub open spec fn amount_record(amount: CurrencyAmountView, span: Span) -> ValueView {
    amount_record_of(amount.currency, amount_number(amount), span)
}

/// The record of a posting: its account, and its amount or the absent value.
pub open spec fn posting_record(posting: AccountPostingView, span: Span) -> ValueView {
    ValueView::Record {
        cols: seq!["account"@, "amount"@],
        vals: seq![
            text_value(posting.account, span),
            match posting.amount {
                Some(amount) => amount_record(amount, span),
                None => absent(),
            },
        ],
        span,
    }
}

/// The records of the postings of a sequence, in order.
pub open spec fn posting_records(postings: Seq<AccountPostingView>, span: Span) -> Seq<
    ValueView,
> {
    postings.map_values(|posting: AccountPostingView| posting_record(posting, span))
}

/// The record of a transaction.
pub open spec fn transaction_record(transaction: LedgerTransactionView, span: Span)
    -> ValueView {
    ValueView::Record {
        cols: seq!["date"@, "directive"@, "flag"@, "payee"@, "narration"@, "postings"@],
        vals: seq![
            date_value(transaction.date, span),
            text_value("txn"@, span),
            flag_value(transaction.flag, span),
            optional_text_value(transaction.payee, span),
            optional_text_value(transaction.narration, span),
            ValueView::List { vals: posting_records(transaction.postings, span), span },
        ],
        span,
    }
}

/// Normalizes a date of the ledger to the start of that day in UTC. The date
/// has to name a day of the calendar.
pub fn date(day: Date, span: Span) -> (value: Value)
    requires
        day.is_valid(),
    ensures
        value@ == date_value(day, span),
{
    Value::date(DateTime::midnight_utc(day), span)
}

/// Writes a flag as the output has it.
pub fn flag(mark: Option<Flag>, span: Span) -> (value: Value)
    ensures
        value@ == flag_value(mark, span),
{
    Value::string(
        match mark {
            Some(Flag::Cleared) | None => "*",
            Some(Flag::Pending) => "!",
        },
        span,
    )
}

/// Makes the value of a text that may be missing.
pub fn optional_text(text: &Option<String>, span: Span) -> (value: Value)
    ensures
        value@ == optional_text_value(crate::ledger::optional_text(*text), span),
{
    match text {
        Some(text) => Value::string(text.as_str(), span),
        None => Value::default(),
    }
}

/// Makes the record of `number` units of `currency`, where `number` is the
/// bit pattern of a floating-point number or `None`.
pub fn amount_of(currency: &str, number: Option<u64>, span: Span) -> (value: Value)
    ensures
        value@ == amount_record_of(currency@, number, span),
{
    let mut cols: Vec<String> = Vec::new();
    cols.push(currency.to_owned());
    let mut vals: Vec<Value> = Vec::new();
    vals.push(
        match number {
            Some(bits) => Value::float(bits, span),
            None => Value::default(),
        },
    );
    proof {
        assert(texts(cols@) =~= seq![currency@]);
        assert(views(vals@) =~= seq![number_value(number, span)]);
    }
    Value::record(cols, vals, span)
}

/// Makes the record of an amount.
pub fn amount(units: &CurrencyAmount, span: Span) -> (value: Value)
    ensures
        value@ == amount_record(units@, span),
{
    let number = match units.value() {
        Some(number) => number.to_float_bits(),
        None => None,
    };
    amount_of(units.currency.as_str(), number, span)
}

/// Makes the record of a posting.
pub fn posting(leg: &AccountPosting, span: Span) -> (value: Value)
    ensures
        value@ == posting_record(leg@, span),
{
    let mut cols: Vec<String> = Vec::new();
    cols.push("account".to_owned());
    cols.push("amount".to_owned());
    let mut vals: Vec<Value> = Vec::new();
    vals.push(Value::string(leg.account.as_str(), span));
    vals.push(
        match &leg.amount {
            Some(a) => amount(a, span),
            None => Value::default(),
        },
    );
    proof {
        assert(texts(cols@) =~= seq!["account"@, "amount"@]);
        assert(views(vals@) =~= posting_record(leg@, span)->Record_vals);
    }
    Value::record(cols, vals, span)
}

/// Makes the records of the postings of a transaction, in their order.
pub fn postings(transaction: &LedgerTransaction, span: Span) -> (records: Vec<Value>)
    ensures
        views(records@) == posting_records(transaction@.postings, span),
{
    let mut records: Vec<Value> = Vec::new();
    let mut index: usize = 0;
    while index < transaction.postings.len()
        invariant
            index <= transaction.postings.len(),
            records@.len() == index,
            forall|i: int|
                0 <= i < index ==> (#[trigger] records@[i])@ == posting_record(
                    transaction.postings@[i]@,
                    span,
                ),
        decreases transaction.postings.len() - index,
    {
        records.push(posting(&transaction.postings[index], span));
        index = index + 1;
    }
    proof {
        assert(views(records@) =~= posting_records(transaction@.postings, span));
    }
    records
}

/// Makes the record of a transaction. Its date has to name a day of the
/// calendar.
pub fn record(transaction: &LedgerTransaction, span: Span) -> (value: Value)
    requires
        transaction.date.is_valid(),
    ensures
        value@ == transaction_record(transaction@, span),
{
    let mut cols: Vec<String> = Vec::new();
    cols.push("date".to_owned());
    cols.push("directive".to_owned());
    cols.push("flag".to_owned());
    cols.push("payee".to_owned());
    cols.push("narration".to_owned());
    cols.push("postings".to_owned());
    let mut vals: Vec<Value> = Vec::new();
    vals.push(date(transaction.date, span));
    vals.push(Value::string("txn", span));
    vals.push(flag(transaction.flag, span));
    vals.push(optional_text(&transaction.payee, span));
    vals.push(optional_text(&transaction.narration, span));
    vals.push(Value::list(postings(transaction, span), span));
    proof {
        assert(texts(cols@) =~= transaction_record(transaction@, span)->cols);
        assert(views(vals@) =~= transaction_record(transaction@, span)->Record_vals);
    }
    Value::record(cols, vals, span)
}

} // verus!
