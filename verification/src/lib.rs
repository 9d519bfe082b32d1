//! Conversion of a beancount ledger into structured values for a
//! data-processing host.
//!
//! A ledger is read directive by directive. Each transaction, balance
//! assertion and file inclusion becomes one record; every other directive is
//! passed over. The first malformed stretch of the ledger fails the whole
//! conversion.

pub mod calendar;
pub mod decimal;
pub mod expression;
pub mod laws;
pub mod ledger;
pub mod source;
pub mod span;
pub mod transaction;
pub mod value;

use vstd::prelude::*;
use crate::ledger::{
    item_view, item_views, BalanceAssertion, BalanceAssertionView, FileInclude, FileIncludeView,
    LedgerDirective, LedgerDirectiveView, ParseError, ParseErrorView, ParsedItem, ParsedItemView,
};
use crate::source::{advance, parsed, pending, read_item, start};
use crate::span::{Span, Spanned};
use crate::transaction::{amount_record, date_value, text_value, transaction_record};
use crate::value::{texts, views, Value, ValueView};

verus! {

/// What the host hands over with a call of a command.
#[derive(Clone, Copy, Debug, PartialEq, Eq, Structural)]
pub struct EvaluatedCall {
    /// Where the command was called.
    pub head: Span,
}

/// An error as the host shows it: a label, a message, and the place in the
/// source text that it is about.
#[derive(Debug, PartialEq, Eq)]
pub struct LabeledError {
    pub label: String,
    pub msg: String,
    pub span: Option<Span>,
}

pub struct LabeledErrorView {
    pub label: Seq<char>,
    pub msg: Seq<char>,
    pub span: Option<Span>,
}

impl View for LabeledError {
    type V = LabeledErrorView;

    open spec fn view(&self) -> LabeledErrorView {
        LabeledErrorView { label: self.label@, msg: self.msg@, span: self.span }
    }
}

/// The group under which the host lists a command.
#[derive(Clone, Copy, Debug, PartialEq, Eq, Structural)]
pub enum Category {
    Formats,
}

/// How a command presents itself to the host.
#[derive(Debug, PartialEq, Eq)]
pub struct PluginSignature {
    pub name: String,
    pub usage: String,
    pub category: Category,
}

/// The plugin: one command, `from beancount`.
#[derive(Clone, Copy, Debug, PartialEq, Eq, Structural)]
pub struct NuPlugin;

/// The record of a file inclusion.
pub open spec fn include_record(file: FileIncludeView, span: Span) -> ValueView {
    ValueView::Record {
        cols: seq!["directive"@, "path"@],
        vals: seq![text_value("include"@, span), text_value(file.path, span)],
        span,
    }
}

/// The record of a balance assertion.
pub open spec fn balance_record(assertion: BalanceAssertionView, span: Span) -> ValueView {
    ValueView::Record {
        cols: seq!["directive"@, "date"@, "account"@, "amount"@],
        vals: seq![
            text_value("balance"@, span),
            date_value(assertion.date, span),
            text_value(assertion.account, span),
            amount_record(assertion.amount, span),
        ],
        span,
    }
}

/// The record of a directive, `None` for a directive of a kind that has none.
pub open spec fn directive_record(directive: LedgerDirectiveView, span: Span) -> Option<
    ValueView,
> {
    match directive {
        LedgerDirectiveView::Transaction(transaction) => Some(
            transaction_record(transaction, span),
        ),
        LedgerDirectiveView::Include(file) => Some(include_record(file, span)),
        LedgerDirectiveView::Assertion(assertion) => Some(balance_record(assertion, span)),
        LedgerDirectiveView::Other => None,
    }
}

/// The record that a parsed item contributes, if any.
pub open spec fn item_record(item: ParsedItemView, span: Span) -> Option<ValueView> {
    match item {
        Ok(directive) => directive_record(directive, span),
        Err(_) => None,
    }
}

/// Whether a parsed item is a directive of a kind that has a record: a
/// transaction, a balance assertion or a file inclusion.
pub open spec fn has_record(item: ParsedItemView) -> bool {
    item matches Ok(directive) && (directive is Transaction || directive is Assertion
        || directive is Include)
}

/// [`item_record`] for a fixed span.
pub open spec fn record_of(span: Span) -> spec_fn(ParsedItemView) -> Option<ValueView> {
    |item: ParsedItemView| item_record(item, span)
}

/// The records of the directives among `items`, in the order of the items.
pub open spec fn records(items: Seq<ParsedItemView>, span: Span) -> Seq<ValueView> {
    items.filter_map(record_of(span))
}

/// Whether some item is an error.
pub open spec fn fails(items: Seq<ParsedItemView>) -> bool {
    exists|index: int| 0 <= index < items.len() && items[index] is Err
}

/// Whether the item at `index` is an error and no item before it is.
pub open spec fn is_first_error(items: Seq<ParsedItemView>, index: int) -> bool {
    &&& 0 <= index < items.len()
    &&& items[index] is Err
    &&& forall|earlier: int| 0 <= earlier < index ==> items[earlier] is Ok
}

/// The first error among `items`.
pub open spec fn first_error(items: Seq<ParsedItemView>) -> ParseErrorView {
    items[choose|index: int| is_first_error(items, index)]->Err_0
}

/// The error that the host is shown for a malformed ledger.
pub open spec fn conversion_error(error: ParseErrorView, span: Span) -> LabeledErrorView {
    LabeledErrorView {
        label: "Invalid beancount input"@,
        msg: "Error while parsing beancount file: "@ + error.message,
        span: Some(span),
    }
}

/// What a sequence of parsed items converts to: all the records, or, where
/// an item is an error, the first such error and no record at all.
pub open spec fn conversion(items: Seq<ParsedItemView>, span: Span) -> Result<
    Seq<ValueView>,
    LabeledErrorView,
> {
    if fails(items) {
        Err(conversion_error(first_error(items), span))
    } else {
        Ok(records(items, span))
    }
}

/// Whether every dated directive among `items` has a date that names a day of
/// the calendar.
pub open spec fn all_dated_validly(items: Seq<ParsedItemView>) -> bool {
    forall|index: int|
        0 <= index < items.len() ==> (#[trigger] items[index] matches Ok(directive)
            ==> directive.is_dated_validly())
}

/// What the command answers for a ledger that parses to `items`: the list of
/// its records, attributed to the place of the call, or the error.
pub open spec fn answer(items: Seq<ParsedItemView>, input: Span, head: Span) -> Result<
    ValueView,
    LabeledErrorView,
> {
    match conversion(items, input) {
        Ok(records) => Ok(ValueView::List { vals: records, span: head }),
        Err(error) => Err(error),
    }
}

/// What the outcome of a conversion holds.
pub open spec fn converted_view(outcome: Result<Vec<Value>, LabeledError>) -> Result<
    Seq<ValueView>,
    LabeledErrorView,
> {
    match outcome {
        Ok(values) => Ok(views(values@)),
        Err(error) => Err(error@),
    }
}

/// What the answer of the command holds.
pub open spec fn answer_view(outcome: Result<Value, LabeledError>) -> Result<
    ValueView,
    LabeledErrorView,
> {
    match outcome {
        Ok(value) => Ok(value@),
        Err(error) => Err(error@),
    }
}

/// What a record that may be missing holds.
pub open spec fn optional_view(value: Option<Value>) -> Option<ValueView> {
    match value {
        Some(value) => Some(value@),
        None => None,
    }
}

/// Makes the record of a file inclusion.
pub fn file_record(file: &FileInclude, span: Span) -> (value: Value)
    ensures
        value@ == include_record(file@, span),
{
    let mut cols: Vec<String> = Vec::new();
    cols.push("directive".to_owned());
    cols.push("path".to_owned());
    let mut vals: Vec<Value> = Vec::new();
    vals.push(Value::string("include", span));
    vals.push(Value::string(file.path.as_str(), span));
    proof {
        assert(texts(cols@) =~= include_record(file@, span)->cols);
        assert(views(vals@) =~= include_record(file@, span)->Record_vals);
    }
    Value::record(cols, vals, span)
}

/// Makes the record of a balance assertion. Its date has to name a day of the
/// calendar.
pub fn balance(assertion: &BalanceAssertion, span: Span) -> (value: Value)
    requires
        assertion.date.is_valid(),
    ensures
        value@ == balance_record(assertion@, span),
{
    let mut cols: Vec<String> = Vec::new();
    cols.push("directive".to_owned());
    cols.push("date".to_owned());
    cols.push("account".to_owned());
    cols.push("amount".to_owned());
    let mut vals: Vec<Value> = Vec::new();
    vals.push(Value::string("balance", span));
    vals.push(transaction::date(assertion.date, span));
    vals.push(Value::string(assertion.account.as_str(), span));
    vals.push(transaction::amount(&assertion.amount, span));
    proof {
        assert(texts(cols@) =~= balance_record(assertion@, span)->cols);
        assert(views(vals@) =~= balance_record(assertion@, span)->Record_vals);
    }
    Value::record(cols, vals, span)
}

/// Makes the record of a directive: of a transaction, a balance assertion or
/// a file inclusion. A directive of any other kind has none. The date of the
/// directive, if it has one, has to name a day of the calendar.
pub fn record(directive: &LedgerDirective, span: Span) -> (value: Option<Value>)
    requires
        directive@.is_dated_validly(),
    ensures
        optional_view(value) == directive_record(directive@, span),
{
    match directive {
        LedgerDirective::Transaction(trx) => Some(transaction::record(trx, span)),
        LedgerDirective::Include(file) => Some(file_record(file, span)),
        LedgerDirective::Assertion(assertion) => Some(balance(assertion, span)),
        LedgerDirective::Other => None,
    }
}

/// Makes the error that the host is shown for a malformed ledger.
pub fn failure(error: &ParseError, span: Span) -> (shown: LabeledError)
    ensures
        shown@ == conversion_error(error@, span),
{
    let mut msg = String::from_str("Error while parsing beancount file: ");
    msg.append(error.message.as_str());
    LabeledError { label: "Invalid beancount input".to_owned(), msg, span: Some(span) }
}

/// Adds the record of `directive`, if it has one, at the end of `values`.
fn absorb(values: &mut Vec<Value>, directive: &LedgerDirective, span: Span)
    requires
        directive@.is_dated_validly(),
    ensures
        views(final(values)@) == views(old(values)@) + match directive_record(directive@, span) {
            Some(made) => seq![made],
            None => Seq::empty(),
        },
{
    let ghost before = views(values@);
    match record(directive, span) {
        Some(made) => {
            values.push(made);
            assert(views(values@) =~= before + seq![made@]);
        },
        None => {
            assert(views(values@) =~= before + Seq::<ValueView>::empty());
        },
    }
}

/// Converts the items that a parser handed out for a ledger: gives the
/// records of its directives in their order or, where an item is an error,
/// the first such error. Every dated directive has to have a date that names
/// a day of the calendar.
pub fn convert(items: &Vec<ParsedItem>, span: Span) -> (outcome: Result<
    Vec<Value>,
    LabeledError,
>)
    requires
        all_dated_validly(item_views(items@)),
    ensures
        converted_view(outcome) == conversion(item_views(items@), span),
{
    let ghost all = item_views(items@);
    let mut values: Vec<Value> = Vec::new();
    let mut index: usize = 0;
    while index < items.len()
        invariant
            all == item_views(items@),
            all_dated_validly(all),
            index <= items.len(),
            forall|earlier: int| 0 <= earlier < index ==> all[earlier] is Ok,
            views(values@) == records(all.take(index as int), span),
        decreases items.len() - index,
    {
        proof {
            all.lemma_filter_map_take_succ(record_of(span), index as int);
        }
        match &items[index] {
            Ok(directive) => {
                assert(all[index as int] == Ok::<LedgerDirectiveView, ParseErrorView>(directive@));
                absorb(&mut values, directive, span);
            },
            Err(error) => {
                assert(all[index as int] == Err::<LedgerDirectiveView, ParseErrorView>(error@));
                assert(is_first_error(all, index as int));
                return Err(failure(error, span));
            },
        }
        index = index + 1;
    }
    assert(all.take(index as int) =~= all);
    Ok(values)
}

/// Tests whether every dated directive of `text` has a date that names a day
/// of the calendar. An empty text has no directive, so it passes.
pub fn dates_are_valid(text: &str) -> (valid: bool)
    ensures
        valid == all_dated_validly(parsed(text@)),
        text@.len() == 0 ==> valid,
{
    let mut parser = start(text);
    let ghost all = parsed(text@);
    let ghost mut seen: Seq<ParsedItemView> = Seq::empty();
    loop
        invariant
            all == parsed(text@),
            text@.len() == 0 ==> all.len() == 0,
            seen + pending(parser) == all,
            all_dated_validly(seen),
        decreases pending(parser).len(),
    {
        let ghost rest = pending(parser);
        match advance(&mut parser) {
            Some(raw) => {
                let item = read_item(raw);
                let valid = match &item {
                    Ok(directive) => directive.is_dated_validly(),
                    Err(_) => true,
                };
                proof {
                    assert(all[seen.len() as int] == rest[0]);
                    assert(seen.push(rest[0]) + rest.skip(1) =~= all);
                }
                if !valid {
                    return false;
                }
                proof {
                    seen = seen.push(item_view(item));
                }
            },
            None => {
                assert(seen =~= all);
                return true;
            },
        }
    }
}

impl NuPlugin {
    /// The one command of the plugin.
    pub fn signature(&self) -> (commands: Vec<PluginSignature>)
        ensures
            commands@.len() == 1,
            commands@[0].name@ == "from beancount"@,
            commands@[0].usage@ == "Convert from beancount to structured data"@,
            commands@[0].category == Category::Formats,
    {
        let mut commands: Vec<PluginSignature> = Vec::new();
        commands.push(
            PluginSignature {
                name: "from beancount".to_owned(),
                usage: "Convert from beancount to structured data".to_owned(),
                category: Category::Formats,
            },
        );
        commands
    }

    /// Runs the command on the text of a ledger: reads the ledger item by
    /// item, stops at the first error, and answers with the list of the
    /// records or with that error. An empty text gives an empty list. The
    /// plugin keeps nothing from one run to the next. Every dated directive of
    /// the ledger has to have a date that names a day of the calendar.
    pub fn run(&mut self, _name: &str, call: &EvaluatedCall, input: &Spanned) -> (outcome: Result<
        Value,
        LabeledError,
    >)
        requires
            all_dated_validly(parsed(input.item@)),
        ensures
            *final(self) == *old(self),
            answer_view(outcome) == answer(parsed(input.item@), input.span, call.head),
            input.item@.len() == 0 ==> answer_view(outcome) == Ok::<ValueView, LabeledErrorView>(
                ValueView::List { vals: Seq::empty(), span: call.head },
            ),
    {
        let span = input.span;
        let mut parser = start(input.item.as_str());
        let ghost all = parsed(input.item@);
        let ghost mut seen: Seq<ParsedItemView> = Seq::empty();
        let mut values: Vec<Value> = Vec::new();
        loop
            invariant
                span == input.span,
                input.item@.len() == 0 ==> all.len() == 0,
                all == parsed(input.item@),
                all_dated_validly(all),
                seen + pending(parser) == all,
                forall|earlier: int| 0 <= earlier < seen.len() ==> seen[earlier] is Ok,
                views(values@) == records(seen, span),
            decreases pending(parser).len(),
        {
            let ghost rest = pending(parser);
            match advance(&mut parser) {
                Some(raw) => {
                    let item = read_item(raw);
                    proof {
                        assert(all[seen.len() as int] == rest[0]);
                        assert(seen.push(rest[0]) + rest.skip(1) =~= all);
                        assert(seen.push(rest[0]).drop_last() =~= seen);
                    }
                    match item {
                        Ok(directive) => {
                            absorb(&mut values, &directive, span);
                        },
                        Err(error) => {
                            assert(is_first_error(all, seen.len() as int));
                            return Err(failure(&error, span));
                        },
                    }
                    proof {
                        seen = seen.push(rest[0]);
                    }
                },
                None => {
                    assert(seen =~= all);
                    assert(all.len() == 0 ==> records(all, span) =~= Seq::empty());
                    return Ok(Value::list(values, call.head));
                },
            }
        }
    }

    /// Runs the command on any text. `None` where a directive of the ledger
    /// has a date that names no day of the calendar: the parser has let
    /// through what it should not have, and there is no answer. An empty text
    /// always has one: the empty list.
    pub fn try_run(&mut self, name: &str, call: &EvaluatedCall, input: &Spanned) -> (outcome:
        Option<Result<Value, LabeledError>>)
        ensures
            *final(self) == *old(self),
            match outcome {
                Some(outcome) => {
                    &&& all_dated_validly(parsed(input.item@))
                    &&& answer_view(outcome) == answer(
                        parsed(input.item@),
                        input.span,
                        call.head,
                    )
                },
                None => !all_dated_validly(parsed(input.item@)),
            },
            input.item@.len() == 0 ==> (outcome matches Some(given) && answer_view(given)
                == Ok::<ValueView, LabeledErrorView>(
                ValueView::List { vals: Seq::empty(), span: call.head },
            )),
    {
        if dates_are_valid(input.item.as_str()) {
            Some(self.run(name, call, input))
        } else {
            None
        }
    }
}

} // verus!
