//! Reading a ledger with the `beancount_parser` crate.
//!
//! The parser's own values are opaque here. What each of them holds has a
//! name, of which the accessors of the crate speak, and each is read through
//! those accessors into the plain data of [`crate::ledger`].

use vstd::prelude::*;
use crate::calendar::Date;
use crate::decimal::Decimal;
use crate::expression::{NumberExpression, Operator};
use crate::ledger::{
    item_view, item_views, optional_text, AccountPosting, AccountPostingView, BalanceAssertion,
    BalanceAssertionView, CurrencyAmount, CurrencyAmountView, FileInclude, FileIncludeView, Flag,
    LedgerDirective, LedgerDirectiveView, LedgerTransaction, LedgerTransactionView, ParseError,
    ParseErrorView, ParsedItem, ParsedItemView,
};

verus! {

/// `beancount_parser::Parser`: the iterator over the items of a ledger. Opaque.
#[verifier::external_type_specification]
#[verifier::external_body]
pub struct ExParser<'a>(beancount_parser::Parser<'a>);

/// `beancount_parser::Directive`: one directive as the parser holds it. Opaque.
#[verifier::external_type_specification]
#[verifier::external_body]
pub struct ExDirective<'a>(beancount_parser::Directive<'a>);

/// `beancount_parser::Error`: why the parser stopped. Opaque.
#[verifier::external_type_specification]
#[verifier::external_body]
pub struct ExError(beancount_parser::Error);

/// `beancount_parser::Transaction`. Opaque.
#[verifier::external_type_specification]
#[verifier::external_body]
pub struct ExTransaction<'a>(beancount_parser::Transaction<'a>);

/// `beancount_parser::Assertion`: a `balance` directive. Opaque.
#[verifier::external_type_specification]
#[verifier::external_body]
pub struct ExAssertion<'a>(beancount_parser::Assertion<'a>);

/// `beancount_parser::Include`. Opaque.
#[verifier::external_type_specification]
#[verifier::external_body]
pub struct ExInclude(beancount_parser::Include);

/// `beancount_parser::transaction::Posting`. Opaque.
#[verifier::external_type_specification]
#[verifier::external_body]
pub struct ExPosting<'a>(beancount_parser::transaction::Posting<'a>);

/// `beancount_parser::Amount`. Opaque.
#[verifier::external_type_specification]
#[verifier::external_body]
pub struct ExAmount<'a>(beancount_parser::Amount<'a>);

/// `beancount_parser::amount::Expression`: the tree of an arithmetic
/// expression. Opaque.
#[verifier::external_type_specification]
#[verifier::external_body]
pub struct ExExpression(beancount_parser::amount::Expression);

/// What `beancount_parser::Parser` makes of a text: what the items hold that
/// it hands out, from first to last.
pub uninterp spec fn parsed(text: Seq<char>) -> Seq<ParsedItemView>;

/// What the items hold that a parser has yet to hand out, in their order.
pub uninterp spec fn pending(parser: beancount_parser::Parser<'static>) -> Seq<ParsedItemView>;

/// What a directive of the parser holds: for a transaction, a balance
/// assertion and a file inclusion what these hold, for any other kind nothing.
pub uninterp spec fn directive_data(
    directive: beancount_parser::Directive<'static>,
) -> LedgerDirectiveView;

/// What an error of the parser holds: the text that `Debug` prints for it.
pub uninterp spec fn error_data(error: beancount_parser::Error) -> ParseErrorView;

/// What a transaction of the parser holds: what its accessors `date`, `flag`,
/// `payee`, `narration` and `postings` give.
pub uninterp spec fn transaction_data(
    transaction: beancount_parser::Transaction<'static>,
) -> LedgerTransactionView;

/// What a posting of the parser holds: what its accessors `account` and
/// `amount` give.
pub uninterp spec fn posting_data(
    posting: beancount_parser::transaction::Posting<'static>,
) -> AccountPostingView;

/// What an amount of the parser holds: what its accessors `expression` and
/// `currency` give.
pub uninterp spec fn amount_data(amount: beancount_parser::Amount<'static>) -> CurrencyAmountView;

/// What a balance assertion of the parser holds: what its accessors `date`,
/// `account` and `amount` give.
pub uninterp spec fn assertion_data(
    assertion: beancount_parser::Assertion<'static>,
) -> BalanceAssertionView;

/// What a file inclusion of the parser holds: the text of its `path`.
pub uninterp spec fn file_data(file: beancount_parser::Include) -> FileIncludeView;

/// What a tree of `beancount_parser::amount::Expression` holds. A node
/// `Value` is the number written; a node `Operation` whose operator is one of
/// the four of arithmetic is that operator between what its operands hold;
/// any other node is `Unsupported`.
pub uninterp spec fn expression_data(
    expression: beancount_parser::amount::Expression,
) -> NumberExpression;

/// What an item of the parser holds.
pub open spec fn item_data(
    item: Result<beancount_parser::Directive<'static>, beancount_parser::Error>,
) -> ParsedItemView {
    match item {
        Ok(directive) => Ok(directive_data(directive)),
        Err(error) => Err(error_data(error)),
    }
}

/// A directive of the parser, told apart by its kind.
pub(crate) enum Kind<'a, 'b> {
    Transaction(&'b beancount_parser::Transaction<'a>),
    Assertion(&'b beancount_parser::Assertion<'a>),
    Include(&'b beancount_parser::Include),
    Other,
}

/// Sets a parser at the start of `text` with `beancount_parser::Parser::new`.
/// Trusted: what the parser will hand out is a function of the text, and of
/// an empty text it hands out nothing.
#[verifier::external_body]
pub(crate) fn start<'a>(text: &'a str) -> (parser: beancount_parser::Parser<'a>)
    ensures
        pending(parser) == parsed(text@),
        text@.len() == 0 ==> pending(parser).len() == 0,
{
    beancount_parser::Parser::new(text)
}

/// Takes the next item from the parser with its `Iterator::next`. Trusted:
/// the parser hands out its items in order, each once, and `None` from then
/// on; the sequence is finite, for every step uses up some of the text.
#[verifier::external_body]
pub(crate) fn advance<'a>(parser: &mut beancount_parser::Parser<'a>) -> (next: Option<
    Result<beancount_parser::Directive<'a>, beancount_parser::Error>,
>)
    ensures
        match next {
            Some(item) => {
                &&& pending(*old(parser)).len() > 0
                &&& item_data(item) == pending(*old(parser))[0]
                &&& pending(*final(parser)) == pending(*old(parser)).skip(1)
            },
            None => pending(*old(parser)).len() == 0 && pending(*final(parser)).len() == 0,
        },
{
    parser.next()
}

/// Tells the kinds of `beancount_parser::Directive` apart. Trusted: a
/// directive holds what the transaction, balance assertion or file inclusion
/// in it holds; a directive of any other kind holds nothing.
#[verifier::external_body]
fn kind_of<'a, 'b>(directive: &'b beancount_parser::Directive<'a>) -> (kind: Kind<'a, 'b>)
    ensures
        match kind {
            Kind::Transaction(transaction) => directive_data(*directive)
                == LedgerDirectiveView::Transaction(transaction_data(*transaction)),
            Kind::Assertion(assertion) => directive_data(*directive)
                == LedgerDirectiveView::Assertion(assertion_data(*assertion)),
            Kind::Include(file) => directive_data(*directive) == LedgerDirectiveView::Include(
                file_data(*file),
            ),
            Kind::Other => directive_data(*directive) is Other,
        },
{
    match directive {
        beancount_parser::Directive::Transaction(transaction) => Kind::Transaction(transaction),
        beancount_parser::Directive::Assertion(assertion) => Kind::Assertion(assertion),
        beancount_parser::Directive::Include(file) => Kind::Include(file),
        _ => Kind::Other,
    }
}

/// How the parser's error prints itself with `Debug`, which is what the
/// error holds.
#[verifier::external_body]
fn error_message(error: &beancount_parser::Error) -> (message: String)
    ensures
        message@ == error_data(*error).message,
{
    format!("{error:?}")
}

/// `beancount_parser::Transaction::date`, by its year, month and day: the
/// date that the transaction holds.
#[verifier::external_body]
fn transaction_date(transaction: &beancount_parser::Transaction<'_>) -> (date: Date)
    ensures
        date == transaction_data(*transaction).date,
{
    let date = transaction.date();
    Date { year: date.year(), month: date.month_of_year(), day: date.day_of_month() }
}

/// `beancount_parser::Transaction::flag`: the flag that the transaction
/// holds.
#[verifier::external_body]
fn transaction_flag(transaction: &beancount_parser::Transaction<'_>) -> (flag: Option<Flag>)
    ensures
        flag == transaction_data(*transaction).flag,
{
    transaction.flag().map(
        |flag|
            match flag {
                beancount_parser::transaction::Flag::Cleared => Flag::Cleared,
                beancount_parser::transaction::Flag::Pending => Flag::Pending,
            },
    )
}

/// `beancount_parser::Transaction::payee`: the payee that the transaction
/// holds.
#[verifier::external_body]
fn transaction_payee(transaction: &beancount_parser::Transaction<'_>) -> (payee: Option<String>)
    ensures
        optional_text(payee) == transaction_data(*transaction).payee,
{
    transaction.payee().map(|payee| payee.to_string())
}

/// `beancount_parser::Transaction::narration`: the narration that the
/// transaction holds.
#[verifier::external_body]
fn transaction_narration(transaction: &beancount_parser::Transaction<'_>) -> (narration: Option<
    String,
>)
    ensures
        optional_text(narration) == transaction_data(*transaction).narration,
{
    transaction.narration().map(|narration| narration.to_string())
}

/// `beancount_parser::Transaction::postings`: the postings that the
/// transaction holds, in their order.
#[verifier::external_body]
fn transaction_postings<'a, 'b>(transaction: &'b beancount_parser::Transaction<'a>) -> (postings:
    &'b [beancount_parser::transaction::Posting<'a>])
    ensures
        postings@.len() == transaction_data(*transaction).postings.len(),
        forall|index: int|
            0 <= index < postings@.len() ==> posting_data(#[trigger] postings@[index])
                == transaction_data(*transaction).postings[index],
{
    transaction.postings()
}

/// `beancount_parser::transaction::Posting::account`, as the account prints
/// itself, its parts joined by colons: the account that the posting holds.
#[verifier::external_body]
fn posting_account(posting: &beancount_parser::transaction::Posting<'_>) -> (account: String)
    ensures
        account@ == posting_data(*posting).account,
{
    posting.account().to_string()
}

/// `beancount_parser::transaction::Posting::amount`: the amount that the
/// posting holds, if it holds one.
#[verifier::external_body]
fn posting_amount<'a, 'b>(posting: &'b beancount_parser::transaction::Posting<'a>) -> (amount:
    Option<&'b beancount_parser::Amount<'a>>)
    ensures
        match amount {
            Some(amount) => posting_data(*posting).amount == Some(amount_data(*amount)),
            None => posting_data(*posting).amount is None,
        },
{
    posting.amount()
}

/// `beancount_parser::Amount::currency`: the currency that the amount holds.
#[verifier::external_body]
fn amount_currency(amount: &beancount_parser::Amount<'_>) -> (currency: String)
    ensures
        currency@ == amount_data(*amount).currency,
{
    amount.currency().to_string()
}

/// `beancount_parser::Amount::expression`: the expression that the amount
/// holds.
#[verifier::external_body]
fn amount_expression<'b>(amount: &'b beancount_parser::Amount<'_>) -> (expression:
    &'b beancount_parser::amount::Expression)
    ensures
        expression_data(*expression) == amount_data(*amount).expression,
{
    amount.expression()
}

/// The number of a node `beancount_parser::amount::Expression::Value`, taken
/// as the mantissa and scale of its `rust_decimal::Decimal`. `None` for any
/// other node. Trusted: such a node, and no other, holds a written number.
#[verifier::external_body]
fn written_number(expression: &beancount_parser::amount::Expression) -> (number: Option<
    Decimal,
>)
    ensures
        match number {
            Some(number) => expression_data(*expression) == NumberExpression::Value(number),
            None => !(expression_data(*expression) is Value),
        },
{
    match expression {
        beancount_parser::amount::Expression::Value(value) => {
            let number = rust_decimal::Decimal::from(*value);
            Some(Decimal { mantissa: number.mantissa(), scale: number.scale() })
        },
        _ => None,
    }
}

/// The operator of a node `beancount_parser::amount::Expression::Operation`.
/// The crate does not export the type of its operators, so each is told by
/// the name under which `Debug` prints it, which is that of its variant.
/// `None` for any other node and for an operator of another name. Trusted:
/// a node with one of the four operators, and no other, holds an operation.
#[verifier::external_body]
fn operator_of(expression: &beancount_parser::amount::Expression) -> (operator: Option<
    Operator,
>)
    ensures
        match operator {
            Some(operator) => expression_data(*expression) matches NumberExpression::Operation(
                held,
                _,
                _,
            ) && held == operator,
            None => !(expression_data(*expression) is Operation),
        },
{
    let beancount_parser::amount::Expression::Operation(operation) = expression else {
        return None;
    };
    match format!("{:?}", operation.operator()).as_str() {
        "Divide" => Some(Operator::Divide),
        "Multiply" => Some(Operator::Multiply),
        "Add" => Some(Operator::Add),
        "Subtract" => Some(Operator::Subtract),
        _ => None,
    }
}

/// The left and the right operand of a node
/// `beancount_parser::amount::Expression::Operation`, `None` for any other
/// node. Trusted: where the node holds an operation, its operands hold what
/// these two subtrees hold.
#[verifier::external_body]
fn operands<'b>(expression: &'b beancount_parser::amount::Expression) -> (pair: Option<
    (&'b beancount_parser::amount::Expression, &'b beancount_parser::amount::Expression),
>)
    ensures
        match pair {
            Some((left, right)) => expression_data(*expression) matches NumberExpression::Operation(
                _,
                held_left,
                held_right,
            ) ==> *held_left == expression_data(*left) && *held_right == expression_data(*right),
            None => !(expression_data(*expression) is Operation),
        },
{
    match expression {
        beancount_parser::amount::Expression::Operation(operation) => Some(
            (operation.left(), operation.right()),
        ),
        _ => None,
    }
}

/// `beancount_parser::Assertion::date`, by its year, month and day: the date
/// that the assertion holds.
#[verifier::external_body]
fn assertion_date(assertion: &beancount_parser::Assertion<'_>) -> (date: Date)
    ensures
        date == assertion_data(*assertion).date,
{
    let date = assertion.date();
    Date { year: date.year(), month: date.month_of_year(), day: date.day_of_month() }
}

/// `beancount_parser::Assertion::account`, as the account prints itself, its
/// parts joined by colons: the account that the assertion holds.
#[verifier::external_body]
fn assertion_account(assertion: &beancount_parser::Assertion<'_>) -> (account: String)
    ensures
        account@ == assertion_data(*assertion).account,
{
    assertion.account().to_string()
}

/// `beancount_parser::Assertion::amount`: the amount that the assertion
/// holds.
#[verifier::external_body]
fn assertion_amount<'a, 'b>(assertion: &'b beancount_parser::Assertion<'a>) -> (amount:
    &'b beancount_parser::Amount<'a>)
    ensures
        amount_data(*amount) == assertion_data(*assertion).amount,
{
    assertion.amount()
}

/// `beancount_parser::Include::path`, as text: the path that the file
/// inclusion holds. The parser made the path from text, so nothing is lost.
#[verifier::external_body]
fn file_path(file: &beancount_parser::Include) -> (path: String)
    ensures
        path@ == file_data(*file).path,
{
    file.path().to_string_lossy().into_owned()
}

/// Copies the tree of an expression node by node. A node that is neither a
/// written number nor an operation with a known operator is copied as
/// `Unsupported`.
fn read_expression(expression: &beancount_parser::amount::Expression) -> (copy: NumberExpression)
    ensures
        copy == expression_data(*expression),
    decreases expression_data(*expression),
{
    match written_number(expression) {
        Some(number) => NumberExpression::Value(number),
        None => match (operator_of(expression), operands(expression)) {
            (Some(operator), Some((left, right))) => NumberExpression::Operation(
                operator,
                Box::new(read_expression(left)),
                Box::new(read_expression(right)),
            ),
            _ => NumberExpression::Unsupported,
        },
    }
}

/// Reads an amount: its expression and its currency.
fn read_amount(amount: &beancount_parser::Amount<'_>) -> (read: CurrencyAmount)
    ensures
        read@ == amount_data(*amount),
{
    CurrencyAmount {
        expression: read_expression(amount_expression(amount)),
        currency: amount_currency(amount),
    }
}

/// Reads a posting: its account and, where it has one, its amount.
fn read_posting(posting: &beancount_parser::transaction::Posting<'_>) -> (read: AccountPosting)
    ensures
        read@ == posting_data(*posting),
{
    AccountPosting {
        account: posting_account(posting),
        amount: match posting_amount(posting) {
            Some(amount) => Some(read_amount(amount)),
            None => None,
        },
    }
}

/// Reads a transaction, its postings in their order.
fn read_transaction(transaction: &beancount_parser::Transaction<'_>) -> (read: LedgerTransaction)
    ensures
        read@ == transaction_data(*transaction),
{
    let source = transaction_postings(transaction);
    let mut postings: Vec<AccountPosting> = Vec::new();
    let mut index: usize = 0;
    while index < source.len()
        invariant
            index <= source.len(),
            postings@.len() == index,
            source@.len() == transaction_data(*transaction).postings.len(),
            forall|at: int|
                0 <= at < source@.len() ==> posting_data(#[trigger] source@[at])
                    == transaction_data(*transaction).postings[at],
            forall|at: int|
                0 <= at < index ==> (#[trigger] postings@[at])@ == transaction_data(
                    *transaction,
                ).postings[at],
        decreases source.len() - index,
    {
        postings.push(read_posting(&source[index]));
        index = index + 1;
    }
    let read = LedgerTransaction {
        date: transaction_date(transaction),
        flag: transaction_flag(transaction),
        payee: transaction_payee(transaction),
        narration: transaction_narration(transaction),
        postings,
    };
    assert(read@.postings =~= transaction_data(*transaction).postings);
    read
}

/// Reads a balance assertion.
fn read_assertion(assertion: &beancount_parser::Assertion<'_>) -> (read: BalanceAssertion)
    ensures
        read@ == assertion_data(*assertion),
{
    BalanceAssertion {
        date: assertion_date(assertion),
        account: assertion_account(assertion),
        amount: read_amount(assertion_amount(assertion)),
    }
}

/// Reads a directive according to its kind.
fn read_directive(directive: &beancount_parser::Directive<'_>) -> (read: LedgerDirective)
    ensures
        read@ == directive_data(*directive),
{
    match kind_of(directive) {
        Kind::Transaction(transaction) => LedgerDirective::Transaction(
            read_transaction(transaction),
        ),
        Kind::Assertion(assertion) => LedgerDirective::Assertion(read_assertion(assertion)),
        Kind::Include(file) => LedgerDirective::Include(FileInclude { path: file_path(file) }),
        Kind::Other => LedgerDirective::Other,
    }
}

/// Reads one item of the parser into plain data: a directive, or the message
/// of the error at which the parser stopped.
pub(crate) fn read_item(item: Result<beancount_parser::Directive<'_>, beancount_parser::Error>)
    -> (read: ParsedItem)
    ensures
        item_view(read) == item_data(item),
{
    match item {
        Ok(directive) => Ok(read_directive(&directive)),
        Err(error) => Err(ParseError { message: error_message(&error) }),
    }
}

/// Reads a ledger: the directives of `text` from first to last, and, where
/// the text is malformed, the error at which the parser stopped.
pub fn parse(text: &str) -> (items: Vec<ParsedItem>)
    ensures
        item_views(items@) == parsed(text@),
        text@.len() == 0 ==> items@.len() == 0,
{
    let mut parser = start(text);
    let mut items: Vec<ParsedItem> = Vec::new();
    loop
        invariant
            item_views(items@) + pending(parser) == parsed(text@),
            text@.len() == 0 ==> parsed(text@).len() == 0,
        decreases pending(parser).len(),
    {
        let ghost before = item_views(items@);
        match advance(&mut parser) {
            Some(raw) => {
                let item = read_item(raw);
                items.push(item);
                assert(item_views(items@) =~= before.push(item_view(item)));
                assert(item_views(items@) + pending(parser) =~= parsed(text@));
            },
            None => {
                assert(item_views(items@) =~= parsed(text@));
                return items;
            },
        }
    }
}

} // verus!
