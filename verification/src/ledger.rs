//! The directives of a ledger, as plain data.

use vstd::prelude::*;
use crate::calendar::Date;
use crate::decimal::Decimal;
use crate::expression::NumberExpression;

verus! {

/// The mark a transaction carries.
#[derive(Clone, Copy, Debug, PartialEq, Eq, Structural)]
pub enum Flag {
    /// Written `*`.
    Cleared,
    /// Written `!`.
    Pending,
}

/// A number of units of a currency.
#[derive(Debug, PartialEq, Eq)]
pub struct CurrencyAmount {
    pub expression: NumberExpression,
    pub currency: String,
}

/// One leg of a transaction: an account and, unless it is left to balance
/// the others, an amount.
#[derive(Debug, PartialEq, Eq)]
pub struct AccountPosting {
    pub account: String,
    pub amount: Option<CurrencyAmount>,
}

/// A transaction directive.
#[derive(Debug, PartialEq, Eq)]
pub struct LedgerTransaction {
    pub date: Date,
    pub flag: Option<Flag>,
    pub payee: Option<String>,
    pub narration: Option<String>,
    pub postings: Vec<AccountPosting>,
}

/// A `balance` directive: what an account is asserted to hold on a date.
#[derive(Debug, PartialEq, Eq)]
pub struct BalanceAssertion {
    pub date: Date,
    pub account: String,
    pub amount: CurrencyAmount,
}

/// An `include` directive: the path of another ledger file, as written.
#[derive(Debug, PartialEq, Eq)]
pub struct FileInclude {
    pub path: String,
}

/// One directive of a ledger. The kinds that the conversion has no record
/// for are all `Other`.
#[derive(Debug, PartialEq, Eq)]
pub enum LedgerDirective {
    Transaction(LedgerTransaction),
    Assertion(BalanceAssertion),
    Include(FileInclude),
    Other,
}

/// Why a ledger could not be read.
#[derive(Debug, PartialEq, Eq)]
pub struct ParseError {
    pub message: String,
}

pub struct CurrencyAmountView {
    pub expression: NumberExpression,
    pub currency: Seq<char>,
}

pub struct AccountPostingView {
    pub account: Seq<char>,
    pub amount: Option<CurrencyAmountView>,
}

pub struct LedgerTransactionView {
    pub date: Date,
    pub flag: Option<Flag>,
    pub payee: Option<Seq<char>>,
    pub narration: Option<Seq<char>>,
    pub postings: Seq<AccountPostingView>,
}

pub struct BalanceAssertionView {
    pub date: Date,
    pub account: Seq<char>,
    pub amount: CurrencyAmountView,
}

pub struct FileIncludeView {
    pub path: Seq<char>,
}

pub enum LedgerDirectiveView {
    Transaction(LedgerTransactionView),
    Assertion(BalanceAssertionView),
    Include(FileIncludeView),
    Other,
}

pub struct ParseErrorView {
    pub message: Seq<char>,
}

/// What a parser hands out for one stretch of a ledger.
pub type ParsedItem = Result<LedgerDirective, ParseError>;

pub type ParsedItemView = Result<LedgerDirectiveView, ParseErrorView>;

/// The characters of a text that may be absent.
pub open spec fn optional_text(text: Option<String>) -> Option<Seq<char>> {
    match text {
        Some(text) => Some(text@),
        None => None,
    }
}

impl View for CurrencyAmount {
    type V = CurrencyAmountView;

    open spec fn view(&self) -> CurrencyAmountView {
        CurrencyAmountView { expression: self.expression, currency: self.currency@ }
    }
}

impl View for AccountPosting {
    type V = AccountPostingView;

    open spec fn view(&self) -> AccountPostingView {
        AccountPostingView {
            account: self.account@,
            amount: match self.amount {
                Some(amount) => Some(amount@),
                None => None,
            },
        }
    }
}

impl View for LedgerTransaction {
    type V = LedgerTransactionView;

    open spec fn view(&self) -> LedgerTransactionView {
        LedgerTransactionView {
            date: self.date,
            flag: self.flag,
            payee: optional_text(self.payee),
            narration: optional_text(self.narration),
            postings: self.postings@.map_values(|posting: AccountPosting| posting@),
        }
    }
}

impl View for BalanceAssertion {
    type V = BalanceAssertionView;

    open spec fn view(&self) -> BalanceAssertionView {
        BalanceAssertionView { date: self.date, account: self.account@, amount: self.amount@ }
    }
}

impl View for FileInclude {
    type V = FileIncludeView;

    open spec fn view(&self) -> FileIncludeView {
        FileIncludeView { path: self.path@ }
    }
}

impl View for LedgerDirective {
    type V = LedgerDirectiveView;

    open spec fn view(&self) -> LedgerDirectiveView {
        match self {
            LedgerDirective::Transaction(transaction) => LedgerDirectiveView::Transaction(
                transaction@,
            ),
            LedgerDirective::Assertion(assertion) => LedgerDirectiveView::Assertion(assertion@),
            LedgerDirective::Include(file) => LedgerDirectiveView::Include(file@),
            LedgerDirective::Other => LedgerDirectiveView::Other,
        }
    }
}

impl View for ParseError {
    type V = ParseErrorView;

    open spec fn view(&self) -> ParseErrorView {
        ParseErrorView { message: self.message@ }
    }
}

/// What one parsed item holds.
pub open spec fn item_view(item: ParsedItem) -> ParsedItemView {
    match item {
        Ok(directive) => Ok(directive@),
        Err(error) => Err(error@),
    }
}

/// What the items of a sequence hold, in order.
pub open spec fn item_views(items: Seq<ParsedItem>) -> Seq<ParsedItemView> {
    items.map_values(|item: ParsedItem| item_view(item))
}

impl CurrencyAmountView {
    /// The number of this amount, `None` where its expression has no value.
    pub open spec fn value(self) -> Option<Decimal> {
        self.expression.value()
    }
}

impl CurrencyAmount {
    /// Works out the number of this amount, `None` where its expression has
    /// no value.
    pub fn value(&self) -> (number: Option<Decimal>)
        ensures
            number == self@.value(),
    {
        self.expression.evaluate()
    }
}

impl LedgerDirectiveView {
    /// The date of a directive that has one.
    pub open spec fn date(self) -> Option<Date> {
        match self {
            LedgerDirectiveView::Transaction(transaction) => Some(transaction.date),
            LedgerDirectiveView::Assertion(assertion) => Some(assertion.date),
            _ => None,
        }
    }

    /// Whether the date of this directive, if it has one, names a day of the
    /// calendar.
    pub open spec fn is_dated_validly(self) -> bool {
        match self.date() {
            Some(date) => date.is_valid(),
            None => true,
        }
    }
}

impl LedgerDirective {
    /// Tests whether the date of this directive, if it has one, names a day of
    /// the calendar.
    pub fn is_dated_validly(&self) -> (valid: bool)
        ensures
            valid == self@.is_dated_validly(),
    {
        match self {
            LedgerDirective::Transaction(transaction) => transaction.date.is_calendar_date(),
            LedgerDirective::Assertion(assertion) => assertion.date.is_calendar_date(),
            _ => true,
        }
    }
}

} // verus!
