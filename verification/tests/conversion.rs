use nu_plugin_from_beancount::calendar::Date;
use nu_plugin_from_beancount::decimal::Decimal;
use nu_plugin_from_beancount::expression::NumberExpression;
use nu_plugin_from_beancount::ledger::{
    BalanceAssertion, CurrencyAmount, FileInclude, LedgerDirective, LedgerTransaction, ParseError,
    ParsedItem,
};
use nu_plugin_from_beancount::span::Span;
use nu_plugin_from_beancount::value::Value;
use nu_plugin_from_beancount::{balance, convert, failure, file_record, record, LabeledError};

fn transaction(narration: &str) -> LedgerDirective {
    LedgerDirective::Transaction(LedgerTransaction {
        date: Date::new(2022, 2, 5),
        flag: None,
        payee: None,
        narration: Some(narration.into()),
        postings: Vec::new(),
    })
}

fn inclusion(path: &str) -> LedgerDirective {
    LedgerDirective::Include(FileInclude { path: path.into() })
}

fn error(message: &str) -> ParsedItem {
    Err(ParseError { message: message.into() })
}

#[test]
fn an_empty_ledger_converts_to_no_records() {
    assert_eq!(convert(&Vec::new(), Span::new(0, 0)), Ok(Vec::new()));
}

#[test]
fn there_is_one_record_for_each_directive_of_the_three_kinds() {
    let span = Span::new(1, 5);
    let items = vec![
        Ok(LedgerDirective::Other),
        Ok(transaction("a")),
        Ok(LedgerDirective::Other),
        Ok(inclusion("b")),
        Ok(LedgerDirective::Assertion(BalanceAssertion {
            date: Date::new(2014, 12, 26),
            account: "Assets:Cash".into(),
            amount: CurrencyAmount {
                expression: NumberExpression::Value(Decimal::new(1, 0)),
                currency: "USD".into(),
            },
        })),
        Ok(LedgerDirective::Other),
    ];
    let records = convert(&items, span).unwrap();
    assert_eq!(records.len(), 3);
    let kinds: Vec<String> = records
        .iter()
        .map(|made| made.get_data_by_key("directive").unwrap().as_string().unwrap())
        .collect();
    assert_eq!(kinds, ["txn", "include", "balance"]);
}

#[test]
fn records_stand_in_the_order_of_their_directives() {
    let span = Span::new(1, 5);
    let items = vec![Ok(inclusion("first")), Ok(LedgerDirective::Other), Ok(inclusion("second"))];
    let records = convert(&items, span).unwrap();
    assert_eq!(records.len(), 2);
    assert_eq!(Some(&records[0]), record(&inclusion("first"), span).as_ref());
    assert_eq!(Some(&records[1]), record(&inclusion("second"), span).as_ref());
}

#[test]
fn the_first_error_fails_the_whole_ledger() {
    let span = Span::new(1, 5);
    let items = vec![
        Ok(transaction("a")),
        Ok(inclusion("b")),
        error("first"),
        Ok(inclusion("c")),
        error("second"),
    ];
    assert_eq!(
        convert(&items, span),
        Err(LabeledError {
            label: "Invalid beancount input".into(),
            msg: "Error while parsing beancount file: first".into(),
            span: Some(span),
        })
    );
}

#[test]
fn the_error_shown_names_the_input() {
    let span = Span::new(11, 12);
    let shown = failure(&ParseError { message: "Error(ParseError)".into() }, span);
    assert_eq!(shown.label, "Invalid beancount input");
    assert_eq!(shown.msg, "Error while parsing beancount file: Error(ParseError)");
    assert_eq!(shown.span, Some(span));
}

#[test]
fn a_directive_of_another_kind_has_no_record() {
    assert_eq!(record(&LedgerDirective::Other, Span::new(0, 1)), None);
}

#[test]
fn the_record_of_a_file_inclusion_holds_its_path() {
    let span = Span::new(3, 4);
    assert_eq!(
        file_record(&FileInclude { path: "path/to/file.beancount".into() }, span),
        Value::Record {
            cols: vec!["directive".into(), "path".into()],
            vals: vec![
                Value::String { val: "include".into(), span },
                Value::String { val: "path/to/file.beancount".into(), span }
            ],
            span,
        }
    );
}

#[test]
fn the_record_of_a_balance_assertion_holds_date_account_and_amount() {
    let span = Span::new(3, 4);
    let assertion = BalanceAssertion {
        date: Date::new(2014, 12, 26),
        account: "Liabilities:US:CreditCard".into(),
        amount: CurrencyAmount {
            expression: NumberExpression::Value(Decimal::new(-349202, 2)),
            currency: "USD".into(),
        },
    };
    let made = balance(&assertion, span);
    let (cols, vals) = made.as_record().unwrap();
    assert_eq!(cols, &["directive", "date", "account", "amount"]);
    assert_eq!(vals[0], Value::String { val: "balance".into(), span });
    assert_eq!(vals[1].as_date().unwrap().date, Date::new(2014, 12, 26));
    assert_eq!(vals[1].as_date().unwrap().second_of_day, 0);
    assert_eq!(vals[1].as_date().unwrap().utc_offset, 0);
    assert_eq!(vals[2], Value::String { val: "Liabilities:US:CreditCard".into(), span });
    assert_eq!(
        vals[3],
        Value::Record {
            cols: vec!["USD".into()],
            vals: vec![Value::Float { bits: (-3492.02f64).to_bits(), span }],
            span
        }
    );
}
