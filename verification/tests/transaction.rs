use nu_plugin_from_beancount::calendar::{Date, DateTime};
use nu_plugin_from_beancount::decimal::Decimal;
use nu_plugin_from_beancount::expression::NumberExpression;
use nu_plugin_from_beancount::ledger::{
    AccountPosting, CurrencyAmount, Flag, LedgerDirective, LedgerTransaction,
};
use nu_plugin_from_beancount::source::parse;
use nu_plugin_from_beancount::span::Span;
use nu_plugin_from_beancount::transaction::{amount, amount_of, date, flag, posting, record};
use nu_plugin_from_beancount::value::Value;

fn input_trx(raw: &str) -> LedgerTransaction {
    parse(raw)
        .into_iter()
        .filter_map(Result::ok)
        .find_map(|directive| match directive {
            LedgerDirective::Transaction(transaction) => Some(transaction),
            _ => None,
        })
        .unwrap()
}

fn parse_record(raw: &str) -> Value {
    record(&input_trx(raw), Span::unknown())
}

fn flag_of(raw: &str) -> String {
    parse_record(raw).get_data_by_key("flag").unwrap().as_string().unwrap()
}

#[test]
fn should_return_type_payee_and_narration() {
    let input = r#"2022-02-05 * "Groceries Store" "Groceries""#;
    let trx = parse_record(input);
    assert_eq!(trx.get_data_by_key("directive").unwrap().as_string().unwrap(), "txn");
    assert_eq!(trx.get_data_by_key("payee").unwrap().as_string().unwrap(), "Groceries Store");
    assert_eq!(trx.get_data_by_key("narration").unwrap().as_string().unwrap(), "Groceries");
}

#[test]
fn should_return_expected_transaction_flag_for_a_star() {
    assert_eq!(flag_of("2022-02-05 *"), "*");
}

#[test]
fn should_return_expected_transaction_flag_for_a_bang() {
    assert_eq!(flag_of("2022-02-05 !"), "!");
}

#[test]
fn should_return_expected_transaction_flag_for_txn() {
    assert_eq!(flag_of("2022-02-05 txn"), "*");
}

#[test]
fn should_return_date_of_transaction() {
    let trx = parse_record(r#"2022-02-05 txn"#);
    let Value::Date { val, .. } = trx.get_data_by_key("date").unwrap() else {
        panic!("was not a date");
    };
    assert_eq!(
        *val,
        DateTime { date: Date { year: 2022, month: 2, day: 5 }, second_of_day: 0, utc_offset: 0 }
    );
}

#[test]
fn should_return_posings_in_transaction() {
    let input = r#"
2022-02-05 * "Groceries Store" "Groceries"
    Expenses:Food    10 CHF
    Assets:Cash
        "#;
    let trx = parse_record(input);
    let postings = trx.get_data_by_key("postings").unwrap();
    let posting_list = postings.as_list().unwrap();
    assert_eq!(posting_list.len(), 2);
    assert_eq!(
        &posting_list[0].get_data_by_key("account").unwrap().as_string().unwrap(),
        "Expenses:Food"
    );
    let food_amount = posting_list[0].get_data_by_key("amount").unwrap();
    let (cols, vals) = food_amount.as_record().unwrap();
    assert_eq!(cols, &["CHF".to_string()]);
    assert_eq!(f64::from_bits(vals[0].as_float_bits().unwrap()), 10.0);
    assert_eq!(
        &posting_list[1].get_data_by_key("account").unwrap().as_string().unwrap(),
        "Assets:Cash"
    );
    let cash_amount = &posting_list[1].get_data_by_key("amount").unwrap();
    assert!(cash_amount.is_nothing());
}

#[test]
fn flags_are_normalized() {
    let span = Span::new(2, 3);
    assert_eq!(flag(Some(Flag::Cleared), span), Value::String { val: "*".into(), span });
    assert_eq!(flag(None, span), Value::String { val: "*".into(), span });
    assert_eq!(flag(Some(Flag::Pending), span), Value::String { val: "!".into(), span });
}

#[test]
fn a_date_is_the_start_of_its_day_in_utc() {
    let span = Span::new(2, 3);
    assert_eq!(
        date(Date::new(2014, 12, 26), span),
        Value::Date {
            val: DateTime {
                date: Date { year: 2014, month: 12, day: 26 },
                second_of_day: 0,
                utc_offset: 0
            },
            span
        }
    );
}

#[test]
fn a_missing_text_is_absent_and_an_empty_text_is_a_text() {
    let span = Span::new(2, 3);
    let transaction = LedgerTransaction {
        date: Date::new(2022, 2, 5),
        flag: None,
        payee: None,
        narration: Some(String::new()),
        postings: Vec::new(),
    };
    let made = record(&transaction, span);
    assert_eq!(made.get_data_by_key("payee"), Some(&Value::Nothing { span: Span::unknown() }));
    assert_eq!(
        made.get_data_by_key("narration"),
        Some(&Value::String { val: String::new(), span })
    );
    assert_eq!(made.get_data_by_key("postings"), Some(&Value::List { vals: Vec::new(), span }));
}

#[test]
fn an_amount_is_a_record_of_one_currency() {
    let span = Span::new(2, 3);
    let units = CurrencyAmount {
        expression: NumberExpression::Value(Decimal::new(-349202, 2)),
        currency: "USD".into(),
    };
    assert_eq!(
        amount(&units, span),
        Value::Record {
            cols: vec!["USD".into()],
            vals: vec![Value::Float { bits: (-3492.02f64).to_bits(), span }],
            span
        }
    );
}

#[test]
fn an_amount_without_a_number_keeps_its_currency() {
    let span = Span::new(2, 3);
    assert_eq!(
        amount_of("CHF", None, span),
        Value::Record {
            cols: vec!["CHF".into()],
            vals: vec![Value::Nothing { span: Span::unknown() }],
            span
        }
    );
    let units = CurrencyAmount { expression: NumberExpression::Unsupported, currency: "CHF".into() };
    assert_eq!(amount(&units, span), amount_of("CHF", None, span));
}

#[test]
fn a_posting_without_an_amount_has_the_absent_value() {
    let span = Span::new(2, 3);
    let leg = AccountPosting { account: "Assets:Cash".into(), amount: None };
    assert_eq!(
        posting(&leg, span),
        Value::Record {
            cols: vec!["account".into(), "amount".into()],
            vals: vec![
                Value::String { val: "Assets:Cash".into(), span },
                Value::Nothing { span: Span::unknown() }
            ],
            span
        }
    );
}
