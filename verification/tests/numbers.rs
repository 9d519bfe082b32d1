use nu_plugin_from_beancount::calendar::Date;
use nu_plugin_from_beancount::decimal::{keep_finite, Decimal};
use nu_plugin_from_beancount::expression::{NumberExpression, Operator};
use nu_plugin_from_beancount::ledger::{CurrencyAmount, LedgerDirective};
use nu_plugin_from_beancount::source::parse;

fn number(mantissa: i128, scale: u32) -> NumberExpression {
    NumberExpression::Value(Decimal::new(mantissa, scale))
}

fn operation(operator: Operator, left: NumberExpression, right: NumberExpression) -> NumberExpression {
    NumberExpression::Operation(operator, Box::new(left), Box::new(right))
}

fn float_of(expression: NumberExpression) -> Option<f64> {
    let amount = CurrencyAmount { expression, currency: "CHF".into() };
    amount.value().and_then(|value| value.to_float_bits()).map(f64::from_bits)
}

fn first_amount(raw: &str) -> CurrencyAmount {
    parse(raw)
        .into_iter()
        .filter_map(Result::ok)
        .find_map(|directive| match directive {
            LedgerDirective::Transaction(transaction) => {
                transaction.postings.into_iter().find_map(|posting| posting.amount)
            }
            LedgerDirective::Assertion(assertion) => Some(assertion.amount),
            _ => None,
        })
        .unwrap()
}

#[test]
fn a_leap_day_is_a_calendar_date() {
    assert!(Date::new(2024, 2, 29).is_calendar_date());
    assert!(Date::new(2000, 2, 29).is_calendar_date());
    assert!(!Date::new(2023, 2, 29).is_calendar_date());
    assert!(!Date::new(1900, 2, 29).is_calendar_date());
}

#[test]
fn months_have_their_own_lengths() {
    assert!(Date::new(2023, 1, 31).is_calendar_date());
    assert!(Date::new(2023, 4, 30).is_calendar_date());
    assert!(!Date::new(2023, 4, 31).is_calendar_date());
    assert!(!Date::new(2023, 0, 1).is_calendar_date());
    assert!(!Date::new(2023, 13, 1).is_calendar_date());
    assert!(!Date::new(2023, 1, 0).is_calendar_date());
    assert!(!Date::new(2023, 1, 32).is_calendar_date());
    assert!(Date::new(0, 2, 29).is_calendar_date());
    assert!(Date::new(65535, 12, 31).is_calendar_date());
}

#[test]
fn the_four_operations_work_in_decimal_arithmetic() {
    let six = Decimal::new(6, 0);
    let four = Decimal::new(4, 0);
    assert_eq!(Operator::Add.apply(six, four), Some(Decimal::new(10, 0)));
    assert_eq!(Operator::Subtract.apply(six, four), Some(Decimal::new(2, 0)));
    assert_eq!(Operator::Multiply.apply(six, four), Some(Decimal::new(24, 0)));
    assert_eq!(Operator::Divide.apply(six, four), Some(Decimal::new(150, 2)));
    assert_eq!(
        Operator::Add.apply(Decimal::new(11, 1), Decimal::new(2, 0)),
        Some(Decimal::new(31, 1))
    );
}

#[test]
fn a_division_by_zero_has_no_outcome() {
    assert_eq!(Operator::Divide.apply(Decimal::new(1, 0), Decimal::new(0, 0)), None);
    assert_eq!(float_of(operation(Operator::Divide, number(1, 0), number(0, 0))), None);
}

#[test]
fn an_overflow_has_no_outcome() {
    let largest = Decimal::new(79_228_162_514_264_337_593_543_950_335, 0);
    assert_eq!(Operator::Add.apply(largest, Decimal::new(1, 0)), None);
    assert_eq!(Operator::Multiply.apply(largest, Decimal::new(2, 0)), None);
    assert_eq!(Operator::Subtract.apply(Decimal::new(-1, 0), largest).is_some(), false);
}

#[test]
fn a_number_that_the_arithmetic_cannot_hold_has_no_outcome() {
    let too_large = Decimal::new(79_228_162_514_264_337_593_543_950_336, 0);
    assert_eq!(Operator::Add.apply(too_large, Decimal::new(1, 0)), None);
    assert_eq!(Operator::Add.apply(Decimal::new(1, 29), Decimal::new(1, 0)), None);
    assert_eq!(too_large.to_float_bits(), None);
}

#[test]
fn an_expression_is_worked_out_from_its_operands() {
    let expression = operation(
        Operator::Subtract,
        operation(
            Operator::Add,
            number(3, 0),
            operation(
                Operator::Divide,
                operation(Operator::Multiply, number(4, 0), number(5, 0)),
                operation(Operator::Multiply, number(6, 0), number(2, 0)),
            ),
        ),
        number(-71, 0),
    );
    let value = expression.evaluate().unwrap();
    assert_eq!(value.to_float_bits().map(f64::from_bits), Some(3.0 + 20.0 / 12.0 + 71.0));
    assert_eq!(NumberExpression::Unsupported.evaluate(), None);
    assert_eq!(
        operation(Operator::Add, number(1, 0), NumberExpression::Unsupported).evaluate(),
        None
    );
}

#[test]
fn a_decimal_becomes_the_floating_point_number_of_the_same_value() {
    assert_eq!(Decimal::new(10, 0).to_float_bits(), Some(10.0f64.to_bits()));
    assert_eq!(Decimal::new(-349202, 2).to_float_bits(), Some((-3492.02f64).to_bits()));
    assert_eq!(Decimal::new(15, 1).to_float_bits(), Some(1.5f64.to_bits()));
    assert_eq!(Decimal::new(0, 0).to_float_bits(), Some(0.0f64.to_bits()));
}

#[test]
fn only_finite_numbers_are_kept() {
    assert_eq!(keep_finite(Some(1.0f64.to_bits())), Some(1.0f64.to_bits()));
    assert_eq!(keep_finite(Some(f64::MAX.to_bits())), Some(f64::MAX.to_bits()));
    assert_eq!(keep_finite(Some(f64::INFINITY.to_bits())), None);
    assert_eq!(keep_finite(Some(f64::NEG_INFINITY.to_bits())), None);
    assert_eq!(keep_finite(Some(f64::NAN.to_bits())), None);
    assert_eq!(keep_finite(None), None);
}

#[test]
fn the_parser_hands_out_the_expression_as_written() {
    let amount = first_amount("2022-02-05 txn\n  Assets:Cash  (3 - 2) / 4 CHF");
    assert_eq!(amount.currency, "CHF");
    assert_eq!(
        amount.expression,
        operation(
            Operator::Divide,
            operation(Operator::Subtract, number(3, 0), number(2, 0)),
            number(4, 0)
        )
    );
    assert_eq!(amount.value(), Some(Decimal::new(25, 2)));
    let amount = first_amount("2022-02-05 txn\n  Assets:Cash  2 * 3 + 1.5 CHF");
    assert_eq!(
        amount.expression,
        operation(
            Operator::Add,
            operation(Operator::Multiply, number(2, 0), number(3, 0)),
            number(15, 1)
        )
    );
    assert_eq!(float_of(amount.expression), Some(7.5));
}

#[test]
fn an_amount_that_divides_by_zero_is_read_and_has_no_number() {
    let amount = first_amount("2014-12-26 balance Assets:Cash 1 / 0 USD");
    assert_eq!(amount.currency, "USD");
    assert_eq!(amount.value(), None);
}

#[test]
fn the_parser_hands_out_every_part_of_a_transaction() {
    let items = parse("2022-02-05 ! \"Store\" \"Food\"\n  Expenses:Food  10 CHF\n  Assets:Cash\n");
    assert_eq!(items.len(), 1);
    let Ok(LedgerDirective::Transaction(transaction)) = &items[0] else {
        panic!("not a transaction: {items:?}");
    };
    assert_eq!(transaction.date, Date::new(2022, 2, 5));
    assert_eq!(transaction.flag, Some(nu_plugin_from_beancount::ledger::Flag::Pending));
    assert_eq!(transaction.payee.as_deref(), Some("Store"));
    assert_eq!(transaction.narration.as_deref(), Some("Food"));
    assert_eq!(transaction.postings.len(), 2);
    assert_eq!(transaction.postings[0].account, "Expenses:Food");
    assert_eq!(
        transaction.postings[0].amount,
        Some(CurrencyAmount { expression: number(10, 0), currency: "CHF".into() })
    );
    assert_eq!(transaction.postings[1].account, "Assets:Cash");
    assert_eq!(transaction.postings[1].amount, None);
}

#[test]
fn the_parser_stops_at_the_first_error() {
    let items = parse("include \"a\"\n2022-09-11 txn that is incorrect\ninclude \"b\"\n");
    assert_eq!(items.len(), 2);
    assert!(matches!(&items[0], Ok(LedgerDirective::Include(file)) if file.path == "a"));
    assert_eq!(
        items[1],
        Err(nu_plugin_from_beancount::ledger::ParseError { message: "Error(ParseError)".into() })
    );
    assert!(parse("").is_empty());
}
