use nu_plugin_from_beancount::calendar::{Date, DateTime};
use nu_plugin_from_beancount::span::Span;
use nu_plugin_from_beancount::value::Value;

#[test]
fn the_default_value_is_absent_and_comes_from_nowhere() {
    assert_eq!(Value::default(), Value::Nothing { span: Span { start: 0, end: 0 } });
    assert_eq!(Span::unknown(), Span::new(0, 0));
    assert!(Value::default().is_nothing());
    assert!(!Value::string("", Span::unknown()).is_nothing());
}

#[test]
fn a_value_is_read_as_what_it_is() {
    let span = Span::new(1, 2);
    let at = DateTime::midnight_utc(Date::new(2022, 2, 5));
    assert_eq!(Value::string("a", span).as_string(), Some("a".to_string()));
    assert_eq!(Value::float(7, span).as_string(), None);
    assert_eq!(Value::float(7, span).as_float_bits(), Some(7));
    assert_eq!(Value::nothing(span).as_float_bits(), None);
    assert_eq!(Value::date(at, span).as_date(), Some(at));
    assert_eq!(Value::nothing(span).as_date(), None);
    assert_eq!(Value::list(vec![Value::nothing(span)], span).as_list().unwrap().len(), 1);
    assert!(Value::nothing(span).as_list().is_none());
    assert!(Value::nothing(span).as_record().is_none());
    assert_eq!(Value::date(at, span).span(), span);
}

#[test]
fn a_record_is_read_by_the_first_name_that_matches() {
    let span = Span::new(1, 2);
    let made = Value::record(
        vec!["a".into(), "b".into(), "a".into(), "c".into()],
        vec![Value::float(1, span), Value::float(2, span), Value::float(3, span)],
        span,
    );
    assert_eq!(made.get_data_by_key("a"), Some(&Value::float(1, span)));
    assert_eq!(made.get_data_by_key("b"), Some(&Value::float(2, span)));
    assert_eq!(made.get_data_by_key("c"), None);
    assert_eq!(made.get_data_by_key("d"), None);
    assert_eq!(Value::list(Vec::new(), span).get_data_by_key("a"), None);
}
