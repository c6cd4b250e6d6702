use reloader::decimal::integer_text;
use reloader::text::{join_list, split_list};
use reloader::{Command, Decimal, Operator, Powder, Query, ValidationError, Value};

fn strings(items: &[&str]) -> Vec<String> {
    items.iter().map(|s| String::from(*s)).collect()
}

#[test]
fn join_of_one_item_is_the_item() {
    assert_eq!(join_list(&strings(&["name"])), Ok(String::from("name")));
}

#[test]
fn join_of_several_items() {
    assert_eq!(join_list(&strings(&["a", "b", "c"])), Ok(String::from("a,b,c")));
}

#[test]
fn join_of_nothing_is_refused() {
    assert_eq!(join_list(&Vec::new()), Err(ValidationError::EmptyList));
}

#[test]
fn split_gives_back_what_was_joined() {
    let lists: [&[&str]; 5] =
        [&["name"], &["a", "b", "c"], &[""], &["", "x", ""], &["casing_id", "pr\u{e9}cis", "max psi"]];
    for list in lists {
        let items = strings(list);
        let joined = join_list(&items).unwrap();
        assert_eq!(split_list(&joined), items);
    }
}

#[test]
fn split_of_plain_texts() {
    assert_eq!(split_list(""), strings(&[""]));
    assert_eq!(split_list(","), strings(&["", ""]));
    assert_eq!(split_list("a,,b"), strings(&["a", "", "b"]));
    assert_eq!(split_list("no comma"), strings(&["no comma"]));
}

#[test]
fn join_gives_back_what_was_split() {
    for text in ["", ",", "a,,b", "no comma", "Rimless, Straight bottleneck", ",x,", "a,b,c,d"] {
        assert_eq!(join_list(&split_list(text)), Ok(String::from(text)));
    }
}

#[test]
fn an_item_with_a_comma_does_not_come_back() {
    let items = strings(&["Rimless, Straight bottleneck"]);
    let joined = join_list(&items).unwrap();
    assert_eq!(split_list(&joined), strings(&["Rimless", " Straight bottleneck"]));
}

#[test]
fn integers_in_decimal() {
    assert_eq!(integer_text(0), "0");
    assert_eq!(integer_text(7), "7");
    assert_eq!(integer_text(10), "10");
    assert_eq!(integer_text(-1), "-1");
    assert_eq!(integer_text(25000), "25000");
    assert_eq!(integer_text(1234567890), "1234567890");
    assert_eq!(integer_text(i64::MAX), "9223372036854775807");
    assert_eq!(integer_text(i64::MIN), "-9223372036854775808");
}

#[test]
fn decimals_without_fraction() {
    assert_eq!(Decimal::new(250000, 1).text(), "25000");
    assert_eq!(Decimal::new(25000, 0).text(), "25000");
    assert_eq!(Decimal::new(0, 0).text(), "0");
    assert_eq!(Decimal::new(0, 5).text(), "0");
    assert_eq!(Decimal::new(-300, 2).text(), "-3");
}

#[test]
fn decimals_with_fraction() {
    assert_eq!(Decimal::new(308, 3).text(), "0.308");
    assert_eq!(Decimal::new(-5, 1).text(), "-0.5");
    assert_eq!(Decimal::new(1050, 3).text(), "1.05");
    assert_eq!(Decimal::new(1, 4).text(), "0.0001");
    assert_eq!(Decimal::new(123456, 2).text(), "1234.56");
    assert_eq!(Decimal::new(-2240, 3).text(), "-2.24");
}

#[test]
fn decimal_text_does_not_depend_on_the_scale() {
    assert_eq!(Decimal::new(25000, 0).text(), Decimal::new(250000, 1).text());
    assert_eq!(Decimal::new(250000, 1).text(), Decimal::new(2500000, 2).text());
    assert_eq!(Decimal::new(-308, 3).text(), Decimal::new(-3080, 4).text());
    assert_eq!(Decimal::new(-3080, 4).text(), "-0.308");
    assert_eq!(Decimal::new(-42, 0).text(), integer_text(-42));
}

#[test]
fn decimals_at_the_limits() {
    assert_eq!(Decimal::new(i64::MAX, 0).text(), "9223372036854775807");
    assert_eq!(Decimal::new(i64::MIN, 0).text(), "-9223372036854775808");
    assert_eq!(Decimal::new(i64::MAX, 19).text(), "0.9223372036854775807");
    assert_eq!(Decimal::new(i64::MIN, 18).text(), "-9.223372036854775808");
    assert_eq!(Decimal::new(5, 21).text(), "0.000000000000000000005");
    assert_eq!(Decimal::new(1, 19).text(), "0.0000000000000000001");
    assert_eq!(Decimal::new(1, 20).text(), "0.00000000000000000001");
    let tiny = Decimal::new(1, 255).text();
    assert_eq!(tiny.len(), 257);
    assert!(tiny.starts_with("0.000"));
    assert!(tiny.ends_with("01"));
}

#[test]
fn decimal_matches_the_shortest_float_text() {
    let cases: [(i64, u8, f64); 5] =
        [(250000, 1, 25000.0), (308, 3, 0.308), (-15, 1, -1.5), (6500, 2, 65.0), (1, 3, 0.001)];
    for (mantissa, scale, float) in cases {
        assert_eq!(Decimal::new(mantissa, scale).text(), format!("{}", float));
    }
}

#[test]
fn literals_of_each_kind() {
    assert_eq!(Value::Text(String::from(".357 Magnum")).literal(), "'.357 Magnum'");
    assert_eq!(Value::from_text("").literal(), "''");
    assert_eq!(Value::Integer(-42).literal(), "-42");
    assert_eq!(Value::Real(Decimal::new(250000, 1)).literal(), "25000");
    assert_eq!(Value::from_text("it's").literal(), "'it's'");
}

#[test]
fn value_text_in_either_way() {
    let value = Value::Integer(12);
    assert_eq!(value.text(false), "12");
    assert_eq!(value.text(true), "?");
    assert_eq!(value.clone(), value);
    let name = Value::from_text("Hodgdon");
    assert_eq!(name.clone(), Value::Text(String::from("Hodgdon")));
}

#[test]
fn operators_fall_in_two_families() {
    let comparisons = [
        Operator::Equals,
        Operator::NotEquals,
        Operator::GreaterThan,
        Operator::GreaterOrEqual,
        Operator::LessThan,
        Operator::LessOrEqual,
    ];
    for operator in comparisons {
        assert!(operator.is_comparison());
        assert!(!operator.is_logical());
    }
    for operator in [Operator::And, Operator::Or, Operator::Not] {
        assert!(operator.is_logical());
        assert!(!operator.is_comparison());
    }
    assert_eq!(Operator::NotEquals.symbol(), "<>");
    assert_eq!(Operator::Or.symbol(), "OR");
}

#[test]
fn clauses_are_kept_in_order() {
    let mut q = Query::new(Command::Insert);
    assert_eq!(q.command(), Command::Insert);
    q.add_table("casing");
    q.add_column("c");
    q.add_field("f1");
    q.add_field("f2");
    assert_eq!(q.tables(), &strings(&["casing"]));
    assert_eq!(q.columns(), &strings(&["c"]));
    assert_eq!(q.fields(), &strings(&["f1", "f2"]));
    q.add_condition("a", Operator::LessThan, Value::Integer(3));
    q.add_logical_operator(Operator::Or);
    assert_eq!(q.conditions().len(), 1);
    assert_eq!(q.conditions()[0].field, "a");
    assert_eq!(q.conditions()[0].operator, Operator::LessThan);
    assert_eq!(q.conditions()[0].value, Value::Integer(3));
    assert_eq!(q.logical_operators(), &vec![Operator::Or]);
}

#[test]
fn values_go_to_the_open_row() {
    let mut q = Query::new(Command::Insert);
    assert!(!q.is_row_open());
    q.add_value(Value::Integer(1));
    assert!(q.is_row_open());
    q.add_value(Value::Integer(2));
    assert_eq!(q.rows(), &vec![vec![Value::Integer(1), Value::Integer(2)]]);
    q.end_value_row();
    assert!(!q.is_row_open());
    q.add_value(Value::Integer(3));
    assert_eq!(
        q.rows(),
        &vec![vec![Value::Integer(1), Value::Integer(2)], vec![Value::Integer(3)]]
    );
    q.begin_value_row();
    assert_eq!(q.rows().len(), 3);
    assert!(q.rows()[2].is_empty());
    q.add_value(Value::Integer(4));
    assert_eq!(q.rows()[2], vec![Value::Integer(4)]);
    q.end_value_row();
    q.end_value_row();
    assert_eq!(q.rows().len(), 3);
}

#[test]
fn powder_row() {
    let powder = Powder {
        powder_id: 3,
        manufacturer: String::from("Hodgdon"),
        powder_type: String::from("H4350"),
    };
    assert_eq!(powder.powder_id, 3);
    assert_eq!(powder.manufacturer, "Hodgdon");
    assert_eq!(powder.powder_type, "H4350");
}
