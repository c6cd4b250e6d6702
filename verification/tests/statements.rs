use reloader::{Command, Database, Decimal, Error, Operator, Query, ValidationError, Value};
use rusqlite::Connection;

fn open() -> Database {
    Database::new(Connection::open_in_memory().unwrap())
}

fn text(s: &str) -> Value {
    Value::Text(String::from(s))
}

#[test]
fn select_all_from_one_table() {
    let mut db = open();
    db.begin_select().unwrap();
    db.add_column("*").unwrap();
    db.add_table("projectile").unwrap();
    assert_eq!(db.render(), Ok(String::from("SELECT * FROM projectile")));
}

#[test]
fn select_two_columns_with_two_conditions() {
    let mut db = open();
    db.begin_select().unwrap();
    db.add_column("name").unwrap();
    db.add_column("primer_size").unwrap();
    db.add_table("casing").unwrap();
    db.add_condition("name", Operator::Equals, text(".357 Magnum")).unwrap();
    db.add_logical_operator(Operator::Or).unwrap();
    db.add_condition("casing_id", Operator::Equals, Value::Integer(1)).unwrap();
    assert_eq!(
        db.render(),
        Ok(String::from(
            "SELECT name,primer_size FROM casing WHERE name='.357 Magnum' OR casing_id=1"
        ))
    );
}

#[test]
fn select_from_two_tables() {
    let mut q = Query::new(Command::Select);
    q.add_column("load_id");
    q.add_table("load");
    q.add_table("powder");
    assert_eq!(q.render(), Ok(String::from("SELECT load_id FROM load,powder")));
}

#[test]
fn select_with_three_conditions() {
    let mut q = Query::new(Command::Select);
    q.add_column("*");
    q.add_table("projectile");
    q.add_condition("weight", Operator::GreaterOrEqual, Value::Integer(150));
    q.add_logical_operator(Operator::And);
    q.add_condition("weight", Operator::LessThan, Value::Integer(180));
    q.add_logical_operator(Operator::Or);
    q.add_condition("diameter", Operator::GreaterThan, Value::Real(Decimal::new(308, 3)));
    assert_eq!(
        q.render(),
        Ok(String::from(
            "SELECT * FROM projectile WHERE weight>=150 AND weight<180 OR diameter>0.308"
        ))
    );
}

#[test]
fn insert_one_row_with_fields() {
    let mut db = open();
    db.begin_insert().unwrap();
    db.add_table("casing").unwrap();
    db.add_field("casing_id").unwrap();
    db.add_field("name").unwrap();
    db.add_field("type").unwrap();
    db.add_field("max_psi").unwrap();
    db.begin_value_row().unwrap();
    db.add_value(Value::Integer(6)).unwrap();
    db.add_value(text(".30-06")).unwrap();
    db.add_value(text("Rimless, Straight bottleneck")).unwrap();
    db.add_value(Value::Real(Decimal::new(250000, 1))).unwrap();
    db.end_value_row().unwrap();
    assert_eq!(
        db.render(),
        Ok(String::from(
            "INSERT INTO casing (casing_id,name,type,max_psi) VALUES (6,'.30-06','Rimless, Straight bottleneck',25000)"
        ))
    );
}

#[test]
fn insert_two_rows_without_fields() {
    let mut q = Query::new(Command::Insert);
    q.add_table("powder");
    q.begin_value_row();
    q.add_value(Value::Integer(1));
    q.add_value(text("Hodgdon"));
    q.end_value_row();
    q.begin_value_row();
    q.add_value(Value::Integer(2));
    q.add_value(text("Alliant"));
    q.end_value_row();
    assert_eq!(
        q.render(),
        Ok(String::from("INSERT INTO powder VALUES (1,'Hodgdon'),(2,'Alliant')"))
    );
}

#[test]
fn insert_ignores_conditions() {
    let mut q = Query::new(Command::Insert);
    q.add_table("powder");
    q.add_value(Value::Integer(1));
    q.add_condition("powder_id", Operator::And, Value::Integer(1));
    assert_eq!(q.render(), Ok(String::from("INSERT INTO powder VALUES (1)")));
}

#[test]
fn update_two_fields_with_condition() {
    let mut db = open();
    db.begin_update().unwrap();
    db.add_table("casing").unwrap();
    db.add_condition("casing_id", Operator::NotEquals, Value::Integer(3)).unwrap();
    db.add_field("name").unwrap();
    db.add_field("type").unwrap();
    db.add_value(text(".30-06")).unwrap();
    db.add_value(text("Rimless, straight bottleneck")).unwrap();
    assert_eq!(
        db.render(),
        Ok(String::from(
            "UPDATE casing SET name='.30-06',type='Rimless, straight bottleneck' WHERE casing_id<>3"
        ))
    );
}

#[test]
fn update_without_condition() {
    let mut q = Query::new(Command::Update);
    q.add_table("powder");
    q.add_field("manufacturer");
    q.add_value(text("Vihtavuori"));
    assert_eq!(q.render(), Ok(String::from("UPDATE powder SET manufacturer='Vihtavuori'")));
}

#[test]
fn delete_with_condition() {
    let mut db = open();
    db.begin_delete().unwrap();
    db.add_table("casing").unwrap();
    db.add_condition("casing_id", Operator::Equals, Value::Integer(2)).unwrap();
    assert_eq!(db.render(), Ok(String::from("DELETE FROM casing WHERE casing_id=2")));
}

#[test]
fn delete_without_condition() {
    let mut q = Query::new(Command::Delete);
    q.add_table("casing");
    assert_eq!(q.render(), Ok(String::from("DELETE FROM casing")));
}

#[test]
fn every_comparison_has_its_symbol() {
    let cases = [
        (Operator::Equals, "DELETE FROM t WHERE a=1"),
        (Operator::NotEquals, "DELETE FROM t WHERE a<>1"),
        (Operator::GreaterThan, "DELETE FROM t WHERE a>1"),
        (Operator::GreaterOrEqual, "DELETE FROM t WHERE a>=1"),
        (Operator::LessThan, "DELETE FROM t WHERE a<1"),
        (Operator::LessOrEqual, "DELETE FROM t WHERE a<=1"),
    ];
    for (operator, expected) in cases {
        let mut q = Query::new(Command::Delete);
        q.add_table("t");
        q.add_condition("a", operator, Value::Integer(1));
        assert_eq!(q.render(), Ok(String::from(expected)));
    }
}

#[test]
fn every_connective_has_its_symbol() {
    let cases = [
        (Operator::And, "DELETE FROM t WHERE a=1 AND b=2"),
        (Operator::Or, "DELETE FROM t WHERE a=1 OR b=2"),
        (Operator::Not, "DELETE FROM t WHERE a=1 NOT b=2"),
    ];
    for (operator, expected) in cases {
        let mut q = Query::new(Command::Delete);
        q.add_table("t");
        q.add_condition("a", Operator::Equals, Value::Integer(1));
        q.add_logical_operator(operator);
        q.add_condition("b", Operator::Equals, Value::Integer(2));
        assert_eq!(q.render(), Ok(String::from(expected)));
    }
}

#[test]
fn rendering_twice_gives_the_same() {
    let mut db = open();
    db.begin_select().unwrap();
    db.add_column("*").unwrap();
    db.add_table("load").unwrap();
    let first = db.render();
    let second = db.render();
    assert_eq!(first, second);
    assert!(db.is_building());
    db.add_table("powder").unwrap();
    assert_eq!(db.render(), Ok(String::from("SELECT * FROM load,powder")));
}

#[test]
fn each_command_renders_alone() {
    let mut q = Query::new(Command::Delete);
    q.add_table("casing");
    q.add_column("name");
    q.add_field("name");
    q.add_value(text("9mm"));
    q.add_condition("casing_id", Operator::Equals, Value::Integer(4));
    assert_eq!(
        q.render_select(false),
        Ok(String::from("SELECT name FROM casing WHERE casing_id=4"))
    );
    assert_eq!(q.render_insert(false), Ok(String::from("INSERT INTO casing (name) VALUES ('9mm')")));
    assert_eq!(
        q.render_update(false),
        Ok(String::from("UPDATE casing SET name='9mm' WHERE casing_id=4"))
    );
    assert_eq!(q.render_delete(false), Ok(String::from("DELETE FROM casing WHERE casing_id=4")));
    assert_eq!(q.render(), Ok(String::from("DELETE FROM casing WHERE casing_id=4")));
}

#[test]
fn bound_select_has_placeholders_and_values() {
    let mut db = open();
    db.begin_select().unwrap();
    db.add_column("name").unwrap();
    db.add_table("casing").unwrap();
    db.add_condition("name", Operator::Equals, text("x' OR '1'='1")).unwrap();
    db.add_logical_operator(Operator::And).unwrap();
    db.add_condition("casing_id", Operator::LessOrEqual, Value::Integer(9)).unwrap();
    assert_eq!(
        db.render_bound(),
        Ok((
            String::from("SELECT name FROM casing WHERE name=? AND casing_id<=?"),
            vec![text("x' OR '1'='1"), Value::Integer(9)]
        ))
    );
}

#[test]
fn bound_insert_hands_out_rows_in_order() {
    let mut q = Query::new(Command::Insert);
    q.add_table("powder");
    q.add_field("powder_id");
    q.add_field("manufacturer");
    q.begin_value_row();
    q.add_value(Value::Integer(1));
    q.add_value(text("Hodgdon"));
    q.begin_value_row();
    q.add_value(Value::Integer(2));
    q.add_value(text("Alliant"));
    assert_eq!(
        q.render_bound(),
        Ok((
            String::from("INSERT INTO powder (powder_id,manufacturer) VALUES (?,?),(?,?)"),
            vec![Value::Integer(1), text("Hodgdon"), Value::Integer(2), text("Alliant")]
        ))
    );
}

#[test]
fn bound_update_hands_out_row_then_conditions() {
    let mut q = Query::new(Command::Update);
    q.add_table("casing");
    q.add_field("max_psi");
    q.add_value(Value::Real(Decimal::new(605, 1)));
    q.add_condition("casing_id", Operator::Equals, Value::Integer(3));
    assert_eq!(
        q.render_bound(),
        Ok((
            String::from("UPDATE casing SET max_psi=? WHERE casing_id=?"),
            vec![Value::Real(Decimal::new(605, 1)), Value::Integer(3)]
        ))
    );
    assert_eq!(q.values(), vec![Value::Real(Decimal::new(605, 1)), Value::Integer(3)]);
}

#[test]
fn bound_delete_without_conditions_has_no_values() {
    let mut db = open();
    db.begin_delete().unwrap();
    db.add_table("load").unwrap();
    assert_eq!(db.render_bound(), Ok((String::from("DELETE FROM load"), vec![])));
}

#[test]
fn select_without_columns_is_refused() {
    let mut db = open();
    db.begin_select().unwrap();
    db.add_table("casing").unwrap();
    assert_eq!(db.render(), Err(Error::Validation(ValidationError::EmptyList)));
    assert_eq!(db.render_bound(), Err(Error::Validation(ValidationError::EmptyList)));
}

#[test]
fn select_without_tables_is_refused() {
    let mut q = Query::new(Command::Select);
    q.add_column("*");
    assert_eq!(q.render(), Err(ValidationError::EmptyList));
}

#[test]
fn update_with_no_row_is_refused() {
    let mut db = open();
    db.begin_update().unwrap();
    db.add_table("casing").unwrap();
    db.add_field("name").unwrap();
    assert_eq!(db.render(), Err(Error::Validation(ValidationError::RowCount)));
}

#[test]
fn update_with_two_rows_is_refused() {
    let mut q = Query::new(Command::Update);
    q.add_table("casing");
    q.add_field("name");
    q.begin_value_row();
    q.add_value(text("a"));
    q.begin_value_row();
    q.add_value(text("b"));
    assert_eq!(q.render(), Err(ValidationError::RowCount));
    assert_eq!(q.render_bound(), Err(ValidationError::RowCount));
}

#[test]
fn update_with_more_fields_than_values_is_refused() {
    let mut q = Query::new(Command::Update);
    q.add_table("casing");
    q.add_field("name");
    q.add_field("type");
    q.add_value(text("a"));
    assert_eq!(q.render(), Err(ValidationError::FieldValueMismatch));
}

#[test]
fn update_with_empty_row_and_no_fields_is_refused() {
    let mut q = Query::new(Command::Update);
    q.add_table("casing");
    q.begin_value_row();
    q.end_value_row();
    assert_eq!(q.render(), Err(ValidationError::EmptyList));
}

#[test]
fn single_table_commands_refuse_other_table_counts() {
    for command in [Command::Insert, Command::Update, Command::Delete] {
        let mut none = Query::new(command);
        none.add_field("a");
        none.add_value(Value::Integer(1));
        assert_eq!(none.render(), Err(ValidationError::TableCount));
        let mut two = Query::new(command);
        two.add_table("casing");
        two.add_table("powder");
        two.add_field("a");
        two.add_value(Value::Integer(1));
        assert_eq!(two.render(), Err(ValidationError::TableCount));
    }
}

#[test]
fn insert_without_rows_is_refused() {
    let mut q = Query::new(Command::Insert);
    q.add_table("casing");
    q.add_field("name");
    assert_eq!(q.render(), Err(ValidationError::EmptyList));
}

#[test]
fn insert_with_empty_row_is_refused() {
    let mut q = Query::new(Command::Insert);
    q.add_table("casing");
    q.add_value(Value::Integer(1));
    q.begin_value_row();
    assert_eq!(q.render(), Err(ValidationError::EmptyList));
}

#[test]
fn insert_with_short_row_is_refused() {
    let mut q = Query::new(Command::Insert);
    q.add_table("casing");
    q.add_field("casing_id");
    q.add_field("name");
    q.begin_value_row();
    q.add_value(Value::Integer(1));
    q.add_value(text("a"));
    q.begin_value_row();
    q.add_value(Value::Integer(2));
    assert_eq!(q.render(), Err(ValidationError::FieldValueMismatch));
}

#[test]
fn logical_operator_in_a_condition_is_refused() {
    let mut q = Query::new(Command::Select);
    q.add_column("*");
    q.add_table("casing");
    q.add_condition("name", Operator::And, text("a"));
    assert_eq!(q.render(), Err(ValidationError::OperatorFamily));
}

#[test]
fn comparison_between_conditions_is_refused() {
    let mut q = Query::new(Command::Select);
    q.add_column("*");
    q.add_table("casing");
    q.add_condition("a", Operator::Equals, Value::Integer(1));
    q.add_logical_operator(Operator::Equals);
    q.add_condition("b", Operator::Equals, Value::Integer(2));
    assert_eq!(q.render(), Err(ValidationError::OperatorFamily));
}

#[test]
fn conditions_without_connective_are_refused() {
    let mut q = Query::new(Command::Delete);
    q.add_table("casing");
    q.add_condition("a", Operator::Equals, Value::Integer(1));
    q.add_condition("b", Operator::Equals, Value::Integer(2));
    assert_eq!(q.render(), Err(ValidationError::LogicalOperatorCount));
}

#[test]
fn connective_without_conditions_is_refused() {
    let mut q = Query::new(Command::Delete);
    q.add_table("casing");
    q.add_logical_operator(Operator::And);
    assert_eq!(q.render(), Err(ValidationError::LogicalOperatorCount));
    q.add_condition("a", Operator::Equals, Value::Integer(1));
    assert_eq!(q.render(), Err(ValidationError::LogicalOperatorCount));
}

#[test]
fn bound_text_is_the_same_for_other_values() {
    let mut first = Query::new(Command::Update);
    first.add_table("casing");
    first.add_field("name");
    first.add_value(text("9mm"));
    first.add_condition("casing_id", Operator::Equals, Value::Integer(4));
    let mut second = Query::new(Command::Update);
    second.add_table("casing");
    second.add_field("name");
    second.add_value(text("x', name='y"));
    second.add_condition("casing_id", Operator::Equals, Value::Real(Decimal::new(45, 1)));
    let (first_text, first_values) = first.render_bound().unwrap();
    let (second_text, second_values) = second.render_bound().unwrap();
    assert_eq!(first_text, "UPDATE casing SET name=? WHERE casing_id=?");
    assert_eq!(first_text, second_text);
    assert_ne!(first_values, second_values);
    assert_ne!(first.render(), second.render());
}
