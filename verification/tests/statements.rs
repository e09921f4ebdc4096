//! The SQL text and the arguments of each statement.

use box_users::models::UpdateUserRequest;
use box_users::sql::{Answer, Assignment, Column, Prepared, SqlValue, Statement};

fn text(value: &str) -> SqlValue {
    SqlValue::Text(value.to_string())
}

fn update(request: &UpdateUserRequest, id: i64, now: &str) -> Prepared {
    Statement::UpdateUser { id, assignments: request.assignments(), updated_at: now.to_string() }.prepare()
}

#[test]
fn insert_binds_five_values_in_column_order() {
    let statement = Statement::InsertUser {
        name: "Ann".to_string(),
        email: "a@x.com".to_string(),
        age: Some(30),
        created_at: "t0".to_string(),
        updated_at: "t1".to_string(),
    };
    let prepared = statement.prepare();
    assert_eq!(
        prepared.sql,
        "INSERT INTO users (name, email, age, created_at, updated_at) VALUES (?1, ?2, ?3, ?4, ?5)"
    );
    assert_eq!(prepared.args, vec![text("Ann"), text("a@x.com"), SqlValue::Int(30), text("t0"), text("t1")]);
    assert_eq!(statement.answer(), Answer::Count);
}

#[test]
fn insert_without_age_binds_null() {
    let statement = Statement::InsertUser {
        name: "Ann".to_string(),
        email: "a@x.com".to_string(),
        age: None,
        created_at: "t".to_string(),
        updated_at: "t".to_string(),
    };
    assert_eq!(statement.prepare().args[2], SqlValue::Null);
}

#[test]
fn select_one_binds_the_id() {
    let statement = Statement::SelectUser { id: 7 };
    let prepared = statement.prepare();
    assert_eq!(prepared.sql, "SELECT id, name, email, age, created_at, updated_at FROM users WHERE id = ?1");
    assert_eq!(prepared.args, vec![SqlValue::Int64(7)]);
    assert_eq!(statement.answer(), Answer::Users);
}

#[test]
fn select_all_orders_by_creation_descending() {
    let statement = Statement::SelectUsers;
    let prepared = statement.prepare();
    assert_eq!(
        prepared.sql,
        "SELECT id, name, email, age, created_at, updated_at FROM users ORDER BY created_at DESC"
    );
    assert_eq!(prepared.args, vec![]);
    assert_eq!(statement.answer(), Answer::Users);
}

#[test]
fn delete_binds_the_id() {
    let statement = Statement::DeleteUser { id: -3 };
    let prepared = statement.prepare();
    assert_eq!(prepared.sql, "DELETE FROM users WHERE id = ?1");
    assert_eq!(prepared.args, vec![SqlValue::Int64(-3)]);
    assert_eq!(statement.answer(), Answer::Count);
}

#[test]
fn migration_history_orders_by_version() {
    let statement = Statement::SelectMigrations;
    let prepared = statement.prepare();
    assert_eq!(
        prepared.sql,
        "SELECT version, description, installed_on, success FROM _sqlx_migrations ORDER BY version"
    );
    assert_eq!(prepared.args, vec![]);
    assert_eq!(statement.answer(), Answer::Migrations);
}

#[test]
fn update_is_answered_with_a_count() {
    let statement = Statement::UpdateUser { id: 1, assignments: vec![], updated_at: "now".to_string() };
    assert_eq!(statement.answer(), Answer::Count);
}

#[test]
fn update_of_all_fields() {
    let request =
        UpdateUserRequest { name: Some("Ann".to_string()), email: Some("a@x.com".to_string()), age: Some(31) };
    let prepared = update(&request, 9, "now");
    assert_eq!(prepared.sql, "UPDATE users SET name = ?, email = ?, age = ?, updated_at = ? WHERE id = ?");
    assert_eq!(
        prepared.args,
        vec![text("Ann"), text("a@x.com"), SqlValue::Int(31), text("now"), SqlValue::Int64(9)]
    );
}

#[test]
fn update_of_name_only() {
    let request = UpdateUserRequest { name: Some("Ann".to_string()), email: None, age: None };
    let prepared = update(&request, 1, "now");
    assert_eq!(prepared.sql, "UPDATE users SET name = ?, updated_at = ? WHERE id = ?");
    assert_eq!(prepared.args, vec![text("Ann"), text("now"), SqlValue::Int64(1)]);
}

#[test]
fn update_of_email_only() {
    let request = UpdateUserRequest { name: None, email: Some("e".to_string()), age: None };
    let prepared = update(&request, 1, "now");
    assert_eq!(prepared.sql, "UPDATE users SET email = ?, updated_at = ? WHERE id = ?");
    assert_eq!(prepared.args, vec![text("e"), text("now"), SqlValue::Int64(1)]);
}

#[test]
fn update_of_age_only() {
    let request = UpdateUserRequest { name: None, email: None, age: Some(0) };
    let prepared = update(&request, 1, "now");
    assert_eq!(prepared.sql, "UPDATE users SET age = ?, updated_at = ? WHERE id = ?");
    assert_eq!(prepared.args, vec![SqlValue::Int(0), text("now"), SqlValue::Int64(1)]);
}

#[test]
fn update_of_name_and_age_skips_email() {
    let request = UpdateUserRequest { name: Some("n".to_string()), email: None, age: Some(-1) };
    let prepared = update(&request, i64::MAX, "now");
    assert_eq!(prepared.sql, "UPDATE users SET name = ?, age = ?, updated_at = ? WHERE id = ?");
    assert_eq!(prepared.args, vec![text("n"), SqlValue::Int(-1), text("now"), SqlValue::Int64(i64::MAX)]);
}

#[test]
fn update_without_assignments_has_no_dangling_comma() {
    let prepared = Statement::UpdateUser { id: 2, assignments: vec![], updated_at: "now".to_string() }.prepare();
    assert_eq!(prepared.sql, "UPDATE users SET updated_at = ? WHERE id = ?");
    assert_eq!(prepared.args, vec![text("now"), SqlValue::Int64(2)]);
}

#[test]
fn update_keeps_the_order_of_its_assignments() {
    let assignments = vec![
        Assignment { column: Column::Age, value: SqlValue::Null },
        Assignment { column: Column::Name, value: text("n") },
    ];
    let prepared = Statement::UpdateUser { id: 2, assignments, updated_at: "now".to_string() }.prepare();
    assert_eq!(prepared.sql, "UPDATE users SET age = ?, name = ?, updated_at = ? WHERE id = ?");
    assert_eq!(prepared.args, vec![SqlValue::Null, text("n"), text("now"), SqlValue::Int64(2)]);
}

#[test]
fn placeholders_match_arguments() {
    let request = UpdateUserRequest { name: Some("a?b".to_string()), email: Some("?".to_string()), age: None };
    let prepared = update(&request, 1, "?");
    assert_eq!(prepared.sql.matches('?').count(), prepared.args.len());
}

#[test]
fn column_names() {
    assert_eq!(Column::Name.name(), "name");
    assert_eq!(Column::Email.name(), "email");
    assert_eq!(Column::Age.name(), "age");
}

#[test]
fn request_assignments_follow_the_field_order() {
    let request = UpdateUserRequest { name: Some("n".to_string()), email: Some("e".to_string()), age: Some(3) };
    assert_eq!(
        request.assignments(),
        vec![
            Assignment { column: Column::Name, value: text("n") },
            Assignment { column: Column::Email, value: text("e") },
            Assignment { column: Column::Age, value: SqlValue::Int(3) },
        ]
    );
    let empty = UpdateUserRequest { name: None, email: None, age: None };
    assert_eq!(empty.assignments(), vec![]);
}

#[test]
fn values_and_assignments_clone_as_they_are() {
    let value = text("copy");
    assert_eq!(value.clone(), value);
    assert_eq!(SqlValue::Null.clone(), SqlValue::Null);
    assert_eq!(SqlValue::Int(4).clone(), SqlValue::Int(4));
    assert_eq!(SqlValue::Int64(-4).clone(), SqlValue::Int64(-4));
    let assignment = Assignment { column: Column::Email, value: text("e") };
    assert_eq!(assignment.clone(), assignment);
}
