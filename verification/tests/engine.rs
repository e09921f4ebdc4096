//! The service run against a real SQLite engine, held in memory.

use box_users::error::ServiceError;
use box_users::models::{CreateUserRequest, UpdateUserRequest, UserResponse};
use box_users::services::{Outcome, Reply, Step, UserService};
use box_users::sql::{Answer, SqlValue, Statement};
use box_users::time::Timestamp;
use sqlx::Row;

const SCHEMA: &str = "CREATE TABLE users (id INTEGER PRIMARY KEY AUTOINCREMENT, name TEXT NOT NULL, \
                      email TEXT NOT NULL, age INTEGER, created_at TEXT NOT NULL, updated_at TEXT NOT NULL)";

struct Engine {
    runtime: tokio::runtime::Runtime,
    pool: sqlx::SqlitePool,
}

fn engine() -> Engine {
    let runtime = tokio::runtime::Builder::new_current_thread().enable_all().build().unwrap();
    let pool = runtime.block_on(async {
        let pool = sqlx::sqlite::SqlitePoolOptions::new()
            .max_connections(1)
            .connect("sqlite::memory:")
            .await
            .unwrap();
        sqlx::query(SCHEMA).execute(&pool).await.unwrap();
        pool
    });
    Engine { runtime, pool }
}

async fn perform(pool: &sqlx::SqlitePool, statement: &Statement) -> Reply {
    let prepared = statement.prepare();
    let mut query = sqlx::query(&prepared.sql);
    for value in prepared.args {
        query = match value {
            SqlValue::Null => query.bind(Option::<i32>::None),
            SqlValue::Text(text) => query.bind(text),
            SqlValue::Int(number) => query.bind(number),
            SqlValue::Int64(number) => query.bind(number),
        };
    }
    if statement.answer() == Answer::Users {
        match query.fetch_all(pool).await {
            Ok(rows) => Reply::Users(
                rows.iter()
                    .map(|row| UserResponse {
                        id: row.get("id"),
                        name: row.get("name"),
                        email: row.get("email"),
                        age: row.get("age"),
                        created_at: row.get("created_at"),
                        updated_at: row.get("updated_at"),
                    })
                    .collect(),
            ),
            Err(error) => Reply::Failed(error.to_string()),
        }
    } else {
        match query.execute(pool).await {
            Ok(done) => Reply::Executed {
                rows_affected: done.rows_affected(),
                last_insert_rowid: done.last_insert_rowid(),
            },
            Err(error) => Reply::Failed(error.to_string()),
        }
    }
}

fn drive(engine: &Engine, first: Step) -> Result<Outcome, ServiceError> {
    let mut step = first;
    loop {
        match step {
            Step::Finished(result) => return result,
            Step::Query { statement, then } => {
                let reply = engine.runtime.block_on(perform(&engine.pool, &statement));
                step = UserService::resume(then, reply);
            }
        }
    }
}

fn at(secs: i64) -> Timestamp {
    Timestamp::from_unix(secs, 0).unwrap()
}

fn create(engine: &Engine, name: &str, email: &str, age: Option<i32>, secs: i64) -> UserResponse {
    let request = CreateUserRequest { name: name.to_string(), email: email.to_string(), age };
    match drive(engine, UserService::create_user_at(request, &at(secs))) {
        Ok(Outcome::User(user)) => user,
        other => panic!("create gave {:?}", other),
    }
}

fn read(engine: &Engine, id: i64) -> Result<Outcome, ServiceError> {
    drive(engine, UserService::get_user_by_id(id))
}

#[test]
fn create_then_read_round_trip() {
    let engine = engine();
    let user = create(&engine, "Ann", "a@x.com", Some(30), 1_700_000_000);
    assert_eq!(user.name, "Ann");
    assert_eq!(user.email, "a@x.com");
    assert_eq!(user.age, Some(30));
    assert_eq!(user.created_at, "2023-11-14T22:13:20+00:00");
    assert_eq!(user.created_at, user.updated_at);
    assert_eq!(read(&engine, user.id), Ok(Outcome::User(user)));
}

#[test]
fn create_without_age_stores_null() {
    let engine = engine();
    let user = create(&engine, "Bob", "b@x.com", None, 1_700_000_000);
    assert_eq!(user.age, None);
    assert_eq!(read(&engine, user.id), Ok(Outcome::User(user)));
}

#[test]
fn create_accepts_empty_name_and_email() {
    let engine = engine();
    let user = create(&engine, "", "", None, 1_700_000_000);
    assert_eq!(user.name, "");
    assert_eq!(user.email, "");
}

#[test]
fn update_changes_only_the_given_field() {
    let engine = engine();
    let user = create(&engine, "Ann", "a@x.com", Some(30), 1_700_000_000);
    let request = UpdateUserRequest { name: Some("Anna".to_string()), email: None, age: None };
    let updated = drive(&engine, UserService::update_user_at(user.id, request, &at(1_700_000_060)));
    let expected = UserResponse {
        id: user.id,
        name: "Anna".to_string(),
        email: "a@x.com".to_string(),
        age: Some(30),
        created_at: user.created_at.clone(),
        updated_at: "2023-11-14T22:14:20+00:00".to_string(),
    };
    assert_eq!(updated, Ok(Outcome::User(expected.clone())));
    assert_eq!(read(&engine, user.id), Ok(Outcome::User(expected)));
}

#[test]
fn update_of_every_field_keeps_values_with_their_columns() {
    let engine = engine();
    let user = create(&engine, "Ann", "a@x.com", None, 1_700_000_000);
    let request =
        UpdateUserRequest { name: Some("Zed".to_string()), email: Some("z@y.org".to_string()), age: Some(7) };
    let updated = drive(&engine, UserService::update_user_at(user.id, request, &at(1_700_000_001)));
    let expected = UserResponse {
        id: user.id,
        name: "Zed".to_string(),
        email: "z@y.org".to_string(),
        age: Some(7),
        created_at: user.created_at,
        updated_at: "2023-11-14T22:13:21+00:00".to_string(),
    };
    assert_eq!(updated, Ok(Outcome::User(expected)));
}

#[test]
fn update_of_email_and_age_skips_the_name() {
    let engine = engine();
    let user = create(&engine, "Ann", "a@x.com", Some(30), 1_700_000_000);
    let request = UpdateUserRequest { name: None, email: Some("ann@x.com".to_string()), age: Some(31) };
    match drive(&engine, UserService::update_user_at(user.id, request, &at(1_700_000_001))) {
        Ok(Outcome::User(updated)) => {
            assert_eq!(updated.name, "Ann");
            assert_eq!(updated.email, "ann@x.com");
            assert_eq!(updated.age, Some(31));
        }
        other => panic!("update gave {:?}", other),
    }
}

#[test]
fn update_without_fields_changes_nothing() {
    let engine = engine();
    let user = create(&engine, "Ann", "a@x.com", Some(30), 1_700_000_000);
    let request = UpdateUserRequest { name: None, email: None, age: None };
    let result = drive(&engine, UserService::update_user_at(user.id, request, &at(1_700_000_060)));
    assert_eq!(result, Err(ServiceError::Validation));
    match read(&engine, user.id) {
        Ok(Outcome::User(stored)) => assert_eq!(stored.updated_at, user.updated_at),
        other => panic!("read gave {:?}", other),
    }
}

#[test]
fn missing_user_is_not_found_and_no_row_appears() {
    let engine = engine();
    assert_eq!(read(&engine, 42), Err(ServiceError::NotFound));
    let request = UpdateUserRequest { name: Some("x".to_string()), email: None, age: None };
    assert_eq!(
        drive(&engine, UserService::update_user_at(42, request, &at(1_700_000_000))),
        Err(ServiceError::NotFound)
    );
    assert_eq!(drive(&engine, UserService::delete_user(42)), Err(ServiceError::NotFound));
    assert_eq!(drive(&engine, UserService::get_all_users()), Ok(Outcome::Users(vec![])));
}

#[test]
fn all_users_come_newest_first() {
    let engine = engine();
    let first = create(&engine, "one", "1@x.com", None, 1_700_000_001);
    let third = create(&engine, "three", "3@x.com", None, 1_700_000_003);
    let second = create(&engine, "two", "2@x.com", None, 1_700_000_002);
    assert_eq!(drive(&engine, UserService::get_all_users()), Ok(Outcome::Users(vec![third, second, first])));
}

#[test]
fn all_users_of_an_empty_table_is_empty() {
    let engine = engine();
    assert_eq!(drive(&engine, UserService::get_all_users()), Ok(Outcome::Users(vec![])));
}

#[test]
fn delete_removes_only_the_target() {
    let engine = engine();
    let ann = create(&engine, "Ann", "a@x.com", Some(30), 1_700_000_000);
    let bob = create(&engine, "Bob", "b@x.com", None, 1_700_000_001);
    assert_eq!(drive(&engine, UserService::delete_user(ann.id)), Ok(Outcome::Deleted));
    assert_eq!(read(&engine, ann.id), Err(ServiceError::NotFound));
    assert_eq!(read(&engine, bob.id), Ok(Outcome::User(bob)));
}

#[test]
fn end_to_end_scenario() {
    let engine = engine();
    let created = create(&engine, "Ann", "a@x.com", Some(30), 1_700_000_000);
    assert_eq!(created.id, 1);
    let request = UpdateUserRequest { name: None, email: None, age: Some(31) };
    match drive(&engine, UserService::update_user_at(1, request, &at(1_700_000_100))) {
        Ok(Outcome::User(updated)) => {
            assert_eq!(updated.name, "Ann");
            assert_eq!(updated.age, Some(31));
            assert!(updated.updated_at > updated.created_at);
            assert_eq!(updated.created_at, created.created_at);
        }
        other => panic!("update gave {:?}", other),
    }
    assert_eq!(drive(&engine, UserService::delete_user(1)), Ok(Outcome::Deleted));
    assert_eq!(read(&engine, 1), Err(ServiceError::NotFound));
}

#[test]
fn operations_stamped_by_the_clock_run_too() {
    let engine = engine();
    let request = CreateUserRequest { name: "Ann".to_string(), email: "a@x.com".to_string(), age: None };
    let created = match drive(&engine, UserService::create_user(request)) {
        Ok(Outcome::User(user)) => user,
        other => panic!("create gave {:?}", other),
    };
    assert_eq!(created.created_at, created.updated_at);
    let request = UpdateUserRequest { name: None, email: None, age: Some(5) };
    match drive(&engine, UserService::update_user(created.id, request)) {
        Ok(Outcome::User(updated)) => {
            assert_eq!(updated.age, Some(5));
            assert!(updated.updated_at >= updated.created_at);
        }
        other => panic!("update gave {:?}", other),
    }
}

#[test]
fn engine_failure_is_passed_through() {
    let engine = engine();
    engine.runtime.block_on(async { sqlx::query("DROP TABLE users").execute(&engine.pool).await.unwrap() });
    match read(&engine, 1) {
        Err(ServiceError::Engine(detail)) => assert!(detail.contains("no such table")),
        other => panic!("read gave {:?}", other),
    }
}
