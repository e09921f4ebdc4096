//! The user entity, the request shapes and the response shape.

use vstd::prelude::*;
use crate::time::Timestamp;

verus! {

/// A user as it is persisted.
#[derive(Clone, Debug, PartialEq, Eq)]
pub struct User {
    pub id: i64,
    pub name: String,
    pub email: String,
    pub age: Option<i32>,
    pub created_at: Timestamp,
    pub updated_at: Timestamp,
}

/// What a caller supplies to create a user.
#[derive(Clone, Debug, PartialEq, Eq)]
pub struct CreateUserRequest {
    pub name: String,
    pub email: String,
    pub age: Option<i32>,
}

/// What a caller supplies to change a user: an absent field is left as it is.
#[derive(Clone, Debug, PartialEq, Eq)]
pub struct UpdateUserRequest {
    pub name: Option<String>,
    pub email: Option<String>,
    pub age: Option<i32>,
}

/// A user as it is handed back to the caller, the two instants as RFC 3339 text.
#[derive(Clone, Debug, PartialEq, Eq)]
pub struct UserResponse {
    pub id: i64,
    pub name: String,
    pub email: String,
    pub age: Option<i32>,
    pub created_at: String,
    pub updated_at: String,
}

/// One row of the `users` table: the mathematical value of a `UserResponse`.
pub struct UserRow {
    pub id: i64,
    pub name: Seq<char>,
    pub email: Seq<char>,
    pub age: Option<i32>,
    pub created_at: Seq<char>,
    pub updated_at: Seq<char>,
}

impl View for UserResponse {
    type V = UserRow;

    open spec fn view(&self) -> UserRow {
        UserRow {
            id: self.id,
            name: self.name@,
            email: self.email@,
            age: self.age,
            created_at: self.created_at@,
            updated_at: self.updated_at@,
        }
    }
}

/// The rows that a list of responses stands for.
pub open spec fn user_rows(users: Seq<UserResponse>) -> Seq<UserRow> {
    users.map_values(|user: UserResponse| user@)
}

/// The mathematical value of a `CreateUserRequest`.
pub struct CreateUserRequestView {
    pub name: Seq<char>,
    pub email: Seq<char>,
    pub age: Option<i32>,
}

impl View for CreateUserRequest {
    type V = CreateUserRequestView;

    open spec fn view(&self) -> CreateUserRequestView {
        CreateUserRequestView { name: self.name@, email: self.email@, age: self.age }
    }
}

/// The mathematical value of an `UpdateUserRequest`.
pub struct UpdateUserRequestView {
    pub name: Option<Seq<char>>,
    pub email: Option<Seq<char>>,
    pub age: Option<i32>,
}

/// The text that an optional string holds, if it holds one.
pub open spec fn text_of(field: Option<String>) -> Option<Seq<char>> {
    match field {
        Some(text) => Some(text@),
        None => None,
    }
}

impl View for UpdateUserRequest {
    type V = UpdateUserRequestView;

    open spec fn view(&self) -> UpdateUserRequestView {
        UpdateUserRequestView { name: text_of(self.name), email: text_of(self.email), age: self.age }
    }
}

/// One applied migration, as the engine's history table records it.
#[derive(Clone, Debug, PartialEq, Eq)]
pub struct MigrationRecord {
    pub version: i64,
    pub description: String,
    pub installed_on: String,
    pub success: bool,
}

/// The mathematical value of a `MigrationRecord`.
pub struct MigrationEntry {
    pub version: i64,
    pub description: Seq<char>,
    pub installed_on: Seq<char>,
    pub success: bool,
}

impl View for MigrationRecord {
    type V = MigrationEntry;

    open spec fn view(&self) -> MigrationEntry {
        MigrationEntry {
            version: self.version,
            description: self.description@,
            installed_on: self.installed_on@,
            success: self.success,
        }
    }
}

/// The entries that a list of records stands for.
pub open spec fn migration_entries(records: Seq<MigrationRecord>) -> Seq<MigrationEntry> {
    records.map_values(|record: MigrationRecord| record@)
}

impl User {
    /// The row that this user is stored as.
    pub open spec fn row(self) -> UserRow {
        UserRow {
            id: self.id,
            name: self.name@,
            email: self.email@,
            age: self.age,
            created_at: self.created_at.rfc3339(),
            updated_at: self.updated_at.rfc3339(),
        }
    }
}

impl vstd::std_specs::convert::FromSpecImpl<User> for UserResponse {
    open spec fn obeys_from_spec() -> bool {
        false
    }

    open spec fn from_spec(user: User) -> UserResponse {
        arbitrary()
    }
}

impl From<User> for UserResponse {
    /// Keeps every field and renders the two instants as RFC 3339 text.
    fn from(user: User) -> (response: UserResponse)
        ensures
            response@ == user.row(),
    {
        let created_at = user.created_at.to_rfc3339();
        let updated_at = user.updated_at.to_rfc3339();
        UserResponse {
            id: user.id,
            name: user.name,
            email: user.email,
            age: user.age,
            created_at,
            updated_at,
        }
    }
}

} // verus!
