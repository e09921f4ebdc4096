//! The five operations on users, each as a conversation with the engine: the
//! service names the statement to run, the host runs it and reports the reply,
//! and the service decides what follows.

use vstd::prelude::*;
use crate::error::{ServiceError, ServiceErrorView};
use crate::models::{
    CreateUserRequest, CreateUserRequestView, MigrationEntry, MigrationRecord, UpdateUserRequest,
    UpdateUserRequestView, UserResponse, UserRow, migration_entries, user_rows,
};
use crate::sql::{Assignment, AssignmentView, Column, SqlValue, SqlValueView, Statement, StatementView, assignment_views};
use crate::time::Timestamp;

verus! {

/// What the engine answered to a statement.
#[derive(Debug, PartialEq, Eq)]
pub enum Reply {
    /// The statement ran; it changed this many rows, and the last row that the
    /// connection inserted has this id.
    Executed { rows_affected: u64, last_insert_rowid: i64 },
    /// The user rows that a query returned, in the engine's order.
    Users(Vec<UserResponse>),
    /// The migration records that a query returned, in the engine's order.
    Migrations(Vec<MigrationRecord>),
    /// The statement failed; the engine's words.
    Failed(String),
    /// The statement was not run, because the pool could not be brought up;
    /// the message of that failure.
    Unavailable(String),
}

pub enum ReplyView {
    Executed { rows_affected: u64, last_insert_rowid: i64 },
    Users(Seq<UserRow>),
    Migrations(Seq<MigrationEntry>),
    Failed(Seq<char>),
    Unavailable(Seq<char>),
}

impl View for Reply {
    type V = ReplyView;

    open spec fn view(&self) -> ReplyView {
        match *self {
            Reply::Executed { rows_affected, last_insert_rowid } => ReplyView::Executed {
                rows_affected,
                last_insert_rowid,
            },
            Reply::Users(users) => ReplyView::Users(user_rows(users@)),
            Reply::Migrations(records) => ReplyView::Migrations(migration_entries(records@)),
            Reply::Failed(detail) => ReplyView::Failed(detail@),
            Reply::Unavailable(detail) => ReplyView::Unavailable(detail@),
        }
    }
}

/// Which reply an operation is waiting for.
#[derive(Clone, Copy, Debug, PartialEq, Eq)]
pub enum Pending {
    /// The INSERT of a create.
    Insert,
    /// The UPDATE of the user with this id.
    Update { id: i64 },
    /// The DELETE of a delete.
    Delete,
    /// The row of one user.
    FetchUser,
    /// The rows of all users.
    FetchUsers,
    /// The migration history.
    FetchMigrations,
}

/// What an operation hands back when it succeeds.
#[derive(Debug, PartialEq, Eq)]
pub enum Outcome {
    User(UserResponse),
    Users(Vec<UserResponse>),
    Deleted,
    Migrations(Vec<MigrationRecord>),
}

pub enum OutcomeView {
    User(UserRow),
    Users(Seq<UserRow>),
    Deleted,
    Migrations(Seq<MigrationEntry>),
}

impl View for Outcome {
    type V = OutcomeView;

    open spec fn view(&self) -> OutcomeView {
        match *self {
            Outcome::User(user) => OutcomeView::User(user@),
            Outcome::Users(users) => OutcomeView::Users(user_rows(users@)),
            Outcome::Deleted => OutcomeView::Deleted,
            Outcome::Migrations(records) => OutcomeView::Migrations(migration_entries(records@)),
        }
    }
}

/// Where an operation stands: it either asks for a statement to be run, or it
/// is over.
#[derive(Debug, PartialEq, Eq)]
pub enum Step {
    /// Run the statement and come back with the reply.
    Query { statement: Statement, then: Pending },
    /// The operation is over, with this result.
    Finished(Result<Outcome, ServiceError>),
}

pub enum StepView {
    Query { statement: StatementView, then: Pending },
    Finished(Result<OutcomeView, ServiceErrorView>),
}

impl View for Step {
    type V = StepView;

    open spec fn view(&self) -> StepView {
        match *self {
            Step::Query { statement, then } => StepView::Query { statement: statement@, then },
            Step::Finished(Ok(outcome)) => StepView::Finished(Ok(outcome@)),
            Step::Finished(Err(error)) => StepView::Finished(Err(error@)),
        }
    }
}

/// The assignments that an update request asks for: one for each field that is
/// present, in the order name, email, age.
pub open spec fn requested_assignments(request: UpdateUserRequestView) -> Seq<AssignmentView> {
    let name = match request.name {
        Some(text) => seq![AssignmentView { column: Column::Name, value: SqlValueView::Text(text) }],
        None => Seq::empty(),
    };
    let email = match request.email {
        Some(text) => seq![AssignmentView { column: Column::Email, value: SqlValueView::Text(text) }],
        None => Seq::empty(),
    };
    let age = match request.age {
        Some(years) => seq![AssignmentView { column: Column::Age, value: SqlValueView::Int(years) }],
        None => Seq::empty(),
    };
    name + email + age
}

/// The first step of a create at the instant with the text `now`: the INSERT,
/// stamped twice with `now`.
pub open spec fn create_step(request: CreateUserRequestView, now: Seq<char>) -> StepView {
    StepView::Query {
        statement: StatementView::InsertUser {
            name: request.name,
            email: request.email,
            age: request.age,
            created_at: now,
            updated_at: now,
        },
        then: Pending::Insert,
    }
}

/// The first step of a read of one user.
pub open spec fn read_step(id: i64) -> StepView {
    StepView::Query { statement: StatementView::SelectUser { id }, then: Pending::FetchUser }
}

/// The first step of a read of all users.
pub open spec fn list_step() -> StepView {
    StepView::Query { statement: StatementView::SelectUsers, then: Pending::FetchUsers }
}

/// The first step of an update at the instant with the text `now`: without a
/// field to assign the operation is over at once, and nothing is sent.
pub open spec fn update_step(id: i64, request: UpdateUserRequestView, now: Seq<char>) -> StepView {
    if requested_assignments(request).len() == 0 {
        StepView::Finished(Err(ServiceErrorView::Validation))
    } else {
        StepView::Query {
            statement: StatementView::UpdateUser {
                id,
                assignments: requested_assignments(request),
                updated_at: now,
            },
            then: Pending::Update { id },
        }
    }
}

/// The first step of a delete.
pub open spec fn delete_step(id: i64) -> StepView {
    StepView::Query { statement: StatementView::DeleteUser { id }, then: Pending::Delete }
}

/// The first step of a read of the migration history.
pub open spec fn migrations_step() -> StepView {
    StepView::Query { statement: StatementView::SelectMigrations, then: Pending::FetchMigrations }
}

/// The end of an operation that got a reply of a kind that it was not waiting
/// for.
pub open spec fn unexpected_reply() -> StepView {
    StepView::Finished(Err(ServiceErrorView::Engine("unexpected reply from the engine"@)))
}

/// What follows a reply.
pub open spec fn resume_step(then: Pending, reply: ReplyView) -> StepView {
    match reply {
        ReplyView::Failed(detail) => StepView::Finished(Err(ServiceErrorView::Engine(detail))),
        ReplyView::Unavailable(detail) => StepView::Finished(Err(ServiceErrorView::Configuration(detail))),
        ReplyView::Executed { rows_affected, last_insert_rowid } => match then {
            Pending::Insert => read_step(last_insert_rowid),
            Pending::Update { id } => if rows_affected == 0 {
                StepView::Finished(Err(ServiceErrorView::NotFound))
            } else {
                read_step(id)
            },
            Pending::Delete => if rows_affected == 0 {
                StepView::Finished(Err(ServiceErrorView::NotFound))
            } else {
                StepView::Finished(Ok(OutcomeView::Deleted))
            },
            _ => unexpected_reply(),
        },
        ReplyView::Users(rows) => match then {
            Pending::FetchUser => if rows.len() == 0 {
                StepView::Finished(Err(ServiceErrorView::NotFound))
            } else {
                StepView::Finished(Ok(OutcomeView::User(rows[0])))
            },
            Pending::FetchUsers => StepView::Finished(Ok(OutcomeView::Users(rows))),
            _ => unexpected_reply(),
        },
        ReplyView::Migrations(entries) => match then {
            Pending::FetchMigrations => StepView::Finished(Ok(OutcomeView::Migrations(entries))),
            _ => unexpected_reply(),
        },
    }
}

impl UpdateUserRequest {
    /// The assignments that the request asks for: one for each field that is
    /// present, in the order name, email, age.
    pub fn assignments(&self) -> (assignments: Vec<Assignment>)
        ensures
            assignment_views(assignments@) == requested_assignments(self@),
    {
        let mut assignments: Vec<Assignment> = Vec::new();
        assert(assignment_views(assignments@) =~= Seq::<AssignmentView>::empty());
        if let Some(name) = &self.name {
            let ghost earlier = assignments@;
            assignments.push(Assignment { column: Column::Name, value: SqlValue::Text(name.clone()) });
            assert(assignment_views(assignments@) =~= assignment_views(earlier).push(
                AssignmentView { column: Column::Name, value: SqlValueView::Text(name@) },
            ));
        }
        if let Some(email) = &self.email {
            let ghost earlier = assignments@;
            assignments.push(Assignment { column: Column::Email, value: SqlValue::Text(email.clone()) });
            assert(assignment_views(assignments@) =~= assignment_views(earlier).push(
                AssignmentView { column: Column::Email, value: SqlValueView::Text(email@) },
            ));
        }
        if let Some(years) = self.age {
            let ghost earlier = assignments@;
            assignments.push(Assignment { column: Column::Age, value: SqlValue::Int(years) });
            assert(assignment_views(assignments@) =~= assignment_views(earlier).push(
                AssignmentView { column: Column::Age, value: SqlValueView::Int(years) },
            ));
        }
        assert(assignment_views(assignments@) =~= requested_assignments(self@));
        assignments
    }
}

fn unexpected() -> (step: Step)
    ensures
        step@ == unexpected_reply(),
{
    Step::Finished(Err(ServiceError::Engine("unexpected reply from the engine".to_owned())))
}

fn read(id: i64) -> (step: Step)
    ensures
        step@ == read_step(id),
{
    Step::Query { statement: Statement::SelectUser { id }, then: Pending::FetchUser }
}

/// The operations on users.
pub struct UserService;

impl UserService {
    /// Begins a create, stamped with the current instant.
    pub fn create_user(request: CreateUserRequest) -> (step: Step)
        ensures
            exists|now: Timestamp| step@ == create_step(request@, now.rfc3339()),
    {
        let now = Timestamp::now();
        let step = UserService::create_user_at(request, &now);
        assert(step@ == create_step(request@, now.rfc3339()));
        step
    }

    /// Begins a create, stamped with `now`.
    pub fn create_user_at(request: CreateUserRequest, now: &Timestamp) -> (step: Step)
        ensures
            step@ == create_step(request@, now.rfc3339()),
    {
        let created_at = now.to_rfc3339();
        let updated_at = now.to_rfc3339();
        Step::Query {
            statement: Statement::InsertUser {
                name: request.name,
                email: request.email,
                age: request.age,
                created_at,
                updated_at,
            },
            then: Pending::Insert,
        }
    }

    /// Begins a read of the user with this id.
    pub fn get_user_by_id(id: i64) -> (step: Step)
        ensures
            step@ == read_step(id),
    {
        read(id)
    }

    /// Begins a read of all users, the newest first.
    pub fn get_all_users() -> (step: Step)
        ensures
            step@ == list_step(),
    {
        Step::Query { statement: Statement::SelectUsers, then: Pending::FetchUsers }
    }

    /// Begins an update, stamped with the current instant.
    pub fn update_user(id: i64, request: UpdateUserRequest) -> (step: Step)
        ensures
            exists|now: Timestamp| step@ == update_step(id, request@, now.rfc3339()),
    {
        let now = Timestamp::now();
        let step = UserService::update_user_at(id, request, &now);
        assert(step@ == update_step(id, request@, now.rfc3339()));
        step
    }

    /// Begins an update, stamped with `now`. A request without a field fails at
    /// once; nothing is sent to the engine.
    pub fn update_user_at(id: i64, request: UpdateUserRequest, now: &Timestamp) -> (step: Step)
        ensures
            step@ == update_step(id, request@, now.rfc3339()),
    {
        let assignments = request.assignments();
        if assignments.len() == 0 {
            Step::Finished(Err(ServiceError::Validation))
        } else {
            Step::Query {
                statement: Statement::UpdateUser { id, assignments, updated_at: now.to_rfc3339() },
                then: Pending::Update { id },
            }
        }
    }

    /// Begins a delete of the user with this id.
    pub fn delete_user(id: i64) -> (step: Step)
        ensures
            step@ == delete_step(id),
    {
        Step::Query { statement: Statement::DeleteUser { id }, then: Pending::Delete }
    }

    /// Decides what follows the engine's reply.
    pub fn resume(then: Pending, reply: Reply) -> (step: Step)
        ensures
            step@ == resume_step(then, reply@),
    {
        match reply {
            Reply::Failed(detail) => Step::Finished(Err(ServiceError::Engine(detail))),
            Reply::Unavailable(detail) => Step::Finished(Err(ServiceError::Configuration(detail))),
            Reply::Executed { rows_affected, last_insert_rowid } => match then {
                Pending::Insert => read(last_insert_rowid),
                Pending::Update { id } => if rows_affected == 0 {
                    Step::Finished(Err(ServiceError::NotFound))
                } else {
                    read(id)
                },
                Pending::Delete => if rows_affected == 0 {
                    Step::Finished(Err(ServiceError::NotFound))
                } else {
                    Step::Finished(Ok(Outcome::Deleted))
                },
                _ => unexpected(),
            },
            Reply::Users(users) => match then {
                Pending::FetchUser => {
                    let mut users = users;
                    if users.len() == 0 {
                        Step::Finished(Err(ServiceError::NotFound))
                    } else {
                        let first = users.swap_remove(0);
                        Step::Finished(Ok(Outcome::User(first)))
                    }
                },
                Pending::FetchUsers => Step::Finished(Ok(Outcome::Users(users))),
                _ => unexpected(),
            },
            Reply::Migrations(records) => match then {
                Pending::FetchMigrations => Step::Finished(Ok(Outcome::Migrations(records))),
                _ => unexpected(),
            },
        }
    }
}

/// Begins a read of the migration history, the oldest version first.
pub fn get_migration_status() -> (step: Step)
    ensures
        step@ == migrations_step(),
{
    Step::Query { statement: Statement::SelectMigrations, then: Pending::FetchMigrations }
}

} // verus!
