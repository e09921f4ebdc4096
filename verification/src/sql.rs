//! The statements that the service sends to the engine: what each one is, and
//! the SQL text and the bound arguments that it is sent as.

use vstd::prelude::*;

verus! {

/// A value bound to a placeholder.
#[derive(Debug, PartialEq, Eq)]
pub enum SqlValue {
    Null,
    Text(String),
    Int(i32),
    Int64(i64),
}

pub enum SqlValueView {
    Null,
    Text(Seq<char>),
    Int(i32),
    Int64(i64),
}

impl View for SqlValue {
    type V = SqlValueView;

    open spec fn view(&self) -> SqlValueView {
        match *self {
            SqlValue::Null => SqlValueView::Null,
            SqlValue::Text(text) => SqlValueView::Text(text@),
            SqlValue::Int(number) => SqlValueView::Int(number),
            SqlValue::Int64(number) => SqlValueView::Int64(number),
        }
    }
}

impl Clone for SqlValue {
    fn clone(&self) -> (copy: SqlValue)
        ensures
            copy@ == self@,
    {
        match self {
            SqlValue::Null => SqlValue::Null,
            SqlValue::Text(text) => SqlValue::Text(text.clone()),
            SqlValue::Int(number) => SqlValue::Int(*number),
            SqlValue::Int64(number) => SqlValue::Int64(*number),
        }
    }
}

/// The values of a list of bound arguments.
pub open spec fn value_views(values: Seq<SqlValue>) -> Seq<SqlValueView> {
    values.map_values(|value: SqlValue| value@)
}

/// A column of `users` that a caller may assign.
#[derive(Clone, Copy, Debug, PartialEq, Eq)]
pub enum Column {
    Name,
    Email,
    Age,
}

impl Column {
    /// The column's name in the table.
    pub open spec fn sql_name(self) -> Seq<char> {
        match self {
            Column::Name => "name"@,
            Column::Email => "email"@,
            Column::Age => "age"@,
        }
    }

    /// The column's name in the table.
    pub fn name(&self) -> (name: &'static str)
        ensures
            name@ == self.sql_name(),
    {
        match self {
            Column::Name => "name",
            Column::Email => "email",
            Column::Age => "age",
        }
    }
}

/// One `column = value` of an UPDATE.
#[derive(Debug, PartialEq, Eq)]
pub struct Assignment {
    pub column: Column,
    pub value: SqlValue,
}

pub struct AssignmentView {
    pub column: Column,
    pub value: SqlValueView,
}

impl View for Assignment {
    type V = AssignmentView;

    open spec fn view(&self) -> AssignmentView {
        AssignmentView { column: self.column, value: self.value@ }
    }
}

impl Clone for Assignment {
    fn clone(&self) -> (copy: Assignment)
        ensures
            copy@ == self@,
    {
        Assignment { column: self.column, value: self.value.clone() }
    }
}

/// The values of a list of assignments.
pub open spec fn assignment_views(assignments: Seq<Assignment>) -> Seq<AssignmentView> {
    assignments.map_values(|assignment: Assignment| assignment@)
}

/// What the engine answers a statement with.
#[derive(Clone, Copy, Debug, PartialEq, Eq)]
pub enum Answer {
    /// The count of the rows that it changed, and the id of the last row that
    /// it inserted.
    Count,
    /// Rows of `users`.
    Users,
    /// Rows of the migration history.
    Migrations,
}

/// A statement of the service, by what it asks of the engine.
#[derive(Debug, PartialEq, Eq)]
pub enum Statement {
    /// Add a row; the engine assigns its id.
    InsertUser { name: String, email: String, age: Option<i32>, created_at: String, updated_at: String },
    /// Read the row with this id.
    SelectUser { id: i64 },
    /// Read every row, the newest first.
    SelectUsers,
    /// Assign to the row with this id, and stamp it.
    UpdateUser { id: i64, assignments: Vec<Assignment>, updated_at: String },
    /// Remove the row with this id.
    DeleteUser { id: i64 },
    /// Read the history of applied migrations, the oldest version first.
    SelectMigrations,
}

pub enum StatementView {
    InsertUser { name: Seq<char>, email: Seq<char>, age: Option<i32>, created_at: Seq<char>, updated_at: Seq<char> },
    SelectUser { id: i64 },
    SelectUsers,
    UpdateUser { id: i64, assignments: Seq<AssignmentView>, updated_at: Seq<char> },
    DeleteUser { id: i64 },
    SelectMigrations,
}

impl View for Statement {
    type V = StatementView;

    open spec fn view(&self) -> StatementView {
        match *self {
            Statement::InsertUser { name, email, age, created_at, updated_at } => StatementView::InsertUser {
                name: name@,
                email: email@,
                age,
                created_at: created_at@,
                updated_at: updated_at@,
            },
            Statement::SelectUser { id } => StatementView::SelectUser { id },
            Statement::SelectUsers => StatementView::SelectUsers,
            Statement::UpdateUser { id, assignments, updated_at } => StatementView::UpdateUser {
                id,
                assignments: assignment_views(assignments@),
                updated_at: updated_at@,
            },
            Statement::DeleteUser { id } => StatementView::DeleteUser { id },
            Statement::SelectMigrations => StatementView::SelectMigrations,
        }
    }
}

/// The argument that stands for an optional age: the number, or NULL.
pub open spec fn age_value(age: Option<i32>) -> SqlValueView {
    match age {
        Some(years) => SqlValueView::Int(years),
        None => SqlValueView::Null,
    }
}

/// The placeholder that the engine's driver writes for a bound argument.
pub open spec fn placeholder() -> Seq<char> {
    "?"@
}

/// `column = ?`, the clause that assigns a bound argument to a column.
pub open spec fn set_clause(column_name: Seq<char>) -> Seq<char> {
    column_name + " = "@ + placeholder()
}

/// The clauses, each but the first preceded by a comma and a space.
pub open spec fn comma_joined(clauses: Seq<Seq<char>>) -> Seq<char>
    decreases clauses.len(),
{
    if clauses.len() == 0 {
        Seq::empty()
    } else if clauses.len() == 1 {
        clauses[0]
    } else {
        comma_joined(clauses.drop_last()) + ", "@ + clauses.last()
    }
}

/// The clauses of the given assignments, in their order.
pub open spec fn assignment_clauses(assignments: Seq<AssignmentView>) -> Seq<Seq<char>> {
    assignments.map_values(|assignment: AssignmentView| set_clause(assignment.column.sql_name()))
}

/// The values of the given assignments, in their order.
pub open spec fn assignment_values(assignments: Seq<AssignmentView>) -> Seq<SqlValueView> {
    assignments.map_values(|assignment: AssignmentView| assignment.value)
}

/// The text of an UPDATE with these assignments: one clause for each of them,
/// the stamp last, and the row picked by its id.
pub open spec fn update_sql(assignments: Seq<AssignmentView>) -> Seq<char> {
    "UPDATE users SET "@ + comma_joined(assignment_clauses(assignments).push(set_clause("updated_at"@)))
        + " WHERE id = "@ + placeholder()
}

/// The arguments of an UPDATE, one for each placeholder of `update_sql` and in
/// the same order: the assigned values, the stamp, the id.
pub open spec fn update_args(id: i64, assignments: Seq<AssignmentView>, updated_at: Seq<char>) -> Seq<
    SqlValueView,
> {
    assignment_values(assignments).push(SqlValueView::Text(updated_at)).push(SqlValueView::Int64(id))
}

impl StatementView {
    /// The SQL text of the statement.
    pub open spec fn sql(self) -> Seq<char> {
        match self {
            StatementView::InsertUser { .. } =>
                "INSERT INTO users (name, email, age, created_at, updated_at) VALUES (?1, ?2, ?3, ?4, ?5)"@,
            StatementView::SelectUser { .. } =>
                "SELECT id, name, email, age, created_at, updated_at FROM users WHERE id = ?1"@,
            StatementView::SelectUsers =>
                "SELECT id, name, email, age, created_at, updated_at FROM users ORDER BY created_at DESC"@,
            StatementView::UpdateUser { assignments, .. } => update_sql(assignments),
            StatementView::DeleteUser { .. } => "DELETE FROM users WHERE id = ?1"@,
            StatementView::SelectMigrations =>
                "SELECT version, description, installed_on, success FROM _sqlx_migrations ORDER BY version"@,
        }
    }

    /// The arguments bound to the placeholders of `sql`, in their order.
    pub open spec fn args(self) -> Seq<SqlValueView> {
        match self {
            StatementView::InsertUser { name, email, age, created_at, updated_at } => seq![
                SqlValueView::Text(name),
                SqlValueView::Text(email),
                age_value(age),
                SqlValueView::Text(created_at),
                SqlValueView::Text(updated_at),
            ],
            StatementView::SelectUser { id } => seq![SqlValueView::Int64(id)],
            StatementView::SelectUsers => Seq::empty(),
            StatementView::UpdateUser { id, assignments, updated_at } => update_args(id, assignments, updated_at),
            StatementView::DeleteUser { id } => seq![SqlValueView::Int64(id)],
            StatementView::SelectMigrations => Seq::empty(),
        }
    }

    /// What the engine answers the statement with.
    pub open spec fn answer(self) -> Answer {
        match self {
            StatementView::SelectUser { .. } => Answer::Users,
            StatementView::SelectUsers => Answer::Users,
            StatementView::SelectMigrations => Answer::Migrations,
            _ => Answer::Count,
        }
    }
}

/// A statement as it goes to the engine.
#[derive(Debug, PartialEq, Eq)]
pub struct Prepared {
    pub sql: String,
    pub args: Vec<SqlValue>,
}

pub struct PreparedView {
    pub sql: Seq<char>,
    pub args: Seq<SqlValueView>,
}

impl View for Prepared {
    type V = PreparedView;

    open spec fn view(&self) -> PreparedView {
        PreparedView { sql: self.sql@, args: value_views(self.args@) }
    }
}

/// A `sqlx::QueryBuilder` for SQLite: SQL text under construction and the
/// arguments bound so far.
#[verifier::external_body]
pub struct SqlBuilder {
    inner: sqlx::QueryBuilder<'static, sqlx::Sqlite>,
}

/// The SQL text that the builder holds.
pub uninterp spec fn builder_sql(builder: SqlBuilder) -> Seq<char>;

/// The arguments that the builder holds, in the order in which they were bound.
pub uninterp spec fn builder_args(builder: SqlBuilder) -> Seq<SqlValueView>;

/// `sqlx::QueryBuilder::new`: the builder starts with the given text and no
/// argument.
#[verifier::external_body]
fn builder_new(init: &str) -> (builder: SqlBuilder)
    ensures
        builder_sql(builder) == init@,
        builder_args(builder) == Seq::<SqlValueView>::empty(),
{
    SqlBuilder { inner: sqlx::QueryBuilder::new(init) }
}

/// `sqlx::QueryBuilder::push`: the fragment is appended to the text as it is,
/// and the arguments stay.
#[verifier::external_body]
fn builder_push(builder: &mut SqlBuilder, fragment: &str)
    ensures
        builder_sql(*final(builder)) == builder_sql(*old(builder)) + fragment@,
        builder_args(*final(builder)) == builder_args(*old(builder)),
{
    builder.inner.push(fragment);
}

/// `sqlx::QueryBuilder::push_bind` with a `String`: the text becomes the last
/// argument, and the placeholder that the SQLite driver writes, a question
/// mark, is appended to the SQL.
#[verifier::external_body]
fn builder_push_bind_text(builder: &mut SqlBuilder, text: String)
    ensures
        builder_sql(*final(builder)) == builder_sql(*old(builder)) + placeholder(),
        builder_args(*final(builder)) == builder_args(*old(builder)).push(SqlValueView::Text(text@)),
{
    builder.inner.push_bind(text);
}

/// `sqlx::QueryBuilder::push_bind` with an `i32`: the number becomes the last
/// argument, and a question mark is appended to the SQL.
#[verifier::external_body]
fn builder_push_bind_int(builder: &mut SqlBuilder, number: i32)
    ensures
        builder_sql(*final(builder)) == builder_sql(*old(builder)) + placeholder(),
        builder_args(*final(builder)) == builder_args(*old(builder)).push(SqlValueView::Int(number)),
{
    builder.inner.push_bind(number);
}

/// `sqlx::QueryBuilder::push_bind` with an `i64`: the number becomes the last
/// argument, and a question mark is appended to the SQL.
#[verifier::external_body]
fn builder_push_bind_int64(builder: &mut SqlBuilder, number: i64)
    ensures
        builder_sql(*final(builder)) == builder_sql(*old(builder)) + placeholder(),
        builder_args(*final(builder)) == builder_args(*old(builder)).push(SqlValueView::Int64(number)),
{
    builder.inner.push_bind(number);
}

/// `sqlx::QueryBuilder::push_bind` with an absent `Option<i32>`: NULL becomes
/// the last argument, and a question mark is appended to the SQL.
#[verifier::external_body]
fn builder_push_bind_null(builder: &mut SqlBuilder)
    ensures
        builder_sql(*final(builder)) == builder_sql(*old(builder)) + placeholder(),
        builder_args(*final(builder)) == builder_args(*old(builder)).push(SqlValueView::Null),
{
    builder.inner.push_bind(Option::<i32>::None);
}

/// Binds the value as the builder's last argument, behind a placeholder of
/// its own.
fn builder_push_bind(builder: &mut SqlBuilder, value: SqlValue)
    ensures
        builder_sql(*final(builder)) == builder_sql(*old(builder)) + placeholder(),
        builder_args(*final(builder)) == builder_args(*old(builder)).push(value@),
{
    match value {
        SqlValue::Null => builder_push_bind_null(builder),
        SqlValue::Text(text) => builder_push_bind_text(builder, text),
        SqlValue::Int(number) => builder_push_bind_int(builder, number),
        SqlValue::Int64(number) => builder_push_bind_int64(builder, number),
    }
}

/// `sqlx::QueryBuilder::sql`: a copy of the text that the builder holds.
#[verifier::external_body]
fn builder_text(builder: &SqlBuilder) -> (text: String)
    ensures
        text@ == builder_sql(*builder),
{
    builder.inner.sql().to_owned()
}

proof fn lemma_joined_push(clauses: Seq<Seq<char>>, clause: Seq<char>)
    ensures
        comma_joined(clauses.push(clause)) == if clauses.len() == 0 {
            clause
        } else {
            comma_joined(clauses) + ", "@ + clause
        },
{
    assert(clauses.push(clause).drop_last() =~= clauses);
}

/// Renders an UPDATE: the clauses and their arguments are pushed pair by pair,
/// so that each value stays with its placeholder.
fn prepare_update(id: i64, assignments: &Vec<Assignment>, updated_at: &String) -> (prepared: Prepared)
    ensures
        prepared@.sql == update_sql(assignment_views(assignments@)),
        prepared@.args == update_args(id, assignment_views(assignments@), updated_at@),
{
    let ghost all = assignment_views(assignments@);
    let mut builder = builder_new("UPDATE users SET ");
    let mut args: Vec<SqlValue> = Vec::new();
    let mut done: usize = 0;
    while done < assignments.len()
        invariant
            done <= assignments.len(),
            all == assignment_views(assignments@),
            builder_sql(builder) == "UPDATE users SET "@ + comma_joined(
                assignment_clauses(all.take(done as int)),
            ),
            builder_args(builder) == assignment_values(all.take(done as int)),
            value_views(args@) == assignment_values(all.take(done as int)),
        decreases assignments.len() - done,
    {
        let assignment = &assignments[done];
        let ghost before = all.take(done as int);
        let ghost head = "UPDATE users SET "@ + comma_joined(assignment_clauses(before));
        proof {
            assert(all.take(done + 1) =~= before.push(assignment@));
            assert(assignment_clauses(before.push(assignment@)) =~= assignment_clauses(before).push(
                set_clause(assignment.column.sql_name()),
            ));
            assert(assignment_values(before.push(assignment@)) =~= assignment_values(before).push(
                assignment.value@,
            ));
            lemma_joined_push(assignment_clauses(before), set_clause(assignment.column.sql_name()));
        }
        if done > 0 {
            builder_push(&mut builder, ", ");
        }
        builder_push(&mut builder, assignment.column.name());
        builder_push(&mut builder, " = ");
        builder_push_bind(&mut builder, assignment.value.clone());
        let ghost earlier = args@;
        args.push(assignment.value.clone());
        proof {
            assert(value_views(earlier.push(args@.last())) =~= value_views(earlier).push(assignment.value@));
            assert(args@ =~= earlier.push(args@.last()));
            let clause = set_clause(assignment.column.sql_name());
            if done > 0 {
                assert(head + ", "@ + assignment.column.sql_name() + " = "@ + placeholder() =~= "UPDATE users SET "@
                    + (comma_joined(assignment_clauses(before)) + ", "@ + clause));
            } else {
                assert(before =~= Seq::<AssignmentView>::empty());
                assert(comma_joined(assignment_clauses(before)) =~= Seq::<char>::empty());
                assert(head + assignment.column.sql_name() + " = "@ + placeholder() =~= "UPDATE users SET "@
                    + clause);
            }
        }
        done = done + 1;
    }
    let ghost clauses = assignment_clauses(all);
    let ghost head = "UPDATE users SET "@ + comma_joined(clauses);
    proof {
        assert(all.take(done as int) =~= all);
        lemma_joined_push(clauses, set_clause("updated_at"@));
    }
    if done > 0 {
        builder_push(&mut builder, ", ");
    }
    builder_push(&mut builder, "updated_at");
    builder_push(&mut builder, " = ");
    builder_push_bind(&mut builder, SqlValue::Text(updated_at.clone()));
    builder_push(&mut builder, " WHERE id = ");
    builder_push_bind(&mut builder, SqlValue::Int64(id));
    let ghost earlier = args@;
    args.push(SqlValue::Text(updated_at.clone()));
    args.push(SqlValue::Int64(id));
    let sql = builder_text(&builder);
    proof {
        let stamp = set_clause("updated_at"@);
        if done > 0 {
            assert(head + ", "@ + "updated_at"@ + " = "@ + placeholder() + " WHERE id = "@ + placeholder()
                =~= "UPDATE users SET "@ + (comma_joined(clauses) + ", "@ + stamp) + " WHERE id = "@
                + placeholder());
        } else {
            assert(all =~= Seq::<AssignmentView>::empty());
            assert(comma_joined(clauses) =~= Seq::<char>::empty());
            assert(head + "updated_at"@ + " = "@ + placeholder() + " WHERE id = "@ + placeholder()
                =~= "UPDATE users SET "@ + stamp + " WHERE id = "@ + placeholder());
        }
        assert(value_views(args@) =~= value_views(earlier).push(SqlValueView::Text(updated_at@)).push(
            SqlValueView::Int64(id),
        ));
        assert(builder_args(builder) == value_views(args@));
    }
    Prepared { sql, args }
}

impl Statement {
    /// What the engine answers the statement with, and so how the host is to
    /// run it.
    pub fn answer(&self) -> (answer: Answer)
        ensures
            answer == self@.answer(),
    {
        match self {
            Statement::SelectUser { .. } => Answer::Users,
            Statement::SelectUsers => Answer::Users,
            Statement::SelectMigrations => Answer::Migrations,
            _ => Answer::Count,
        }
    }

    /// The SQL text and the arguments that the statement is sent as.
    pub fn prepare(&self) -> (prepared: Prepared)
        ensures
            prepared@.sql == self@.sql(),
            prepared@.args == self@.args(),
    {
        match self {
            Statement::InsertUser { name, email, age, created_at, updated_at } => {
                let mut args: Vec<SqlValue> = Vec::new();
                args.push(SqlValue::Text(name.clone()));
                args.push(SqlValue::Text(email.clone()));
                args.push(
                    match age {
                        Some(years) => SqlValue::Int(*years),
                        None => SqlValue::Null,
                    },
                );
                args.push(SqlValue::Text(created_at.clone()));
                args.push(SqlValue::Text(updated_at.clone()));
                assert(value_views(args@) =~= self@.args());
                Prepared {
                    sql: "INSERT INTO users (name, email, age, created_at, updated_at) VALUES (?1, ?2, ?3, ?4, ?5)".to_owned(),
                    args,
                }
            },
            Statement::SelectUser { id } => {
                let mut args: Vec<SqlValue> = Vec::new();
                args.push(SqlValue::Int64(*id));
                assert(value_views(args@) =~= self@.args());
                Prepared {
                    sql: "SELECT id, name, email, age, created_at, updated_at FROM users WHERE id = ?1".to_owned(),
                    args,
                }
            },
            Statement::SelectUsers => {
                let args: Vec<SqlValue> = Vec::new();
                assert(value_views(args@) =~= self@.args());
                Prepared {
                    sql: "SELECT id, name, email, age, created_at, updated_at FROM users ORDER BY created_at DESC".to_owned(),
                    args,
                }
            },
            Statement::UpdateUser { id, assignments, updated_at } => prepare_update(*id, assignments, updated_at),
            Statement::DeleteUser { id } => {
                let mut args: Vec<SqlValue> = Vec::new();
                args.push(SqlValue::Int64(*id));
                assert(value_views(args@) =~= self@.args());
                Prepared { sql: "DELETE FROM users WHERE id = ?1".to_owned(), args }
            },
            Statement::SelectMigrations => {
                let args: Vec<SqlValue> = Vec::new();
                assert(value_views(args@) =~= self@.args());
                Prepared {
                    sql: "SELECT version, description, installed_on, success FROM _sqlx_migrations ORDER BY version".to_owned(),
                    args,
                }
            },
        }
    }
}

} // verus!
