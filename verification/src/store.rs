//! What the service expects of the engine: the `users` table as a map from id
//! to row, and for each statement the replies and the tables that may follow.
//! Nothing here runs; it is the yardstick that the laws of the service are
//! stated against.

use vstd::prelude::*;
use crate::error::ServiceErrorView;
use crate::models::UserRow;
use crate::services::{OutcomeView, ReplyView, StepView, resume_step};
use crate::sql::{AssignmentView, Column, SqlValueView, StatementView};

verus! {

/// The `users` table: its rows by id.
pub type Table = Map<i64, UserRow>;

/// Every row is filed under its own id.
pub open spec fn consistent(table: Table) -> bool {
    forall|id: i64| table.contains_key(id) ==> (#[trigger] table[id]).id == id
}

/// Whether the assigned value is of the column's type.
pub open spec fn well_typed(assignment: AssignmentView) -> bool {
    match assignment.column {
        Column::Name => assignment.value is Text,
        Column::Email => assignment.value is Text,
        Column::Age => assignment.value is Int || assignment.value is Null,
    }
}

/// Whether each of the assigned values is of its column's type.
pub open spec fn all_well_typed(assignments: Seq<AssignmentView>) -> bool {
    forall|i: int| 0 <= i < assignments.len() ==> well_typed(#[trigger] assignments[i])
}

/// The row after one assignment.
pub open spec fn assigned(row: UserRow, assignment: AssignmentView) -> UserRow {
    match (assignment.column, assignment.value) {
        (Column::Name, SqlValueView::Text(text)) => UserRow { name: text, ..row },
        (Column::Email, SqlValueView::Text(text)) => UserRow { email: text, ..row },
        (Column::Age, SqlValueView::Int(years)) => UserRow { age: Some(years), ..row },
        (Column::Age, SqlValueView::Null) => UserRow { age: None, ..row },
        _ => row,
    }
}

/// The row after the assignments, made in their order.
pub open spec fn assigned_all(row: UserRow, assignments: Seq<AssignmentView>) -> UserRow
    decreases assignments.len(),
{
    if assignments.len() == 0 {
        row
    } else {
        assigned(assigned_all(row, assignments.drop_last()), assignments.last())
    }
}

/// The order in which the engine sorts text: by the first character in which
/// two texts differ, a proper prefix before the longer text.
pub open spec fn text_before(left: Seq<char>, right: Seq<char>) -> bool
    decreases left.len(),
{
    if right.len() == 0 {
        false
    } else if left.len() == 0 {
        true
    } else if left[0] != right[0] {
        (left[0] as u32) < (right[0] as u32)
    } else {
        text_before(left.skip(1), right.skip(1))
    }
}

/// Whether `rows` is the table read newest first: every row of the table
/// once, and none with a later `created_at` behind one with an earlier.
pub open spec fn lists(table: Table, rows: Seq<UserRow>) -> bool {
    &&& forall|i: int|
        0 <= i < rows.len() ==> table.contains_key((#[trigger] rows[i]).id) && table[rows[i].id] == rows[i]
    &&& forall|i: int, j: int| 0 <= i < j < rows.len() ==> (#[trigger] rows[i]).id != (#[trigger] rows[j]).id
    &&& forall|id: i64| #[trigger]
        table.contains_key(id) ==> exists|i: int| 0 <= i < rows.len() && (#[trigger] rows[i]).id == id
    &&& forall|i: int, j: int|
        0 <= i < j < rows.len() ==> !text_before((#[trigger] rows[i]).created_at, (#[trigger] rows[j]).created_at)
}

/// Whether the engine may answer `statement` on the table `before` with
/// `reply` and leave the table `after`. A statement may always fail or not be
/// run at all, and then changes nothing. Of an UPDATE that assigns a value of
/// another type than the column's nothing is said.
pub open spec fn answers(before: Table, statement: StatementView, reply: ReplyView, after: Table) -> bool {
    if reply is Failed || reply is Unavailable {
        after == before
    } else {
        match statement {
            StatementView::InsertUser { name, email, age, created_at, updated_at } => {
                &&& reply matches ReplyView::Executed { rows_affected, last_insert_rowid }
                &&& rows_affected == 1
                &&& !before.contains_key(last_insert_rowid)
                &&& after == before.insert(
                    last_insert_rowid,
                    UserRow { id: last_insert_rowid, name, email, age, created_at, updated_at },
                )
            },
            StatementView::SelectUser { id } => {
                &&& after == before
                &&& reply == ReplyView::Users(
                    if before.contains_key(id) {
                        seq![before[id]]
                    } else {
                        Seq::empty()
                    },
                )
            },
            StatementView::SelectUsers => {
                &&& after == before
                &&& reply matches ReplyView::Users(rows)
                &&& lists(before, rows)
            },
            StatementView::UpdateUser { id, assignments, updated_at } => {
                all_well_typed(assignments) ==> {
                    &&& reply matches ReplyView::Executed { rows_affected, .. }
                    &&& if before.contains_key(id) {
                        &&& rows_affected == 1
                        &&& after == before.insert(
                            id,
                            UserRow { updated_at, ..assigned_all(before[id], assignments) },
                        )
                    } else {
                        &&& rows_affected == 0
                        &&& after == before
                    }
                }
            },
            StatementView::DeleteUser { id } => {
                &&& reply matches ReplyView::Executed { rows_affected, .. }
                &&& if before.contains_key(id) {
                    &&& rows_affected == 1
                    &&& after == before.remove(id)
                } else {
                    &&& rows_affected == 0
                    &&& after == before
                }
            },
            StatementView::SelectMigrations => {
                &&& after == before
                &&& reply is Migrations
            },
        }
    }
}

/// One exchange with the engine: its reply, and the table that it left.
pub struct Exchange {
    pub reply: ReplyView,
    pub table: Table,
}

/// Whether an operation that stands at `step`, on the table `before`, may run
/// through exactly these exchanges and end with `result` on the table `after`.
pub open spec fn runs_to(
    step: StepView,
    before: Table,
    exchanges: Seq<Exchange>,
    result: Result<OutcomeView, ServiceErrorView>,
    after: Table,
) -> bool
    decreases exchanges.len(),
{
    match step {
        StepView::Finished(ended) => exchanges.len() == 0 && result == ended && after == before,
        StepView::Query { statement, then } => {
            &&& exchanges.len() > 0
            &&& answers(before, statement, exchanges[0].reply, exchanges[0].table)
            &&& runs_to(
                resume_step(then, exchanges[0].reply),
                exchanges[0].table,
                exchanges.skip(1),
                result,
                after,
            )
        },
    }
}

/// Whether every statement of the exchanges was run and none of them failed.
pub open spec fn engine_held(exchanges: Seq<Exchange>) -> bool {
    forall|i: int|
        0 <= i < exchanges.len() ==> !((#[trigger] exchanges[i]).reply is Failed) && !(exchanges[i].reply
            is Unavailable)
}

/// Whether the failure is one that the host reported: the engine failed, or
/// the pool could not be brought up.
pub open spec fn reported_by_host(error: ServiceErrorView) -> bool {
    error is Engine || error is Configuration
}

} // verus!
