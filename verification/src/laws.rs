//! What holds of the operations when the engine answers as `store` says.

use vstd::prelude::*;
use crate::database::{
    InitActionView, InitEventView, InitStateView, init_action_at, init_next, init_state_after,
};
use crate::error::ServiceErrorView;
use crate::models::{CreateUserRequestView, UpdateUserRequestView, UserRow};
use crate::services::{
    OutcomeView, StepView, create_step, delete_step, list_step, read_step, requested_assignments, update_step,
};
use crate::sql::{
    AssignmentView, Column, SqlValueView, assignment_clauses, comma_joined, placeholder, set_clause, update_args,
    update_sql,
};
use crate::store::{
    Exchange, Table, all_well_typed, assigned_all, consistent, engine_held, lists, reported_by_host, runs_to,
    text_before,
};

verus! {

/// The row that an update leaves: each requested field set, the others, the id
/// and `created_at` as they were, and the stamp renewed.
pub open spec fn patched(row: UserRow, request: UpdateUserRequestView, now: Seq<char>) -> UserRow {
    UserRow {
        id: row.id,
        name: match request.name {
            Some(name) => name,
            None => row.name,
        },
        email: match request.email {
            Some(email) => email,
            None => row.email,
        },
        age: match request.age {
            Some(years) => Some(years),
            None => row.age,
        },
        created_at: row.created_at,
        updated_at: now,
    }
}

proof fn lemma_assigned_push(row: UserRow, assignments: Seq<AssignmentView>, last: AssignmentView)
    ensures
        assigned_all(row, assignments.push(last)) == crate::store::assigned(assigned_all(row, assignments), last),
{
    assert(assignments.push(last).drop_last() =~= assignments);
}

proof fn lemma_requested_assignments(row: UserRow, request: UpdateUserRequestView, now: Seq<char>)
    ensures
        all_well_typed(requested_assignments(request)),
        (UserRow { updated_at: now, ..assigned_all(row, requested_assignments(request)) }) == patched(
            row,
            request,
            now,
        ),
        requested_assignments(request).len() == 0 <==> request.name is None && request.email is None
            && request.age is None,
{
    let none = Seq::<AssignmentView>::empty();
    let name = match request.name {
        Some(text) => seq![
            AssignmentView { column: Column::Name, value: SqlValueView::Text(text) },
        ],
        None => none,
    };
    let email = match request.email {
        Some(text) => seq![
            AssignmentView { column: Column::Email, value: SqlValueView::Text(text) },
        ],
        None => none,
    };
    let age = match request.age {
        Some(years) => seq![
            AssignmentView { column: Column::Age, value: SqlValueView::Int(years) },
        ],
        None => none,
    };
    assert(requested_assignments(request) == name + email + age);
    assert(assigned_all(row, none) == row);
    if request.name is Some {
        assert(name =~= none.push(name[0]));
        lemma_assigned_push(row, none, name[0]);
    }
    if request.email is Some {
        assert(name + email =~= name.push(email[0]));
        lemma_assigned_push(row, name, email[0]);
    } else {
        assert(name + email =~= name);
    }
    if request.age is Some {
        assert(name + email + age =~= (name + email).push(age[0]));
        lemma_assigned_push(row, name + email, age[0]);
    } else {
        assert(name + email + age =~= name + email);
    }
}

/// Create, then read: a create that succeeds stores the requested name, email
/// and age under an id that was free, with `created_at` equal to `updated_at`;
/// it changes no other row, and a read of that id gives the same user back. A
/// create fails only where the host reports a failure.
pub proof fn law_create_then_read(
    before: Table,
    request: CreateUserRequestView,
    now: Seq<char>,
    exchanges: Seq<Exchange>,
    result: Result<OutcomeView, ServiceErrorView>,
    stored: Table,
    reads: Seq<Exchange>,
    read: Result<OutcomeView, ServiceErrorView>,
    after: Table,
)
    requires
        consistent(before),
        runs_to(create_step(request, now), before, exchanges, result, stored),
        result matches Ok(OutcomeView::User(user)) ==> runs_to(read_step(user.id), stored, reads, read, after),
    ensures
        consistent(stored),
        engine_held(exchanges) ==> result is Ok,
        result matches Err(error) ==> reported_by_host(error),
        result matches Ok(outcome) ==> {
            &&& outcome matches OutcomeView::User(user)
            &&& user.name == request.name
            &&& user.email == request.email
            &&& user.age == request.age
            &&& user.created_at == now
            &&& user.updated_at == user.created_at
            &&& !before.contains_key(user.id)
            &&& stored == before.insert(user.id, user)
            &&& after == stored
            &&& engine_held(reads) ==> read == result
            &&& read matches Err(error) ==> reported_by_host(error)
        },
{
    reveal_with_fuel(runs_to, 3);
    if result is Ok {
        let user = result->Ok_0->User_0;
        assert(runs_to(read_step(user.id), stored, reads, read, after));
    }
}

/// Update is partial: on a user that exists, an update that succeeds sets the
/// fields that the request holds and renews `updated_at`; the other fields,
/// the id and `created_at` stay, and so does every other row. The response is
/// the row as it then stands. Such an update fails only where the host
/// reports a failure.
pub proof fn law_update_sets_requested_fields_only(
    before: Table,
    id: i64,
    request: UpdateUserRequestView,
    now: Seq<char>,
    exchanges: Seq<Exchange>,
    result: Result<OutcomeView, ServiceErrorView>,
    after: Table,
)
    requires
        consistent(before),
        before.contains_key(id),
        request.name is Some || request.email is Some || request.age is Some,
        runs_to(update_step(id, request, now), before, exchanges, result, after),
    ensures
        consistent(after),
        engine_held(exchanges) ==> result is Ok,
        result matches Err(error) ==> reported_by_host(error),
        result is Ok ==> result == Ok::<OutcomeView, ServiceErrorView>(
            OutcomeView::User(patched(before[id], request, now)),
        ) && after == before.insert(id, patched(before[id], request, now)),
{
    reveal_with_fuel(runs_to, 3);
    lemma_requested_assignments(before[id], request, now);
}

/// An update without a field fails as invalid, and nothing is sent to the
/// engine: the table is as it was.
pub proof fn law_empty_update_is_rejected(
    before: Table,
    id: i64,
    request: UpdateUserRequestView,
    now: Seq<char>,
    exchanges: Seq<Exchange>,
    result: Result<OutcomeView, ServiceErrorView>,
    after: Table,
)
    requires
        request.name is None,
        request.email is None,
        request.age is None,
        runs_to(update_step(id, request, now), before, exchanges, result, after),
    ensures
        update_step(id, request, now) == StepView::Finished(Err(ServiceErrorView::Validation)),
        result == Err::<OutcomeView, ServiceErrorView>(ServiceErrorView::Validation),
        exchanges.len() == 0,
        after == before,
{
    lemma_requested_assignments(before[id], request, now);
}

/// Not found: a read, an update with a field, and a delete of an id that the
/// table does not hold all fail, as not found where the engine holds, and
/// leave the table as it was.
pub proof fn law_missing_user_is_not_found(
    before: Table,
    id: i64,
    request: UpdateUserRequestView,
    now: Seq<char>,
    step: StepView,
    exchanges: Seq<Exchange>,
    result: Result<OutcomeView, ServiceErrorView>,
    after: Table,
)
    requires
        !before.contains_key(id),
        step == read_step(id) || step == delete_step(id) || (step == update_step(id, request, now) && (
        request.name is Some || request.email is Some || request.age is Some)),
        runs_to(step, before, exchanges, result, after),
    ensures
        after == before,
        result matches Err(error) && (error is NotFound || reported_by_host(error)),
        engine_held(exchanges) ==> result == Err::<OutcomeView, ServiceErrorView>(ServiceErrorView::NotFound),
{
    reveal_with_fuel(runs_to, 3);
    lemma_requested_assignments(before[id], request, now);
}

/// A read of a user that exists gives its row and changes nothing; it fails
/// only where the host reports a failure.
pub proof fn law_read_gives_the_row(
    table: Table,
    id: i64,
    exchanges: Seq<Exchange>,
    result: Result<OutcomeView, ServiceErrorView>,
    after: Table,
)
    requires
        table.contains_key(id),
        runs_to(read_step(id), table, exchanges, result, after),
    ensures
        after == table,
        engine_held(exchanges) ==> result is Ok,
        result matches Err(error) ==> reported_by_host(error),
        result is Ok ==> result == Ok::<OutcomeView, ServiceErrorView>(OutcomeView::User(table[id])),
{
    reveal_with_fuel(runs_to, 3);
}

proof fn lemma_text_before_irreflexive(text: Seq<char>)
    ensures
        !text_before(text, text),
    decreases text.len(),
{
    if text.len() > 0 {
        lemma_text_before_irreflexive(text.skip(1));
    }
}

/// A read of all users gives every row of the table once, none with a later
/// `created_at` behind one with an earlier, and changes nothing; it fails
/// only where the host reports a failure.
pub proof fn law_list_is_newest_first(
    table: Table,
    exchanges: Seq<Exchange>,
    result: Result<OutcomeView, ServiceErrorView>,
    after: Table,
)
    requires
        runs_to(list_step(), table, exchanges, result, after),
    ensures
        after == table,
        engine_held(exchanges) ==> result is Ok,
        result matches Err(error) ==> reported_by_host(error),
        result matches Ok(outcome) ==> outcome matches OutcomeView::Users(rows) && lists(table, rows),
{
    reveal_with_fuel(runs_to, 3);
}

/// In a list of all users, a user created later stands before one created
/// earlier.
pub proof fn law_later_user_is_listed_first(table: Table, rows: Seq<UserRow>, earlier: i64, later: i64)
    requires
        lists(table, rows),
        table.contains_key(earlier),
        table.contains_key(later),
        text_before(table[earlier].created_at, table[later].created_at),
    ensures
        exists|i: int, j: int|
            0 <= i < j < rows.len() && #[trigger] rows[i] == table[later] && #[trigger] rows[j] == table[earlier],
{
    let j = choose|j: int| 0 <= j < rows.len() && (#[trigger] rows[j]).id == earlier;
    let i = choose|i: int| 0 <= i < rows.len() && (#[trigger] rows[i]).id == later;
    assert(table[rows[j].id] == rows[j]);
    assert(table[rows[i].id] == rows[i]);
    lemma_text_before_irreflexive(table[earlier].created_at);
    assert(i < j);
}

spec fn among(k: int, a: int, b: int, c: int) -> bool {
    k == a || k == b || k == c
}

/// Three users created one after the other are read in the reverse order: a
/// read of all users of a table that holds just these three gives the third,
/// the second, the first.
pub proof fn law_three_users_are_listed_in_reverse(
    table: Table,
    first: i64,
    second: i64,
    third: i64,
    exchanges: Seq<Exchange>,
    result: Result<OutcomeView, ServiceErrorView>,
    after: Table,
)
    requires
        table.dom() =~= set![first, second, third],
        text_before(table[first].created_at, table[second].created_at),
        text_before(table[second].created_at, table[third].created_at),
        runs_to(list_step(), table, exchanges, result, after),
    ensures
        engine_held(exchanges) ==> result is Ok,
        result is Ok ==> result == Ok::<OutcomeView, ServiceErrorView>(
            OutcomeView::Users(seq![table[third], table[second], table[first]]),
        ),
{
    law_list_is_newest_first(table, exchanges, result, after);
    if result is Ok {
        lemma_three_rows(table, result->Ok_0->Users_0, first, second, third);
    }
}

proof fn lemma_three_rows(table: Table, rows: Seq<UserRow>, first: i64, second: i64, third: i64)
    requires
        lists(table, rows),
        table.dom() =~= set![first, second, third],
        text_before(table[first].created_at, table[second].created_at),
        text_before(table[second].created_at, table[third].created_at),
    ensures
        rows == seq![table[third], table[second], table[first]],
{
    assert(table.contains_key(first) && table.contains_key(second) && table.contains_key(third));
    law_later_user_is_listed_first(table, rows, first, second);
    law_later_user_is_listed_first(table, rows, second, third);
    let (b, a) = choose|i: int, j: int|
        0 <= i < j < rows.len() && #[trigger] rows[i] == table[second] && #[trigger] rows[j] == table[first];
    let (c, b2) = choose|i: int, j: int|
        0 <= i < j < rows.len() && #[trigger] rows[i] == table[third] && #[trigger] rows[j] == table[second];
    assert(table[rows[a].id] == rows[a] && table[rows[b].id] == rows[b] && table[rows[b2].id] == rows[b2]
        && table[rows[c].id] == rows[c]);
    lemma_text_before_irreflexive(table[second].created_at);
    assert(b2 == b) by {
        if b2 != b {
            assert(rows[b2].id == rows[b].id);
            assert(b2 < b || b < b2);
        }
    }
    assert forall|k: int| 0 <= k < rows.len() implies #[trigger] among(k, a, b, c) by {
        assert(table.contains_key(rows[k].id));
        assert(table.dom().contains(rows[k].id));
        assert(rows[k].id == rows[a].id || rows[k].id == rows[b].id || rows[k].id == rows[c].id);
        if k != a && k != b && k != c {
            assert(k < a || a < k);
            assert(k < b || b < k);
            assert(k < c || c < k);
        }
    }
    assert(among(0, a, b, c) && among(1, a, b, c) && among(2, a, b, c));
    assert(rows.len() == 3) by {
        if rows.len() > 3 {
            assert(among(3, a, b, c));
        }
    }
    assert(rows =~= seq![table[third], table[second], table[first]]);
}

/// Delete removes the targeted row and no other: after a delete that
/// succeeds, a read of that id fails as not found, and a read of any other
/// user gives the row that it had. A delete of a user that exists fails only
/// where the host reports a failure.
pub proof fn law_delete_removes_only_the_target(
    before: Table,
    id: i64,
    exchanges: Seq<Exchange>,
    result: Result<OutcomeView, ServiceErrorView>,
    removed: Table,
    other: i64,
    reads: Seq<Exchange>,
    read: Result<OutcomeView, ServiceErrorView>,
    after: Table,
)
    requires
        before.contains_key(id),
        runs_to(delete_step(id), before, exchanges, result, removed),
        runs_to(read_step(other), removed, reads, read, after),
    ensures
        engine_held(exchanges) ==> result is Ok,
        result matches Err(error) ==> reported_by_host(error) && removed == before,
        result is Ok ==> {
            &&& result == Ok::<OutcomeView, ServiceErrorView>(OutcomeView::Deleted)
            &&& removed == before.remove(id)
            &&& after == removed
            &&& read matches Err(error) ==> reported_by_host(error) || (error is NotFound && !removed.contains_key(other))
            &&& engine_held(reads) && other == id ==> read == Err::<OutcomeView, ServiceErrorView>(
                ServiceErrorView::NotFound,
            )
            &&& engine_held(reads) && other != id && before.contains_key(other) ==> read == Ok::<
                OutcomeView,
                ServiceErrorView,
            >(OutcomeView::User(before[other]))
        },
{
    reveal_with_fuel(runs_to, 3);
}

/// Once a pool is published, a caller that asks for it is handed that pool at
/// once: no directory is looked up, no file is touched and no migration runs.
pub proof fn law_published_pool_is_reused(database_file: Seq<char>)
    ensures
        init_next(InitStateView::Idle, InitEventView::Requested { published: true }, database_file) == (
            InitStateView::Ready,
            InitActionView::UseShared,
        ),
{
}

/// A pool is offered for publication only when its migrations have been
/// applied, and handed out only when it or another one is published.
pub proof fn law_pool_is_published_after_migration(
    state: InitStateView,
    event: InitEventView,
    database_file: Seq<char>,
)
    ensures
        init_next(state, event, database_file).1 is Publish <==> state is Migrating && event is Migrated,
        init_next(state, event, database_file).1 is UseNew <==> state is Publishing && event
            == (InitEventView::Published { won: true, shared: event->shared }),
        init_next(state, event, database_file).1 is UseShared ==> (state is Idle && event
            == InitEventView::Requested { published: true }) || (state is Publishing && event
            == InitEventView::Published { won: false, shared: true }),
{
}

/// An initialization never goes back: every turn moves it on until it is
/// over, so that no step of it is carried out twice, and once it is over it
/// asks for nothing more.
pub proof fn law_initialization_advances(state: InitStateView, event: InitEventView, database_file: Seq<char>)
    ensures
        !state.is_final() ==> init_next(state, event, database_file).0.progress() > state.progress(),
        state.is_final() ==> init_next(state, event, database_file).0 is Failed && init_next(
            state,
            event,
            database_file,
        ).1 is Fail,
        init_next(state, event, database_file).0.is_final() <==> {
            let action = init_next(state, event, database_file).1;
            action is UseShared || action is UseNew || action is Fail || action is Abort
        },
{
}

proof fn lemma_initialization_moves_on(
    state: InitStateView,
    events: Seq<InitEventView>,
    database_file: Seq<char>,
    early: int,
    late: int,
)
    requires
        0 <= early <= late <= events.len(),
    ensures
        ({
            let from = init_state_after(state, events.take(early), database_file);
            let to = init_state_after(state, events.take(late), database_file);
            &&& from.is_final() ==> to.is_final()
            &&& !from.is_final() && early < late ==> to.progress() > from.progress()
            &&& to.progress() >= from.progress()
        }),
    decreases late - early,
{
    if early < late {
        lemma_initialization_moves_on(state, events, database_file, early, late - 1);
        assert(events.take(late).drop_last() =~= events.take(late - 1));
        assert(events.take(late).last() == events[late - 1]);
        law_initialization_advances(
            init_state_after(state, events.take(late - 1), database_file),
            events[late - 1],
            database_file,
        );
    }
}

/// Within one initialization no step is asked for twice: the directory is
/// looked up and created once at most, the database file is looked for and
/// created once at most, and one pool at most is opened, migrated and offered
/// for publication.
pub proof fn law_each_step_is_taken_once(
    state: InitStateView,
    events: Seq<InitEventView>,
    database_file: Seq<char>,
    early: int,
    late: int,
)
    requires
        0 <= early < late < events.len(),
    ensures
        !init_action_at(state, events, database_file, early).same_step(
            init_action_at(state, events, database_file, late),
        ),
{
    let before_early = init_state_after(state, events.take(early), database_file);
    let after_early = init_state_after(state, events.take(early + 1), database_file);
    let before_late = init_state_after(state, events.take(late), database_file);
    assert(events.take(early + 1).drop_last() =~= events.take(early));
    assert(after_early == init_next(before_early, events[early], database_file).0);
    lemma_initialization_moves_on(state, events, database_file, early + 1, late);
    law_initialization_advances(before_late, events[late], database_file);
}

/// How often a character stands in a text.
pub open spec fn occurrences(text: Seq<char>, sought: char) -> nat
    decreases text.len(),
{
    if text.len() == 0 {
        0
    } else {
        occurrences(text.drop_last(), sought) + if text.last() == sought {
            1nat
        } else {
            0nat
        }
    }
}

proof fn lemma_occurrences_add(left: Seq<char>, right: Seq<char>, sought: char)
    ensures
        occurrences(left + right, sought) == occurrences(left, sought) + occurrences(right, sought),
    decreases right.len(),
{
    if right.len() == 0 {
        assert(left + right =~= left);
    } else {
        assert((left + right).drop_last() =~= left + right.drop_last());
        lemma_occurrences_add(left, right.drop_last(), sought);
    }
}

proof fn lemma_occurrences_none(text: Seq<char>, sought: char)
    requires
        forall|i: int| 0 <= i < text.len() ==> text[i] != sought,
    ensures
        occurrences(text, sought) == 0,
    decreases text.len(),
{
    if text.len() > 0 {
        lemma_occurrences_none(text.drop_last(), sought);
    }
}

proof fn lemma_fixed_texts()
    ensures
        occurrences(placeholder(), '?') == 1,
        occurrences(" = "@, '?') == 0,
        occurrences(", "@, '?') == 0,
        occurrences("UPDATE users SET "@, '?') == 0,
        occurrences(" WHERE id = "@, '?') == 0,
        occurrences("updated_at"@, '?') == 0,
        forall|column: Column| occurrences(#[trigger] column.sql_name(), '?') == 0,
{
    reveal_strlit("?");
    reveal_strlit(" = ");
    reveal_strlit(", ");
    reveal_strlit("UPDATE users SET ");
    reveal_strlit(" WHERE id = ");
    reveal_strlit("updated_at");
    reveal_strlit("name");
    reveal_strlit("email");
    reveal_strlit("age");
    reveal_with_fuel(occurrences, 2);
    lemma_occurrences_none(" = "@, '?');
    lemma_occurrences_none(", "@, '?');
    lemma_occurrences_none("UPDATE users SET "@, '?');
    lemma_occurrences_none(" WHERE id = "@, '?');
    lemma_occurrences_none("updated_at"@, '?');
    lemma_occurrences_none("name"@, '?');
    lemma_occurrences_none("email"@, '?');
    lemma_occurrences_none("age"@, '?');
}

proof fn lemma_clause_has_one_placeholder(column_name: Seq<char>)
    requires
        occurrences(column_name, '?') == 0,
    ensures
        occurrences(set_clause(column_name), '?') == 1,
{
    lemma_fixed_texts();
    lemma_occurrences_add(column_name, " = "@, '?');
    lemma_occurrences_add(column_name + " = "@, placeholder(), '?');
}

proof fn lemma_joined_placeholders(clauses: Seq<Seq<char>>)
    requires
        forall|i: int| 0 <= i < clauses.len() ==> occurrences(#[trigger] clauses[i], '?') == 1,
    ensures
        occurrences(comma_joined(clauses), '?') == clauses.len(),
    decreases clauses.len(),
{
    if clauses.len() > 1 {
        lemma_fixed_texts();
        lemma_joined_placeholders(clauses.drop_last());
        lemma_occurrences_add(comma_joined(clauses.drop_last()), ", "@, '?');
        lemma_occurrences_add(comma_joined(clauses.drop_last()) + ", "@, clauses.last(), '?');
    }
}

/// Each value of an UPDATE has its own placeholder: the text holds as many
/// question marks as there are arguments, the clause of each assignment names
/// its column, and the argument at the same place is its value; the stamp and
/// the id follow.
pub proof fn law_update_pairs_values_with_placeholders(
    id: i64,
    assignments: Seq<AssignmentView>,
    updated_at: Seq<char>,
)
    ensures
        occurrences(update_sql(assignments), '?') == update_args(id, assignments, updated_at).len(),
        update_args(id, assignments, updated_at).len() == assignments.len() + 2,
        forall|i: int|
            0 <= i < assignments.len() ==> #[trigger] assignment_clauses(assignments)[i] == set_clause(
                assignments[i].column.sql_name(),
            ) && update_args(id, assignments, updated_at)[i] == assignments[i].value,
        update_args(id, assignments, updated_at)[assignments.len() as int] == SqlValueView::Text(updated_at),
        update_args(id, assignments, updated_at)[assignments.len() as int + 1] == SqlValueView::Int64(id),
{
    lemma_fixed_texts();
    let clauses = assignment_clauses(assignments).push(set_clause("updated_at"@));
    assert forall|i: int| 0 <= i < clauses.len() implies occurrences(#[trigger] clauses[i], '?') == 1 by {
        if i < assignments.len() {
            lemma_clause_has_one_placeholder(assignments[i].column.sql_name());
        } else {
            lemma_clause_has_one_placeholder("updated_at"@);
        }
    }
    lemma_joined_placeholders(clauses);
    lemma_occurrences_add("UPDATE users SET "@, comma_joined(clauses), '?');
    lemma_occurrences_add("UPDATE users SET "@ + comma_joined(clauses), " WHERE id = "@, '?');
    lemma_occurrences_add(
        "UPDATE users SET "@ + comma_joined(clauses) + " WHERE id = "@,
        placeholder(),
        '?',
    );
}

} // verus!
