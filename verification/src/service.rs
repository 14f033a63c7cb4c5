//! The two operations of the todo service: create an item, list all items.
//!
//! An operation is carried out in steps. A step either puts a statement to
//! the store and says what is pending once the store has answered, or it is
//! the outcome. Whoever holds the store runs the statement and hands the
//! answer to `resume`; `run` does so on a table in memory.
//!
//! To create is to write a row and read it back through the codec, so that
//! what is answered is what the store holds. The identifier and the creation
//! time come from outside: `create_with` takes them as arguments and is
//! exact, `create` draws them and says what holds whichever were drawn.

use vstd::prelude::*;
use crate::error::ServiceError;
use crate::record::{
    decode_row, decode_rows, lemma_new_row_round_trip, new_row, Item, Row, SqliteTodo, TodoList,
};
use crate::table::{
    answer_to, holds_id, lemma_rows_with_new_id, rows_after, Answer, AnswerView, Statement,
    StatementView, TodoTable,
};
use crate::task_id::{canonical_text, is_random_v4, TaskId};
use crate::timestamp::{CivilTime, Timestamp};

verus! {

/// What is left to do once the store has answered.
#[derive(Debug)]
pub enum Pending {
    /// The row was to be inserted; it is then read back by this identifier
    /// text.
    ReadBack(String),
    /// Rows were to be read; they are then decoded.
    Decode,
}

/// The mathematical model of what is pending.
pub enum PendingView {
    ReadBack(Seq<char>),
    Decode,
}

impl View for Pending {
    type V = PendingView;

    open spec fn view(&self) -> PendingView {
        match self {
            Pending::ReadBack(id) => PendingView::ReadBack(id@),
            Pending::Decode => PendingView::Decode,
        }
    }
}

/// A step of an operation.
#[derive(Debug)]
pub enum Step {
    /// The store is to run the statement.
    Ask(Statement, Pending),
    /// The operation has ended, with this outcome.
    Done(Result<TodoList, ServiceError>),
}

/// The mathematical model of a step.
pub enum StepView {
    Ask(StatementView, PendingView),
    Done(Result<Seq<Item>, ServiceError>),
}

/// The model of an outcome.
pub open spec fn outcome_view(outcome: Result<TodoList, ServiceError>) -> Result<
    Seq<Item>,
    ServiceError,
> {
    match outcome {
        Ok(todos) => Ok(todos@),
        Err(e) => Err(e),
    }
}

impl View for Step {
    type V = StepView;

    open spec fn view(&self) -> StepView {
        match self {
            Step::Ask(statement, pending) => StepView::Ask(statement@, pending@),
            Step::Done(outcome) => StepView::Done(outcome_view(*outcome)),
        }
    }
}

/// The item that a creation answers with: as it was given, and not done.
pub open spec fn created_item(id: u128, description: Seq<char>, datetime: CivilTime) -> Item {
    Item { id, description, done: false, datetime }
}

/// The first step of a creation: insert the new row, then read it back by
/// its identifier.
pub open spec fn create_step(id: u128, description: Seq<char>, now: CivilTime) -> StepView {
    StepView::Ask(
        StatementView::Insert(new_row(id, description, now)),
        PendingView::ReadBack(canonical_text(id)),
    )
}

/// The first step of a listing: read every row, then decode.
pub open spec fn list_step() -> StepView {
    StepView::Ask(StatementView::SelectAll, PendingView::Decode)
}

/// The step that follows the store's answer.
///
/// After the insert the row is read back. Rows that were read are decoded,
/// and that is the outcome. A failure of the store ends the operation
/// unchanged as a storage failure, and so does an answer that does not fit
/// what was asked.
pub open spec fn resume_step(pending: PendingView, answer: AnswerView) -> StepView {
    match (pending, answer) {
        (PendingView::ReadBack(id), AnswerView::Inserted) => StepView::Ask(
            StatementView::SelectById(id),
            PendingView::Decode,
        ),
        (PendingView::Decode, AnswerView::Rows(rows)) => StepView::Done(decode_rows(rows)),
        _ => StepView::Done(Err(ServiceError::StorageFailure)),
    }
}

/// How many statements a step may still put to the store.
pub open spec fn statements_left(step: StepView) -> nat {
    match step {
        StepView::Ask(_, PendingView::ReadBack(_)) => 2,
        StepView::Ask(_, PendingView::Decode) => 1,
        StepView::Done(_) => 0,
    }
}

/// The outcome of an operation that stands at `step`, run to its end on the
/// table `rows`, and the table that it leaves behind.
pub open spec fn run_step(step: StepView, rows: Seq<Row>) -> (Result<Seq<Item>, ServiceError>, Seq<Row>)
    decreases statements_left(step),
{
    match step {
        StepView::Done(outcome) => (outcome, rows),
        StepView::Ask(statement, pending) => run_step(
            resume_step(pending, answer_to(rows, statement)),
            rows_after(rows, statement),
        ),
    }
}

/// The first step of creating a todo item under the identifier `id`, at the
/// moment `now`.
pub fn create_with(description: String, id: TaskId, now: Timestamp) -> (step: Step)
    ensures
        step@ == create_step(id.0, description@, now@),
{
    let row = SqliteTodo::new(&id, description, &now);
    let key = row.id.clone();
    Step::Ask(Statement::Insert(row), Pending::ReadBack(key))
}

/// The first step of creating a todo item with a fresh random identifier,
/// at the present moment.
///
/// Which identifier and which moment is not determined. Whichever they are,
/// the step is the one that `create_with` gives for them. Where the clock
/// reads a year that the storage format cannot write, the operation ends at
/// once as a storage failure.
pub fn create(description: String) -> (step: Step)
    ensures
        step@ == StepView::Done(Err(ServiceError::StorageFailure)) || exists|id: u128, now: CivilTime|
            is_random_v4(id) && now.is_valid() && step@ == create_step(id, description@, now),
{
    let id = TaskId::new_v4();
    match Timestamp::now() {
        Some(now) => {
            proof {
                use_type_invariant(&now);
            }
            create_with(description, id, now)
        },
        None => Step::Done(Err(ServiceError::StorageFailure)),
    }
}

/// The first step of listing every todo item.
pub fn list() -> (step: Step)
    ensures
        step@ == list_step(),
{
    Step::Ask(Statement::SelectAll, Pending::Decode)
}

/// The step that follows the store's answer.
pub fn resume(pending: Pending, answer: Answer) -> (step: Step)
    ensures
        step@ == resume_step(pending@, answer@),
{
    match pending {
        Pending::ReadBack(id) => match answer {
            Answer::Inserted => Step::Ask(Statement::SelectById(id), Pending::Decode),
            _ => Step::Done(Err(ServiceError::StorageFailure)),
        },
        Pending::Decode => match answer {
            Answer::Rows(rows) => Step::Done(TodoList::from_rows(rows)),
            _ => Step::Done(Err(ServiceError::StorageFailure)),
        },
    }
}

/// Runs an operation to its end on a table in memory.
pub fn run(table: &mut TodoTable, step: Step) -> (outcome: Result<TodoList, ServiceError>)
    ensures
        (outcome_view(outcome), final(table)@) == run_step(step@, old(table)@),
{
    let ghost whole = run_step(step@, table@);
    let mut current = step;
    loop
        invariant
            whole == run_step(step@, old(table)@),
            run_step(current@, table@) == whole,
        decreases statements_left(current@),
    {
        match current {
            Step::Done(outcome) => {
                return outcome;
            },
            Step::Ask(statement, pending) => {
                let answer = table.execute(statement);
                current = resume(pending, answer);
            },
        }
    }
}

/// Appending a row to a table that lists well: the listing gains the item
/// that the row stands for, at its end, where the row is well formed.
proof fn lemma_decode_rows_push(rows: Seq<Row>, row: Row)
    requires
        decode_rows(rows) is Ok,
        decode_row(row) is Ok,
    ensures
        decode_rows(rows.push(row)) == Ok::<Seq<Item>, ServiceError>(
            decode_rows(rows)->Ok_0.push(decode_row(row)->Ok_0),
        ),
{
    let after = rows.push(row);
    assert forall|i: int| 0 <= i < after.len() implies decode_row(#[trigger] after[i]) is Ok by {
        if i < rows.len() {
            assert(after[i] == rows[i]);
        }
    }
    assert(decode_rows(after)->Ok_0 =~= decode_rows(rows)->Ok_0.push(decode_row(row)->Ok_0));
}

/// What a creation comes to. Where the table holds the identifier, the
/// store refuses the row: a storage failure, and the table is left as it
/// was. Otherwise exactly one row is appended, and the outcome is a list of
/// one: the item as it was given, not done, read back from that row.
pub proof fn lemma_run_create(rows: Seq<Row>, id: u128, description: Seq<char>, now: CivilTime)
    requires
        now.is_valid(),
    ensures
        holds_id(rows, canonical_text(id)) ==> run_step(create_step(id, description, now), rows) == (
            Err::<Seq<Item>, ServiceError>(ServiceError::StorageFailure),
            rows,
        ),
        !holds_id(rows, canonical_text(id)) ==> run_step(create_step(id, description, now), rows)
            == (
            Ok::<Seq<Item>, ServiceError>(seq![created_item(id, description, now)]),
            rows.push(new_row(id, description, now)),
        ),
{
    let row = new_row(id, description, now);
    let insert = StatementView::Insert(row);
    let read_back = PendingView::ReadBack(canonical_text(id));
    reveal_with_fuel(run_step, 3);
    if holds_id(rows, canonical_text(id)) {
        assert(resume_step(read_back, answer_to(rows, insert)) == StepView::Done(
            Err(ServiceError::StorageFailure),
        ));
    } else {
        let after = rows.push(row);
        lemma_rows_with_new_id(rows, row);
        lemma_new_row_round_trip(id, description, now);
        let read = seq![row];
        assert(decode_rows(read)->Ok_0 =~= seq![created_item(id, description, now)]);
        assert(answer_to(after, StatementView::SelectById(canonical_text(id))) == AnswerView::Rows(
            read,
        ));
    }
}

/// What a listing comes to: every row decoded, in the order of the table,
/// which is left as it was. One malformed row spoils the listing.
pub proof fn lemma_run_list(rows: Seq<Row>)
    ensures
        run_step(list_step(), rows) == (decode_rows(rows), rows),
{
    reveal_with_fuel(run_step, 2);
}

/// Creating an item and then listing: the listing is the earlier listing
/// with the new item at its end, whatever the description, the empty one
/// too. The new item is not done. Its identifier is that of no earlier item
/// whose row carries the canonical text of its identifier, as every row
/// does that a creation wrote.
pub proof fn lemma_create_then_list(
    rows: Seq<Row>,
    id: u128,
    description: Seq<char>,
    now: CivilTime,
)
    requires
        decode_rows(rows) is Ok,
        now.is_valid(),
        !holds_id(rows, canonical_text(id)),
    ensures
        ({
            let created = run_step(create_step(id, description, now), rows);
            let listed = run_step(list_step(), created.1);
            &&& created.0 == Ok::<Seq<Item>, ServiceError>(seq![created_item(id, description, now)])
            &&& listed.0 == Ok::<Seq<Item>, ServiceError>(
                decode_rows(rows)->Ok_0.push(created_item(id, description, now)),
            )
            &&& listed.1 == created.1
        }),
        !created_item(id, description, now).done,
        forall|i: int|
            0 <= i < rows.len() && (#[trigger] rows[i]).id == canonical_text(
                decode_rows(rows)->Ok_0[i].id,
            ) ==> decode_rows(rows)->Ok_0[i].id != id,
{
    lemma_run_create(rows, id, description, now);
    lemma_run_list(rows.push(new_row(id, description, now)));
    lemma_new_row_round_trip(id, description, now);
    lemma_decode_rows_push(rows, new_row(id, description, now));
}

/// Creating two items one after the other, with the same description or
/// not: where both creations succeed the two identifiers differ, and the
/// listing holds both items, in the order of their creation, behind the
/// earlier ones.
pub proof fn lemma_create_twice_then_list(
    rows: Seq<Row>,
    first: u128,
    second: u128,
    description: Seq<char>,
    first_time: CivilTime,
    second_time: CivilTime,
)
    requires
        decode_rows(rows) is Ok,
        first_time.is_valid(),
        second_time.is_valid(),
        run_step(create_step(first, description, first_time), rows).0 is Ok,
        run_step(
            create_step(second, description, second_time),
            run_step(create_step(first, description, first_time), rows).1,
        ).0 is Ok,
    ensures
        first != second,
        ({
            let once = run_step(create_step(first, description, first_time), rows);
            let twice = run_step(create_step(second, description, second_time), once.1);
            run_step(list_step(), twice.1).0 == Ok::<Seq<Item>, ServiceError>(
                decode_rows(rows)->Ok_0.push(created_item(first, description, first_time)).push(
                    created_item(second, description, second_time),
                ),
            )
        }),
{
    let middle = rows.push(new_row(first, description, first_time));
    lemma_run_create(rows, first, description, first_time);
    lemma_create_then_list(rows, first, description, first_time);
    lemma_run_list(middle);
    assert(middle[rows.len() as int].id == canonical_text(first));
    lemma_run_create(middle, second, description, second_time);
    lemma_create_then_list(middle, second, description, second_time);
}

} // verus!
