//! The `todo` table, and the statements that are put to it.
//!
//! The table is a sequence of rows in which no identifier text occurs twice.
//! A row is appended by an insert, which the table refuses where the
//! identifier is taken; rows are never changed or removed. `answer_to` and
//! `rows_after` say what a statement yields and leaves behind; `TodoTable`
//! is a table in memory that keeps to them.

use vstd::prelude::*;
use crate::error::ServiceError;
use crate::record::{row_views, Row, SqliteTodo};

verus! {

/// Whether no identifier text occurs in two rows.
pub open spec fn has_unique_ids(rows: Seq<Row>) -> bool {
    forall|i: int, j: int| 0 <= i < j < rows.len() ==> rows[i].id != rows[j].id
}

/// Whether some row carries the identifier text `id`.
pub open spec fn holds_id(rows: Seq<Row>, id: Seq<char>) -> bool {
    exists|i: int| 0 <= i < rows.len() && (#[trigger] rows[i]).id == id
}

/// The rows that carry the identifier text `id`, in their order.
pub open spec fn rows_with_id(rows: Seq<Row>, id: Seq<char>) -> Seq<Row> {
    rows.filter(|r: Row| r.id == id)
}

/// A statement for the store to run.
#[derive(Debug)]
pub enum Statement {
    /// Append this row.
    Insert(SqliteTodo),
    /// Read the rows that carry this identifier text.
    SelectById(String),
    /// Read every row.
    SelectAll,
}

/// The mathematical model of a statement.
pub enum StatementView {
    Insert(Row),
    SelectById(Seq<char>),
    SelectAll,
}

impl View for Statement {
    type V = StatementView;

    open spec fn view(&self) -> StatementView {
        match self {
            Statement::Insert(row) => StatementView::Insert(row@),
            Statement::SelectById(id) => StatementView::SelectById(id@),
            Statement::SelectAll => StatementView::SelectAll,
        }
    }
}

/// What the store answers to a statement.
#[derive(Debug)]
pub enum Answer {
    /// The row was appended.
    Inserted,
    /// The rows that were read, in the store's order.
    Rows(Vec<SqliteTodo>),
    /// The store refused the statement, or could not be reached.
    Failed,
}

/// The mathematical model of an answer.
pub enum AnswerView {
    Inserted,
    Rows(Seq<Row>),
    Failed,
}

impl View for Answer {
    type V = AnswerView;

    open spec fn view(&self) -> AnswerView {
        match self {
            Answer::Inserted => AnswerView::Inserted,
            Answer::Rows(rows) => AnswerView::Rows(row_views(rows@)),
            Answer::Failed => AnswerView::Failed,
        }
    }
}

/// What a table answers to a statement: an insert fails where the
/// identifier is taken, a select reads rows in the table's order.
pub open spec fn answer_to(rows: Seq<Row>, statement: StatementView) -> AnswerView {
    match statement {
        StatementView::Insert(row) => if holds_id(rows, row.id) {
            AnswerView::Failed
        } else {
            AnswerView::Inserted
        },
        StatementView::SelectById(id) => AnswerView::Rows(rows_with_id(rows, id)),
        StatementView::SelectAll => AnswerView::Rows(rows),
    }
}

/// The table that a statement leaves behind: an insert that succeeds
/// appends its row, and nothing else changes a table.
pub open spec fn rows_after(rows: Seq<Row>, statement: StatementView) -> Seq<Row> {
    match statement {
        StatementView::Insert(row) => if holds_id(rows, row.id) {
            rows
        } else {
            rows.push(row)
        },
        _ => rows,
    }
}

/// Where no row carries `id`, none is selected by it.
pub proof fn lemma_rows_with_absent_id(rows: Seq<Row>, id: Seq<char>)
    requires
        !holds_id(rows, id),
    ensures
        rows_with_id(rows, id) == Seq::<Row>::empty(),
    decreases rows.len(),
{
    reveal(Seq::filter);
    if rows.len() > 0 {
        assert forall|i: int| 0 <= i < rows.drop_last().len() implies (#[trigger] rows.drop_last()[i]).id
            != id by {
            assert(rows[i].id != id);
        }
        lemma_rows_with_absent_id(rows.drop_last(), id);
    }
}

/// A row appended under an identifier that was free is the one row that
/// the identifier selects.
pub proof fn lemma_rows_with_new_id(rows: Seq<Row>, row: Row)
    requires
        !holds_id(rows, row.id),
    ensures
        rows_with_id(rows.push(row), row.id) == seq![row],
{
    reveal(Seq::filter);
    lemma_rows_with_absent_id(rows, row.id);
    assert(rows.push(row).drop_last() =~= rows);
}

/// The `todo` table, in memory.
pub struct TodoTable {
    rows: Vec<SqliteTodo>,
}

impl View for TodoTable {
    type V = Seq<Row>;

    closed spec fn view(&self) -> Seq<Row> {
        row_views(self.rows@)
    }
}

impl TodoTable {
    /// In every `TodoTable` no identifier text occurs twice.
    #[verifier::type_invariant]
    pub open spec fn well_formed(self) -> bool {
        has_unique_ids(self@)
    }

    /// An empty table.
    pub fn new() -> (table: TodoTable)
        ensures
            table@ == Seq::<Row>::empty(),
    {
        let table = TodoTable { rows: Vec::new() };
        table
    }

    /// The number of rows.
    pub fn len(&self) -> (n: usize)
        ensures
            n == self@.len(),
    {
        self.rows.len()
    }

    /// Decides whether some row carries the identifier text `id`.
    pub fn contains_id(&self, id: &String) -> (found: bool)
        ensures
            found == holds_id(self@, id@),
    {
        let mut i: usize = 0;
        while i < self.rows.len()
            invariant
                i <= self.rows.len(),
                forall|j: int| 0 <= j < i ==> (#[trigger] self@[j]).id != id@,
            decreases self.rows.len() - i,
        {
            if self.rows[i].id == *id {
                assert(self@[i as int].id == id@);
                return true;
            }
            i += 1;
        }
        false
    }

    /// Appends `row`. The table refuses a row whose identifier text it
    /// already holds, and is then left as it was.
    pub fn insert(&mut self, row: SqliteTodo) -> (done: Result<(), ServiceError>)
        ensures
            has_unique_ids(final(self)@),
            match done {
                Ok(_) => !holds_id(old(self)@, row@.id) && final(self)@ == old(self)@.push(row@),
                Err(e) => e == ServiceError::StorageFailure && holds_id(old(self)@, row@.id)
                    && final(self)@ == old(self)@,
            },
    {
        proof {
            use_type_invariant(&*self);
        }
        if self.contains_id(&row.id) {
            return Err(ServiceError::StorageFailure);
        }
        let ghost before = self@;
        let mut rows: Vec<SqliteTodo> = Vec::new();
        std::mem::swap(&mut rows, &mut self.rows);
        rows.push(row);
        proof {
            assert(row_views(rows@) =~= before.push(row@));
            assert forall|i: int, j: int| 0 <= i < j < before.push(row@).len() implies before.push(
                row@,
            )[i].id != before.push(row@)[j].id by {
                if j == before.len() {
                    assert(before[i].id != row@.id);
                }
            }
        }
        self.rows = rows;
        Ok(())
    }

    /// Runs a statement.
    pub fn execute(&mut self, statement: Statement) -> (answer: Answer)
        ensures
            answer@ == answer_to(old(self)@, statement@),
            final(self)@ == rows_after(old(self)@, statement@),
    {
        match statement {
            Statement::Insert(row) => match self.insert(row) {
                Ok(_) => Answer::Inserted,
                Err(_) => Answer::Failed,
            },
            Statement::SelectById(id) => Answer::Rows(self.select_by_id(&id)),
            Statement::SelectAll => Answer::Rows(self.select_all()),
        }
    }

    /// Every row, in the table's order.
    pub fn select_all(&self) -> (rows: Vec<SqliteTodo>)
        ensures
            row_views(rows@) == self@,
    {
        let mut out: Vec<SqliteTodo> = Vec::new();
        let mut i: usize = 0;
        while i < self.rows.len()
            invariant
                i <= self.rows.len(),
                out@.len() == i,
                forall|k: int| 0 <= k < i ==> (#[trigger] out@[k])@ == self.rows@[k]@,
            decreases self.rows.len() - i,
        {
            out.push(self.rows[i].duplicate());
            i += 1;
        }
        out
    }

    /// The rows that carry the identifier text `id`, in the table's order.
    /// There is at most one.
    pub fn select_by_id(&self, id: &String) -> (rows: Vec<SqliteTodo>)
        ensures
            row_views(rows@) == rows_with_id(self@, id@),
            rows@.len() <= 1,
    {
        proof {
            use_type_invariant(self);
        }
        let mut out: Vec<SqliteTodo> = Vec::new();
        let mut i: usize = 0;
        while i < self.rows.len()
            invariant
                i <= self.rows.len(),
                has_unique_ids(self@),
                row_views(out@) == rows_with_id(self@.take(i as int), id@),
                out@.len() <= 1,
                out@.len() == 1 ==> holds_id(self@.take(i as int), id@),
            decreases self.rows.len() - i,
        {
            proof {
                reveal(Seq::filter);
                assert(self@.take(i + 1).drop_last() =~= self@.take(i as int));
            }
            if self.rows[i].id == *id {
                proof {
                    if out@.len() == 1 {
                        let k = choose|k: int| 0 <= k < i && (#[trigger] self@.take(i as int)[k]).id == id@;
                        assert(self@[k].id != self@[i as int].id);
                    }
                }
                out.push(self.rows[i].duplicate());
                assert(self@.take(i + 1)[i as int].id == id@);
            }
            i += 1;
        }
        assert(self@.take(self.rows.len() as int) =~= self@);
        out
    }
}

} // verus!
