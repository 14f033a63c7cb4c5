//! The todo item in its two shapes, and the codec between them.
//!
//! A row of the `todo` table holds text and an integer in every column. The
//! domain value holds a structured identifier and creation time. Reading a
//! row checks the two texts; writing one renders them.

use vstd::prelude::*;
use crate::error::ServiceError;
use crate::task_id::{canonical_text, is_canonical_text, lemma_canonical_text_round_trip, text_value, TaskId};
use crate::timestamp::{
    is_storage_text, lemma_storage_text_round_trip, storage_text, text_fields, CivilTime, Timestamp,
};

verus! {

/// A row of the `todo` table, as the store holds it.
#[derive(Debug)]
pub struct SqliteTodo {
    /// The identifier in its canonical text.
    pub id: String,
    pub description: String,
    /// The completion flag as an integer: 1 for done.
    pub done: i64,
    /// The creation time in its storage text.
    pub datetime: String,
}

/// The mathematical model of a row.
pub struct Row {
    pub id: Seq<char>,
    pub description: Seq<char>,
    pub done: int,
    pub datetime: Seq<char>,
}

impl View for SqliteTodo {
    type V = Row;

    open spec fn view(&self) -> Row {
        Row {
            id: self.id@,
            description: self.description@,
            done: self.done as int,
            datetime: self.datetime@,
        }
    }
}

/// The models of a vector of rows.
pub open spec fn row_views(rows: Seq<SqliteTodo>) -> Seq<Row> {
    rows.map_values(|r: SqliteTodo| r@)
}

/// A todo item.
#[derive(Debug)]
pub struct Todo {
    pub id: TaskId,
    pub description: String,
    pub done: bool,
    pub datetime: Timestamp,
}

/// The mathematical model of a todo item.
pub struct Item {
    pub id: u128,
    pub description: Seq<char>,
    pub done: bool,
    pub datetime: CivilTime,
}

impl View for Todo {
    type V = Item;

    open spec fn view(&self) -> Item {
        Item {
            id: self.id.0,
            description: self.description@,
            done: self.done,
            datetime: self.datetime@,
        }
    }
}

/// The body of a request to create a todo item.
#[derive(Debug)]
pub struct RegisterTodo {
    pub description: String,
}

/// What the service answers with: todo items in the order of the store.
#[derive(Debug)]
pub struct TodoList(pub Vec<Todo>);

impl View for TodoList {
    type V = Seq<Item>;

    open spec fn view(&self) -> Seq<Item> {
        self.0@.map_values(|t: Todo| t@)
    }
}

/// The todo item that a row stands for. The row is malformed where its
/// identifier is not a canonical text or its creation time is not a storage
/// text. The item is done exactly where the stored integer is 1: every other
/// integer, negative ones too, reads as not done.
pub open spec fn decode_row(row: Row) -> Result<Item, ServiceError> {
    if is_canonical_text(row.id) && is_storage_text(row.datetime) {
        Ok(
            Item {
                id: text_value(row.id) as u128,
                description: row.description,
                done: row.done == 1,
                datetime: text_fields(row.datetime),
            },
        )
    } else {
        Err(ServiceError::MalformedRecord)
    }
}

/// The row that a newly created todo item is written as: not done.
pub open spec fn new_row(id: u128, description: Seq<char>, datetime: CivilTime) -> Row {
    Row { id: canonical_text(id), description, done: 0, datetime: storage_text(datetime) }
}

/// The todo items that a sequence of rows stands for, in the same order.
/// One malformed row spoils the whole sequence.
pub open spec fn decode_rows(rows: Seq<Row>) -> Result<Seq<Item>, ServiceError> {
    if forall|i: int| 0 <= i < rows.len() ==> decode_row(#[trigger] rows[i]) is Ok {
        Ok(Seq::new(rows.len(), |i: int| decode_row(rows[i]).unwrap()))
    } else {
        Err(ServiceError::MalformedRecord)
    }
}

/// A newly written row reads back as the item that was written: the same
/// identifier, description and creation time, and not done.
pub proof fn lemma_new_row_round_trip(id: u128, description: Seq<char>, datetime: CivilTime)
    requires
        datetime.is_valid(),
    ensures
        decode_row(new_row(id, description, datetime)) == Ok::<Item, ServiceError>(
            Item { id, description, done: false, datetime },
        ),
{
    lemma_canonical_text_round_trip(id);
    lemma_storage_text_round_trip(datetime);
}

/// The stored completion flag never makes a row malformed, whatever integer
/// it is, and the item reads as done for the integer 1 alone: 0, 2 and
/// every negative integer read as not done.
pub proof fn lemma_done_reads_as_one_alone(row: Row, done: int)
    ensures
        decode_row(Row { done, ..row }) is Ok <==> decode_row(row) is Ok,
        decode_row(Row { done, ..row }) is Ok ==> decode_row(Row { done, ..row })->Ok_0 == (Item {
            done: done == 1,
            ..decode_row(row)->Ok_0
        }),
{
}

impl SqliteTodo {
    /// The row of a newly created todo item: the identifier in its
    /// canonical text, the description as it is, the flag 0 and the
    /// creation time in its storage text.
    pub fn new(id: &TaskId, description: String, datetime: &Timestamp) -> (row: SqliteTodo)
        ensures
            row@ == new_row(id.0, description@, datetime@),
    {
        SqliteTodo { id: id.to_string(), description, done: 0, datetime: datetime.format() }
    }

    /// A copy of the row.
    pub fn duplicate(&self) -> (copy: SqliteTodo)
        ensures
            copy@ == self@,
    {
        SqliteTodo {
            id: self.id.clone(),
            description: self.description.clone(),
            done: self.done,
            datetime: self.datetime.clone(),
        }
    }
}

impl Todo {
    /// Reads a row: parses the identifier and the creation time, takes the
    /// description as it is and reads the flag as done where it is 1. A row
    /// whose identifier or creation time does not parse is malformed.
    pub fn from(st: SqliteTodo) -> (read: Result<Todo, ServiceError>)
        ensures
            match read {
                Ok(todo) => decode_row(st@) == Ok::<Item, ServiceError>(todo@),
                Err(e) => decode_row(st@) == Err::<Item, ServiceError>(e),
            },
    {
        let id = match TaskId::parse_str(st.id.as_str()) {
            Ok(id) => id,
            Err(e) => {
                return Err(e);
            },
        };
        let datetime = match Timestamp::parse_from_str(st.datetime.as_str()) {
            Ok(datetime) => datetime,
            Err(e) => {
                return Err(e);
            },
        };
        Ok(Todo { id, description: st.description, done: st.done == 1, datetime })
    }
}

impl TodoList {
    /// Reads rows, in their order. One malformed row spoils the list.
    pub fn from_rows(rows: Vec<SqliteTodo>) -> (read: Result<TodoList, ServiceError>)
        ensures
            match read {
                Ok(list) => decode_rows(row_views(rows@)) == Ok::<Seq<Item>, ServiceError>(list@),
                Err(e) => decode_rows(row_views(rows@)) == Err::<Seq<Item>, ServiceError>(e),
            },
    {
        let ghost all = rows@;
        let mut todos: Vec<Todo> = Vec::new();
        for row in it: rows
            invariant
                it.seq() == all,
                todos@.len() == it.index(),
                forall|j: int|
                    0 <= j < it.index() ==> decode_row(#[trigger] all[j]@) == Ok::<
                        Item,
                        ServiceError,
                    >(todos@[j]@),
        {
            match Todo::from(row) {
                Ok(todo) => {
                    todos.push(todo);
                },
                Err(e) => {
                    assert(row_views(all)[it.index() as int] == all[it.index() as int]@);
                    return Err(e);
                },
            }
        }
        let list = TodoList(todos);
        assert(decode_rows(row_views(all)) == Ok::<Seq<Item>, ServiceError>(list@)) by {
            assert forall|i: int| 0 <= i < all.len() implies decode_row(
                #[trigger] row_views(all)[i],
            ) is Ok by {
                assert(row_views(all)[i] == all[i]@);
            }
            assert(list@ =~= decode_rows(row_views(all))->Ok_0);
        }
        Ok(list)
    }
}

} // verus!
