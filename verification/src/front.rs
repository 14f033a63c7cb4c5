//! The state machine of the browser client.
//!
//! The client shows the list of todo items and a text field. It is driven
//! by messages: one per event of the page and one per answer of the
//! server. `Model::update` takes a message, changes the state and says
//! whether the page is to be drawn again and which request, if any, is to
//! be sent. Drawing and sending are left to the caller.

use vstd::prelude::*;
use vstd::string::StringExecFns;
use crate::record::RegisterTodo;
use crate::timestamp::{CivilTime, Timestamp};

verus! {

/// A todo item as the client reads it from the server's answer.
#[derive(Debug)]
pub struct Todo {
    pub description: String,
    pub done: bool,
    pub datetime: Timestamp,
}

/// The mathematical model of a client-side todo item.
pub struct Entry {
    pub description: Seq<char>,
    pub done: bool,
    pub datetime: CivilTime,
}

impl View for Todo {
    type V = Entry;

    open spec fn view(&self) -> Entry {
        Entry { description: self.description@, done: self.done, datetime: self.datetime@ }
    }
}

/// The models of a vector of client-side todo items.
pub open spec fn entries(todos: Seq<Todo>) -> Seq<Entry> {
    todos.map_values(|t: Todo| t@)
}

/// Which request the client last sent.
#[derive(Debug, Clone, Copy, PartialEq, Eq, Structural)]
pub enum FetchTask {
    /// `GET /todo`.
    GetList,
    /// `POST /todo`.
    Add,
}

/// A request for the caller to send.
#[derive(Debug)]
pub enum Fetch {
    /// `GET /todo`, without a body.
    GetList,
    /// `POST /todo`, with this body as JSON.
    Add(RegisterTodo),
}

/// The mathematical model of a request.
pub enum Request {
    GetList,
    Add(Seq<char>),
}

impl View for Fetch {
    type V = Request;

    open spec fn view(&self) -> Request {
        match self {
            Fetch::GetList => Request::GetList,
            Fetch::Add(body) => Request::Add(body.description@),
        }
    }
}

/// What drives the client.
#[derive(Debug)]
pub enum Msg {
    /// Fetch the list.
    GetList,
    /// The list arrived, or the text of the failure to fetch or decode it.
    SetList(Result<Vec<Todo>, String>),
    /// The text field now holds this.
    Update(String),
    /// Submit the text field.
    Add,
    /// Nothing to do.
    Nope,
}

/// The state of the client.
#[derive(Debug)]
pub struct Model {
    pub todo_list: Vec<Todo>,
    pub input_description: String,
    pub fetch_task: Option<FetchTask>,
    pub error: Option<String>,
}

/// The mathematical model of the client's state.
pub struct State {
    pub todo_list: Seq<Entry>,
    pub input_description: Seq<char>,
    pub fetch_task: Option<FetchTask>,
    pub error: Option<Seq<char>>,
}

impl View for Model {
    type V = State;

    open spec fn view(&self) -> State {
        State {
            todo_list: entries(self.todo_list@),
            input_description: self.input_description@,
            fetch_task: self.fetch_task,
            error: match self.error {
                Some(text) => Some(text@),
                None => None,
            },
        }
    }
}

/// What `Model::update` asks of the caller.
#[derive(Debug)]
pub struct Update {
    /// Whether the page is to be drawn again.
    pub should_render: bool,
    /// The request to send, if any.
    pub fetch: Option<Fetch>,
}

impl Msg {
    /// The message for a key pressed in the text field: Enter submits, any
    /// other key does nothing.
    pub fn from_key(key: &str) -> (msg: Msg)
        ensures
            key@ == "Enter"@ ==> msg is Add,
            key@ != "Enter"@ ==> msg is Nope,
    {
        let pressed = String::from_str(key);
        let enter = String::from_str("Enter");
        if pressed == enter {
            Msg::Add
        } else {
            Msg::Nope
        }
    }

    /// The message for the answer to a request: the answer to `GET /todo`
    /// is the list to show; once `POST /todo` is answered, whatever the
    /// answer, the list is fetched anew.
    pub fn from_response(task: FetchTask, data: Result<Vec<Todo>, String>) -> (msg: Msg)
        ensures
            task == FetchTask::GetList ==> msg == Msg::SetList(data),
            task == FetchTask::Add ==> msg is GetList,
    {
        match task {
            FetchTask::GetList => Msg::SetList(data),
            FetchTask::Add => Msg::GetList,
        }
    }
}

impl Model {
    /// The state at mount: nothing listed, nothing typed, nothing sent, no
    /// failure. With it comes the first message, which fetches the list.
    pub fn create() -> (start: (Model, Msg))
        ensures
            start.0@ == (State {
                todo_list: Seq::empty(),
                input_description: Seq::empty(),
                fetch_task: None,
                error: None,
            }),
            start.1 is GetList,
    {
        let model = Model {
            todo_list: Vec::new(),
            input_description: String::new(),
            fetch_task: None,
            error: None,
        };
        assert(model@.todo_list =~= Seq::empty());
        (model, Msg::GetList)
    }

    /// Takes one message.
    ///
    /// - `GetList` asks for `GET /todo` and records it as the current
    ///   request; nothing is drawn.
    /// - `SetList` with a list replaces the list shown; with a failure it
    ///   records the failure's text and keeps the list. The page is drawn.
    /// - `Update` replaces the text typed, and the page is drawn.
    /// - `Add` asks for `POST /todo` with the text typed as the
    ///   description, records it as the current request and clears the
    ///   text; nothing is drawn, and the list is not touched.
    /// - `Nope` changes nothing.
    pub fn update(&mut self, msg: Msg) -> (step: Update)
        ensures
            match msg {
                Msg::GetList => {
                    &&& final(self)@ == (State {
                        fetch_task: Some(FetchTask::GetList),
                        ..old(self)@
                    })
                    &&& !step.should_render
                    &&& step.fetch matches Some(fetch) && fetch@ == Request::GetList
                },
                Msg::SetList(Ok(todos)) => {
                    &&& final(self)@ == (State { todo_list: entries(todos@), ..old(self)@ })
                    &&& step.should_render
                    &&& step.fetch is None
                },
                Msg::SetList(Err(text)) => {
                    &&& final(self)@ == (State { error: Some(text@), ..old(self)@ })
                    &&& step.should_render
                    &&& step.fetch is None
                },
                Msg::Update(text) => {
                    &&& final(self)@ == (State { input_description: text@, ..old(self)@ })
                    &&& step.should_render
                    &&& step.fetch is None
                },
                Msg::Add => {
                    &&& final(self)@ == (State {
                        input_description: Seq::empty(),
                        fetch_task: Some(FetchTask::Add),
                        ..old(self)@
                    })
                    &&& !step.should_render
                    &&& step.fetch matches Some(fetch) && fetch@ == Request::Add(
                        old(self)@.input_description,
                    )
                },
                Msg::Nope => {
                    &&& final(self)@ == old(self)@
                    &&& !step.should_render
                    &&& step.fetch is None
                },
            },
    {
        match msg {
            Msg::GetList => {
                self.fetch_task = Some(FetchTask::GetList);
                Update { should_render: false, fetch: Some(Fetch::GetList) }
            },
            Msg::SetList(Ok(todos)) => {
                self.todo_list = todos;
                Update { should_render: true, fetch: None }
            },
            Msg::SetList(Err(text)) => {
                self.error = Some(text);
                Update { should_render: true, fetch: None }
            },
            Msg::Update(text) => {
                self.input_description = text;
                Update { should_render: true, fetch: None }
            },
            Msg::Add => {
                let mut description = String::new();
                std::mem::swap(&mut description, &mut self.input_description);
                self.fetch_task = Some(FetchTask::Add);
                Update { should_render: false, fetch: Some(Fetch::Add(RegisterTodo { description })) }
            },
            Msg::Nope => Update { should_render: false, fetch: None },
        }
    }

    /// New properties never change the state, and the page is not drawn.
    pub fn change(&mut self) -> (should_render: bool)
        ensures
            !should_render,
            *final(self) == *old(self),
    {
        false
    }

    /// The lines of the list as the page shows it: the description of every
    /// item, in the order of the list.
    pub fn render(&self) -> (lines: Vec<String>)
        ensures
            lines@.len() == self@.todo_list.len(),
            forall|i: int| 0 <= i < lines@.len() ==> (#[trigger] lines@[i])@ == self@.todo_list[i].description,
    {
        let mut lines: Vec<String> = Vec::new();
        let mut i: usize = 0;
        while i < self.todo_list.len()
            invariant
                i <= self.todo_list.len(),
                lines@.len() == i,
                forall|k: int|
                    0 <= k < i ==> (#[trigger] lines@[k])@ == self.todo_list@[k].description@,
            decreases self.todo_list.len() - i,
        {
            lines.push(self.todo_list[i].description.clone());
            i += 1;
        }
        lines
    }
}

} // verus!
