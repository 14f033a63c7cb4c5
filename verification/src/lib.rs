//! The logic of a small todo-list service, verified with Verus.
//!
//! A todo item is created once and read many times. It lives in two shapes:
//! the storage row, in which every column is text or an integer, and the
//! domain value, in which the identifier and the creation time are
//! structured.
//!
//! - `task_id` and `timestamp` hold the two structured values and their
//!   texts;
//! - `record` holds the row, the item and the codec between them;
//! - `table` holds the rule of the `todo` table and the statements put to it;
//! - `service` holds the two operations, create and list, as steps that ask
//!   the store for one statement at a time;
//! - `endpoint` holds the decisions of the HTTP endpoints;
//! - `front` holds the state machine of the browser client;
//! - `error` holds the failures.
//!
//! Every function is proved against its contract. The calls into the `uuid`
//! and `chrono` crates stand behind small private wrappers in `task_id` and
//! `timestamp`, whose contracts are stated and not proved; each says so.

pub mod error;
pub mod task_id;
pub mod timestamp;
pub mod record;
pub mod table;
pub mod service;
pub mod endpoint;
pub mod front;
