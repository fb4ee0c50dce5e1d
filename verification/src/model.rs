//! The records that the service keeps: users and applications, and the items
//! of a task list with what describes them.

use vstd::prelude::*;

pub mod api;
pub mod app;
pub mod domain;

pub use self::app::{AppId, Application, User, UserId};
pub use self::domain::basic_item;
pub use self::domain::{
    Context, Cost, CostCategory, CostInfo, Item, ItemId, ItemType, Project, ProjectId, Repeat,
    State, Tag, Transition, Workflow,
};

verus! {

/// A task as it is stored: its text, and its identifier once it has one.
#[derive(Debug)]
pub struct Task {
    pub id: Option<String>,
    pub task: String,
}

/// One entry of a plain task list.
#[derive(Debug)]
pub struct Todo {
    pub task: Task,
}

/// A plain task list.
#[derive(Debug)]
pub struct TodoList {
    pub todos: Vec<Task>,
}

} // verus!
