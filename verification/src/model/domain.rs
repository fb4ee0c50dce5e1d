//! Items and what describes them: costs, tags, projects and workflows.

use crate::model::app::UserId;
use crate::uuids::{fresh_uuid, is_random_uuid};
use vstd::prelude::*;

pub mod basic_item;

verus! {

/// The identifier of an item.
#[derive(Debug)]
pub struct ItemId(pub String);

impl View for ItemId {
    type V = Seq<char>;

    open spec fn view(&self) -> Seq<char> {
        self.0@
    }
}

impl ItemId {
    /// The identifier as text.
    pub fn to_string(&self) -> (r: String)
        ensures
            r@ == self@,
    {
        self.0.clone()
    }

    /// A fresh random identifier.
    pub fn new() -> (r: ItemId)
        ensures
            is_random_uuid(r@),
    {
        ItemId(fresh_uuid())
    }
}

impl From<String> for ItemId {
    fn from(v: String) -> (r: ItemId) {
        ItemId(v)
    }
}

impl vstd::std_specs::convert::FromSpecImpl<String> for ItemId {
    open spec fn obeys_from_spec() -> bool {
        true
    }

    open spec fn from_spec(v: String) -> ItemId {
        ItemId(v)
    }
}

/// The identifier of a project.
#[derive(Debug)]
pub struct ProjectId(pub String);

impl View for ProjectId {
    type V = Seq<char>;

    open spec fn view(&self) -> Seq<char> {
        self.0@
    }
}

impl ProjectId {
    /// The identifier as text.
    pub fn to_string(&self) -> (r: String)
        ensures
            r@ == self@,
    {
        self.0.clone()
    }

    /// A fresh random identifier.
    pub fn new() -> (r: ProjectId)
        ensures
            is_random_uuid(r@),
    {
        ProjectId(fresh_uuid())
    }
}

impl From<String> for ProjectId {
    fn from(v: String) -> (r: ProjectId) {
        ProjectId(v)
    }
}

impl vstd::std_specs::convert::FromSpecImpl<String> for ProjectId {
    open spec fn obeys_from_spec() -> bool {
        true
    }

    open spec fn from_spec(v: String) -> ProjectId {
        ProjectId(v)
    }
}

/// What every kind of item can tell about itself.
pub trait Item {
    fn id(&self) -> &ItemId;

    fn user_id(&self) -> &UserId;

    fn title(&self) -> &str;

    fn description(&self) -> &str;

    fn status(&self) -> &State;

    fn flagged(&self) -> bool;

    fn project(&self) -> &ProjectId;

    fn parent(&self) -> Option<Box<ItemId>>;
}

/// The kinds of item.
#[derive(Debug)]
pub enum ItemType {
    Task,
    Item,
    Bug,
    Todo,
    Birthday,
    Category,
    Free { name: String },
}

/// A kind of cost, such as time or money.
#[derive(Debug)]
pub struct CostCategory {
    pub name: String,
}

/// An amount of one kind of cost.
#[derive(Debug)]
pub struct Cost {
    pub category: CostCategory,
    pub cost: u8,
}

/// A label on an item.
#[derive(Debug)]
pub struct Tag {
    pub name: String,
}

/// The kinds of cost that a project counts, and their unit.
#[derive(Debug)]
pub struct CostInfo {
    pub categories: Vec<CostCategory>,
    pub unit: String,
}

/// A step of a workflow from one state to another.
#[derive(Debug)]
pub struct Transition {
    pub name: String,
    pub from: State,
    pub to: State,
}

/// A state that an item can be in.
#[derive(Debug)]
pub struct State {
    pub name: String,
}

/// The states of a project's items and the steps between them.
#[derive(Debug)]
pub struct Workflow {
    pub states: Vec<State>,
    pub transitions: Vec<Transition>,
}

/// A project: a name, how its costs are counted, and its workflow.
#[derive(Debug)]
pub struct Project {
    pub name: String,
    pub costs_info: CostInfo,
    pub workflow: Workflow,
}

/// The setting in which an item can be done.
#[derive(Debug)]
pub struct Context {
    pub name: String,
}

/// How an item repeats.
#[derive(Debug)]
pub struct Repeat {
}

} // verus!
