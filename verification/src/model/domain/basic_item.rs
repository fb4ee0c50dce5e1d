//! The plain item: a title and a description in a project, owned by a user.

use crate::model::app::UserId;
use crate::model::domain::{Item, ItemId, ProjectId, State};
use vstd::prelude::*;

verus! {

/// An item with nothing but the basics.
#[derive(Debug)]
pub struct BasicItem {
    pub uid: UserId,
    pub id: ItemId,
    pub title: String,
    pub description: String,
    pub status: State,
    pub flagged: bool,
    pub project_id: ProjectId,
}

impl Item for BasicItem {
    fn id(&self) -> (r: &ItemId)
        ensures
            *r == self.id,
    {
        &self.id
    }

    fn user_id(&self) -> (r: &UserId)
        ensures
            *r == self.uid,
    {
        &self.uid
    }

    fn title(&self) -> (r: &str)
        ensures
            r@ == self.title@,
    {
        self.title.as_str()
    }

    fn description(&self) -> (r: &str)
        ensures
            r@ == self.description@,
    {
        self.description.as_str()
    }

    fn status(&self) -> (r: &State)
        ensures
            *r == self.status,
    {
        &self.status
    }

    fn flagged(&self) -> (r: bool)
        ensures
            r == self.flagged,
    {
        self.flagged
    }

    fn project(&self) -> (r: &ProjectId)
        ensures
            *r == self.project_id,
    {
        &self.project_id
    }

    fn parent(&self) -> (r: Option<Box<ItemId>>)
        ensures
            r is None,
    {
        None
    }
}

} // verus!
