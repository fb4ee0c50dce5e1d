//! What the service hands out over its interface.

use crate::model::domain::basic_item::BasicItem;
use crate::model::domain::Item;
use vstd::prelude::*;

verus! {

/// A list of items, as a listing request returns it.
#[derive(Debug)]
pub struct ItemList<T = BasicItem> where T: Item {
    pub items: Vec<T>,
}

} // verus!
