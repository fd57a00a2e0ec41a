//! The list page as a page object of its own: it holds a list and its rows
//! and decides when to go back to the start page.
use vstd::prelude::*;

use crate::application::{clone_items, item_next, next_icon_id, Message, SaveData};
use crate::material_list::{MaterialList, MaterialListModel};
use crate::pages::list_loaded::{fresh_items, fresh_rows};
use crate::widgets::{Item, ItemModel};

verus! {

/// Messages of the list page.
#[derive(Debug, Clone, Copy)]
pub enum PageListLoadedMessage {
    ExitButtonPressed,
}

/// The list page: a list and its rows, if loaded.
#[derive(Debug)]
pub struct PageListLoaded {
    pub list: Option<MaterialList>,
    pub items: Option<Vec<Item>>,
    /// How many icons were loaded on this page (which numbers the next one).
    pub icon_loads: u64,
}

/// Mathematical model of a [`PageListLoaded`].
#[verifier::ext_equal]
pub struct PageListLoadedModel {
    pub list: Option<MaterialListModel>,
    pub items: Option<Seq<ItemModel>>,
}

impl View for PageListLoaded {
    type V = PageListLoadedModel;

    open spec fn view(&self) -> PageListLoadedModel {
        PageListLoadedModel {
            list: match self.list {
                Some(l) => Some(l@),
                None => None,
            },
            items: match self.items {
                Some(v) => Some(v.deep_view()),
                None => None,
            },
        }
    }
}

/// Where a page sends the application.
pub enum PageChange {
    /// Save `items` of `list`, then show the start page.
    ToPreload { items: Vec<Item>, list: MaterialList },
    /// Show this list page.
    ToListLoaded(PageListLoaded),
}

impl PageListLoaded {
    /// A list page with no list loaded.
    pub fn new() -> (r: PageListLoaded)
        ensures
            r@ == (PageListLoadedModel { list: None, items: None }),
            r.icon_loads == 0,
    {
        PageListLoaded { list: None, items: None, icon_loads: 0 }
    }

    /// The page for a saved list, with its rows as saved.
    pub fn from_data(data: SaveData) -> (r: PageListLoaded)
        ensures
            r@ == (PageListLoadedModel {
                list: Some(data@.material_list),
                items: Some(data@.items),
            }),
            r.icon_loads == 0,
    {
        PageListLoaded { list: Some(data.material_list), items: Some(data.items), icon_loads: 0 }
    }

    /// The page for a list that was just read: one fresh row per material.
    pub fn from_list(material_list: MaterialList) -> (r: PageListLoaded)
        ensures
            r@ == (PageListLoadedModel {
                list: Some(material_list@),
                items: Some(fresh_items(material_list@.materials)),
            }),
            r.icon_loads == 0,
    {
        let items = fresh_rows(&material_list);
        PageListLoaded { list: Some(material_list), items: Some(items), icon_loads: 0 }
    }

    /// The messages [`PageListLoaded::update`] handles without failing.
    pub open spec fn accepts_spec(&self, message: &Message) -> bool {
        match message {
            Message::ItemMessage(_, _) => self.items is Some,
            Message::PageListLoaded(PageListLoadedMessage::ExitButtonPressed) => self.items is Some
                && self.list is Some,
            _ => true,
        }
    }

    /// Whether [`PageListLoaded::update`] handles `message` without failing.
    pub fn accepts(&self, message: &Message) -> (r: bool)
        ensures
            r == self.accepts_spec(message),
    {
        match message {
            Message::ItemMessage(_, _) => self.items.is_some(),
            Message::PageListLoaded(PageListLoadedMessage::ExitButtonPressed) => self.items.is_some()
                && self.list.is_some(),
            _ => true,
        }
    }

    /// Handles one message: a row message changes that row (what the row
    /// asks for next is not passed on); leaving the page hands over the
    /// rows and the list to be saved. Every other message is ignored.
    pub fn update(&mut self, message: Message) -> (r: Option<PageChange>)
        requires
            old(self).accepts_spec(&message),
        ensures
            final(self).icon_loads == match message {
                Message::ItemMessage(i, item_message) => if i < old(self)@.items.unwrap().len() {
                    next_icon_id(old(self).icon_loads, item_message)
                } else {
                    old(self).icon_loads
                },
                _ => old(self).icon_loads,
            },
            match message {
                Message::ItemMessage(i, item_message) => {
                    let items = old(self)@.items.unwrap();
                    &&& r is None
                    &&& i < items.len() ==> final(self)@ == PageListLoadedModel {
                        items: Some(
                            items.update(
                                i as int,
                                item_next(items[i as int], item_message, old(self).icon_loads),
                            ),
                        ),
                        ..old(self)@
                    }
                    &&& i >= items.len() ==> final(self)@ == old(self)@
                },
                Message::PageListLoaded(PageListLoadedMessage::ExitButtonPressed) => {
                    &&& final(self)@ == old(self)@
                    &&& r matches Some(PageChange::ToPreload { items, list }) && items.deep_view()
                        == old(self)@.items.unwrap() && list@ == old(self)@.list.unwrap()
                },
                _ => final(self)@ == old(self)@ && r is None,
            },
    {
        match message {
            Message::ItemMessage(i, item_message) => {
                let mut items = self.items.take().unwrap();
                if i < items.len() {
                    let mut item = items.remove(i);
                    let _ = item.update(item_message, i, &mut self.icon_loads);
                    items.insert(i, item);
                }
                self.items = Some(items);
                None
            },
            Message::PageListLoaded(PageListLoadedMessage::ExitButtonPressed) => {
                let items = clone_items(self.items.as_ref().unwrap());
                let list = self.list.as_ref().unwrap().clone();
                Some(PageChange::ToPreload { items, list })
            },
            _ => None,
        }
    }
}

} // verus!
