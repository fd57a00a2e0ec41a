//! The start page as a page object of its own: the lists found in the
//! lists folder, and the way to the list page.
use vstd::prelude::*;

use crate::application::{Message, SaveData, SaveDataModel};
use crate::material_list::{MaterialList, MaterialListModel};
use crate::pages::list_loaded::{fresh_items, fresh_rows};
use crate::pages::page_list_loaded::{PageChange, PageListLoaded, PageListLoadedModel};
use crate::widgets::ListPreview;

verus! {

/// Messages of the start page.
#[derive(Debug)]
pub enum PagePreloadMessage {
    ButtonPressed,
    LoadList(MaterialList),
}

/// Whether two start-page messages are the same message.
pub open spec fn same_preload_message(a: PagePreloadMessage, b: PagePreloadMessage) -> bool {
    match a {
        PagePreloadMessage::ButtonPressed => b is ButtonPressed,
        PagePreloadMessage::LoadList(x) => b matches PagePreloadMessage::LoadList(y) && x@ == y@,
    }
}

impl Clone for PagePreloadMessage {
    fn clone(&self) -> (r: Self)
        ensures
            same_preload_message(*self, r),
    {
        match self {
            PagePreloadMessage::ButtonPressed => PagePreloadMessage::ButtonPressed,
            PagePreloadMessage::LoadList(list) => PagePreloadMessage::LoadList(list.clone()),
        }
    }
}

/// The start page: the lists found in the lists folder and a preview of
/// each, or none when the folder held no list.
#[derive(Debug)]
pub struct PagePreload {
    pub lists: Option<Vec<MaterialList>>,
    pub list_previews: Option<Vec<ListPreview>>,
}

/// Mathematical model of a [`PagePreload`].
#[verifier::ext_equal]
pub struct PagePreloadModel {
    pub lists: Option<Seq<MaterialListModel>>,
    pub list_previews: Option<Seq<SaveDataModel>>,
}

impl View for PagePreload {
    type V = PagePreloadModel;

    open spec fn view(&self) -> PagePreloadModel {
        PagePreloadModel {
            lists: match self.lists {
                Some(l) => Some(l.deep_view()),
                None => None,
            },
            list_previews: match self.list_previews {
                Some(p) => Some(p.deep_view()),
                None => None,
            },
        }
    }
}

/// What the preview of a list that was just read holds: the list and one
/// fresh row for each of its materials.
pub open spec fn preview_of_list(list: MaterialListModel) -> SaveDataModel {
    SaveDataModel { material_list: list, items: fresh_items(list.materials) }
}

impl PagePreload {
    /// The start page for `lists`, the lists read from the lists folder in
    /// order: none (and no previews) when there is no list, else the lists
    /// and one preview for each.
    pub fn new(lists: Vec<MaterialList>) -> (r: PagePreload)
        ensures
            lists@.len() == 0 ==> r@ == (PagePreloadModel { lists: None, list_previews: None }),
            lists@.len() != 0 ==> r@ == (PagePreloadModel {
                lists: Some(lists.deep_view()),
                list_previews: Some(lists.deep_view().map_values(|l: MaterialListModel| preview_of_list(l))),
            }),
    {
        if lists.len() == 0 {
            return PagePreload { lists: None, list_previews: None };
        }
        let mut previews: Vec<ListPreview> = Vec::new();
        let n = lists.len();
        for k in 0..n
            invariant
                n == lists@.len(),
                previews@.len() == k,
                forall|j: int|
                    0 <= j < k ==> (#[trigger] previews@[j])@ == preview_of_list(lists@[j]@),
        {
            let data = SaveData { material_list: lists[k].clone(), items: fresh_rows(&lists[k]) };
            previews.push(ListPreview::new(data));
        }
        let r = PagePreload { lists: Some(lists), list_previews: Some(previews) };
        assert(r@.list_previews.unwrap() =~= r@.lists.unwrap().map_values(
            |l: MaterialListModel| preview_of_list(l),
        ));
        r
    }

    /// Handles one message: the load button opens an empty list page, a
    /// chosen list opens the list page for it; every other message is
    /// ignored.
    pub fn update(&mut self, message: Message) -> (r: Option<PageChange>)
        ensures
            final(self)@ == old(self)@,
            match message {
                Message::PagePreload(PagePreloadMessage::ButtonPressed) => r matches Some(
                    PageChange::ToListLoaded(page),
                ) && page@ == (PageListLoadedModel { list: None, items: None }),
                Message::PagePreload(PagePreloadMessage::LoadList(list)) => r matches Some(
                    PageChange::ToListLoaded(page),
                ) && page@ == (PageListLoadedModel {
                    list: Some(list@),
                    items: Some(fresh_items(list@.materials)),
                }),
                _ => r is None,
            },
    {
        match message {
            Message::PagePreload(PagePreloadMessage::ButtonPressed) => Some(
                PageChange::ToListLoaded(PageListLoaded::new()),
            ),
            Message::PagePreload(PagePreloadMessage::LoadList(list)) => Some(
                PageChange::ToListLoaded(PageListLoaded::from_list(list)),
            ),
            _ => None,
        }
    }
}

} // verus!
