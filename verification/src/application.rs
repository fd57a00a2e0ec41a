//! The application's state and how it reacts to each message.
//!
//! Work that reaches outside the program (dialogs, files, the network) is
//! not done here: [`App::update`] changes the state and returns a
//! [`Command`] saying what is to be done next; whoever runs the application
//! performs it and hands the outcome back as a message or, for the user's
//! hidden items, through [`App::finish_loading`].
use vstd::prelude::*;

use crate::material_list::{MaterialList, MaterialListModel};
use crate::pages::list_loaded::{
    first_position, is_hidden, kept_by, position_of, rows_of_list, Filter, ListData, ListDataModel,
};
use crate::pages::page_list_loaded::PageListLoadedMessage;
use crate::pages::page_preload::{same_preload_message, PagePreloadMessage};
use crate::pages::preload::PreloadData;
use crate::widgets::{same_item_message, IconModel, Item, ItemMessage, ItemModel};

verus! {

/// Name of the application's folders.
pub const APP_NAME: &'static str = "LitematicaJSONParser";

/// Shown where a list is needed and none is loaded.
pub const ERR_NO_MATERIAL_LIST: &'static str = "No material list loaded!";

/// `std::fmt::Error`, the error a list load reports.
#[verifier::external_type_specification]
#[verifier::external_body]
pub struct ExFmtError(std::fmt::Error);

/// A list saved with the user's progress on it.
#[derive(Debug)]
pub struct SaveData {
    pub material_list: MaterialList,
    pub items: Vec<Item>,
}

/// Mathematical model of a [`SaveData`].
#[verifier::ext_equal]
pub struct SaveDataModel {
    pub material_list: MaterialListModel,
    pub items: Seq<ItemModel>,
}

impl View for SaveData {
    type V = SaveDataModel;

    open spec fn view(&self) -> SaveDataModel {
        SaveDataModel { material_list: self.material_list@, items: self.items.deep_view() }
    }
}

impl DeepView for SaveData {
    type V = SaveDataModel;

    open spec fn deep_view(&self) -> SaveDataModel {
        self@
    }
}

/// Copies rows one by one.
pub fn clone_items(items: &Vec<Item>) -> (r: Vec<Item>)
    ensures
        r.deep_view() == items.deep_view(),
{
    let mut r: Vec<Item> = Vec::new();
    let n = items.len();
    for i in 0..n
        invariant
            n == items@.len(),
            r@.len() == i,
            forall|j: int| 0 <= j < i ==> (#[trigger] r@[j])@ == items@[j]@,
    {
        r.push(items[i].clone());
    }
    assert(r.deep_view() =~= items.deep_view());
    r
}

impl Clone for SaveData {
    fn clone(&self) -> (r: Self)
        ensures
            r@ == self@,
    {
        SaveData { material_list: self.material_list.clone(), items: clone_items(&self.items) }
    }
}

/// Name of the file a list is saved to, in the lists folder.
pub open spec fn save_file_name_text(list: MaterialListModel) -> Seq<char> {
    list.name + ".json"@
}

/// Name of the file `list` is saved to, in the lists folder.
pub fn save_file_name(list: &MaterialList) -> (s: String)
    ensures
        s@ == save_file_name_text(list@),
{
    let mut s = list.Name.clone();
    s.append(".json");
    s
}

/// The page on screen.
#[derive(Clone, Copy, PartialEq, Eq, Structural, Debug)]
pub enum Page {
    Preload,
    ListLoaded,
}

impl Default for Page {
    fn default() -> (p: Page)
        ensures
            p == Page::Preload,
    {
        Page::Preload
    }
}

/// Everything the application reacts to.
#[derive(Debug)]
pub enum Message {
    ExitListButtonPressed,
    ItemMessage(usize, ItemMessage),
    TupledItemMessage((usize, ItemMessage)),
    ListLoaded(Result<MaterialList, std::fmt::Error>),
    FileCancelled,
    LoadNewList,
    PageLoaded,
    OpenListsFolder,
    LoadList(MaterialList),
    LoadSavedList(SaveData),
    FilterChanged(Filter),
    PageListLoaded(PageListLoadedMessage),
    PagePreload(PagePreloadMessage),
}

/// Whether two messages are the same message: the same variant with the
/// same values, lists and rows compared by their models.
pub open spec fn same_message(a: Message, b: Message) -> bool {
    match a {
        Message::ExitListButtonPressed => b is ExitListButtonPressed,
        Message::ItemMessage(i, m) => b matches Message::ItemMessage(j, n) && i == j
            && same_item_message(m, n),
        Message::TupledItemMessage((i, m)) => b matches Message::TupledItemMessage((j, n)) && i
            == j && same_item_message(m, n),
        Message::ListLoaded(res) => b matches Message::ListLoaded(res2) && match res {
            Ok(l) => res2 matches Ok(l2) && l@ == l2@,
            Err(e) => res2 matches Err(e2) && e == e2,
        },
        Message::FileCancelled => b is FileCancelled,
        Message::LoadNewList => b is LoadNewList,
        Message::PageLoaded => b is PageLoaded,
        Message::OpenListsFolder => b is OpenListsFolder,
        Message::LoadList(l) => b matches Message::LoadList(l2) && l@ == l2@,
        Message::LoadSavedList(d) => b matches Message::LoadSavedList(d2) && d@ == d2@,
        Message::FilterChanged(f) => b matches Message::FilterChanged(g) && f == g,
        Message::PageListLoaded(m) => b matches Message::PageListLoaded(n) && m == n,
        Message::PagePreload(m) => b matches Message::PagePreload(n) && same_preload_message(m, n),
    }
}

impl Clone for Message {
    fn clone(&self) -> (r: Self)
        ensures
            same_message(*self, r),
    {
        match self {
            Message::ExitListButtonPressed => Message::ExitListButtonPressed,
            Message::ItemMessage(i, m) => Message::ItemMessage(*i, m.clone()),
            Message::TupledItemMessage((i, m)) => Message::TupledItemMessage((*i, m.clone())),
            Message::ListLoaded(res) => Message::ListLoaded(
                match res {
                    Ok(list) => Ok(list.clone()),
                    Err(e) => Err(*e),
                },
            ),
            Message::FileCancelled => Message::FileCancelled,
            Message::LoadNewList => Message::LoadNewList,
            Message::PageLoaded => Message::PageLoaded,
            Message::OpenListsFolder => Message::OpenListsFolder,
            Message::LoadList(list) => Message::LoadList(list.clone()),
            Message::LoadSavedList(data) => Message::LoadSavedList(data.clone()),
            Message::FilterChanged(f) => Message::FilterChanged(*f),
            Message::PageListLoaded(m) => Message::PageListLoaded(*m),
            Message::PagePreload(m) => Message::PagePreload(m.clone()),
        }
    }
}

/// A list waiting for the user's hidden items before it is shown.
#[derive(Debug)]
pub enum PendingList {
    /// A list that was just read from a file.
    Fresh(MaterialList),
    /// A list saved earlier, with the progress on it.
    Saved(SaveData),
}

/// What is to be done after a message was handled.
#[derive(Debug)]
pub enum Command {
    /// Nothing.
    Nothing,
    /// Save `items` of `list`, then read the saved lists again for the
    /// start page.
    SaveAndReloadLists { items: Vec<Item>, list: MaterialList },
    /// Load the icon of item `item_name` and hand it to the row at `index`
    /// (as `TupledItemMessage((index, ItemMessage::Loaded(bytes)))`).
    LoadIcon { item_name: String, index: usize },
    /// Ask the user for a list file; its outcome comes back as
    /// `ListLoaded`, or `FileCancelled`.
    OpenListDialog,
    /// Handle these messages, in order.
    Dispatch(Vec<Message>),
    /// Show the lists folder in the file manager.
    OpenListsFolder,
    /// Read the user's hidden items, then call [`App::finish_loading`].
    ReadUserHides(PendingList),
}

/// The application: the page on screen, the loaded list if any, the
/// saved lists offered on the start page, and how many icons were loaded
/// (which numbers the next one).
#[derive(Debug)]
pub struct App {
    pub page: Page,
    pub list_data: Option<ListData>,
    pub preload_data: PreloadData,
    pub icon_loads: u64,
}

/// The row after `item` handled `message`; a loaded icon gets the number
/// `icon_id`.
pub open spec fn item_next(item: ItemModel, message: ItemMessage, icon_id: u64) -> ItemModel {
    match message {
        ItemMessage::Completed(done) => ItemModel { completed: done, ..item },
        ItemMessage::Loaded(bytes) => ItemModel {
            icon: Some(IconModel { id: icon_id, bytes: bytes@ }),
            ..item
        },
        _ => item,
    }
}

/// The count of icon loads after `message`: one more (wrapping around) for
/// a loaded icon, the same otherwise.
pub open spec fn next_icon_id(loads: u64, message: ItemMessage) -> u64 {
    match message {
        ItemMessage::Loaded(_) => if loads == u64::MAX {
            0
        } else {
            (loads + 1) as u64
        },
        _ => loads,
    }
}

/// What a row at `index` asks for after it handled `message`.
pub open spec fn item_command(
    cmd: Command,
    item: ItemModel,
    message: ItemMessage,
    index: usize,
) -> bool {
    match message {
        ItemMessage::Load => cmd matches Command::LoadIcon { item_name, index: at } && item_name@
            == item.material.item && at == index,
        _ => cmd is Nothing,
    }
}

/// The messages that ask for the icon of every row: for each row, in
/// order, one `ItemMessage(k, Load)` where `k` is the first position of a
/// row equal to it.
pub open spec fn icon_requests(msgs: Seq<Message>, rows: Seq<ItemModel>) -> bool {
    &&& msgs.len() == rows.len()
    &&& forall|k: int|
        0 <= k < msgs.len() ==> (#[trigger] msgs[k] matches Message::ItemMessage(
            p,
            ItemMessage::Load,
        ) && first_position(rows, rows[k], p as int))
}

impl App {
    /// The loaded list, as a plain value.
    pub open spec fn list_model(&self) -> Option<ListDataModel> {
        match self.list_data {
            Some(ld) => Some(ld@),
            None => None,
        }
    }

    /// The application starting on the start page with no list loaded.
    pub fn new(preload_data: PreloadData) -> (app: App)
        ensures
            app.page == Page::Preload,
            app.list_model() is None,
            app.preload_data@ == preload_data@,
            app.icon_loads == 0,
    {
        App { page: Page::Preload, list_data: None, preload_data, icon_loads: 0 }
    }

    /// The messages that [`App::update`] handles without failing: the ones
    /// on which the application stops with an error are left out.
    pub open spec fn accepts_spec(&self, message: &Message) -> bool {
        match message {
            Message::ExitListButtonPressed => self.list_data matches Some(ld) ==> ld.items is Some
                && ld.list is Some,
            Message::ItemMessage(i, ItemMessage::Delete) => self.list_data matches Some(ld)
                && ld.items matches Some(items) && *i < items@.len(),
            Message::ItemMessage(_, _) => self.list_data matches Some(ld) ==> ld.items is Some,
            Message::ListLoaded(res) => res is Ok,
            _ => true,
        }
    }

    /// Whether [`App::update`] handles `message` without failing.
    pub fn accepts(&self, message: &Message) -> (r: bool)
        ensures
            r == self.accepts_spec(message),
    {
        match message {
            Message::ExitListButtonPressed => match &self.list_data {
                Some(ld) => ld.items.is_some() && ld.list.is_some(),
                None => true,
            },
            Message::ItemMessage(i, ItemMessage::Delete) => match &self.list_data {
                Some(ld) => match &ld.items {
                    Some(items) => *i < items.len(),
                    None => false,
                },
                None => false,
            },
            Message::ItemMessage(_, _) => match &self.list_data {
                Some(ld) => ld.items.is_some(),
                None => true,
            },
            Message::ListLoaded(res) => res.is_ok(),
            _ => true,
        }
    }

    /// Handles one message: changes the state and says what is to be done
    /// next.
    pub fn update(&mut self, message: Message) -> (cmd: Command)
        requires
            old(self).accepts_spec(&message),
        ensures
            final(self).preload_data@ == old(self).preload_data@,
            final(self).icon_loads == match message {
                Message::ItemMessage(i, item_message) => match old(self).list_model() {
                    Some(ld) => if i < ld.items.unwrap().len() {
                        next_icon_id(old(self).icon_loads, item_message)
                    } else {
                        old(self).icon_loads
                    },
                    None => old(self).icon_loads,
                },
                _ => old(self).icon_loads,
            },
            match message {
                Message::ExitListButtonPressed => match old(self).list_model() {
                    Some(ld) => {
                        &&& final(self).page == Page::Preload
                        &&& final(self).list_model() is None
                        &&& cmd matches Command::SaveAndReloadLists { items, list } && items.deep_view()
                            == ld.items.unwrap() && list@ == ld.list.unwrap()
                    },
                    None => {
                        &&& final(self).page == old(self).page
                        &&& final(self).list_model() is None
                        &&& cmd is Nothing
                    },
                },
                Message::ItemMessage(i, ItemMessage::Delete) => {
                    let ld = old(self).list_model().unwrap();
                    &&& final(self).page == old(self).page
                    &&& final(self).list_model() == Some(
                        ListDataModel { items: Some(ld.items.unwrap().remove(i as int)), ..ld },
                    )
                    &&& cmd is Nothing
                },
                Message::ItemMessage(i, item_message) => match old(self).list_model() {
                    Some(ld) => {
                        let items = ld.items.unwrap();
                        &&& final(self).page == old(self).page
                        &&& if i < items.len() {
                            &&& final(self).list_model() == Some(
                                ListDataModel {
                                    items: Some(
                                        items.update(
                                            i as int,
                                            item_next(
                                                items[i as int],
                                                item_message,
                                                old(self).icon_loads,
                                            ),
                                        ),
                                    ),
                                    ..ld
                                },
                            )
                            &&& item_command(cmd, items[i as int], item_message, i)
                        } else {
                            &&& final(self).list_model() == old(self).list_model()
                            &&& cmd is Nothing
                        }
                    },
                    None => {
                        &&& final(self).page == old(self).page
                        &&& final(self).list_model() is None
                        &&& cmd is Nothing
                    },
                },
                Message::TupledItemMessage((i, item_message)) => {
                    &&& final(self).page == old(self).page
                    &&& final(self).list_model() == old(self).list_model()
                    &&& cmd matches Command::Dispatch(msgs) && msgs@.len() == 1 && msgs@[0]
                        == Message::ItemMessage(i, item_message)
                },
                Message::ListLoaded(res) => {
                    &&& final(self).page == old(self).page
                    &&& final(self).list_model() == old(self).list_model()
                    &&& cmd matches Command::Dispatch(msgs) && msgs@.len() == 1 && msgs@[0]
                        == Message::LoadList(res.unwrap())
                },
                Message::LoadNewList => {
                    &&& final(self).page == old(self).page
                    &&& final(self).list_model() == old(self).list_model()
                    &&& cmd is OpenListDialog
                },
                Message::OpenListsFolder => {
                    &&& final(self).page == old(self).page
                    &&& final(self).list_model() == old(self).list_model()
                    &&& cmd is OpenListsFolder
                },
                Message::LoadList(list) => {
                    &&& final(self).page == old(self).page
                    &&& final(self).list_model() == old(self).list_model()
                    &&& cmd == Command::ReadUserHides(PendingList::Fresh(list))
                },
                Message::LoadSavedList(data) => {
                    &&& final(self).page == old(self).page
                    &&& final(self).list_model() == old(self).list_model()
                    &&& cmd == Command::ReadUserHides(PendingList::Saved(data))
                },
                Message::FilterChanged(filter) => {
                    &&& final(self).page == old(self).page
                    &&& final(self).list_model() == match old(self).list_model() {
                        Some(ld) => Some(ListDataModel { filter, ..ld }),
                        None => None,
                    }
                    &&& cmd is Nothing
                },
                _ => {
                    &&& final(self).page == old(self).page
                    &&& final(self).list_model() == old(self).list_model()
                    &&& cmd is Nothing
                },
            },
    {
        match message {
            Message::ExitListButtonPressed => {
                if self.list_data.is_some() {
                    let ld = self.list_data.take().unwrap();
                    let items = ld.items.unwrap();
                    let list = ld.list.unwrap();
                    self.page = Page::Preload;
                    return Command::SaveAndReloadLists { items, list };
                }
                Command::Nothing
            },
            Message::ItemMessage(i, ItemMessage::Delete) => {
                let mut ld = self.list_data.take().unwrap();
                let mut items = ld.items.take().unwrap();
                items.remove(i);
                ld.items = Some(items);
                self.list_data = Some(ld);
                Command::Nothing
            },
            Message::ItemMessage(i, item_message) => {
                if self.list_data.is_some() {
                    let mut ld = self.list_data.take().unwrap();
                    let mut items = ld.items.take().unwrap();
                    let cmd = if i < items.len() {
                        let mut item = items.remove(i);
                        let cmd = item.update(item_message, i, &mut self.icon_loads);
                        items.insert(i, item);
                        cmd
                    } else {
                        Command::Nothing
                    };
                    ld.items = Some(items);
                    self.list_data = Some(ld);
                    return cmd;
                }
                Command::Nothing
            },
            Message::LoadNewList => Command::OpenListDialog,
            Message::ListLoaded(res) => {
                let list = res.unwrap();
                let mut msgs: Vec<Message> = Vec::new();
                msgs.push(Message::LoadList(list));
                Command::Dispatch(msgs)
            },
            Message::TupledItemMessage((i, m)) => {
                let mut msgs: Vec<Message> = Vec::new();
                msgs.push(Message::ItemMessage(i, m));
                Command::Dispatch(msgs)
            },
            Message::OpenListsFolder => Command::OpenListsFolder,
            Message::LoadList(list) => Command::ReadUserHides(PendingList::Fresh(list)),
            Message::LoadSavedList(data) => Command::ReadUserHides(PendingList::Saved(data)),
            Message::FilterChanged(filter) => {
                if self.list_data.is_some() {
                    let mut ld = self.list_data.take().unwrap();
                    ld.filter = filter;
                    self.list_data = Some(ld);
                }
                Command::Nothing
            },
            _ => Command::Nothing,
        }
    }

    /// Shows a list once the user's hidden items are known: the list page
    /// with its rows, less the hidden ones, and a request for the icon of
    /// every row.
    pub fn finish_loading(&mut self, pending: PendingList, user_hides: &Vec<String>) -> (cmd:
        Command)
        ensures
            final(self).page == Page::ListLoaded,
            final(self).preload_data@ == old(self).preload_data@,
            final(self).icon_loads == old(self).icon_loads,
            final(self).list_model() == Some(
                match pending {
                    PendingList::Fresh(list) => ListDataModel {
                        list: Some(list@),
                        items: Some(rows_of_list(list@, user_hides.deep_view())),
                        filter: Filter::All,
                    },
                    PendingList::Saved(data) => ListDataModel {
                        list: Some(data@.material_list),
                        items: Some(data@.items.filter(kept_by(user_hides.deep_view()))),
                        filter: Filter::All,
                    },
                },
            ),
            cmd matches Command::Dispatch(msgs) && icon_requests(
                msgs@,
                final(self).list_model().unwrap().items.unwrap(),
            ),
    {
        let ld = match pending {
            PendingList::Fresh(list) => ListData::from_list(list, user_hides),
            PendingList::Saved(data) => ListData::from_data(data, user_hides),
        };
        let items = ld.items.as_ref().unwrap();
        let mut msgs: Vec<Message> = Vec::new();
        let n = items.len();
        for k in 0..n
            invariant
                n == items@.len(),
                msgs@.len() == k,
                forall|j: int|
                    0 <= j < k ==> (#[trigger] msgs@[j] matches Message::ItemMessage(
                        p,
                        ItemMessage::Load,
                    ) && first_position(items.deep_view(), items.deep_view()[j], p as int)),
        {
            let p = position_of(items, k);
            msgs.push(Message::ItemMessage(p, ItemMessage::Load));
        }
        self.list_data = Some(ld);
        self.page = Page::ListLoaded;
        Command::Dispatch(msgs)
    }
}

/// Checking a row off and then unchecking it (or the other way round)
/// gives the row back as it was; setting the same state twice is the same
/// as setting it once.
pub proof fn lemma_toggle_row_back(item: ItemModel, done: bool, icon_id: u64)
    ensures
        item_next(
            item_next(item, ItemMessage::Completed(!item.completed), icon_id),
            ItemMessage::Completed(item.completed),
            icon_id,
        ) == item,
        item_next(
            item_next(item, ItemMessage::Completed(done), icon_id),
            ItemMessage::Completed(done),
            icon_id,
        ) == item_next(item, ItemMessage::Completed(done), icon_id),
{
}

/// An icon that is loaded now is a new one: when every icon the rows hold
/// has a number below the count of loads, the row that receives the icon
/// differs from every other row, even from one for the same material in
/// the same state with the same image.
pub proof fn lemma_loaded_icon_is_fresh(
    items: Seq<ItemModel>,
    i: int,
    message: ItemMessage,
    loads: u64,
)
    requires
        0 <= i < items.len(),
        message is Loaded,
        forall|k: int|
            0 <= k < items.len() ==> ((#[trigger] items[k]).icon matches Some(ic) ==> ic.id
                < loads),
    ensures
        forall|k: int|
            0 <= k < items.len() && k != i ==> #[trigger] items.update(
                i,
                item_next(items[i], message, loads),
            )[k] != items.update(i, item_next(items[i], message, loads))[i],
{
    let after = items.update(i, item_next(items[i], message, loads));
    assert forall|k: int| 0 <= k < items.len() && k != i implies #[trigger] after[k] != after[i] by {
        assert(after[k] == items[k]);
        assert(after[i].icon matches Some(ic) && ic.id == loads);
    }
}

/// No message to a row changes which material it is for, so a row that
/// was not hidden stays not hidden.
pub proof fn lemma_row_messages_keep_material(
    item: ItemModel,
    message: ItemMessage,
    icon_id: u64,
)
    ensures
        item_next(item, message, icon_id).material == item.material,
{
}

/// Rows that hold no hidden item (as every row of a loaded list does,
/// however it was checked off or thinned out since) come back unchanged
/// when they are saved and loaded again with the same hidden items.
pub proof fn lemma_saved_rows_reload_unchanged(rows: Seq<ItemModel>, user_hides: Seq<Seq<char>>)
    requires
        forall|k: int|
            0 <= k < rows.len() ==> !is_hidden((#[trigger] rows[k]).material.item, user_hides),
    ensures
        rows.filter(kept_by(user_hides)) == rows,
    decreases rows.len(),
{
    if rows.len() > 0 {
        let init = rows.drop_last();
        assert forall|k: int| 0 <= k < init.len() implies !is_hidden(
            (#[trigger] init[k]).material.item,
            user_hides,
        ) by {
            assert(init[k] == rows[k]);
        }
        lemma_saved_rows_reload_unchanged(init, user_hides);
        assert(rows =~= init.push(rows.last()));
        assert(!is_hidden(rows[rows.len() - 1].material.item, user_hides));
        init.lemma_filter_push(rows.last(), kept_by(user_hides));
    } else {
        reveal(Seq::filter);
    }
}

/// What each message does to a row: checking sets only the completed
/// flag; a delivered icon sets only the icon, to those bytes with the given
/// number; asking for the icon and deleting leave the row as it is. The
/// material is never changed.
pub proof fn lemma_row_message_effects(item: ItemModel, icon_id: u64, done: bool, bytes: Vec<u8>)
    ensures
        item_next(item, ItemMessage::Completed(done), icon_id).completed == done,
        item_next(item, ItemMessage::Completed(done), icon_id).material == item.material,
        item_next(item, ItemMessage::Completed(done), icon_id).icon == item.icon,
        item_next(item, ItemMessage::Loaded(bytes), icon_id).completed == item.completed,
        item_next(item, ItemMessage::Loaded(bytes), icon_id).material == item.material,
        item_next(item, ItemMessage::Loaded(bytes), icon_id).icon == Some(
            IconModel { id: icon_id, bytes: bytes@ },
        ),
        item_next(item, ItemMessage::Load, icon_id) == item,
        item_next(item, ItemMessage::Delete, icon_id) == item,
{
}

} // verus!
