use litematica_json_parser::application::{
    save_file_name, App, Command, Message, Page, PendingList, SaveData,
};
use litematica_json_parser::material_list::material::Material;
use litematica_json_parser::material_list::MaterialList;
use litematica_json_parser::pages::list_loaded::Filter;
use litematica_json_parser::pages::page_list_loaded::{PageChange, PageListLoaded, PageListLoadedMessage};
use litematica_json_parser::pages::page_preload::{PagePreload, PagePreloadMessage};
use litematica_json_parser::pages::preload::{collect_lists, PreloadData};
use litematica_json_parser::widgets::{Item, ItemMessage, ListPreview};

fn mat(name: &str) -> Material {
    Material { Item: name.to_string(), Total: 5, Missing: 5 }
}

fn list(items: &[&str]) -> MaterialList {
    MaterialList { Name: "Tower".to_string(), Multiplier: 1, Materials: items.iter().map(|n| mat(n)).collect() }
}

fn loaded_app(items: &[&str]) -> App {
    let mut app = App::new(PreloadData::new(None));
    let cmd = app.update(Message::LoadList(list(items)));
    let pending = match cmd {
        Command::ReadUserHides(p) => p,
        _ => panic!("expected a request for the user's hidden items"),
    };
    let cmd = app.finish_loading(pending, &vec![]);
    match cmd {
        Command::Dispatch(msgs) => assert_eq!(msgs.len(), app.list_data.as_ref().unwrap().items.as_ref().unwrap().len()),
        _ => panic!("expected icon requests"),
    }
    app
}

fn rows(app: &App) -> Vec<(String, bool)> {
    app.list_data.as_ref().unwrap().items.as_ref().unwrap().iter().map(|i| (i.material.Item.clone(), i.completed)).collect()
}

#[test]
fn app_starts_on_preload() {
    let app = App::new(PreloadData::default());
    assert_eq!(app.page, Page::Preload);
    assert!(app.list_data.is_none());
}

#[test]
fn loading_a_list_shows_it_and_requests_icons() {
    let mut app = App::new(PreloadData::new(None));
    let cmd = app.update(Message::LoadList(list(&["minecraft:stone", "minecraft:bedrock", "minecraft:dirt"])));
    assert_eq!(app.page, Page::Preload);
    let pending = match cmd {
        Command::ReadUserHides(p) => p,
        _ => panic!("expected ReadUserHides"),
    };
    let cmd = app.finish_loading(pending, &vec!["minecraft:dirt".to_string()]);
    assert_eq!(app.page, Page::ListLoaded);
    assert_eq!(rows(&app), vec![("minecraft:stone".to_string(), false)]);
    match cmd {
        Command::Dispatch(msgs) => {
            assert_eq!(msgs.len(), 1);
            assert!(matches!(msgs[0], Message::ItemMessage(0, ItemMessage::Load)));
        }
        _ => panic!("expected Dispatch"),
    }
}

#[test]
fn loading_a_saved_list_keeps_progress() {
    let mut app = App::new(PreloadData::new(None));
    let mut done = Item::new(mat("minecraft:stone"));
    done.completed = true;
    let data = SaveData { material_list: list(&["minecraft:stone", "minecraft:sand"]), items: vec![done, Item::new(mat("minecraft:sand"))] };
    let pending = match app.update(Message::LoadSavedList(data)) {
        Command::ReadUserHides(p @ PendingList::Saved(_)) => p,
        _ => panic!("expected ReadUserHides"),
    };
    app.finish_loading(pending, &vec![]);
    assert_eq!(rows(&app), vec![("minecraft:stone".to_string(), true), ("minecraft:sand".to_string(), false)]);
}

#[test]
fn duplicate_rows_request_first_position() {
    let mut app = App::new(PreloadData::new(None));
    let pending = match app.update(Message::LoadList(list(&["a:x", "a:y", "a:x"]))) {
        Command::ReadUserHides(p) => p,
        _ => panic!(),
    };
    match app.finish_loading(pending, &vec![]) {
        Command::Dispatch(msgs) => {
            let idx: Vec<usize> = msgs.iter().map(|m| match m { Message::ItemMessage(i, ItemMessage::Load) => *i, _ => panic!() }).collect();
            assert_eq!(idx, vec![0, 1, 0]);
        }
        _ => panic!(),
    }
}

#[test]
fn item_messages_change_rows() {
    let mut app = loaded_app(&["minecraft:stone", "minecraft:dirt"]);
    assert!(matches!(app.update(Message::ItemMessage(1, ItemMessage::Completed(true))), Command::Nothing));
    assert_eq!(rows(&app), vec![("minecraft:stone".to_string(), false), ("minecraft:dirt".to_string(), true)]);
    match app.update(Message::ItemMessage(0, ItemMessage::Load)) {
        Command::LoadIcon { item_name, index } => {
            assert_eq!(item_name, "minecraft:stone");
            assert_eq!(index, 0);
        }
        _ => panic!("expected LoadIcon"),
    }
    assert!(matches!(app.update(Message::ItemMessage(5, ItemMessage::Completed(true))), Command::Nothing));
    app.update(Message::ItemMessage(0, ItemMessage::Loaded(vec![7])));
    let icon = app.list_data.as_ref().unwrap().items.as_ref().unwrap()[0].icon().unwrap();
    assert_eq!(icon.bytes, vec![7u8]);
    assert_eq!(icon.id, 0);
    assert_eq!(app.icon_loads, 1);
    app.update(Message::ItemMessage(0, ItemMessage::Delete));
    assert_eq!(rows(&app), vec![("minecraft:dirt".to_string(), true)]);
}

#[test]
fn tupled_and_loaded_messages_are_dispatched() {
    let mut app = loaded_app(&["minecraft:stone"]);
    match app.update(Message::TupledItemMessage((0, ItemMessage::Completed(true)))) {
        Command::Dispatch(msgs) => {
            assert_eq!(msgs.len(), 1);
            assert!(matches!(msgs[0], Message::ItemMessage(0, ItemMessage::Completed(true))));
        }
        _ => panic!(),
    }
    match app.update(Message::ListLoaded(Ok(list(&["minecraft:sand"])))) {
        Command::Dispatch(msgs) => assert!(matches!(&msgs[0], Message::LoadList(l) if l.Materials[0].Item == "minecraft:sand")),
        _ => panic!(),
    }
    assert!(matches!(app.update(Message::LoadNewList), Command::OpenListDialog));
    assert!(matches!(app.update(Message::OpenListsFolder), Command::OpenListsFolder));
    assert!(matches!(app.update(Message::FileCancelled), Command::Nothing));
    assert!(matches!(app.update(Message::PageLoaded), Command::Nothing));
}

#[test]
fn filter_change_keeps_rows() {
    let mut app = loaded_app(&["minecraft:stone", "minecraft:dirt"]);
    app.update(Message::FilterChanged(Filter::Completed));
    assert_eq!(app.list_data.as_ref().unwrap().filter, Filter::Completed);
    assert_eq!(rows(&app).len(), 2);
    let mut empty = App::new(PreloadData::new(None));
    empty.update(Message::FilterChanged(Filter::Active));
    assert!(empty.list_data.is_none());
}

#[test]
fn exit_hands_over_rows_to_save() {
    let mut app = loaded_app(&["minecraft:stone", "minecraft:dirt"]);
    app.update(Message::ItemMessage(0, ItemMessage::Completed(true)));
    match app.update(Message::ExitListButtonPressed) {
        Command::SaveAndReloadLists { items, list } => {
            assert_eq!(list.Name, "Tower");
            assert_eq!(items.len(), 2);
            assert!(items[0].completed && !items[1].completed);
        }
        _ => panic!("expected SaveAndReloadLists"),
    }
    assert_eq!(app.page, Page::Preload);
    assert!(app.list_data.is_none());
    assert!(matches!(app.update(Message::ExitListButtonPressed), Command::Nothing));
}

#[test]
fn accepts_rejects_what_would_fail() {
    let app = App::new(PreloadData::new(None));
    assert!(!app.accepts(&Message::ItemMessage(0, ItemMessage::Delete)));
    assert!(app.accepts(&Message::ItemMessage(0, ItemMessage::Load)));
    assert!(!app.accepts(&Message::ListLoaded(Err(std::fmt::Error))));
    assert!(app.accepts(&Message::ExitListButtonPressed));
    let loaded = loaded_app(&["minecraft:stone"]);
    assert!(loaded.accepts(&Message::ItemMessage(0, ItemMessage::Delete)));
    assert!(!loaded.accepts(&Message::ItemMessage(1, ItemMessage::Delete)));
}

#[test]
fn save_file_is_named_after_list() {
    assert_eq!(save_file_name(&list(&[])), "Tower.json");
}

#[test]
fn preload_previews_follow_lists() {
    let data = SaveData { material_list: list(&["a:b"]), items: vec![] };
    let pre = PreloadData::new(Some(vec![data.clone(), data]));
    assert_eq!(pre.list_previews.as_ref().unwrap().len(), 2);
    assert!(PreloadData::new(None).list_previews.is_none());
    assert!(collect_lists(vec![]).is_none());
    let one = SaveData { material_list: list(&[]), items: vec![] };
    assert_eq!(collect_lists(vec![one]).unwrap().len(), 1);
    let preview = ListPreview::new(SaveData { material_list: list(&[]), items: vec![] });
    assert_eq!(preview.data.material_list.Name, "Tower");
}

#[test]
fn list_page_object_updates() {
    let mut page = PageListLoaded::from_list(list(&["minecraft:stone", "minecraft:bedrock"]));
    assert_eq!(page.items.as_ref().unwrap().len(), 2);
    assert!(page.update(Message::ItemMessage(1, ItemMessage::Completed(true))).is_none());
    assert!(page.items.as_ref().unwrap()[1].completed);
    match page.update(Message::PageListLoaded(PageListLoadedMessage::ExitButtonPressed)) {
        Some(PageChange::ToPreload { items, list }) => {
            assert_eq!(items.len(), 2);
            assert_eq!(list.Name, "Tower");
        }
        _ => panic!("expected ToPreload"),
    }
    assert!(!PageListLoaded::new().accepts(&Message::ItemMessage(0, ItemMessage::Load)));
    let saved = PageListLoaded::from_data(SaveData { material_list: list(&[]), items: vec![Item::new(mat("a:b"))] });
    assert_eq!(saved.items.as_ref().unwrap().len(), 1);
}

#[test]
fn start_page_object_updates() {
    let mut page = PagePreload::new(vec![list(&["a:b"])]);
    match page.update(Message::PagePreload(PagePreloadMessage::LoadList(list(&["a:c", "a:d"])))) {
        Some(PageChange::ToListLoaded(p)) => assert_eq!(p.items.as_ref().unwrap().len(), 2),
        _ => panic!("expected ToListLoaded"),
    }
    match page.update(Message::PagePreload(PagePreloadMessage::ButtonPressed)) {
        Some(PageChange::ToListLoaded(p)) => assert!(p.items.is_none() && p.list.is_none()),
        _ => panic!("expected ToListLoaded"),
    }
    assert!(page.update(Message::LoadNewList).is_none());
    assert_eq!(page.lists.as_ref().unwrap().len(), 1);
}

#[test]
fn saved_rows_reload_unchanged() {
    let hides = vec!["minecraft:sand".to_string()];
    let mut app = App::new(PreloadData::new(None));
    let pending = match app.update(Message::LoadList(list(&["minecraft:stone", "minecraft:sand", "minecraft:dirt"]))) {
        Command::ReadUserHides(p) => p,
        _ => panic!(),
    };
    app.finish_loading(pending, &hides);
    app.update(Message::ItemMessage(1, ItemMessage::Completed(true)));
    let (items, saved_list) = match app.update(Message::ExitListButtonPressed) {
        Command::SaveAndReloadLists { items, list } => (items, list),
        _ => panic!(),
    };
    let before: Vec<(String, bool)> = items.iter().map(|i| (i.material.Item.clone(), i.completed)).collect();
    let pending = match app.update(Message::LoadSavedList(SaveData { material_list: saved_list, items })) {
        Command::ReadUserHides(p) => p,
        _ => panic!(),
    };
    app.finish_loading(pending, &hides);
    assert_eq!(rows(&app), before);
    assert_eq!(before, vec![("minecraft:stone".to_string(), false), ("minecraft:dirt".to_string(), true)]);
}

#[test]
fn start_page_object_previews_lists() {
    let empty = PagePreload::new(vec![]);
    assert!(empty.lists.is_none() && empty.list_previews.is_none());
    let page = PagePreload::new(vec![list(&["a:b", "a:c"]), list(&["a:d"])]);
    assert_eq!(page.lists.as_ref().unwrap().len(), 2);
    let previews = page.list_previews.as_ref().unwrap();
    assert_eq!(previews.len(), 2);
    assert_eq!(previews[0].data.material_list.Name, "Tower");
    assert_eq!(previews[0].data.items.len(), 2);
    assert!(previews[0].data.items.iter().all(|i| !i.completed));
    assert_eq!(previews[1].data.items[0].material.Item, "a:d");
}

#[test]
fn message_clone_is_same_message() {
    let m = Message::ItemMessage(3, ItemMessage::Loaded(vec![1, 2]));
    match m.clone() {
        Message::ItemMessage(3, ItemMessage::Loaded(b)) => assert_eq!(b, vec![1, 2]),
        _ => panic!("clone changed the message"),
    }
    match Message::PagePreload(PagePreloadMessage::LoadList(list(&["a:b"]))).clone() {
        Message::PagePreload(PagePreloadMessage::LoadList(l)) => assert_eq!(l.Materials[0].Item, "a:b"),
        _ => panic!("clone changed the message"),
    }
    assert!(matches!(Message::FilterChanged(Filter::Active).clone(), Message::FilterChanged(Filter::Active)));
}
