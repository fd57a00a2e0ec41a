use litematica_json_parser::application::SaveData;
use litematica_json_parser::material_list::material::Material;
use litematica_json_parser::material_list::MaterialList;
use litematica_json_parser::pages::list_loaded::{
    list_body, ListBody, empty_list_message, is_unobtainable, items_left, items_left_label, list_title, position_of,
    remove_auto_hides, shown_rows, Filter, ListData,
};
use litematica_json_parser::widgets::{has_item_path_of, icon_url, Item, ItemMessage};

fn mat(name: &str, missing: i32) -> Material {
    Material { Item: name.to_string(), Total: missing, Missing: missing }
}

fn item(name: &str, completed: bool) -> Item {
    let mut it = Item::new(mat(name, 1));
    it.completed = completed;
    it
}

fn names(items: &[Item]) -> Vec<String> {
    items.iter().map(|i| i.material.Item.clone()).collect()
}

fn list(items: &[&str]) -> MaterialList {
    MaterialList {
        Name: "Castle".to_string(),
        Multiplier: 1,
        Materials: items.iter().map(|n| mat(n, 10)).collect(),
    }
}

#[test]
fn filter_matches_by_completion() {
    let open = item("minecraft:stone", false);
    let done = item("minecraft:dirt", true);
    assert!(Filter::All.matches(&open) && Filter::All.matches(&done));
    assert!(Filter::Active.matches(&open) && !Filter::Active.matches(&done));
    assert!(!Filter::Completed.matches(&open) && Filter::Completed.matches(&done));
    assert_eq!(Filter::default(), Filter::All);
}

#[test]
fn unobtainable_blocks_are_known() {
    assert!(is_unobtainable(&"minecraft:bedrock".to_string()));
    assert!(is_unobtainable(&"minecraft:test_instance_block".to_string()));
    assert!(is_unobtainable(&"minecraft:light".to_string()));
    assert!(!is_unobtainable(&"minecraft:stone".to_string()));
    assert!(!is_unobtainable(&"minecraft:light_gray_wool".to_string()));
}

#[test]
fn auto_hides_drop_unobtainable_and_user_hidden() {
    let items = vec![
        item("minecraft:stone", false),
        item("minecraft:bedrock", false),
        item("minecraft:dirt", true),
        item("minecraft:glass", false),
        item("minecraft:barrier", true),
    ];
    let hides = vec!["minecraft:glass".to_string()];
    let kept = remove_auto_hides(items, &hides);
    assert_eq!(names(&kept), vec!["minecraft:stone", "minecraft:dirt"]);
    assert!(kept[1].completed);
}

#[test]
fn auto_hides_twice_change_nothing_more() {
    let items = vec![item("minecraft:stone", false), item("minecraft:vault", false), item("minecraft:sand", false)];
    let hides = vec!["minecraft:sand".to_string()];
    let once = remove_auto_hides(items, &hides);
    let once_names = names(&once);
    let twice = remove_auto_hides(once, &hides);
    assert_eq!(names(&twice), once_names);
}

#[test]
fn list_data_from_list_makes_fresh_rows() {
    let ld = ListData::from_list(list(&["minecraft:stone", "minecraft:jigsaw", "minecraft:oak_log"]), &vec![]);
    let items = ld.items.as_ref().unwrap();
    assert_eq!(names(items), vec!["minecraft:stone", "minecraft:oak_log"]);
    assert!(items.iter().all(|i| !i.completed && i.icon().is_none()));
    assert_eq!(ld.filter, Filter::All);
    assert_eq!(ld.list.as_ref().unwrap().Name, "Castle");
    assert_eq!(items_left(items), 2);
}

#[test]
fn list_data_from_saved_keeps_progress() {
    let data = SaveData {
        material_list: list(&["minecraft:stone", "minecraft:dirt"]),
        items: vec![item("minecraft:stone", true), item("minecraft:dirt", false), item("minecraft:farmland", false)],
    };
    let ld = ListData::from_data(data, &vec!["minecraft:dirt".to_string()]);
    let items = ld.items.as_ref().unwrap();
    assert_eq!(names(items), vec!["minecraft:stone"]);
    assert!(items[0].completed);
}

#[test]
fn shown_rows_follow_filter() {
    let items = vec![item("a:a", false), item("a:b", true), item("a:c", false), item("a:d", true)];
    assert_eq!(shown_rows(&items, Filter::All), vec![0, 1, 2, 3]);
    assert_eq!(shown_rows(&items, Filter::Active), vec![0, 2]);
    assert_eq!(shown_rows(&items, Filter::Completed), vec![1, 3]);
    assert_eq!(items_left(&items), 2);
}

#[test]
fn shown_rows_of_equal_rows_go_to_first() {
    let items = vec![item("a:x", false), item("a:y", false), item("a:x", false)];
    assert_eq!(shown_rows(&items, Filter::All), vec![0, 1, 0]);
    assert_eq!(position_of(&items, 2), 0);
    assert_eq!(position_of(&items, 1), 1);
}

#[test]
fn texts_of_the_page() {
    assert_eq!(items_left_label(1), "1 item left");
    assert_eq!(items_left_label(0), "0 items left");
    assert_eq!(items_left_label(12), "12 items left");
    assert_eq!(empty_list_message(Filter::All), "No items in list...");
    assert_eq!(empty_list_message(Filter::Active), "All items completed! :D");
    assert_eq!(empty_list_message(Filter::Completed), "You have not completed any items yet...");
    assert_eq!(list_title(&list(&[])), "Material List for: Castle");
}

#[test]
fn icon_url_capitalizes_words() {
    assert_eq!(icon_url("minecraft:oak_planks"), "https://minecraft.wiki/images/Invicon_Oak_Planks.png");
    assert_eq!(icon_url("minecraft:stone"), "https://minecraft.wiki/images/Invicon_Stone.png");
    assert_eq!(icon_url("mod:a:b"), "https://minecraft.wiki/images/Invicon_A.png");
    assert_eq!(icon_url("x::y"), "https://minecraft.wiki/images/Invicon_.png");
    assert_eq!(icon_url("minecraft:end_"), "https://minecraft.wiki/images/Invicon_End_.png");
    assert_eq!(icon_url("m:1_a"), "https://minecraft.wiki/images/Invicon_1_A.png");
}

#[test]
fn item_update_changes_row() {
    let mut it = item("minecraft:stone", false);
    let mut loads: u64 = 5;
    it.update(ItemMessage::Completed(true), 3, &mut loads);
    assert!(it.completed);
    assert_eq!(loads, 5);
    it.update(ItemMessage::Loaded(vec![1, 2, 3]), 3, &mut loads);
    assert_eq!(it.icon().unwrap().bytes, vec![1u8, 2, 3]);
    assert_eq!(it.icon().unwrap().id, 5);
    assert_eq!(loads, 6);
    let before = it.clone();
    it.update(ItemMessage::Delete, 3, &mut loads);
    assert!(it.same_as(&before));
    assert!(!it.same_as(&item("minecraft:stone", true)));
}

#[test]
fn item_path_presence() {
    assert!(has_item_path_of("minecraft:stone"));
    assert!(has_item_path_of("a::b"));
    assert!(!has_item_path_of("stone"));
    assert!(!has_item_path_of("minecraft:"));
    assert!(!has_item_path_of(""));
    assert!(has_item_path_of("m:x:"));
}

#[test]
fn rows_left_and_completed_add_up() {
    let mut items = vec![item("a:a", false), item("a:b", true), item("a:c", false)];
    let all = shown_rows(&items, Filter::All).len();
    let left = shown_rows(&items, Filter::Active).len();
    let done = shown_rows(&items, Filter::Completed).len();
    assert_eq!(all, 3);
    assert_eq!(left + done, all);
    assert_eq!(items_left(&items), left);
    items[0].update(ItemMessage::Completed(true), 0, &mut 0);
    assert_eq!(items_left(&items), 0 + 1);
    items[0].update(ItemMessage::Completed(false), 0, &mut 0);
    assert_eq!(items_left(&items), 2);
    items[0].update(ItemMessage::Completed(false), 0, &mut 0);
    assert_eq!(items_left(&items), 2);
}

#[test]
fn rows_loaded_separately_stay_apart() {
    let mut items = vec![item("a:x", false), item("a:x", false)];
    let mut loads: u64 = 0;
    assert_eq!(shown_rows(&items, Filter::All), vec![0, 0]);
    items[0].update(ItemMessage::Loaded(vec![9]), 0, &mut loads);
    items[1].update(ItemMessage::Loaded(vec![9]), 1, &mut loads);
    assert!(!items[0].same_as(&items[1]));
    assert_eq!(shown_rows(&items, Filter::All), vec![0, 1]);
    let copy = items[1].clone();
    assert!(copy.same_as(&items[1]));
}

#[test]
fn icon_load_count_wraps() {
    let mut it = item("a:x", false);
    let mut loads = u64::MAX;
    it.update(ItemMessage::Loaded(vec![]), 0, &mut loads);
    assert_eq!(it.icon().unwrap().id, u64::MAX);
    assert_eq!(loads, 0);
}

#[test]
fn list_body_rows_or_message() {
    let items = vec![item("a:a", false), item("a:b", false)];
    match list_body(&items, Filter::Completed) {
        ListBody::Empty(m) => assert_eq!(m, "You have not completed any items yet..."),
        _ => panic!("expected the empty-page text"),
    }
    match list_body(&items, Filter::Active) {
        ListBody::Rows(rows) => assert_eq!(rows, vec![0, 1]),
        _ => panic!("expected rows"),
    }
    match list_body(&vec![], Filter::All) {
        ListBody::Empty(m) => assert_eq!(m, "No items in list..."),
        _ => panic!("expected the empty-page text"),
    }
}
