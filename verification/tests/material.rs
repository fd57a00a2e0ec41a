use litematica_json_parser::material_list::material::Material;
use litematica_json_parser::material_list::MaterialList;
use litematica_json_parser::text::decimal_string;

fn missing(amount: i32) -> String {
    Material { Item: "minecraft:stone".to_string(), Total: 9999, Missing: amount }.format_item_count()
}

#[test]
fn count_of_zero_is_zero() {
    assert_eq!(missing(0), "0");
}

#[test]
fn count_below_a_stack_is_items() {
    assert_eq!(missing(5), "5");
    assert_eq!(missing(63), "63");
}

#[test]
fn count_of_whole_stacks() {
    assert_eq!(missing(64), "1stx");
    assert_eq!(missing(128), "2stx");
}

#[test]
fn count_of_stacks_and_items() {
    assert_eq!(missing(70), "1stx + 6");
    assert_eq!(missing(1727), "26stx + 63");
}

#[test]
fn count_of_boxes_and_items() {
    assert_eq!(missing(1729), "1SB + 1");
}

#[test]
fn count_of_boxes_and_stacks() {
    assert_eq!(missing(1792), "1SB + 1stx");
}

#[test]
fn count_of_boxes_stacks_and_items() {
    assert_eq!(missing(1800), "1SB + 1stx + 8");
    assert_eq!(missing(2 * 1728 + 3 * 64 + 5), "2SB + 3stx + 5");
}

#[test]
fn count_of_whole_boxes_shows_only_items() {
    // Boxes with no stacks and no single items fall through to the last case.
    assert_eq!(missing(1728), "0");
    assert_eq!(missing(3456), "0");
}

#[test]
fn negative_count_shows_remainder() {
    assert_eq!(missing(-5), "-5");
    assert_eq!(missing(-100), "-36");
    assert_eq!(missing(i32::MIN), "0");
}

#[test]
fn largest_count() {
    let amount = i32::MAX;
    let boxes = amount / 64 / 27;
    let stacks = amount / 64 % 27;
    let items = amount % 64;
    assert_eq!(missing(amount), format!("{boxes}SB + {stacks}stx + {items}"));
}

#[test]
fn decimal_matches_display() {
    for n in [0, 1, 9, 10, 42, 100, 12345, -1, -10, -987, i32::MAX, i32::MIN] {
        assert_eq!(decimal_string(n), n.to_string());
    }
}

#[test]
fn material_list_clone_keeps_fields() {
    let list = MaterialList {
        Name: "House".to_string(),
        Multiplier: 2,
        Materials: vec![
            Material { Item: "minecraft:stone".to_string(), Total: 10, Missing: 3 },
            Material { Item: "minecraft:dirt".to_string(), Total: 4, Missing: 4 },
        ],
    };
    let copy = list.clone();
    assert_eq!(copy.Name, "House");
    assert_eq!(copy.Multiplier, 2);
    assert_eq!(copy.Materials.len(), 2);
    assert_eq!(copy.Materials[1].Item, "minecraft:dirt");
    assert_eq!(copy.Materials[0].Missing, 3);
}
