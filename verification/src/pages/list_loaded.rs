//! The page of a loaded material list: which rows it keeps, which it shows,
//! and the texts around them.
use vstd::prelude::*;

use crate::application::{item_next, SaveData, SaveDataModel};
use crate::material_list::material::MaterialModel;
use crate::material_list::{MaterialList, MaterialListModel};
use crate::text::push_digits;
use crate::widgets::{fresh_item, Item, ItemMessage, ItemModel};

verus! {

/// Which rows of the list are shown.
#[derive(Clone, Copy, PartialEq, Eq, Structural, Debug)]
pub enum Filter {
    All,
    Active,
    Completed,
}

impl Default for Filter {
    fn default() -> (f: Filter)
        ensures
            f == Filter::All,
    {
        Filter::All
    }
}

/// Whether `filter` shows a row.
pub open spec fn shows(filter: Filter, item: ItemModel) -> bool {
    match filter {
        Filter::All => true,
        Filter::Active => !item.completed,
        Filter::Completed => item.completed,
    }
}

/// [`shows`] as a predicate on rows.
pub open spec fn shown_by(filter: Filter) -> spec_fn(ItemModel) -> bool {
    |item: ItemModel| shows(filter, item)
}

impl Filter {
    /// Whether this filter shows `item`.
    pub fn matches(self, item: &Item) -> (r: bool)
        ensures
            r == shows(self, item@),
    {
        match self {
            Filter::All => true,
            Filter::Active => !item.completed,
            Filter::Completed => item.completed,
        }
    }
}

// ---------------------------------------------------------------------------
// Rows that are hidden automatically
// ---------------------------------------------------------------------------

/// Blocks that cannot be obtained in survival play; rows for them are
/// dropped from every list.
pub open spec fn unobtainable_names() -> Seq<Seq<char>> {
    seq![
        "minecraft:bedrock"@,
        "minecraft:budding_amethyst"@,
        "minecraft:chorus_plant"@,
        "minecraft:end_gateway"@,
        "minecraft:end_portal"@,
        "minecraft:end_portal_frame"@,
        "minecraft:farmland"@,
        "minecraft:frog_spawn"@,
        "minecraft:infested_stone"@,
        "minecraft:infested_cobblestone"@,
        "minecraft:infested_stone_bricks"@,
        "minecraft:infested_mossy_stone_bricks"@,
        "minecraft:infested_cracked_stone_bricks"@,
        "minecraft:infested_chiseled_stone_bricks"@,
        "minecraft:infested_deepslate"@,
        "minecraft:mob_spawner"@,
        "minecraft:reinforced_deepslate"@,
        "minecraft:trial_spawner"@,
        "minecraft:vault"@,
        "minecraft:barrier"@,
        "minecraft:command_block"@,
        "minecraft:chain_command_block"@,
        "minecraft:repeating_command_block"@,
        "minecraft:jigsaw"@,
        "minecraft:light"@,
        "minecraft:petrified_oak_slab"@,
        "minecraft:structure_block"@,
        "minecraft:structure_void"@,
        "minecraft:test_block"@,
        "minecraft:test_instance_block"@,
    ]
}

/// Number of unobtainable blocks.
pub const UNOBTAINABLE_COUNT: usize = 30;

/// The unobtainable block at position `i`.
fn unobtainable_name(i: usize) -> (name: &'static str)
    requires
        i < 30,
    ensures
        name@ == unobtainable_names()[i as int],
{
    match i {
        0 => "minecraft:bedrock",
        1 => "minecraft:budding_amethyst",
        2 => "minecraft:chorus_plant",
        3 => "minecraft:end_gateway",
        4 => "minecraft:end_portal",
        5 => "minecraft:end_portal_frame",
        6 => "minecraft:farmland",
        7 => "minecraft:frog_spawn",
        8 => "minecraft:infested_stone",
        9 => "minecraft:infested_cobblestone",
        10 => "minecraft:infested_stone_bricks",
        11 => "minecraft:infested_mossy_stone_bricks",
        12 => "minecraft:infested_cracked_stone_bricks",
        13 => "minecraft:infested_chiseled_stone_bricks",
        14 => "minecraft:infested_deepslate",
        15 => "minecraft:mob_spawner",
        16 => "minecraft:reinforced_deepslate",
        17 => "minecraft:trial_spawner",
        18 => "minecraft:vault",
        19 => "minecraft:barrier",
        20 => "minecraft:command_block",
        21 => "minecraft:chain_command_block",
        22 => "minecraft:repeating_command_block",
        23 => "minecraft:jigsaw",
        24 => "minecraft:light",
        25 => "minecraft:petrified_oak_slab",
        26 => "minecraft:structure_block",
        27 => "minecraft:structure_void",
        28 => "minecraft:test_block",
        _ => "minecraft:test_instance_block",
    }
}

/// Whether `name` is one of the unobtainable blocks.
pub fn is_unobtainable(name: &String) -> (r: bool)
    ensures
        r == unobtainable_names().contains(name@),
{
    for i in 0..UNOBTAINABLE_COUNT
        invariant
            forall|j: int| 0 <= j < i ==> unobtainable_names()[j] != name@,
    {
        let candidate = String::from_str(unobtainable_name(i));
        if candidate == *name {
            assert(unobtainable_names()[i as int] == name@);
            return true;
        }
    }
    assert(unobtainable_names().len() == 30);
    false
}

/// Whether `name` occurs in `names`.
fn contains_name(names: &Vec<String>, name: &String) -> (r: bool)
    ensures
        r == names.deep_view().contains(name@),
{
    let n = names.len();
    for i in 0..n
        invariant
            n == names@.len(),
            forall|j: int| 0 <= j < i ==> names@[j]@ != name@,
    {
        if names[i] == *name {
            assert(names.deep_view()[i as int] == name@);
            return true;
        }
    }
    proof {
        if names.deep_view().contains(name@) {
            let k = choose|k: int| 0 <= k < names.deep_view().len() && names.deep_view()[k] == name@;
            assert(names@[k]@ == name@);
        }
    }
    false
}

/// Whether a row for item `name` is hidden: the block is unobtainable, or
/// the user listed it among the items to hide.
pub open spec fn is_hidden(name: Seq<char>, user_hides: Seq<Seq<char>>) -> bool {
    unobtainable_names().contains(name) || user_hides.contains(name)
}

/// The rows that stay when `user_hides` are hidden.
pub open spec fn kept_by(user_hides: Seq<Seq<char>>) -> spec_fn(ItemModel) -> bool {
    |item: ItemModel| !is_hidden(item.material.item, user_hides)
}

/// Drops the rows of unobtainable blocks and of the items in `user_hides`,
/// keeping the order of the others.
pub fn remove_auto_hides(items: Vec<Item>, user_hides: &Vec<String>) -> (r: Vec<Item>)
    ensures
        r.deep_view() == items.deep_view().filter(kept_by(user_hides.deep_view())),
{
    let ghost keep = kept_by(user_hides.deep_view());
    let mut r: Vec<Item> = Vec::new();
    let n = items.len();
    for i in 0..n
        invariant
            n == items@.len(),
            keep == kept_by(user_hides.deep_view()),
            r.deep_view() == items.deep_view().take(i as int).filter(keep),
    {
        let item = &items[i];
        let hidden = is_unobtainable(&item.material.Item) || contains_name(
            user_hides,
            &item.material.Item,
        );
        let ghost before = r.deep_view();
        if !hidden {
            r.push(item.clone());
        }
        proof {
            let s = items.deep_view();
            assert(s.take(i + 1) =~= s.take(i as int).push(s[i as int]));
            s.take(i as int).lemma_filter_push(s[i as int], keep);
            assert(r.deep_view() =~= s.take(i + 1).filter(keep));
        }
    }
    assert(items.deep_view().take(n as int) =~= items.deep_view());
    r
}

// ---------------------------------------------------------------------------
// The data of the page
// ---------------------------------------------------------------------------

/// A loaded list, its rows and the filter that chooses which are shown.
#[derive(Debug)]
pub struct ListData {
    pub list: Option<MaterialList>,
    pub items: Option<Vec<Item>>,
    pub filter: Filter,
}

/// Mathematical model of a [`ListData`].
#[verifier::ext_equal]
pub struct ListDataModel {
    pub list: Option<MaterialListModel>,
    pub items: Option<Seq<ItemModel>>,
    pub filter: Filter,
}

impl View for ListData {
    type V = ListDataModel;

    open spec fn view(&self) -> ListDataModel {
        ListDataModel {
            list: match self.list {
                Some(l) => Some(l@),
                None => None,
            },
            items: match self.items {
                Some(v) => Some(v.deep_view()),
                None => None,
            },
            filter: self.filter,
        }
    }
}

/// One fresh row for each material, in order.
pub open spec fn fresh_items(materials: Seq<MaterialModel>) -> Seq<ItemModel> {
    materials.map_values(|m: MaterialModel| fresh_item(m))
}

/// The rows of a list as it was just read, with the hidden ones removed.
pub open spec fn rows_of_list(list: MaterialListModel, user_hides: Seq<Seq<char>>) -> Seq<
    ItemModel,
> {
    fresh_items(list.materials).filter(kept_by(user_hides))
}

/// One fresh row for each material of `list`.
pub fn fresh_rows(list: &MaterialList) -> (r: Vec<Item>)
    ensures
        r.deep_view() == fresh_items(list@.materials),
{
    let mut r: Vec<Item> = Vec::new();
    let n = list.Materials.len();
    for i in 0..n
        invariant
            n == list.Materials@.len(),
            r@.len() == i,
            forall|j: int| 0 <= j < i ==> (#[trigger] r@[j])@ == fresh_item(list.Materials@[j]@),
    {
        r.push(Item::new(list.Materials[i].clone()));
    }
    assert(r.deep_view() =~= fresh_items(list@.materials));
    r
}

impl ListData {
    /// The page data for a saved list: its rows as saved, less the hidden
    /// ones, all shown.
    pub fn from_data(data: SaveData, user_hides: &Vec<String>) -> (r: ListData)
        ensures
            r@ == (ListDataModel {
                list: Some(data@.material_list),
                items: Some(data@.items.filter(kept_by(user_hides.deep_view()))),
                filter: Filter::All,
            }),
    {
        let items = remove_auto_hides(data.items, user_hides);
        ListData { list: Some(data.material_list), items: Some(items), filter: Filter::All }
    }

    /// The page data for a list that was just read: a fresh row for each of
    /// its materials, less the hidden ones, all shown.
    pub fn from_list(material_list: MaterialList, user_hides: &Vec<String>) -> (r: ListData)
        ensures
            r@ == (ListDataModel {
                list: Some(material_list@),
                items: Some(rows_of_list(material_list@, user_hides.deep_view())),
                filter: Filter::All,
            }),
    {
        let rows = fresh_rows(&material_list);
        let items = remove_auto_hides(rows, user_hides);
        ListData { list: Some(material_list), items: Some(items), filter: Filter::All }
    }
}

// ---------------------------------------------------------------------------
// What the page shows
// ---------------------------------------------------------------------------

/// `k` is the first position of `x` in `s`.
pub open spec fn first_position<A>(s: Seq<A>, x: A, k: int) -> bool {
    &&& 0 <= k < s.len()
    &&& s[k] == x
    &&& forall|j: int| 0 <= j < k ==> s[j] != x
}

/// The first position at which `items` holds a row equal to `items[at]`.
pub fn position_of(items: &Vec<Item>, at: usize) -> (k: usize)
    requires
        at < items@.len(),
    ensures
        first_position(items.deep_view(), items.deep_view()[at as int], k as int),
{
    let mut k: usize = 0;
    while k < at
        invariant
            k <= at < items@.len(),
            forall|j: int| 0 <= j < k ==> items.deep_view()[j] != items.deep_view()[at as int],
        decreases at - k,
    {
        if items[k].same_as(&items[at]) {
            return k;
        }
        k = k + 1;
    }
    k
}

/// For each row that `filter` shows, in order, the position its messages
/// are addressed to: the first position of a row equal to it.
pub fn shown_rows(items: &Vec<Item>, filter: Filter) -> (rows: Vec<usize>)
    ensures
        rows@.len() == items.deep_view().filter(shown_by(filter)).len(),
        forall|k: int|
            0 <= k < rows@.len() ==> first_position(
                items.deep_view(),
                items.deep_view().filter(shown_by(filter))[k],
                #[trigger] rows@[k] as int,
            ),
{
    let ghost s = items.deep_view();
    let ghost pred = shown_by(filter);
    let mut rows: Vec<usize> = Vec::new();
    let n = items.len();
    for i in 0..n
        invariant
            n == items@.len(),
            s == items.deep_view(),
            pred == shown_by(filter),
            rows@.len() == s.take(i as int).filter(pred).len(),
            forall|k: int|
                0 <= k < rows@.len() ==> first_position(
                    s,
                    s.take(i as int).filter(pred)[k],
                    #[trigger] rows@[k] as int,
                ),
    {
        proof {
            assert(s.take(i + 1) =~= s.take(i as int).push(s[i as int]));
            s.take(i as int).lemma_filter_push(s[i as int], pred);
        }
        if filter.matches(&items[i]) {
            let k = position_of(items, i);
            rows.push(k);
        }
    }
    assert(s.take(n as int) =~= s);
    rows
}

/// The body of the list page.
#[derive(Debug)]
pub enum ListBody {
    /// The rows to show, each given by the position its messages go to
    /// (see [`shown_rows`]).
    Rows(Vec<usize>),
    /// No row is shown; this text is shown instead.
    Empty(&'static str),
}

/// The body of the list page: the rows `filter` shows, or the text for an
/// empty page when it shows none.
pub fn list_body(items: &Vec<Item>, filter: Filter) -> (body: ListBody)
    ensures
        items.deep_view().filter(shown_by(filter)).len() == 0 ==> (body matches ListBody::Empty(
            s,
        ) && s@ == empty_text(filter)),
        items.deep_view().filter(shown_by(filter)).len() > 0 ==> (body matches ListBody::Rows(
            rows,
        ) && rows@.len() == items.deep_view().filter(shown_by(filter)).len() && forall|k: int|
            0 <= k < rows@.len() ==> first_position(
                items.deep_view(),
                items.deep_view().filter(shown_by(filter))[k],
                #[trigger] rows@[k] as int,
            )),
{
    let rows = shown_rows(items, filter);
    if rows.len() > 0 {
        ListBody::Rows(rows)
    } else {
        ListBody::Empty(empty_list_message(filter))
    }
}

/// Number of rows not completed yet.
pub open spec fn count_left(items: Seq<ItemModel>) -> nat {
    items.filter(shown_by(Filter::Active)).len()
}

/// How many rows are not completed yet.
pub fn items_left(items: &Vec<Item>) -> (n: usize)
    ensures
        n == count_left(items.deep_view()),
{
    let ghost s = items.deep_view();
    let ghost pred = shown_by(Filter::Active);
    let mut n: usize = 0;
    let len = items.len();
    for i in 0..len
        invariant
            len == items@.len(),
            s == items.deep_view(),
            pred == shown_by(Filter::Active),
            n == s.take(i as int).filter(pred).len(),
            n <= i,
    {
        proof {
            assert(s.take(i + 1) =~= s.take(i as int).push(s[i as int]));
            s.take(i as int).lemma_filter_push(s[i as int], pred);
        }
        if !items[i].completed {
            n = n + 1;
        }
    }
    assert(s.take(len as int) =~= s);
    n
}

/// The line above the progress bar: `1 item left`, `3 items left`.
pub open spec fn items_left_text(n: int) -> Seq<char> {
    crate::text::decimal(n) + if n == 1 {
        " item left"@
    } else {
        " items left"@
    }
}

/// The line above the progress bar for `n` rows left.
pub fn items_left_label(n: usize) -> (s: String)
    ensures
        s@ == items_left_text(n as int),
{
    let mut s = String::new();
    push_digits(&mut s, n as u64);
    if n == 1 {
        s.append(" item left");
    } else {
        s.append(" items left");
    }
    s
}

/// What the page says when `filter` shows no row.
pub open spec fn empty_text(filter: Filter) -> Seq<char> {
    match filter {
        Filter::All => "No items in list..."@,
        Filter::Active => "All items completed! :D"@,
        Filter::Completed => "You have not completed any items yet..."@,
    }
}

/// What the page says when `filter` shows no row.
pub fn empty_list_message(filter: Filter) -> (s: &'static str)
    ensures
        s@ == empty_text(filter),
{
    match filter {
        Filter::All => "No items in list...",
        Filter::Active => "All items completed! :D",
        Filter::Completed => "You have not completed any items yet...",
    }
}

/// The page's heading for a list named `name`.
pub open spec fn title_text(name: Seq<char>) -> Seq<char> {
    "Material List for: "@ + name
}

/// The page's heading for `list`.
pub fn list_title(list: &MaterialList) -> (s: String)
    ensures
        s@ == title_text(list@.name),
{
    let mut s = String::from_str("Material List for: ");
    s.append(list.Name.as_str());
    s
}

// ---------------------------------------------------------------------------
// Laws
// ---------------------------------------------------------------------------

/// Replacing one element changes how many elements a filter keeps only by
/// that element.
pub proof fn lemma_filter_update_len<A>(s: Seq<A>, i: int, x: A, p: spec_fn(A) -> bool)
    requires
        0 <= i < s.len(),
    ensures
        s.update(i, x).filter(p).len() == s.filter(p).len() - (if p(s[i]) {
            1int
        } else {
            0int
        }) + (if p(x) {
            1int
        } else {
            0int
        }),
    decreases s.len(),
{
    let t = s.update(i, x);
    let init = s.drop_last();
    assert(s =~= init.push(s.last()));
    init.lemma_filter_push(s.last(), p);
    if i == s.len() - 1 {
        assert(t =~= init.push(x));
        init.lemma_filter_push(x, p);
    } else {
        lemma_filter_update_len(init, i, x, p);
        assert(t =~= init.update(i, x).push(s.last()));
        init.update(i, x).lemma_filter_push(s.last(), p);
    }
}

/// Every row is shown by `All`, and is either left to do or completed: the
/// rows left and the rows completed add up to all rows.
pub proof fn lemma_filters_partition(items: Seq<ItemModel>)
    ensures
        items.filter(shown_by(Filter::All)) == items,
        items.filter(shown_by(Filter::Active)).len() + items.filter(
            shown_by(Filter::Completed),
        ).len() == items.len(),
    decreases items.len(),
{
    if items.len() > 0 {
        let init = items.drop_last();
        lemma_filters_partition(init);
        assert(items =~= init.push(items.last()));
        init.lemma_filter_push(items.last(), shown_by(Filter::All));
        init.lemma_filter_push(items.last(), shown_by(Filter::Active));
        init.lemma_filter_push(items.last(), shown_by(Filter::Completed));
    } else {
        assert(items.filter(shown_by(Filter::All)) =~= items) by {
            reveal(Seq::filter);
        }
        reveal(Seq::filter);
    }
}

/// Marking row `i` as completed or not changes the number of rows left by
/// that row alone: one fewer when it is checked off, one more when it is
/// unchecked, none when it stays as it was.
pub proof fn lemma_mark_row_changes_left(items: Seq<ItemModel>, i: int, done: bool)
    requires
        0 <= i < items.len(),
    ensures
        count_left(items.update(i, item_next(items[i], ItemMessage::Completed(done), 0)))
            == count_left(items)
            + (if items[i].completed {
            1int
        } else {
            0int
        }) - (if done {
            1int
        } else {
            0int
        }),
{
    lemma_filter_update_len(
        items,
        i,
        ItemModel { completed: done, ..items[i] },
        shown_by(Filter::Active),
    );
}

/// Rows made for a list that was just read are all left to do.
pub proof fn lemma_fresh_rows_all_left(materials: Seq<MaterialModel>, user_hides: Seq<Seq<char>>)
    ensures
        count_left(fresh_items(materials)) == materials.len(),
        count_left(fresh_items(materials).filter(kept_by(user_hides))) == fresh_items(
            materials,
        ).filter(kept_by(user_hides)).len(),
{
    let rows = fresh_items(materials);
    let kept = rows.filter(kept_by(user_hides));
    lemma_all_left(rows);
    assert forall|k: int| 0 <= k < kept.len() implies !(#[trigger] kept[k]).completed by {
        assert(kept.contains(kept[k]));
        rows.lemma_filter_contains_rev(kept_by(user_hides), kept[k]);
    }
    lemma_all_left(kept);
}

proof fn lemma_all_left(items: Seq<ItemModel>)
    requires
        forall|k: int| 0 <= k < items.len() ==> !(#[trigger] items[k]).completed,
    ensures
        count_left(items) == items.len(),
    decreases items.len(),
{
    if items.len() > 0 {
        let init = items.drop_last();
        lemma_all_left(init);
        assert(items =~= init.push(items.last()));
        init.lemma_filter_push(items.last(), shown_by(Filter::Active));
    } else {
        reveal(Seq::filter);
    }
}

/// The rows of a loaded list hold no unobtainable block and no item the
/// user hid, and every other material of the list has its row.
pub proof fn lemma_loaded_rows_respect_hides(list: MaterialListModel, user_hides: Seq<Seq<char>>)
    ensures
        forall|k: int|
            0 <= k < rows_of_list(list, user_hides).len() ==> !is_hidden(
                (#[trigger] rows_of_list(list, user_hides)[k]).material.item,
                user_hides,
            ),
        forall|j: int|
            0 <= j < list.materials.len() && !is_hidden(
                (#[trigger] list.materials[j]).item,
                user_hides,
            ) ==> rows_of_list(list, user_hides).contains(fresh_item(list.materials[j])),
{
    let rows = fresh_items(list.materials);
    let keep = kept_by(user_hides);
    assert forall|k: int| 0 <= k < rows.filter(keep).len() implies !is_hidden(
        (#[trigger] rows.filter(keep)[k]).material.item,
        user_hides,
    ) by {
        rows.lemma_filter_pred(keep, k);
    }
    assert forall|j: int|
        0 <= j < list.materials.len() && !is_hidden(
            (#[trigger] list.materials[j]).item,
            user_hides,
        ) implies rows.filter(keep).contains(fresh_item(list.materials[j])) by {
        assert(rows[j] == fresh_item(list.materials[j]));
        rows.lemma_filter_contains(keep, j);
    }
}

/// Hiding rows a second time hides nothing more.
pub proof fn lemma_hiding_is_idempotent(items: Seq<ItemModel>, user_hides: Seq<Seq<char>>)
    ensures
        items.filter(kept_by(user_hides)).filter(kept_by(user_hides)) == items.filter(
            kept_by(user_hides),
        ),
    decreases items.len(),
{
    let keep = kept_by(user_hides);
    if items.len() > 0 {
        let init = items.drop_last();
        lemma_hiding_is_idempotent(init, user_hides);
        assert(items =~= init.push(items.last()));
        init.lemma_filter_push(items.last(), keep);
        if keep(items.last()) {
            init.filter(keep).lemma_filter_push(items.last(), keep);
        }
    } else {
        reveal(Seq::filter);
    }
}

/// In a list where no two rows are equal, each row's messages are
/// addressed to its own position.
pub proof fn lemma_distinct_rows_own_position(items: Seq<ItemModel>, k: int)
    requires
        items.no_duplicates(),
        0 <= k < items.len(),
    ensures
        first_position(items, items[k], k),
{
}

/// Every name the user asked to hide is hidden, wherever it stands in the
/// list of hides, and so is every unobtainable block: no kept row is for
/// one of them. Every other row is kept.
pub proof fn lemma_hides_drop_every_listed_name(
    items: Seq<ItemModel>,
    user_hides: Seq<Seq<char>>,
)
    ensures
        forall|j: int, k: int|
            0 <= j < items.filter(kept_by(user_hides)).len() && 0 <= k < user_hides.len()
                ==> (#[trigger] items.filter(kept_by(user_hides))[j]).material.item
                != #[trigger] user_hides[k],
        forall|j: int, k: int|
            0 <= j < items.filter(kept_by(user_hides)).len() && 0 <= k < unobtainable_names().len()
                ==> (#[trigger] items.filter(kept_by(user_hides))[j]).material.item
                != #[trigger] unobtainable_names()[k],
        forall|j: int|
            0 <= j < items.len() && (forall|k: int|
                0 <= k < user_hides.len() ==> user_hides[k] != (#[trigger] items[j]).material.item)
                && (forall|k: int|
                0 <= k < unobtainable_names().len() ==> unobtainable_names()[k]
                    != items[j].material.item) ==> items.filter(kept_by(user_hides)).contains(
                items[j],
            ),
{
    let keep = kept_by(user_hides);
    let kept = items.filter(keep);
    assert forall|j: int, k: int|
        0 <= j < kept.len() && 0 <= k < user_hides.len() implies (#[trigger] kept[j]).material.item
        != #[trigger] user_hides[k] by {
        items.lemma_filter_pred(keep, j);
        if kept[j].material.item == user_hides[k] {
            assert(user_hides.contains(kept[j].material.item));
        }
    }
    assert forall|j: int, k: int|
        0 <= j < kept.len() && 0 <= k < unobtainable_names().len() implies (#[trigger] kept[
        j]).material.item != #[trigger] unobtainable_names()[k] by {
        items.lemma_filter_pred(keep, j);
        if kept[j].material.item == unobtainable_names()[k] {
            assert(unobtainable_names().contains(kept[j].material.item));
        }
    }
    assert forall|j: int|
        0 <= j < items.len() && (forall|k: int|
            0 <= k < user_hides.len() ==> user_hides[k] != (#[trigger] items[j]).material.item)
            && (forall|k: int|
            0 <= k < unobtainable_names().len() ==> unobtainable_names()[k]
                != items[j].material.item) implies kept.contains(items[j]) by {
        let name = items[j].material.item;
        if user_hides.contains(name) {
            let k = choose|k: int| 0 <= k < user_hides.len() && user_hides[k] == name;
            assert(user_hides[k] != name);
        }
        if unobtainable_names().contains(name) {
            let k = choose|k: int|
                0 <= k < unobtainable_names().len() && unobtainable_names()[k] == name;
            assert(unobtainable_names()[k] != name);
        }
        items.lemma_filter_contains(keep, j);
    }
}

/// The rows made for a list hold its materials exactly, in order, one row
/// per material, none completed and none with an icon yet.
pub proof fn lemma_fresh_rows_hold_materials(materials: Seq<MaterialModel>)
    ensures
        fresh_items(materials).len() == materials.len(),
        forall|j: int|
            0 <= j < materials.len() ==> {
                &&& (#[trigger] fresh_items(materials)[j]).material == materials[j]
                &&& !fresh_items(materials)[j].completed
                &&& fresh_items(materials)[j].icon is None
            },
{
}

} // verus!
