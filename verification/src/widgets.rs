//! One row of a loaded material list, and the preview of a saved list.
use vstd::prelude::*;

use crate::application::{
    item_command, item_next, next_icon_id, Command, SaveData, SaveDataModel,
};
use crate::material_list::material::{Material, MaterialModel};
use crate::text::push_char;

verus! {

/// The icon of a row once it was loaded: its image bytes, and the number
/// of the load that brought it. Each load gets a number of its own, so two
/// icons are the same icon only when they come from the same load (as two
/// image handles are equal only when they share their id and bytes).
#[derive(Debug)]
pub struct Icon {
    pub id: u64,
    pub bytes: Vec<u8>,
}

/// Mathematical model of an [`Icon`].
#[verifier::ext_equal]
pub struct IconModel {
    pub id: u64,
    pub bytes: Seq<u8>,
}

/// A material of the loaded list together with the user's progress on it
/// and, once loaded, its icon.
#[derive(Debug)]
pub struct Item {
    pub icon: Option<Icon>,
    pub material: Material,
    pub completed: bool,
}

/// Mathematical model of an [`Item`].
#[verifier::ext_equal]
pub struct ItemModel {
    pub material: MaterialModel,
    pub completed: bool,
    pub icon: Option<IconModel>,
}

impl View for Item {
    type V = ItemModel;

    open spec fn view(&self) -> ItemModel {
        ItemModel {
            material: self.material@,
            completed: self.completed,
            icon: match self.icon {
                Some(icon) => Some(IconModel { id: icon.id, bytes: icon.bytes@ }),
                None => None,
            },
        }
    }
}

impl DeepView for Item {
    type V = ItemModel;

    open spec fn deep_view(&self) -> ItemModel {
        self@
    }
}

/// What can happen to one row of the list.
#[derive(Debug)]
pub enum ItemMessage {
    Completed(bool),
    Load,
    Loaded(Vec<u8>),
    Delete,
}

/// Whether two row messages are the same message: the same variant with
/// the same value (the same bytes, for a loaded icon).
pub open spec fn same_item_message(a: ItemMessage, b: ItemMessage) -> bool {
    match a {
        ItemMessage::Completed(x) => b matches ItemMessage::Completed(y) && x == y,
        ItemMessage::Load => b is Load,
        ItemMessage::Loaded(x) => b matches ItemMessage::Loaded(y) && x@ == y@,
        ItemMessage::Delete => b is Delete,
    }
}

impl Clone for ItemMessage {
    fn clone(&self) -> (r: Self)
        ensures
            same_item_message(*self, r),
    {
        match self {
            ItemMessage::Completed(x) => ItemMessage::Completed(*x),
            ItemMessage::Load => ItemMessage::Load,
            ItemMessage::Loaded(bytes) => ItemMessage::Loaded(copy_bytes(bytes)),
            ItemMessage::Delete => ItemMessage::Delete,
        }
    }
}

/// A row for `material` that is not completed and has no icon yet.
pub open spec fn fresh_item(material: MaterialModel) -> ItemModel {
    ItemModel { material, completed: false, icon: None }
}

/// Copies a byte buffer element by element.
pub(crate) fn copy_bytes(bytes: &Vec<u8>) -> (r: Vec<u8>)
    ensures
        r@ == bytes@,
{
    let mut r: Vec<u8> = Vec::new();
    let n = bytes.len();
    for i in 0..n
        invariant
            n == bytes@.len(),
            r@ =~= bytes@.take(i as int),
    {
        r.push(bytes[i]);
        assert(r@ =~= bytes@.take(i + 1));
    }
    assert(bytes@.take(n as int) =~= bytes@);
    r
}

/// Whether two byte buffers hold the same bytes.
fn same_bytes(a: &Vec<u8>, b: &Vec<u8>) -> (r: bool)
    ensures
        r == (a@ == b@),
{
    if a.len() != b.len() {
        return false;
    }
    let n = a.len();
    for i in 0..n
        invariant
            n == a@.len(),
            n == b@.len(),
            forall|j: int| 0 <= j < i ==> a@[j] == b@[j],
    {
        if a[i] != b[i] {
            return false;
        }
    }
    assert(a@ =~= b@);
    true
}

impl Item {
    /// A row for `material`, not completed and without an icon.
    pub fn new(material: Material) -> (r: Item)
        ensures
            r@ == fresh_item(material@),
    {
        Item { icon: None, material, completed: false }
    }

    /// The icon, once it was loaded.
    pub fn icon(&self) -> (r: Option<&Icon>)
        ensures
            r matches Some(ic) ==> self@.icon == Some(IconModel { id: ic.id, bytes: ic.bytes@ }),
            r is None ==> self@.icon is None,
    {
        match &self.icon {
            Some(b) => Some(b),
            None => None,
        }
    }

    /// Whether two rows are equal in every field.
    pub fn same_as(&self, other: &Item) -> (r: bool)
        ensures
            r == (self@ == other@),
    {
        let icons_equal = match (&self.icon, &other.icon) {
            (Some(a), Some(b)) => a.id == b.id && same_bytes(&a.bytes, &b.bytes),
            (None, None) => true,
            _ => false,
        };
        let r = self.material.Item == other.material.Item && self.material.Total
            == other.material.Total && self.material.Missing == other.material.Missing
            && self.completed == other.completed && icons_equal;
        proof {
            if r {
                assert(self@ =~= other@);
            }
        }
        r
    }

    /// Handles a message addressed to this row, which stands at `index` in
    /// the list: marks it completed or not, asks for its icon to be loaded,
    /// or keeps the icon that was loaded. Deleting is up to the list.
    /// `icon_loads` counts the icons loaded so far: a loaded icon takes its
    /// value as its number, and it moves on by one (wrapping around).
    pub fn update(&mut self, message: ItemMessage, index: usize, icon_loads: &mut u64) -> (cmd:
        Command)
        ensures
            final(self)@ == item_next(old(self)@, message, *old(icon_loads)),
            *final(icon_loads) == next_icon_id(*old(icon_loads), message),
            item_command(cmd, old(self)@, message, index),
    {
        match message {
            ItemMessage::Completed(done) => {
                self.completed = done;
                Command::Nothing
            },
            ItemMessage::Load => Command::LoadIcon { item_name: self.material.Item.clone(), index },
            ItemMessage::Loaded(bytes) => {
                self.icon = Some(Icon { id: *icon_loads, bytes });
                *icon_loads = if *icon_loads == u64::MAX {
                    0
                } else {
                    *icon_loads + 1
                };
                Command::Nothing
            },
            ItemMessage::Delete => Command::Nothing,
        }
    }
}

impl Clone for Item {
    fn clone(&self) -> (r: Self)
        ensures
            r@ == self@,
    {
        let icon = match &self.icon {
            Some(ic) => Some(Icon { id: ic.id, bytes: copy_bytes(&ic.bytes) }),
            None => None,
        };
        Item { icon, material: self.material.clone(), completed: self.completed }
    }
}

/// A saved list offered for loading on the start page.
#[derive(Debug)]
pub struct ListPreview {
    pub data: SaveData,
}

impl View for ListPreview {
    type V = SaveDataModel;

    open spec fn view(&self) -> SaveDataModel {
        self.data@
    }
}

impl DeepView for ListPreview {
    type V = SaveDataModel;

    open spec fn deep_view(&self) -> SaveDataModel {
        self@
    }
}

impl ListPreview {
    /// A preview of `data`.
    pub fn new(data: SaveData) -> (r: ListPreview)
        ensures
            r@ == data@,
    {
        ListPreview { data }
    }
}

impl Clone for ListPreview {
    fn clone(&self) -> (r: Self)
        ensures
            r@ == self@,
    {
        ListPreview { data: self.data.clone() }
    }
}

// ---------------------------------------------------------------------------
// Icon address on the Minecraft wiki
// ---------------------------------------------------------------------------

/// What `char::to_uppercase` yields first for `c`.
pub uninterp spec fn uppercase_first(c: char) -> char;

/// The first character of the upper-case form of `c` (std's
/// `char::to_uppercase`, of which the first character is taken). Stated:
/// the result is `uppercase_first(c)`; ASCII lower-case letters become the
/// matching capitals and other ASCII characters stay as they are, as std's
/// documentation says. Of non-ASCII characters nothing more is stated.
#[verifier::external_body]
fn to_uppercase_first(c: char) -> (r: char)
    ensures
        r == uppercase_first(c),
        'a' <= c <= 'z' ==> r as u32 == c as u32 - 32,
        (c as u32) < 128 && !('a' <= c <= 'z') ==> r == c,
{
    c.to_uppercase().nth(0).unwrap()
}

/// Index of the first `c` in `s`, or `s.len()` when there is none.
#[verifier::opaque]
pub open spec fn find_char(s: Seq<char>, c: char) -> int {
    if exists|i: int| 0 <= i < s.len() && s[i] == c {
        choose|i: int| 0 <= i < s.len() && s[i] == c && forall|j: int| 0 <= j < i ==> s[j] != c
    } else {
        s.len() as int
    }
}

/// The item name without its namespace: what lies between the first and
/// the second `:` of an identifier such as `minecraft:oak_planks` (or the
/// end of it).
pub open spec fn item_path(id: Seq<char>) -> Seq<char> {
    let rest = id.skip(find_char(id, ':') + 1);
    rest.take(find_char(rest, ':'))
}

/// Whether the identifier has a part after its first `:`, that is, whether
/// splitting it at every `:` (dropping one empty piece at the end) gives at
/// least two pieces.
pub open spec fn has_item_path(id: Seq<char>) -> bool {
    find_char(id, ':') + 1 < id.len()
}

/// `s` with the first character and every character that follows a `_`
/// upper-cased.
pub open spec fn capitalize_words(s: Seq<char>) -> Seq<char> {
    Seq::new(
        s.len(),
        |i: int|
            if i == 0 || s[i - 1] == '_' {
                uppercase_first(s[i])
            } else {
                s[i]
            },
    )
}

/// Whether every character of `s` is ASCII.
pub open spec fn is_ascii_text(s: Seq<char>) -> bool {
    forall|i: int| 0 <= i < s.len() ==> (s[i] as u32) < 128
}

/// `c` with an ASCII lower-case letter turned into its capital.
pub open spec fn ascii_upper(c: char) -> char {
    if 'a' <= c <= 'z' {
        ((c as u32) - 32) as char
    } else {
        c
    }
}

/// [`capitalize_words`] for ASCII text: the first character and every
/// character after a `_` turned into its ASCII capital.
pub open spec fn ascii_capitalize_words(s: Seq<char>) -> Seq<char> {
    Seq::new(
        s.len(),
        |i: int|
            if i == 0 || s[i - 1] == '_' {
                ascii_upper(s[i])
            } else {
                s[i]
            },
    )
}

/// Address of the icon of item `id` on the Minecraft wiki.
pub open spec fn icon_url_text(id: Seq<char>) -> Seq<char> {
    "https://minecraft.wiki/images/Invicon_"@ + capitalize_words(item_path(id)) + ".png"@
}

proof fn lemma_find_char_found(s: Seq<char>, c: char, i: int)
    requires
        0 <= i < s.len(),
        s[i] == c,
        forall|j: int| 0 <= j < i ==> s[j] != c,
    ensures
        find_char(s, c) == i,
{
    reveal(find_char);
    let k = choose|k: int| 0 <= k < s.len() && s[k] == c && forall|j: int| 0 <= j < k ==> s[j] != c;
    assert(0 <= k < s.len() && s[k] == c && forall|j: int| 0 <= j < k ==> s[j] != c);
    if k < i {
        assert(s[k] != c);
    }
    if i < k {
        assert(s[i] != c);
    }
}

/// Finds the first `c` in `s` at or after `from`.
fn find_char_from(s: &str, c: char, from: usize) -> (r: usize)
    requires
        from <= s@.len(),
    ensures
        from + find_char(s@.skip(from as int), c) == r,
        from <= r <= s@.len(),
        s@.len() <= usize::MAX,
{
    let n = s.unicode_len();
    let ghost rest = s@.skip(from as int);
    let mut i = from;
    while i < n
        invariant
            from <= i <= n,
            n == s@.len(),
            rest == s@.skip(from as int),
            forall|j: int| from <= j < i ==> s@[j] != c,
        decreases n - i,
    {
        if s.get_char(i) == c {
            proof {
                assert(rest[i - from] == c);
                lemma_find_char_found(rest, c, i - from);
            }
            return i;
        }
        i = i + 1;
    }
    proof {
        reveal(find_char);
        assert forall|j: int| 0 <= j < rest.len() implies rest[j] != c by {
            assert(rest[j] == s@[j + from]);
        }
    }
    n
}

/// Appends `s[start..end]` with its words capitalized.
fn push_capitalized(out: &mut String, s: &str, start: usize, end: usize)
    requires
        start <= end <= s@.len(),
    ensures
        final(out)@ == old(out)@ + capitalize_words(s@.subrange(start as int, end as int)),
        is_ascii_text(s@.subrange(start as int, end as int)) ==> final(out)@ == old(out)@
            + ascii_capitalize_words(s@.subrange(start as int, end as int)),
{
    let ghost part = s@.subrange(start as int, end as int);
    let ghost words = capitalize_words(part);
    let ghost ascii_words = ascii_capitalize_words(part);
    let mut i = start;
    while i < end
        invariant
            start <= i <= end <= s@.len(),
            part == s@.subrange(start as int, end as int),
            words == capitalize_words(part),
            ascii_words == ascii_capitalize_words(part),
            out@ == old(out)@ + words.take(i - start),
            is_ascii_text(part) ==> out@ == old(out)@ + ascii_words.take(i - start),
        decreases end - i,
    {
        let ch = s.get_char(i);
        let c = if i == start || s.get_char(i - 1) == '_' {
            to_uppercase_first(ch)
        } else {
            ch
        };
        push_char(out, c);
        proof {
            assert(words[i - start] == c);
            assert(words.take(i + 1 - start) =~= words.take(i - start).push(c));
            if is_ascii_text(part) {
                assert(part[i - start] == ch);
                assert((ch as u32) < 128);
                if i == start || s@[i - 1] == '_' {
                    if 'a' <= ch <= 'z' {
                        assert(c as u32 == ch as u32 - 32);
                        assert(c == ((ch as u32) - 32) as char);
                    }
                    assert(c == ascii_upper(ch));
                }
                assert(ascii_words[i - start] == c);
                assert(ascii_words.take(i + 1 - start) =~= ascii_words.take(i - start).push(c));
            }
        }
        i = i + 1;
    }
    assert(words.take(end - start) =~= words);
    assert(ascii_words.take(end - start) =~= ascii_words);
}

/// Whether `item_name` has a part after its namespace, so that
/// [`icon_url`] can be asked for it.
pub fn has_item_path_of(item_name: &str) -> (r: bool)
    ensures
        r == has_item_path(item_name@),
{
    let first = find_char_from(item_name, ':', 0);
    assert(item_name@.skip(0) =~= item_name@);
    first < item_name.unicode_len() && first + 1 < item_name.unicode_len()
}

/// The address of the icon of item `item_name` on the Minecraft wiki, such
/// as `https://minecraft.wiki/images/Invicon_Oak_Planks.png` for
/// `minecraft:oak_planks`.
pub fn icon_url(item_name: &str) -> (url: String)
    requires
        has_item_path(item_name@),
    ensures
        url@ == icon_url_text(item_name@),
        is_ascii_text(item_name@) ==> url@ == "https://minecraft.wiki/images/Invicon_"@
            + ascii_capitalize_words(item_path(item_name@)) + ".png"@,
{
    let first = find_char_from(item_name, ':', 0);
    assert(item_name@.skip(0) =~= item_name@);
    assert(find_char(item_name@, ':') == first);
    let start = first + 1;
    let end = find_char_from(item_name, ':', start);
    proof {
        let rest = item_name@.skip(start as int);
        assert(find_char(rest, ':') == end - start);
        assert(rest.take(end - start) =~= item_name@.subrange(start as int, end as int));
    }
    let mut url = String::from_str("https://minecraft.wiki/images/Invicon_");
    proof {
        let part = item_name@.subrange(start as int, end as int);
        if is_ascii_text(item_name@) {
            assert forall|k: int| 0 <= k < part.len() implies (part[k] as u32) < 128 by {
                assert(part[k] == item_name@[k + start]);
            }
        }
    }
    push_capitalized(&mut url, item_name, start, end);
    url.append(".png");
    url
}

/// In the icon address of an item, the item path follows the fixed prefix
/// character for character, and then `.png`: every character at the start
/// of the path or right after a `_` (each of them, however many words
/// there are) is replaced by its upper-case form, and every other character
/// is copied unchanged. For ASCII, a lower-case letter at a word start
/// becomes the capital 32 code points below it, and any other character at
/// a word start stays as it is.
pub proof fn lemma_icon_url_capitalizes_every_word(id: Seq<char>)
    ensures
        ({
            let path = item_path(id);
            let prefix = "https://minecraft.wiki/images/Invicon_"@;
            let url = icon_url_text(id);
            &&& url.len() == prefix.len() + path.len() + ".png"@.len()
            &&& url.take(prefix.len() as int) == prefix
            &&& url.skip((prefix.len() + path.len()) as int) == ".png"@
            &&& forall|i: int|
                0 <= i < path.len() ==> #[trigger] url[prefix.len() + i] == if i == 0 || path[i
                    - 1] == '_' {
                    uppercase_first(path[i])
                } else {
                    path[i]
                }
        }),
        forall|i: int|
            #![trigger ascii_capitalize_words(item_path(id))[i]]
            0 <= i < item_path(id).len() ==> {
                &&& (i == 0 || item_path(id)[i - 1] == '_') && 'a' <= item_path(id)[i] <= 'z'
                    ==> ascii_capitalize_words(item_path(id))[i] as u32 == item_path(id)[i] as u32
                    - 32
                &&& (i == 0 || item_path(id)[i - 1] == '_') && !('a' <= item_path(id)[i] <= 'z')
                    ==> ascii_capitalize_words(item_path(id))[i] == item_path(id)[i]
                &&& !(i == 0 || item_path(id)[i - 1] == '_') ==> ascii_capitalize_words(
                    item_path(id),
                )[i] == item_path(id)[i]
            },
{
    let path = item_path(id);
    let prefix = "https://minecraft.wiki/images/Invicon_"@;
    let url = icon_url_text(id);
    assert(url.take(prefix.len() as int) =~= prefix);
    assert(url.skip((prefix.len() + path.len()) as int) =~= ".png"@);
    assert forall|i: int| 0 <= i < path.len() implies #[trigger] url[prefix.len() + i] == if i == 0
        || path[i - 1] == '_' {
        uppercase_first(path[i])
    } else {
        path[i]
    } by {
        assert(url[prefix.len() + i] == capitalize_words(path)[i]);
    }
    assert forall|i: int| 0 <= i < path.len() implies {
        &&& (i == 0 || path[i - 1] == '_') && 'a' <= path[i] <= 'z' ==> ascii_capitalize_words(
            path,
        )[i] as u32 == path[i] as u32 - 32
        &&& (i == 0 || path[i - 1] == '_') && !('a' <= path[i] <= 'z') ==> ascii_capitalize_words(
            path,
        )[i] == path[i]
        &&& !(i == 0 || path[i - 1] == '_') ==> ascii_capitalize_words(path)[i] == path[i]
    } by {
        let c = path[i];
        if 'a' <= c <= 'z' {
            assert(((c as u32) - 32) as char as u32 == c as u32 - 32);
        }
    }
}

} // verus!
