//! One line of a material list and how its missing count is displayed.
use vstd::prelude::*;

use crate::text::{decimal, digits, push_decimal};

verus! {

/// One kind of item in a material list: its identifier (such as
/// `minecraft:stone`), how many the build needs in total, and how many are
/// still missing.
#[allow(non_snake_case)]
#[derive(Debug)]
pub struct Material {
    pub Item: String,
    pub Total: i32,
    pub Missing: i32,
}

/// Mathematical model of a [`Material`].
#[verifier::ext_equal]
pub struct MaterialModel {
    pub item: Seq<char>,
    pub total: int,
    pub missing: int,
}

impl View for Material {
    type V = MaterialModel;

    open spec fn view(&self) -> MaterialModel {
        MaterialModel { item: self.Item@, total: self.Total as int, missing: self.Missing as int }
    }
}

impl DeepView for Material {
    type V = MaterialModel;

    open spec fn deep_view(&self) -> MaterialModel {
        self@
    }
}

impl Clone for Material {
    fn clone(&self) -> (r: Self)
        ensures
            r@ == self@,
    {
        Material { Item: self.Item.clone(), Total: self.Total, Missing: self.Missing }
    }
}

/// Items in a stack.
pub const STACK_SIZE: i32 = 64;

/// Stacks in a shulker box.
pub const BOX_STACKS: i32 = 27;

/// Integer division rounding toward zero, as Rust's `/` on signed integers.
pub open spec fn div_toward_zero(a: int, b: int) -> int {
    if a >= 0 {
        a / b
    } else {
        -((-a) / b)
    }
}

/// The remainder that goes with [`div_toward_zero`], as Rust's `%`.
pub open spec fn rem_toward_zero(a: int, b: int) -> int {
    a - b * div_toward_zero(a, b)
}

/// Full shulker boxes in `amount` items (rounded toward zero).
pub open spec fn count_boxes(amount: int) -> int {
    div_toward_zero(div_toward_zero(amount, 64), 27)
}

/// Whole stacks left over after the full boxes.
pub open spec fn count_stacks(amount: int) -> int {
    rem_toward_zero(div_toward_zero(amount, 64), 27)
}

/// Single items left over after the whole stacks.
pub open spec fn count_items(amount: int) -> int {
    rem_toward_zero(amount, 64)
}

/// The parts joined by `" + "`.
pub open spec fn join_parts(parts: Seq<Seq<char>>) -> Seq<char>
    decreases parts.len(),
{
    if parts.len() == 0 {
        Seq::empty()
    } else if parts.len() == 1 {
        parts[0]
    } else {
        join_parts(parts.drop_last()) + " + "@ + parts.last()
    }
}

/// The parts of a count's label that are at least one, in order: full
/// shulker boxes (`2SB`), stacks (`3stx`) and single items (`5`).
pub open spec fn count_parts(amount: int) -> Seq<Seq<char>> {
    let boxes = count_boxes(amount);
    let stacks = count_stacks(amount);
    let items = count_items(amount);
    (if boxes >= 1 {
        seq![decimal(boxes) + "SB"@]
    } else {
        Seq::empty()
    }) + (if stacks >= 1 {
        seq![decimal(stacks) + "stx"@]
    } else {
        Seq::empty()
    }) + (if items >= 1 {
        seq![decimal(items)]
    } else {
        Seq::empty()
    })
}

/// The label for a missing count: its parts that are at least one, joined
/// by `" + "`. When there is no such part, and also when there are full
/// boxes but neither stacks nor single items, only the single items are
/// written (so whole boxes come out as `0`, and a negative count as its
/// remainder of single items).
pub open spec fn item_count_text(amount: int) -> Seq<char> {
    let parts = count_parts(amount);
    if parts.len() == 0 || (count_boxes(amount) >= 1 && count_stacks(amount) < 1 && count_items(
        amount,
    ) < 1) {
        decimal(count_items(amount))
    } else {
        join_parts(parts)
    }
}

impl Material {
    /// The missing count written as boxes, stacks and items, such as
    /// `2SB + 3stx + 5`.
    pub fn format_item_count(&self) -> (s: String)
        ensures
            s@ == item_count_text(self.Missing as int),
    {
        let amount = self.Missing;
        let all_stacks = amount / STACK_SIZE;
        let boxes = all_stacks / BOX_STACKS;
        let stacks = all_stacks % BOX_STACKS;
        let items = amount % STACK_SIZE;
        let mut out = String::new();
        if boxes >= 1 && stacks >= 1 && items >= 1 {
            push_decimal(&mut out, boxes);
            out.append("SB");
            out.append(" + ");
            push_decimal(&mut out, stacks);
            out.append("stx");
            out.append(" + ");
            push_decimal(&mut out, items);
        } else if boxes >= 1 && stacks >= 1 {
            push_decimal(&mut out, boxes);
            out.append("SB");
            out.append(" + ");
            push_decimal(&mut out, stacks);
            out.append("stx");
        } else if boxes >= 1 && items >= 1 {
            push_decimal(&mut out, boxes);
            out.append("SB");
            out.append(" + ");
            push_decimal(&mut out, items);
        } else if boxes < 1 && stacks >= 1 && items >= 1 {
            push_decimal(&mut out, stacks);
            out.append("stx");
            out.append(" + ");
            push_decimal(&mut out, items);
        } else if boxes < 1 && stacks >= 1 && items < 1 {
            push_decimal(&mut out, stacks);
            out.append("stx");
        } else {
            push_decimal(&mut out, items);
        }
        proof {
            reveal_with_fuel(join_parts, 4);
            let parts = count_parts(amount as int);
            let b = decimal(boxes as int) + "SB"@;
            let st = decimal(stacks as int) + "stx"@;
            let it = decimal(items as int);
            if boxes >= 1 && stacks >= 1 && items >= 1 {
                assert(parts =~= seq![b, st, it]);
                assert(parts.drop_last() =~= seq![b, st]);
                assert(parts.drop_last().drop_last() =~= seq![b]);
            } else if boxes >= 1 && stacks >= 1 {
                assert(parts =~= seq![b, st]);
                assert(parts.drop_last() =~= seq![b]);
            } else if boxes >= 1 && items >= 1 {
                assert(parts =~= seq![b, it]);
                assert(parts.drop_last() =~= seq![b]);
            } else if boxes < 1 && stacks >= 1 && items >= 1 {
                assert(parts =~= seq![st, it]);
                assert(parts.drop_last() =~= seq![st]);
            } else if boxes < 1 && stacks >= 1 {
                assert(parts =~= seq![st]);
            } else if boxes < 1 && items >= 1 {
                assert(parts =~= seq![it]);
            } else if boxes < 1 {
                assert(parts =~= Seq::<Seq<char>>::empty());
            }
        }
        assert(out@ =~= item_count_text(amount as int));
        out
    }
}

/// For a count that is not negative, the three parts of its label add up
/// to it again: `boxes * 27 * 64 + stacks * 64 + items`, with fewer than 27
/// stacks and fewer than 64 single items.
pub proof fn lemma_item_count_parts(amount: int)
    requires
        amount >= 0,
    ensures
        count_boxes(amount) * 1728 + count_stacks(amount) * 64 + count_items(amount) == amount,
        count_boxes(amount) >= 0,
        0 <= count_stacks(amount) < 27,
        0 <= count_items(amount) < 64,
{
    let q = amount / 64;
    let r = amount % 64;
    assert(amount == q * 64 + r && 0 <= r < 64) by (nonlinear_arith)
        requires
            amount >= 0,
            q == amount / 64,
            r == amount % 64,
    ;
    let b = q / 27;
    let s = q % 27;
    assert(q == b * 27 + s && 0 <= s < 27 && b >= 0) by (nonlinear_arith)
        requires
            q >= 0,
            b == q / 27,
            s == q % 27,
    ;
    assert(b * 1728 + s * 64 + r == amount) by (nonlinear_arith)
        requires
            amount == q * 64 + r,
            q == b * 27 + s,
    ;
}

/// Joining keeps the first character of the first part in front.
proof fn lemma_join_parts_first(parts: Seq<Seq<char>>)
    requires
        parts.len() >= 1,
        parts[0].len() > 0,
    ensures
        join_parts(parts).len() > 0,
        join_parts(parts)[0] == parts[0][0],
    decreases parts.len(),
{
    if parts.len() > 1 {
        lemma_join_parts_first(parts.drop_last());
    }
}

/// A count that is not negative is labelled with no minus sign.
pub proof fn lemma_item_count_text_not_negative(amount: int)
    requires
        amount >= 0,
    ensures
        item_count_text(amount).len() > 0,
        item_count_text(amount)[0] != '-',
{
    lemma_item_count_parts(amount);
    let boxes = count_boxes(amount);
    let stacks = count_stacks(amount);
    let items = count_items(amount);
    crate::text::lemma_digits_read_back(boxes as nat);
    crate::text::lemma_digits_read_back(stacks as nat);
    crate::text::lemma_digits_read_back(items as nat);
    let parts = count_parts(amount);
    if parts.len() > 0 {
        let first = if boxes >= 1 {
            decimal(boxes) + "SB"@
        } else if stacks >= 1 {
            decimal(stacks) + "stx"@
        } else {
            decimal(items)
        };
        assert(parts[0] == first);
        assert(first[0] != '-');
        lemma_join_parts_first(parts);
    }
}

// ---------------------------------------------------------------------------
// Reading a label back
// ---------------------------------------------------------------------------

/// What follows the number of a label part of unit `u`: `SB` for shulker
/// boxes (0), `stx` for stacks (1), nothing for single items (2).
pub open spec fn unit_suffix(u: int) -> Seq<char> {
    if u == 0 {
        "SB"@
    } else if u == 1 {
        "stx"@
    } else {
        Seq::empty()
    }
}

/// How many items one of unit `u` stands for.
pub open spec fn unit_size(u: int) -> int {
    if u == 0 {
        1728
    } else if u == 1 {
        64
    } else {
        1
    }
}

/// The text written for parts `(number, unit)`: each number in decimal
/// followed by its unit, the parts separated by `" + "`.
pub open spec fn written_label(parts: Seq<(nat, int)>) -> Seq<char>
    decreases parts.len(),
{
    if parts.len() == 0 {
        Seq::empty()
    } else if parts.len() == 1 {
        digits(parts[0].0) + unit_suffix(parts[0].1)
    } else {
        written_label(parts.drop_last()) + " + "@ + digits(parts.last().0) + unit_suffix(
            parts.last().1,
        )
    }
}

/// The number of items that parts `(number, unit)` stand for.
pub open spec fn label_total(parts: Seq<(nat, int)>) -> int
    decreases parts.len(),
{
    if parts.len() == 0 {
        0
    } else {
        label_total(parts.drop_last()) + parts.last().0 * unit_size(parts.last().1)
    }
}

/// Parts that a reader takes apart one way only: every number is at least
/// one, units come in the order boxes, stacks, items with none twice, there
/// are fewer than 27 stacks and fewer than 64 single items.
pub open spec fn well_formed_parts(parts: Seq<(nat, int)>) -> bool {
    &&& forall|k: int|
        0 <= k < parts.len() ==> {
            &&& (#[trigger] parts[k]).0 >= 1
            &&& 0 <= parts[k].1 <= 2
            &&& parts[k].1 == 1 ==> parts[k].0 < 27
            &&& parts[k].1 == 2 ==> parts[k].0 < 64
        }
    &&& forall|j: int, k: int| 0 <= j < k < parts.len() ==> parts[j].1 < parts[k].1
}

/// The label of a count that is not negative and not a whole number of
/// shulker boxes reads back to the count: it is written from boxes, stacks
/// and single items (each at least one, in that order, fewer than 27
/// stacks and 64 items) that add up to it; and its single items, when
/// there are any, are the count's remainder modulo 64, written last.
pub proof fn lemma_label_reads_back(count: int)
    requires
        count >= 0,
        count % 1728 != 0,
    ensures
        exists|parts: Seq<(nat, int)>|
            {
                &&& well_formed_parts(parts)
                &&& parts.len() >= 1
                &&& #[trigger] written_label(parts) == item_count_text(count)
                &&& label_total(parts) == count
                &&& count % 64 >= 1 ==> parts.last() == ((count % 64) as nat, 2int)
            },
{
    lemma_item_count_parts(count);
    let b = count_boxes(count);
    let st = count_stacks(count);
    let it = count_items(count);
    assert(count % 1728 == st * 64 + it && count % 64 == it) by (nonlinear_arith)
        requires
            b * 1728 + st * 64 + it == count,
            b >= 0,
            0 <= st < 27,
            0 <= it < 64,
    ;
    reveal_with_fuel(written_label, 4);
    reveal_with_fuel(label_total, 4);
    reveal_with_fuel(join_parts, 4);
    let pb = (b as nat, 0int);
    let ps = (st as nat, 1int);
    let pi = (it as nat, 2int);
    let db = decimal(b) + "SB"@;
    let ds = decimal(st) + "stx"@;
    let di = decimal(it);
    assert(digits(it as nat) + unit_suffix(2) =~= di);
    let parts = count_parts(count);
    let w: Seq<(nat, int)> = if b >= 1 && st >= 1 && it >= 1 {
        assert(parts =~= seq![db, ds, di]);
        assert(parts.drop_last() =~= seq![db, ds]);
        assert(parts.drop_last().drop_last() =~= seq![db]);
        let w = seq![pb, ps, pi];
        assert(w.drop_last() =~= seq![pb, ps]);
        assert(w.drop_last().drop_last() =~= seq![pb]);
        w
    } else if b >= 1 && st >= 1 {
        assert(parts =~= seq![db, ds]);
        assert(parts.drop_last() =~= seq![db]);
        let w = seq![pb, ps];
        assert(w.drop_last() =~= seq![pb]);
        w
    } else if b >= 1 {
        assert(parts =~= seq![db, di]);
        assert(parts.drop_last() =~= seq![db]);
        let w = seq![pb, pi];
        assert(w.drop_last() =~= seq![pb]);
        w
    } else if st >= 1 && it >= 1 {
        assert(parts =~= seq![ds, di]);
        assert(parts.drop_last() =~= seq![ds]);
        let w = seq![ps, pi];
        assert(w.drop_last() =~= seq![ps]);
        w
    } else if st >= 1 {
        assert(parts =~= seq![ds]);
        seq![ps]
    } else {
        assert(parts =~= seq![di]);
        seq![pi]
    };
    assert(well_formed_parts(w));
    assert(written_label(w) == item_count_text(count));
    assert(label_total(w) == count);
}

/// A whole number of shulker boxes (zero among them) is labelled `0`.
pub proof fn lemma_whole_boxes_label(count: int)
    requires
        count >= 0,
        count % 1728 == 0,
    ensures
        item_count_text(count) == digits(0),
{
    lemma_item_count_parts(count);
    let b = count_boxes(count);
    let st = count_stacks(count);
    let it = count_items(count);
    assert(st == 0 && it == 0) by (nonlinear_arith)
        requires
            b * 1728 + st * 64 + it == count,
            count % 1728 == 0,
            b >= 0,
            0 <= st < 27,
            0 <= it < 64,
    ;
    if b < 1 {
        assert(count_parts(count) =~= Seq::<Seq<char>>::empty());
    }
}

/// A negative count is labelled by its remainder of single items, which is
/// negative or zero: `-(|count| mod 64)`.
pub proof fn lemma_negative_count_label(count: int)
    requires
        count < 0,
    ensures
        item_count_text(count) == decimal(-((-count) % 64)),
{
    let q = (-count) / 64;
    let all = div_toward_zero(count, 64);
    assert(all == -q);
    assert(count_boxes(count) <= 0) by {
        assert(q >= 0);
    }
    assert(count_items(count) == -((-count) % 64));
    assert(count_stacks(count) <= 0) by {
        assert(q >= 0);
        assert(div_toward_zero(-q, 27) == -(q / 27));
    }
    assert(count_parts(count) =~= Seq::<Seq<char>>::empty());
}

} // verus!
