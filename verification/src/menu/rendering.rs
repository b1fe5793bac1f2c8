//! The rendered section, and what an edit plan does to it.

use crate::device::DeviceView;
use crate::menu::laws::lemma_rows_follow_devices;
use crate::menu::{
    first_match, inserted, is_current, lemma_first_match_found, plan, placeholder_leaves,
    placeholder_returns, placeholder_row, reconciled, refreshed, removals, row_edits, shown,
    EditView, MenuRowView, Row,
};
use vstd::prelude::*;

verus! {

/// One row as it is rendered: the placeholder, or the row of a device.
pub ghost enum Item {
    Placeholder,
    Device(Row),
}

/// The rows of devices as rendered items.
pub open spec fn device_items(rows: Seq<Row>) -> Seq<Item> {
    rows.map_values(|r: Row| Item::Device(r))
}

/// The rendered section for `rows`: the rows themselves, or the placeholder
/// alone where there is none.
pub open spec fn rendered(rows: Seq<Row>) -> Seq<Item> {
    if rows.len() == 0 {
        seq![Item::Placeholder]
    } else {
        device_items(rows)
    }
}

/// What the shell shows for a rendered item.
pub open spec fn shown_item(item: Item) -> MenuRowView {
    match item {
        Item::Placeholder => placeholder_row(),
        Item::Device(row) => MenuRowView {
            label: row.label,
            selected: row.selected,
            enabled: true,
        },
    }
}

/// The menu as shown is the rendered section, item by item.
pub proof fn lemma_shown_is_rendered(rows: Seq<Row>)
    ensures
        shown(rows) == rendered(rows).map_values(|item: Item| shown_item(item)),
{
    assert(shown(rows) =~= rendered(rows).map_values(|item: Item| shown_item(item)));
}

/// The rendered section after one edit. An edit that does not fit the section
/// leaves it as it is.
pub open spec fn apply(items: Seq<Item>, edit: EditView) -> Seq<Item> {
    match edit {
        EditView::HidePlaceholder => {
            if items.len() > 0 && items[0] is Placeholder {
                items.skip(1)
            } else {
                items
            }
        },
        EditView::Remove { position } => {
            if 0 <= position < items.len() {
                items.remove(position)
            } else {
                items
            }
        },
        EditView::Update { position, label, selected } => {
            if 0 <= position < items.len() && items[position] is Device {
                let row = items[position]->Device_0;
                items.update(
                    position,
                    Item::Device(Row { id: row.id, label, selected, tag: row.tag }),
                )
            } else {
                items
            }
        },
        EditView::Insert { position, id, label, selected } => {
            if 0 <= position <= items.len() {
                items.insert(position, Item::Device(Row { id, label, selected, tag: None }))
            } else {
                items
            }
        },
        EditView::ShowPlaceholder => items.insert(0, Item::Placeholder),
    }
}

/// The rendered section after the edits of a plan, applied in order.
pub open spec fn apply_all(items: Seq<Item>, edits: Seq<EditView>) -> Seq<Item>
    decreases edits.len(),
{
    if edits.len() == 0 {
        items
    } else {
        apply_all(apply(items, edits[0]), edits.skip(1))
    }
}

/// A plan of one edit does what that edit does.
pub proof fn lemma_apply_single(items: Seq<Item>, edit: EditView)
    ensures
        apply_all(items, seq![edit]) == apply(items, edit),
{
    assert(seq![edit].skip(1) =~= Seq::<EditView>::empty());
    assert(apply_all(apply(items, edit), Seq::<EditView>::empty()) == apply(items, edit));
}

/// Applying two plans one after the other is applying them joined.
pub proof fn lemma_apply_joined(items: Seq<Item>, first: Seq<EditView>, second: Seq<EditView>)
    ensures
        apply_all(items, first + second) == apply_all(apply_all(items, first), second),
    decreases first.len(),
{
    if first.len() == 0 {
        assert(first + second =~= second);
    } else {
        assert((first + second)[0] == first[0]);
        assert((first + second).skip(1) =~= first.skip(1) + second);
        lemma_apply_joined(apply(items, first[0]), first.skip(1), second);
    }
}

/// Removing `count` times at the end of `front` takes the first `count` rows
/// of `back` away.
proof fn lemma_apply_removals(front: Seq<Row>, back: Seq<Row>, count: int)
    requires
        0 <= count <= back.len(),
    ensures
        apply_all(device_items(front + back), removals(front.len() as int, count)) == device_items(
            front + back.skip(count),
        ),
    decreases count,
{
    let edits = removals(front.len() as int, count);
    if count == 0 {
        assert(back.skip(0) =~= back);
    } else {
        let items = device_items(front + back);
        assert(apply(items, edits[0]) =~= device_items(front + back.skip(1)));
        assert(edits.skip(1) =~= removals(front.len() as int, count - 1));
        lemma_apply_removals(front, back.skip(1), count - 1);
        assert(back.skip(1).skip(count - 1) =~= back.skip(count));
    }
}

/// The walk's edits turn the rows behind `front` into their reconciliation
/// and leave `front` alone.
proof fn lemma_apply_row_edits(
    front: Seq<Row>,
    back: Seq<Row>,
    devices: Seq<DeviceView>,
    current: Option<Seq<u16>>,
)
    ensures
        apply_all(
            device_items(front + back),
            row_edits(back, devices, current, front.len() as int),
        ) == device_items(front + reconciled(back, devices, current)),
    decreases devices.len(),
{
    let at = front.len() as int;
    if devices.len() == 0 {
        lemma_apply_removals(front, back, back.len() as int);
        assert(back.skip(back.len() as int) =~= Seq::<Row>::empty());
    } else {
        let found = first_match(back, devices[0].id);
        lemma_first_match_found(back, devices[0].id);
        let ahead = devices.skip(1);
        if found < back.len() {
            let update = EditView::Update {
                position: at,
                label: devices[0].name,
                selected: is_current(current, devices[0].id),
            };
            let rest = back.skip(found + 1);
            let row = refreshed(back[found], devices[0], current);
            let tail = row_edits(rest, ahead, current, at + 1);
            lemma_apply_removals(front, back, found);
            let cleared = device_items(front + back.skip(found));
            assert(apply(cleared, update) =~= device_items(front.push(row) + rest));
            lemma_apply_row_edits(front.push(row), rest, ahead, current);
            assert(front.push(row) + reconciled(rest, ahead, current) =~= front + reconciled(
                back,
                devices,
                current,
            ));
            assert(apply_all(cleared, seq![update] + tail) == apply_all(
                apply(cleared, update),
                tail,
            )) by {
                assert((seq![update] + tail).skip(1) =~= tail);
            }
            lemma_apply_joined(
                device_items(front + back),
                removals(at, found),
                seq![update] + tail,
            );
            assert(row_edits(back, devices, current, at) =~= removals(at, found) + (seq![update]
                + tail));
        } else {
            let insert = EditView::Insert {
                position: at,
                id: devices[0].id,
                label: devices[0].name,
                selected: is_current(current, devices[0].id),
            };
            let row = inserted(devices[0], current);
            let tail = row_edits(back, ahead, current, at + 1);
            let items = device_items(front + back);
            assert(apply(items, insert) =~= device_items(front.push(row) + back));
            lemma_apply_row_edits(front.push(row), back, ahead, current);
            assert(front.push(row) + reconciled(back, ahead, current) =~= front + reconciled(
                back,
                devices,
                current,
            ));
            assert((seq![insert] + tail).skip(1) =~= tail);
        }
    }
}

/// The plan does to the rendered section what the reconciliation does to the
/// rows: applied in order to the section as it was rendered, it leaves the
/// section rendered for the reconciled rows, placeholder included.
pub proof fn lemma_plan_renders_reconciled(
    rows: Seq<Row>,
    devices: Seq<DeviceView>,
    current: Option<Seq<u16>>,
)
    ensures
        apply_all(rendered(rows), plan(rows, devices, current)) == rendered(
            reconciled(rows, devices, current),
        ),
{
    let after = reconciled(rows, devices, current);
    let leaves = placeholder_leaves(rows, devices);
    let walk = row_edits(rows, devices, current, 0);
    let comes_back = placeholder_returns(rows, devices);
    let none = Seq::<Row>::empty();
    lemma_rows_follow_devices(rows, devices, current);
    lemma_apply_row_edits(none, rows, devices, current);
    assert(none + rows =~= rows);
    assert(none + after =~= after);
    lemma_apply_joined(rendered(rows), leaves + walk, comes_back);
    lemma_apply_joined(rendered(rows), leaves, walk);
    if rows.len() == 0 && devices.len() > 0 {
        lemma_apply_single(rendered(rows), EditView::HidePlaceholder);
        assert(apply_all(rendered(rows), leaves) =~= device_items(rows));
    } else if devices.len() == 0 && rows.len() > 0 {
        lemma_apply_single(device_items(after), EditView::ShowPlaceholder);
        assert(apply_all(device_items(after), comes_back) =~= rendered(after));
    } else if rows.len() == 0 {
        assert(walk =~= Seq::<EditView>::empty());
    }
}

} // verus!
