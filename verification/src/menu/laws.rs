//! What holds of every reconciliation.

use crate::device::{device_ids, DeviceView};
use crate::menu::{
    first_match, inserted, is_current, lemma_first_match, lemma_first_match_found, plan,
    placeholder_leaves, placeholder_returns, reconciled, refreshed, removals, row_edits, row_ids,
    EditView, Row,
};
use vstd::prelude::*;

verus! {

/// After a reconciliation the section follows the device list row by row:
/// as many rows as devices, and each row with the identifier and the name of
/// the device at its position, marked exactly when that device is the current
/// one.
pub proof fn lemma_rows_follow_devices(
    rows: Seq<Row>,
    devices: Seq<DeviceView>,
    current: Option<Seq<u16>>,
)
    ensures
        reconciled(rows, devices, current).len() == devices.len(),
        row_ids(reconciled(rows, devices, current)) == device_ids(devices),
        forall|i: int|
            0 <= i < devices.len() ==> {
                let row = #[trigger] reconciled(rows, devices, current)[i];
                &&& row.id == devices[i].id
                &&& row.label == devices[i].name
                &&& row.selected == is_current(current, devices[i].id)
            },
    decreases devices.len(),
{
    let after = reconciled(rows, devices, current);
    if devices.len() > 0 {
        let found = first_match(rows, devices[0].id);
        lemma_first_match_found(rows, devices[0].id);
        let rest = if found < rows.len() {
            rows.skip(found + 1)
        } else {
            rows
        };
        lemma_rows_follow_devices(rest, devices.skip(1), current);
        let tail = reconciled(rest, devices.skip(1), current);
        assert forall|i: int| 0 <= i < devices.len() implies {
            let row = #[trigger] after[i];
            &&& row.id == devices[i].id
            &&& row.label == devices[i].name
            &&& row.selected == is_current(current, devices[i].id)
        } by {
            if i > 0 {
                assert(after[i] == tail[i - 1]);
                assert(devices.skip(1)[i - 1] == devices[i]);
            }
        }
    }
    assert(row_ids(after) =~= device_ids(devices));
}

/// At most one row is marked. Where no two devices share an identifier, the
/// marked row, if there is one, is the row of the current device; where
/// there is no current device, no row is marked.
pub proof fn lemma_at_most_one_row_is_marked(
    rows: Seq<Row>,
    devices: Seq<DeviceView>,
    current: Option<Seq<u16>>,
)
    requires
        forall|i: int, j: int|
            0 <= i < j < devices.len() ==> (#[trigger] devices[i]).id != (#[trigger] devices[j]).id,
    ensures
        forall|i: int, j: int|
            0 <= i < devices.len() && 0 <= j < devices.len() && (#[trigger] reconciled(
                rows,
                devices,
                current,
            )[i]).selected && (#[trigger] reconciled(rows, devices, current)[j]).selected ==> i
                == j,
        forall|i: int|
            0 <= i < devices.len() && (#[trigger] reconciled(rows, devices, current)[i]).selected
                ==> current == Some(devices[i].id),
        current is None ==> forall|i: int|
            0 <= i < devices.len() ==> !(#[trigger] reconciled(rows, devices, current)[i]).selected,
{
    lemma_rows_follow_devices(rows, devices, current);
    let after = reconciled(rows, devices, current);
    assert forall|i: int, j: int|
        0 <= i < devices.len() && 0 <= j < devices.len() && (#[trigger] after[i]).selected && (
        #[trigger] after[j]).selected implies i == j by {
        assert(current == Some(devices[i].id));
        assert(current == Some(devices[j].id));
        if i < j {
            assert(devices[i].id != devices[j].id);
        }
        if j < i {
            assert(devices[j].id != devices[i].id);
        }
    }
}

/// Reconciling a section that already follows the device list changes no
/// row's place: the walk is one update per row, and every row stays the row
/// it was.
pub proof fn lemma_in_line_only_updates(
    rows: Seq<Row>,
    devices: Seq<DeviceView>,
    current: Option<Seq<u16>>,
    at: int,
)
    requires
        row_ids(rows) == device_ids(devices),
    ensures
        row_edits(rows, devices, current, at) == Seq::new(
            devices.len(),
            |k: int|
                EditView::Update {
                    position: at + k,
                    label: devices[k].name,
                    selected: is_current(current, devices[k].id),
                },
        ),
        reconciled(rows, devices, current) == Seq::new(
            devices.len(),
            |k: int| refreshed(rows[k], devices[k], current),
        ),
    decreases devices.len(),
{
    assert(rows.len() == row_ids(rows).len());
    assert(devices.len() == device_ids(devices).len());
    if devices.len() == 0 {
        assert(row_edits(rows, devices, current, at) =~= Seq::new(
            devices.len(),
            |k: int|
                EditView::Update {
                    position: at + k,
                    label: devices[k].name,
                    selected: is_current(current, devices[k].id),
                },
        ));
        assert(reconciled(rows, devices, current) =~= Seq::new(
            devices.len(),
            |k: int| refreshed(rows[k], devices[k], current),
        ));
    } else {
        assert(rows[0].id == row_ids(rows)[0]);
        assert(devices[0].id == device_ids(devices)[0]);
        assert(first_match(rows, devices[0].id) == 0);
        let rest = rows.skip(1);
        let ahead = devices.skip(1);
        assert(row_ids(rest) =~= device_ids(ahead)) by {
            assert forall|k: int| 0 <= k < rest.len() implies row_ids(rest)[k] == device_ids(
                ahead,
            )[k] by {
                assert(row_ids(rows)[k + 1] == device_ids(devices)[k + 1]);
            }
        }
        lemma_in_line_only_updates(rest, ahead, current, at + 1);
        assert(removals(at, 0) =~= Seq::<EditView>::empty());
        assert(row_edits(rows, devices, current, at) =~= Seq::new(
            devices.len(),
            |k: int|
                EditView::Update {
                    position: at + k,
                    label: devices[k].name,
                    selected: is_current(current, devices[k].id),
                },
        ));
        assert(reconciled(rows, devices, current) =~= Seq::new(
            devices.len(),
            |k: int| refreshed(rows[k], devices[k], current),
        ));
    }
}

/// Idempotence. Reconciling a second time against the same device list makes
/// no structural edit: the second plan holds one update per device and
/// nothing else, whatever the current device is by then, and each row is the
/// row that the first reconciliation left, tag and all.
pub proof fn lemma_second_reconcile_keeps_structure(
    rows: Seq<Row>,
    devices: Seq<DeviceView>,
    first: Option<Seq<u16>>,
    second: Option<Seq<u16>>,
)
    ensures
        ({
            let once = reconciled(rows, devices, first);
            let again = plan(once, devices, second);
            let twice = reconciled(once, devices, second);
            &&& again.len() == devices.len()
            &&& forall|k: int| 0 <= k < again.len() ==> !(#[trigger] again[k]).is_structural()
            &&& forall|k: int|
                0 <= k < devices.len() ==> #[trigger] again[k] == (EditView::Update {
                    position: k,
                    label: devices[k].name,
                    selected: is_current(second, devices[k].id),
                })
            &&& twice.len() == once.len()
            &&& forall|k: int|
                0 <= k < once.len() ==> {
                    &&& (#[trigger] twice[k]).id == once[k].id
                    &&& twice[k].tag == once[k].tag
                }
        }),
{
    let once = reconciled(rows, devices, first);
    lemma_rows_follow_devices(rows, devices, first);
    lemma_in_line_only_updates(once, devices, second, 0);
    assert(placeholder_leaves(once, devices) =~= Seq::<EditView>::empty());
    assert(placeholder_returns(once, devices) =~= Seq::<EditView>::empty());
    assert(plan(once, devices, second) =~= row_edits(once, devices, second, 0));
}

/// A row lives on when nothing reaches past it. If the device at `position`
/// of the list has its first row at `place`, and no device in front of it in
/// the list has a row at `place` or behind it, then the row at `position`
/// after the reconciliation is that same row: it keeps its identifier and its
/// tag.
pub proof fn lemma_row_survives(
    rows: Seq<Row>,
    devices: Seq<DeviceView>,
    current: Option<Seq<u16>>,
    place: int,
    position: int,
)
    requires
        0 <= place < rows.len(),
        0 <= position < devices.len(),
        rows[place].id == devices[position].id,
        forall|j: int| 0 <= j < place ==> (#[trigger] rows[j]).id != devices[position].id,
        forall|t: int, j: int|
            0 <= t < position && place <= j < rows.len() ==> (#[trigger] rows[j]).id != (
            #[trigger] devices[t]).id,
    ensures
        reconciled(rows, devices, current)[position] == refreshed(
            rows[place],
            devices[position],
            current,
        ),
    decreases devices.len(),
{
    lemma_rows_follow_devices(rows, devices, current);
    if position == 0 {
        lemma_first_match(rows, devices[0].id, place);
    } else {
        let found = first_match(rows, devices[0].id);
        lemma_first_match_found(rows, devices[0].id);
        let ahead = devices.skip(1);
        assert(ahead[position - 1] == devices[position]);
        if found < rows.len() {
            assert(found < place) by {
                if found >= place {
                    assert(rows[found].id != devices[0].id);
                }
            }
            let rest = rows.skip(found + 1);
            let there = place - found - 1;
            assert(rest[there] == rows[place]);
            assert forall|j: int| 0 <= j < there implies (#[trigger] rest[j]).id
                != ahead[position - 1].id by {
                assert(rest[j] == rows[j + found + 1]);
            }
            assert forall|t: int, j: int|
                0 <= t < position - 1 && there <= j < rest.len() implies (#[trigger] rest[j]).id != (
            #[trigger] ahead[t]).id by {
                assert(rest[j] == rows[j + found + 1]);
                assert(ahead[t] == devices[t + 1]);
            }
            lemma_row_survives(rest, ahead, current, there, position - 1);
            lemma_rows_follow_devices(rest, ahead, current);
            assert(reconciled(rows, devices, current)[position] == reconciled(
                rest,
                ahead,
                current,
            )[position - 1]);
        } else {
            assert forall|t: int, j: int|
                0 <= t < position - 1 && place <= j < rows.len() implies (#[trigger] rows[j]).id != (
            #[trigger] ahead[t]).id by {
                assert(ahead[t] == devices[t + 1]);
            }
            lemma_row_survives(rows, ahead, current, place, position - 1);
            lemma_rows_follow_devices(rows, ahead, current);
            assert(reconciled(rows, devices, current)[position] == reconciled(
                rows,
                ahead,
                current,
            )[position - 1]);
        }
    }
}

/// Stability. A device that stands at the same position before and after,
/// with no other row for it in front and with no device in front of it that
/// had a row at its position or behind, keeps its row: same identifier, same
/// tag, only text and mark refreshed.
pub proof fn lemma_unmoved_device_keeps_row(
    rows: Seq<Row>,
    devices: Seq<DeviceView>,
    current: Option<Seq<u16>>,
    position: int,
)
    requires
        0 <= position < rows.len(),
        position < devices.len(),
        rows[position].id == devices[position].id,
        forall|j: int| 0 <= j < position ==> (#[trigger] rows[j]).id != devices[position].id,
        forall|t: int, j: int|
            0 <= t < position && position <= j < rows.len() ==> (#[trigger] rows[j]).id != (
            #[trigger] devices[t]).id,
    ensures
        reconciled(rows, devices, current)[position].id == rows[position].id,
        reconciled(rows, devices, current)[position].tag == rows[position].tag,
        reconciled(rows, devices, current)[position] == refreshed(
            rows[position],
            devices[position],
            current,
        ),
{
    lemma_row_survives(rows, devices, current, position, position);
}

/// A row that the walk makes new carries no tag, so a tag found after a
/// reconciliation was on some row before it.
pub proof fn lemma_tags_come_from_rows(
    rows: Seq<Row>,
    devices: Seq<DeviceView>,
    current: Option<Seq<u16>>,
    position: int,
)
    requires
        0 <= position < devices.len(),
        reconciled(rows, devices, current)[position].tag is Some,
    ensures
        exists|j: int|
            0 <= j < rows.len() && (#[trigger] rows[j]).tag == reconciled(
                rows,
                devices,
                current,
            )[position].tag && rows[j].id == devices[position].id,
    decreases devices.len(),
{
    let found = first_match(rows, devices[0].id);
    lemma_first_match_found(rows, devices[0].id);
    let ahead = devices.skip(1);
    let rest = if found < rows.len() {
        rows.skip(found + 1)
    } else {
        rows
    };
    lemma_rows_follow_devices(rest, ahead, current);
    if position == 0 {
        assert(found < rows.len());
        assert(rows[found].tag == reconciled(rows, devices, current)[0].tag);
    } else {
        assert(reconciled(rows, devices, current)[position] == reconciled(rest, ahead, current)[
            position - 1]);
        assert(ahead[position - 1] == devices[position]);
        lemma_tags_come_from_rows(rest, ahead, current, position - 1);
        let j = choose|j: int|
            0 <= j < rest.len() && (#[trigger] rest[j]).tag == reconciled(rest, ahead, current)[
                position - 1].tag && rest[j].id == ahead[position - 1].id;
        if found < rows.len() {
            assert(rest[j] == rows[j + found + 1]);
        }
    }
}

} // verus!
