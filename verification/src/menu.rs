//! The device section of the selection menu, and its reconciliation against
//! the devices that the platform enumerates.
//!
//! The section is a persistent ordered list. Reconciling walks the freshly
//! enumerated devices in order. Each device takes the first remaining entry
//! with its identifier, which is refreshed where it stands; the entries in
//! front of that one are removed. A device that finds no entry gets a new one.
//! Entries left over at the end are removed. The walk does not look for moves:
//! an entry that a later device would have matched is gone once an earlier
//! device has reached past it.

use crate::device::{device_ids, device_views, Device, DeviceId, DeviceView};
use crate::menu::laws::lemma_rows_follow_devices;
use crate::menu::rendering::{apply_all, lemma_plan_renders_reconciled, rendered};
use vstd::prelude::*;

pub mod laws;
pub mod rendering;

verus! {

/// One row of the device section.
pub struct Entry {
    /// The device that the row stands for.
    pub id: DeviceId,
    /// The text shown.
    pub label: String,
    /// Whether the row carries the mark of the current default device.
    pub selected: bool,
    /// A mark of the shell's own. A row keeps it for as long as it lives; a
    /// row that reconciliation inserts starts without one.
    pub tag: Option<u64>,
}

/// What an [`Entry`] stands for in contracts.
pub ghost struct Row {
    pub id: Seq<u16>,
    pub label: Seq<char>,
    pub selected: bool,
    pub tag: Option<u64>,
}

impl View for Entry {
    type V = Row;

    open spec fn view(&self) -> Row {
        Row { id: self.id@, label: self.label@, selected: self.selected, tag: self.tag }
    }
}

/// One change to the rendered section. Positions count rows of the section
/// at the moment the edit is applied.
pub enum Edit {
    /// Take the "no devices" placeholder away.
    HidePlaceholder,
    /// Take away the row at `position`.
    Remove { position: usize },
    /// Refresh text and mark of the row at `position`, which stays the same row.
    Update { position: usize, label: String, selected: bool },
    /// Put a new row in front of the row at `position`.
    Insert { position: usize, id: DeviceId, label: String, selected: bool },
    /// Put the "no devices" placeholder in as the only row.
    ShowPlaceholder,
}

/// What an [`Edit`] stands for in contracts.
pub ghost enum EditView {
    HidePlaceholder,
    Remove { position: int },
    Update { position: int, label: Seq<char>, selected: bool },
    Insert { position: int, id: Seq<u16>, label: Seq<char>, selected: bool },
    ShowPlaceholder,
}

impl View for Edit {
    type V = EditView;

    open spec fn view(&self) -> EditView {
        match self {
            Edit::HidePlaceholder => EditView::HidePlaceholder,
            Edit::Remove { position } => EditView::Remove { position: *position as int },
            Edit::Update { position, label, selected } => EditView::Update {
                position: *position as int,
                label: label@,
                selected: *selected,
            },
            Edit::Insert { position, id, label, selected } => EditView::Insert {
                position: *position as int,
                id: id@,
                label: label@,
                selected: *selected,
            },
            Edit::ShowPlaceholder => EditView::ShowPlaceholder,
        }
    }
}

impl EditView {
    /// An edit that adds or removes a row; an update is none.
    pub open spec fn is_structural(self) -> bool {
        !(self is Update)
    }
}

/// The rows of a list of entries.
pub open spec fn rows_of(entries: Seq<Entry>) -> Seq<Row> {
    entries.map_values(|e: Entry| e@)
}

/// The edits of a plan, each by its view.
pub open spec fn edit_views(edits: Seq<Edit>) -> Seq<EditView> {
    edits.map_values(|e: Edit| e@)
}

/// The identifiers of the rows, in order.
pub open spec fn row_ids(rows: Seq<Row>) -> Seq<Seq<u16>> {
    rows.map_values(|r: Row| r.id)
}

/// The identifier of the session's current device, if it has one.
pub open spec fn id_view(current: Option<&DeviceId>) -> Option<Seq<u16>> {
    match current {
        Some(id) => Some(id@),
        None => None,
    }
}

/// Whether a device with identifier `id` is the current one.
pub open spec fn is_current(current: Option<Seq<u16>>, id: Seq<u16>) -> bool {
    current == Some(id)
}

/// The position of the first row for `id`, or the number of rows if there is
/// none.
pub open spec fn first_match(rows: Seq<Row>, id: Seq<u16>) -> int
    decreases rows.len(),
{
    if rows.len() == 0 || rows[0].id == id {
        0
    } else {
        1 + first_match(rows.skip(1), id)
    }
}

/// A row after its device was seen again: same row, fresh text and mark.
pub open spec fn refreshed(row: Row, device: DeviceView, current: Option<Seq<u16>>) -> Row {
    Row { id: row.id, label: device.name, selected: is_current(current, device.id), tag: row.tag }
}

/// The row made for a device that had none.
pub open spec fn inserted(device: DeviceView, current: Option<Seq<u16>>) -> Row {
    Row {
        id: device.id,
        label: device.name,
        selected: is_current(current, device.id),
        tag: None,
    }
}

/// The rows after reconciling `rows` against `devices`.
pub open spec fn reconciled(
    rows: Seq<Row>,
    devices: Seq<DeviceView>,
    current: Option<Seq<u16>>,
) -> Seq<Row>
    decreases devices.len(),
{
    if devices.len() == 0 {
        Seq::empty()
    } else {
        let found = first_match(rows, devices[0].id);
        if found < rows.len() {
            seq![refreshed(rows[found], devices[0], current)] + reconciled(
                rows.skip(found + 1),
                devices.skip(1),
                current,
            )
        } else {
            seq![inserted(devices[0], current)] + reconciled(rows, devices.skip(1), current)
        }
    }
}

/// `count` removals at one position.
pub open spec fn removals(position: int, count: int) -> Seq<EditView> {
    Seq::new(
        if count >= 0 {
            count as nat
        } else {
            0
        },
        |k: int| EditView::Remove { position },
    )
}

/// The edits that bring `rows`, which start at position `at` of the section
/// with everything in front of them already in place, in line with `devices`.
pub open spec fn row_edits(
    rows: Seq<Row>,
    devices: Seq<DeviceView>,
    current: Option<Seq<u16>>,
    at: int,
) -> Seq<EditView>
    decreases devices.len(),
{
    if devices.len() == 0 {
        removals(at, rows.len() as int)
    } else {
        let found = first_match(rows, devices[0].id);
        if found < rows.len() {
            removals(at, found) + seq![
                EditView::Update {
                    position: at,
                    label: devices[0].name,
                    selected: is_current(current, devices[0].id),
                },
            ] + row_edits(rows.skip(found + 1), devices.skip(1), current, at + 1)
        } else {
            seq![
                EditView::Insert {
                    position: at,
                    id: devices[0].id,
                    label: devices[0].name,
                    selected: is_current(current, devices[0].id),
                },
            ] + row_edits(rows, devices.skip(1), current, at + 1)
        }
    }
}

/// The placeholder leaves first when devices arrive in an empty section.
pub open spec fn placeholder_leaves(rows: Seq<Row>, devices: Seq<DeviceView>) -> Seq<EditView> {
    if rows.len() == 0 && devices.len() > 0 {
        seq![EditView::HidePlaceholder]
    } else {
        Seq::empty()
    }
}

/// The placeholder comes back last when the final device has gone.
pub open spec fn placeholder_returns(rows: Seq<Row>, devices: Seq<DeviceView>) -> Seq<EditView> {
    if devices.len() == 0 && rows.len() > 0 {
        seq![EditView::ShowPlaceholder]
    } else {
        Seq::empty()
    }
}

/// The whole edit plan of one reconciliation, in the order in which the shell
/// applies it.
pub open spec fn plan(
    rows: Seq<Row>,
    devices: Seq<DeviceView>,
    current: Option<Seq<u16>>,
) -> Seq<EditView> {
    placeholder_leaves(rows, devices) + row_edits(rows, devices, current, 0) + placeholder_returns(
        rows,
        devices,
    )
}

/// `first_match` is the position that a scan from the front stops at.
pub proof fn lemma_first_match(rows: Seq<Row>, id: Seq<u16>, stop: int)
    requires
        0 <= stop <= rows.len(),
        forall|k: int| 0 <= k < stop ==> (#[trigger] rows[k]).id != id,
        stop < rows.len() ==> rows[stop].id == id,
    ensures
        first_match(rows, id) == stop,
    decreases rows.len(),
{
    if stop > 0 {
        assert(rows[0].id != id);
        let rest = rows.skip(1);
        assert forall|k: int| 0 <= k < stop - 1 implies (#[trigger] rest[k]).id != id by {
            assert(rest[k] == rows[k + 1]);
        }
        lemma_first_match(rest, id, stop - 1);
    }
}

/// What `first_match` finds: nothing in front of it matches, and where it
/// stays inside the rows the row there does.
pub proof fn lemma_first_match_found(rows: Seq<Row>, id: Seq<u16>)
    ensures
        0 <= first_match(rows, id) <= rows.len(),
        forall|k: int| 0 <= k < first_match(rows, id) ==> (#[trigger] rows[k]).id != id,
        first_match(rows, id) < rows.len() ==> rows[first_match(rows, id)].id == id,
    decreases rows.len(),
{
    if rows.len() == 0 || rows[0].id == id {
    } else {
        let rest = rows.skip(1);
        lemma_first_match_found(rest, id);
        let found = first_match(rest, id);
        assert forall|k: int| 0 <= k < found + 1 implies (#[trigger] rows[k]).id != id by {
            if k > 0 {
                assert(rest[k - 1] == rows[k]);
            }
        }
        if found < rest.len() {
            assert(rest[found] == rows[found + 1]);
        }
    }
}

/// One step of the walk where the device at `i` has its row at `j`.
proof fn lemma_step_found(
    rows: Seq<Row>,
    devices: Seq<DeviceView>,
    current: Option<Seq<u16>>,
    i: int,
    j: int,
)
    requires
        0 <= i <= j < rows.len(),
        i < devices.len(),
        rows[j].id == devices[i].id,
        forall|k: int| i <= k < j ==> (#[trigger] rows[k]).id != devices[i].id,
    ensures
        reconciled(rows.skip(i), devices.skip(i), current) == seq![
            refreshed(rows[j], devices[i], current),
        ] + reconciled(rows.skip(j + 1), devices.skip(i + 1), current),
        row_edits(rows.skip(i), devices.skip(i), current, i) == removals(i, j - i) + seq![
            EditView::Update {
                position: i,
                label: devices[i].name,
                selected: is_current(current, devices[i].id),
            },
        ] + row_edits(rows.skip(j + 1), devices.skip(i + 1), current, i + 1),
{
    let rest = rows.skip(i);
    let ahead = devices.skip(i);
    assert forall|k: int| 0 <= k < j - i implies (#[trigger] rest[k]).id != ahead[0].id by {
        assert(rest[k] == rows[i + k]);
    }
    lemma_first_match(rest, ahead[0].id, j - i);
    assert(rest.skip(j - i + 1) == rows.skip(j + 1));
    assert(ahead.skip(1) == devices.skip(i + 1));
}

/// One step of the walk where the device at `i` has no row.
proof fn lemma_step_missing(
    rows: Seq<Row>,
    devices: Seq<DeviceView>,
    current: Option<Seq<u16>>,
    i: int,
)
    requires
        0 <= i <= rows.len(),
        i < devices.len(),
        forall|k: int| i <= k < rows.len() ==> (#[trigger] rows[k]).id != devices[i].id,
    ensures
        reconciled(rows.skip(i), devices.skip(i), current) == seq![
            inserted(devices[i], current),
        ] + reconciled(rows.skip(i), devices.skip(i + 1), current),
        row_edits(rows.skip(i), devices.skip(i), current, i) == seq![
            EditView::Insert {
                position: i,
                id: devices[i].id,
                label: devices[i].name,
                selected: is_current(current, devices[i].id),
            },
        ] + row_edits(rows.skip(i), devices.skip(i + 1), current, i + 1),
{
    let rest = rows.skip(i);
    let ahead = devices.skip(i);
    assert forall|k: int| 0 <= k < rest.len() implies (#[trigger] rest[k]).id != ahead[0].id by {
        assert(rest[k] == rows[i + k]);
    }
    lemma_first_match(rest, ahead[0].id, rest.len() as int);
    assert(ahead.skip(1) == devices.skip(i + 1));
}

/// Whether `id` is the current device.
fn marks_current(current: Option<&DeviceId>, id: &DeviceId) -> (selected: bool)
    ensures
        selected == is_current(id_view(current), id@),
{
    match current {
        Some(c) => id.same_as(c),
        None => false,
    }
}

/// One row of the menu as the shell shows it.
pub struct MenuRow {
    pub label: String,
    pub selected: bool,
    pub enabled: bool,
}

/// What a [`MenuRow`] stands for in contracts.
pub ghost struct MenuRowView {
    pub label: Seq<char>,
    pub selected: bool,
    pub enabled: bool,
}

impl View for MenuRow {
    type V = MenuRowView;

    open spec fn view(&self) -> MenuRowView {
        MenuRowView { label: self.label@, selected: self.selected, enabled: self.enabled }
    }
}

/// The rows of a shown menu, each by its view.
pub open spec fn menu_row_views(rows: Seq<MenuRow>) -> Seq<MenuRowView> {
    rows.map_values(|r: MenuRow| r@)
}

/// The text of the placeholder.
pub open spec fn placeholder_label() -> Seq<char> {
    "No audio capture devices found"@
}

/// The placeholder: disabled, unmarked.
pub open spec fn placeholder_row() -> MenuRowView {
    MenuRowView { label: placeholder_label(), selected: false, enabled: false }
}

/// What the shell shows for `rows`: one enabled row per device, or the
/// placeholder alone where there is no device.
pub open spec fn shown(rows: Seq<Row>) -> Seq<MenuRowView> {
    if rows.len() == 0 {
        seq![placeholder_row()]
    } else {
        rows.map_values(
            |r: Row| MenuRowView { label: r.label, selected: r.selected, enabled: true },
        )
    }
}

/// The device section that the shell keeps on screen.
pub struct Menu {
    entries: Vec<Entry>,
}

impl View for Menu {
    type V = Seq<Row>;

    closed spec fn view(&self) -> Seq<Row> {
        rows_of(self.entries@)
    }
}

impl Menu {
    /// A section without devices, which shows the placeholder.
    pub fn new() -> (menu: Menu)
        ensures
            menu@ == Seq::<Row>::empty(),
    {
        let menu = Menu { entries: Vec::new() };
        assert(menu@ =~= Seq::<Row>::empty());
        menu
    }

    /// The number of device rows.
    pub fn len(&self) -> (n: usize)
        ensures
            n == self@.len(),
    {
        self.entries.len()
    }

    /// Brings the section in line with `devices`, which come in the
    /// platform's order, and marks the row of `current`. Returns the edits
    /// that do the same to the rendered section, in the order in which they
    /// apply. Afterwards the rows follow the devices one by one, and the
    /// rendered section with the edits applied is the section rendered anew.
    pub fn reconcile(&mut self, devices: &Vec<Device>, current: Option<&DeviceId>) -> (edits: Vec<
        Edit,
    >)
        ensures
            final(self)@ == reconciled(old(self)@, device_views(devices@), id_view(current)),
            edit_views(edits@) == plan(old(self)@, device_views(devices@), id_view(current)),
            row_ids(final(self)@) == device_ids(device_views(devices@)),
            final(self)@.len() == devices@.len(),
            apply_all(rendered(old(self)@), edit_views(edits@)) == rendered(final(self)@),
    {
        let ghost start = self@;
        let ghost dv = device_views(devices@);
        let ghost cur = id_view(current);
        let mut edits: Vec<Edit> = Vec::new();
        if self.entries.len() == 0 && devices.len() > 0 {
            edits.push(Edit::HidePlaceholder);
        }
        proof {
            assert(edit_views(edits@) =~= placeholder_leaves(start, dv));
            assert(self@.skip(0) == self@);
            assert(dv.skip(0) == dv);
            assert(self@.take(0) + reconciled(start, dv, cur) == reconciled(start, dv, cur));
        }
        let mut i: usize = 0;
        while i < devices.len()
            invariant
                i <= devices.len(),
                i <= self@.len(),
                dv == device_views(devices@),
                cur == id_view(current),
                i == 0 ==> self@ == start,
                reconciled(start, dv, cur) == self@.take(i as int) + reconciled(
                    self@.skip(i as int),
                    dv.skip(i as int),
                    cur,
                ),
                placeholder_leaves(start, dv) + row_edits(start, dv, cur, 0) == edit_views(edits@)
                    + row_edits(self@.skip(i as int), dv.skip(i as int), cur, i as int),
            decreases devices.len() - i,
        {
            let device = &devices[i];
            let ghost before = self@;
            let ghost done = edit_views(edits@);
            assert(dv[i as int] == device@);
            let selected = marks_current(current, &device.id);
            let mut j: usize = i;
            while j < self.entries.len() && !self.entries[j].id.same_as(&device.id)
                invariant
                    i <= j <= self.entries.len(),
                    self@ == before,
                    forall|k: int| i <= k < j ==> (#[trigger] before[k]).id != device.id@,
                decreases self.entries.len() - j,
            {
                j = j + 1;
            }
            if j < self.entries.len() {
                proof {
                    lemma_step_found(before, dv, cur, i as int, j as int);
                }
                let mut k: usize = 0;
                while k < j - i
                    invariant
                        i <= j < before.len(),
                        k <= j - i,
                        self@.len() == before.len() - k,
                        self@ == before.take(i as int) + before.skip(i + k),
                        edit_views(edits@) == done + removals(i as int, k as int),
                    decreases j - i - k,
                {
                    let ghost shorter = self@.remove(i as int);
                    let ghost planned = edit_views(edits@);
                    self.entries.remove(i);
                    edits.push(Edit::Remove { position: i });
                    proof {
                        assert(self@ =~= shorter);
                        assert(edit_views(edits@) =~= planned.push(
                            EditView::Remove { position: i as int },
                        ));
                        assert(shorter =~= before.take(i as int) + before.skip(i + k + 1));
                        assert(edit_views(edits@) =~= done + removals(i as int, k + 1));
                    }
                    k = k + 1;
                }
                let label = device.name.clone();
                let ghost stale = self@;
                assert(stale[i as int] == before[j as int]);
                let entry = &mut self.entries[i];
                entry.label = device.name.clone();
                entry.selected = selected;
                edits.push(Edit::Update { position: i, label, selected });
                proof {
                    let row = refreshed(before[j as int], dv[i as int], cur);
                    assert(self@ =~= stale.update(i as int, row));
                    assert(self@ =~= before.take(i as int) + seq![row] + before.skip(j + 1));
                    assert(self@.take(i + 1) =~= before.take(i as int) + seq![row]);
                    assert(self@.skip(i + 1) =~= before.skip(j + 1));
                    assert(edit_views(edits@) =~= done + removals(i as int, j - i) + seq![
                        EditView::Update {
                            position: i as int,
                            label: dv[i as int].name,
                            selected: is_current(cur, dv[i as int].id),
                        },
                    ]);
                }
            } else {
                proof {
                    lemma_step_missing(before, dv, cur, i as int);
                }
                let label = device.name.clone();
                self.entries.insert(
                    i,
                    Entry { id: device.id.clone(), label: device.name.clone(), selected, tag: None },
                );
                edits.push(
                    Edit::Insert { position: i, id: device.id.clone(), label, selected },
                );
                proof {
                    let row = inserted(dv[i as int], cur);
                    assert(self@ =~= before.take(i as int) + seq![row] + before.skip(i as int));
                    assert(self@.take(i + 1) =~= before.take(i as int) + seq![row]);
                    assert(self@.skip(i + 1) =~= before.skip(i as int));
                    assert(edit_views(edits@) =~= done + seq![
                        EditView::Insert {
                            position: i as int,
                            id: dv[i as int].id,
                            label: dv[i as int].name,
                            selected: is_current(cur, dv[i as int].id),
                        },
                    ]);
                }
            }
            i = i + 1;
        }
        let ghost walked = self@;
        let ghost done = edit_views(edits@);
        let keep = devices.len();
        let show_placeholder = devices.len() == 0 && self.entries.len() > 0;
        proof {
            assert(dv.skip(keep as int).len() == 0);
            assert(walked.take(keep as int) + Seq::<Row>::empty() == walked.take(keep as int));
            if keep == 0 {
                assert(walked.skip(0) == start);
            }
        }
        while self.entries.len() > keep
            invariant
                keep <= self@.len() <= walked.len(),
                self@ == walked.take(self@.len() as int),
                edit_views(edits@) == done + removals(keep as int, walked.len() - self@.len()),
            decreases self@.len(),
        {
            let ghost shorter = self@.drop_last();
            let ghost planned = edit_views(edits@);
            self.entries.pop();
            edits.push(Edit::Remove { position: keep });
            proof {
                assert(self@ =~= shorter);
                assert(edit_views(edits@) =~= planned.push(
                    EditView::Remove { position: keep as int },
                ));
                assert(self@ =~= walked.take(self@.len() as int));
                assert(edit_views(edits@) =~= done + removals(
                    keep as int,
                    walked.len() - self@.len(),
                ));
            }
        }
        if show_placeholder {
            edits.push(Edit::ShowPlaceholder);
        }
        proof {
            assert(walked.skip(keep as int).len() == walked.len() - keep);
            assert(edit_views(edits@) =~= done + removals(keep as int, walked.len() - keep)
                + placeholder_returns(start, dv));
            assert(edit_views(edits@) =~= plan(start, dv, cur));
            lemma_rows_follow_devices(start, dv, cur);
            lemma_plan_renders_reconciled(start, dv, cur);
        }
        edits
    }

    /// The menu's device section as it is to be shown.
    pub fn current_menu(&self) -> (rows: Vec<MenuRow>)
        ensures
            menu_row_views(rows@) == shown(self@),
    {
        let mut rows: Vec<MenuRow> = Vec::new();
        if self.entries.len() == 0 {
            rows.push(
                MenuRow {
                    label: String::from_str("No audio capture devices found"),
                    selected: false,
                    enabled: false,
                },
            );
            assert(menu_row_views(rows@) =~= shown(self@));
            return rows;
        }
        let mut i: usize = 0;
        while i < self.entries.len()
            invariant
                i <= self.entries@.len(),
                self.entries@.len() > 0,
                menu_row_views(rows@) == shown(self@).take(i as int),
            decreases self.entries@.len() - i,
        {
            let entry = &self.entries[i];
            let ghost listed = menu_row_views(rows@);
            rows.push(
                MenuRow { label: entry.label.clone(), selected: entry.selected, enabled: true },
            );
            proof {
                assert(menu_row_views(rows@) =~= listed.push(shown(self@)[i as int]));
                assert(shown(self@).take(i + 1) =~= shown(self@).take(i as int).push(
                    shown(self@)[i as int],
                ));
            }
            i = i + 1;
        }
        assert(shown(self@).take(i as int) =~= shown(self@));
        rows
    }

    /// The device behind the row at `index`, if there is such a row.
    pub fn device_at(&self, index: usize) -> (id: Option<DeviceId>)
        ensures
            index < self@.len() ==> id is Some && id->0@ == self@[index as int].id,
            index >= self@.len() ==> id is None,
    {
        if index < self.entries.len() {
            Some(self.entries[index].id.clone())
        } else {
            None
        }
    }

    /// The tag of the row at `index`; none where there is no such row.
    pub fn tag_at(&self, index: usize) -> (tag: Option<u64>)
        ensures
            index < self@.len() ==> tag == self@[index as int].tag,
            index >= self@.len() ==> tag is None,
    {
        if index < self.entries.len() {
            self.entries[index].tag
        } else {
            None
        }
    }

    /// Puts `tag` on the row at `index` and says whether there is such a row.
    /// Nothing else changes.
    pub fn set_tag(&mut self, index: usize, tag: Option<u64>) -> (done: bool)
        ensures
            done == (index < old(self)@.len()),
            done ==> final(self)@ == old(self)@.update(
                index as int,
                Row {
                    id: old(self)@[index as int].id,
                    label: old(self)@[index as int].label,
                    selected: old(self)@[index as int].selected,
                    tag,
                },
            ),
            !done ==> final(self)@ == old(self)@,
    {
        if index < self.entries.len() {
            let ghost before = self@;
            let entry = &mut self.entries[index];
            entry.tag = tag;
            assert(self@ =~= before.update(
                index as int,
                Row {
                    id: before[index as int].id,
                    label: before[index as int].label,
                    selected: before[index as int].selected,
                    tag,
                },
            ));
            true
        } else {
            false
        }
    }
}

} // verus!
