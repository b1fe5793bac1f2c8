//! The dispatcher: one event at a time, in arrival order.
//!
//! The dispatcher makes no platform call. For each event it names the steps
//! to take; the shell takes them, one after the other, by means of the
//! session and the menu, and then reports that the dispatch is complete. An
//! event that arrives while another is being dispatched waits in a queue.
//! After the request to exit nothing more is dispatched.

use crate::device::{device_views, Device};
use crate::menu::{edit_views, plan, reconciled, Edit, Menu, MenuRow, Row};
use crate::menu::{menu_row_views, shown};
use crate::session::{state_of, unbound, Reading, Session, SessionView};
use crate::status::{project, projection, SessionState, SessionStateView, Status};
use vstd::prelude::*;

verus! {

/// The menu command that asks to exit.
pub const COMMAND_EXIT: u16 = 0xFFFF;

/// The menu command that opens the system's sound settings.
pub const COMMAND_OPEN_SETTINGS: u16 = 0xFFFE;

/// The menu command that sets the recording volume to its maximum.
pub const COMMAND_SET_MAX_VOLUME: u16 = 0xFFFD;

/// The identifier of the separator below the device section.
pub const COMMAND_SEPARATOR: u16 = 0xFFFC;

/// The identifier of the "no devices" placeholder.
pub const COMMAND_NO_DEVICES: u16 = 0xFFFB;

/// What can happen.
#[derive(Clone, Copy, PartialEq, Eq, Structural, Debug)]
pub enum Event {
    /// A device came, went or changed, or the default device changed.
    EndpointChanged,
    /// Volume or mute state of the bound control changed.
    VolumeChanged,
    /// The user clicked the indicator.
    UserToggleMute,
    /// The user picked the device row at this position.
    UserSelectDevice(usize),
    /// The user asked for full recording volume.
    UserSetVolumeToMax,
    /// The user asked for the system's sound settings.
    UserOpenSettings,
    /// The user asked to exit.
    UserExit,
    /// Theme or resolution of the display changed; with a new resolution the
    /// icons have to be loaded again.
    ThemeOrDpiChanged { reload_icons: bool },
}

/// What the platform reports from threads of its own. A notification carries
/// nothing into the event loop but its kind: whatever changed is read afresh
/// when the event is dispatched.
#[derive(Clone, Copy, PartialEq, Eq, Structural, Debug)]
pub enum Notification {
    DeviceStateChanged,
    DeviceAdded,
    DeviceRemoved,
    DefaultDeviceChanged,
    PropertyValueChanged,
    VolumeChanged,
}

/// What the shell is to do, by means of the session, the menu and the
/// platform.
#[derive(Clone, Copy, PartialEq, Eq, Structural, Debug)]
pub enum Step {
    /// Unbind, then bind the default device and its volume control.
    Rebind,
    /// Read the control, project the status and show it.
    RefreshStatus,
    /// Enumerate the devices, reconcile the menu and apply the edits.
    RefreshMenu,
    /// Read the mute state and set its opposite.
    ToggleMute,
    /// Set the mute state.
    SetMute(bool),
    /// Read the volume and raise it to the maximum if it lies below.
    SetVolumeToMax,
    /// Make the device of the row at `index` the default device.
    SelectDevice { index: usize },
    /// Open the system's sound settings.
    OpenSettings,
    /// Load the icons again.
    ReloadIcons,
    /// Unbind, withdraw the indicator and end the event loop.
    Shutdown,
}

/// Where the dispatcher stands.
#[derive(Clone, Copy, PartialEq, Eq, Structural, Debug)]
pub enum Phase {
    /// Waiting for the next event.
    Idle,
    /// The shell is taking the steps of an event.
    Dispatching,
    /// Exit was requested; nothing more is dispatched.
    ShuttingDown,
}

/// The event that a notification is posted as: a change of volume or mute
/// state as such, everything about devices as a change of endpoints.
pub open spec fn event_of_notification(notification: Notification) -> Event {
    match notification {
        Notification::VolumeChanged => Event::VolumeChanged,
        _ => Event::EndpointChanged,
    }
}

/// The event that a menu command stands for. A command that is none of the
/// fixed ones picks the device row at its number.
pub open spec fn event_of_command(id: u16) -> Event {
    if id == COMMAND_EXIT {
        Event::UserExit
    } else if id == COMMAND_OPEN_SETTINGS {
        Event::UserOpenSettings
    } else if id == COMMAND_SET_MAX_VOLUME {
        Event::UserSetVolumeToMax
    } else {
        Event::UserSelectDevice(id as usize)
    }
}

/// The steps of an event. `keep_at_max` is the setting that holds the
/// recording volume at its maximum; `rows` is the number of device rows in
/// the menu.
pub open spec fn steps_for(event: Event, keep_at_max: bool, rows: nat) -> Seq<Step> {
    match event {
        Event::EndpointChanged => seq![Step::Rebind, Step::RefreshStatus, Step::RefreshMenu],
        Event::VolumeChanged => if keep_at_max {
            seq![Step::RefreshStatus, Step::SetVolumeToMax]
        } else {
            seq![Step::RefreshStatus]
        },
        Event::UserToggleMute => seq![Step::ToggleMute],
        Event::UserSelectDevice(index) => if index < rows {
            seq![Step::SelectDevice { index }]
        } else {
            Seq::empty()
        },
        Event::UserSetVolumeToMax => seq![Step::SetVolumeToMax],
        Event::UserOpenSettings => seq![Step::OpenSettings],
        Event::UserExit => seq![Step::Shutdown],
        Event::ThemeOrDpiChanged { reload_icons } => if reload_icons {
            seq![Step::ReloadIcons, Step::RefreshStatus]
        } else {
            seq![Step::RefreshStatus]
        },
    }
}

/// The steps that the actions asked for at startup amount to, in the order
/// in which they are taken: mute, unmute, toggle, full volume.
pub open spec fn startup_steps_for(mute: bool, unmute: bool, toggle: bool, max_volume: bool) -> Seq<
    Step,
> {
    (if mute {
        seq![Step::SetMute(true)]
    } else {
        Seq::empty()
    }) + (if unmute {
        seq![Step::SetMute(false)]
    } else {
        Seq::empty()
    }) + (if toggle {
        seq![Step::ToggleMute]
    } else {
        Seq::empty()
    }) + (if max_volume {
        seq![Step::SetVolumeToMax]
    } else {
        Seq::empty()
    })
}

/// The phase that taking up `event` leads to.
pub open spec fn phase_for(event: Event) -> Phase {
    if event is UserExit {
        Phase::ShuttingDown
    } else {
        Phase::Dispatching
    }
}

/// What a [`Dispatcher`] stands for in contracts.
pub ghost struct DispatcherView {
    pub phase: Phase,
    /// The events that wait, the oldest first.
    pub queue: Seq<Event>,
    pub keep_at_max: bool,
}

/// The dispatcher after an event came in.
pub open spec fn taken_in(d: DispatcherView, event: Event) -> DispatcherView {
    match d.phase {
        Phase::Idle => DispatcherView { phase: phase_for(event), ..d },
        Phase::Dispatching => DispatcherView { queue: d.queue.push(event), ..d },
        Phase::ShuttingDown => d,
    }
}

/// The steps to take when an event comes in: its own where the dispatcher
/// is at rest, none otherwise.
pub open spec fn steps_on_event(d: DispatcherView, event: Event, rows: nat) -> Seq<Step> {
    if d.phase is Idle {
        steps_for(event, d.keep_at_max, rows)
    } else {
        Seq::empty()
    }
}

/// The dispatcher after a dispatch was reported complete.
pub open spec fn completed(d: DispatcherView) -> DispatcherView {
    if !(d.phase is Dispatching) {
        d
    } else if d.queue.len() == 0 {
        DispatcherView { phase: Phase::Idle, ..d }
    } else if d.queue[0] is UserExit {
        DispatcherView { phase: Phase::ShuttingDown, queue: Seq::empty(), ..d }
    } else {
        DispatcherView { queue: d.queue.skip(1), ..d }
    }
}

/// The steps to take when a dispatch was reported complete: those of the
/// oldest event that waits, if any.
pub open spec fn steps_on_complete(d: DispatcherView, rows: nat) -> Seq<Step> {
    if d.phase is Dispatching && d.queue.len() > 0 {
        steps_for(d.queue[0], d.keep_at_max, rows)
    } else {
        Seq::empty()
    }
}

/// That events wait only while one is being dispatched.
pub open spec fn settled(d: DispatcherView) -> bool {
    !(d.phase is Dispatching) ==> d.queue.len() == 0
}

/// The dispatcher after the events came in, one after the other.
pub open spec fn all_taken_in(d: DispatcherView, events: Seq<Event>) -> DispatcherView
    decreases events.len(),
{
    if events.len() == 0 {
        d
    } else {
        all_taken_in(taken_in(d, events[0]), events.skip(1))
    }
}

/// The dispatcher after `count` dispatches were reported complete.
pub open spec fn completed_times(d: DispatcherView, count: nat) -> DispatcherView
    decreases count,
{
    if count == 0 {
        d
    } else {
        completed_times(completed(d), (count - 1) as nat)
    }
}

/// Events wait only while one is being dispatched: a dispatcher of which
/// that holds keeps it so, whatever comes in and whenever a dispatch is
/// reported complete.
pub proof fn lemma_stays_settled(d: DispatcherView, event: Event)
    requires
        settled(d),
    ensures
        settled(taken_in(d, event)),
        settled(completed(d)),
{
}

/// After the request to exit nothing is dispatched any more: the dispatcher
/// stays as it is and names no step.
pub proof fn lemma_shutdown_is_final(d: DispatcherView, event: Event, rows: nat)
    requires
        d.phase is ShuttingDown,
    ensures
        taken_in(d, event) == d,
        completed(d) == d,
        steps_on_event(d, event, rows) == Seq::<Step>::empty(),
        steps_on_complete(d, rows) == Seq::<Step>::empty(),
{
}

/// Events that come in during a dispatch line up behind those that wait.
pub proof fn lemma_events_line_up(d: DispatcherView, events: Seq<Event>)
    requires
        d.phase is Dispatching,
    ensures
        all_taken_in(d, events) == (DispatcherView { queue: d.queue + events, ..d }),
    decreases events.len(),
{
    if events.len() == 0 {
        assert(d.queue + events =~= d.queue);
    } else {
        let next = taken_in(d, events[0]);
        lemma_events_line_up(next, events.skip(1));
        assert(next.queue + events.skip(1) =~= d.queue + events);
    }
}

/// First in, first out. The events that come in during a dispatch are taken
/// up in the order of their arrival, one with each report that a dispatch is
/// complete: the event at `k` after `k` reports, provided that no request to
/// exit came in before it.
pub proof fn lemma_first_in_first_out(
    d: DispatcherView,
    events: Seq<Event>,
    k: int,
    rows: nat,
)
    requires
        d.phase is Dispatching,
        d.queue.len() == 0,
        0 <= k < events.len(),
        forall|i: int| 0 <= i < k ==> !(#[trigger] events[i] is UserExit),
    ensures
        steps_on_complete(completed_times(all_taken_in(d, events), k as nat), rows) == steps_for(
            events[k],
            d.keep_at_max,
            rows,
        ),
{
    lemma_events_line_up(d, events);
    assert(d.queue + events =~= events);
    lemma_leaves_in_order(DispatcherView { queue: events, ..d }, k);
}

/// Reports of completion take events off the front, as long as none of
/// them is the request to exit.
proof fn lemma_leaves_in_order(d: DispatcherView, k: int)
    requires
        d.phase is Dispatching,
        0 <= k < d.queue.len(),
        forall|i: int| 0 <= i < k ==> !(#[trigger] d.queue[i] is UserExit),
    ensures
        completed_times(d, k as nat) == (DispatcherView { queue: d.queue.skip(k), ..d }),
    decreases k,
{
    if k == 0 {
        assert(d.queue.skip(0) =~= d.queue);
    } else {
        let next = completed(d);
        assert(!(d.queue[0] is UserExit));
        assert forall|i: int| 0 <= i < k - 1 implies !(#[trigger] next.queue[i] is UserExit) by {
            assert(next.queue[i] == d.queue[i + 1]);
        }
        lemma_leaves_in_order(next, k - 1);
        assert(next.queue.skip(k - 1) =~= d.queue.skip(k));
    }
}

/// A 16-bit word read as a signed number.
pub open spec fn signed_word(word: int) -> int {
    if word < 0x8000 {
        word
    } else {
        word - 0x1_0000
    }
}

/// The low word of a message parameter.
pub open spec fn low_word_of(parameter: usize) -> int {
    parameter as int % 0x1_0000
}

/// The word above the low word of a message parameter.
pub open spec fn high_word_of(parameter: usize) -> int {
    (parameter as int / 0x1_0000) % 0x1_0000
}

/// The low word of a message parameter, which names the command or the
/// kind of notification.
pub fn low_word(parameter: usize) -> (word: u16)
    ensures
        word == low_word_of(parameter),
{
    (parameter % 0x1_0000) as u16
}

/// The place on screen that a request for the menu carries in its
/// parameter: the horizontal position in the low word, the vertical one in
/// the word above, both signed.
pub fn menu_position(parameter: usize) -> (place: (i32, i32))
    ensures
        place.0 == signed_word(low_word_of(parameter)),
        place.1 == signed_word(high_word_of(parameter)),
{
    let low: i32 = (parameter % 0x1_0000) as i32;
    let high: i32 = ((parameter / 0x1_0000) % 0x1_0000) as i32;
    let x: i32 = if low < 0x8000 {
        low
    } else {
        low - 0x1_0000
    };
    let y: i32 = if high < 0x8000 {
        high
    } else {
        high - 0x1_0000
    };
    (x, y)
}

/// The event to post for a notification.
pub fn notification_event(notification: Notification) -> (event: Event)
    ensures
        event == event_of_notification(notification),
{
    match notification {
        Notification::VolumeChanged => Event::VolumeChanged,
        _ => Event::EndpointChanged,
    }
}

/// The event that a menu command stands for.
pub fn command_event(id: u16) -> (event: Event)
    ensures
        event == event_of_command(id),
{
    if id == COMMAND_EXIT {
        Event::UserExit
    } else if id == COMMAND_OPEN_SETTINGS {
        Event::UserOpenSettings
    } else if id == COMMAND_SET_MAX_VOLUME {
        Event::UserSetVolumeToMax
    } else {
        Event::UserSelectDevice(id as usize)
    }
}

/// The steps of an event.
pub fn steps(event: Event, keep_at_max: bool, rows: usize) -> (steps: Vec<Step>)
    ensures
        steps@ == steps_for(event, keep_at_max, rows as nat),
{
    let mut steps: Vec<Step> = Vec::new();
    match event {
        Event::EndpointChanged => {
            steps.push(Step::Rebind);
            steps.push(Step::RefreshStatus);
            steps.push(Step::RefreshMenu);
        },
        Event::VolumeChanged => {
            steps.push(Step::RefreshStatus);
            if keep_at_max {
                steps.push(Step::SetVolumeToMax);
            }
        },
        Event::UserToggleMute => {
            steps.push(Step::ToggleMute);
        },
        Event::UserSelectDevice(index) => {
            if index < rows {
                steps.push(Step::SelectDevice { index });
            }
        },
        Event::UserSetVolumeToMax => {
            steps.push(Step::SetVolumeToMax);
        },
        Event::UserOpenSettings => {
            steps.push(Step::OpenSettings);
        },
        Event::UserExit => {
            steps.push(Step::Shutdown);
        },
        Event::ThemeOrDpiChanged { reload_icons } => {
            if reload_icons {
                steps.push(Step::ReloadIcons);
            }
            steps.push(Step::RefreshStatus);
        },
    }
    assert(steps@ =~= steps_for(event, keep_at_max, rows as nat));
    steps
}

/// The steps for the actions asked for at startup.
pub fn startup_steps(mute: bool, unmute: bool, toggle: bool, max_volume: bool) -> (steps: Vec<
    Step,
>)
    ensures
        steps@ == startup_steps_for(mute, unmute, toggle, max_volume),
{
    let mut steps: Vec<Step> = Vec::new();
    if mute {
        steps.push(Step::SetMute(true));
    }
    if unmute {
        steps.push(Step::SetMute(false));
    }
    if toggle {
        steps.push(Step::ToggleMute);
    }
    if max_volume {
        steps.push(Step::SetVolumeToMax);
    }
    assert(steps@ =~= startup_steps_for(mute, unmute, toggle, max_volume));
    steps
}

/// The scheduler: its phase, and the events that wait.
pub struct Dispatcher {
    keep_at_max: bool,
    phase: Phase,
    queue: Vec<Event>,
}

impl View for Dispatcher {
    type V = DispatcherView;

    closed spec fn view(&self) -> DispatcherView {
        DispatcherView { phase: self.phase, queue: self.queue@, keep_at_max: self.keep_at_max }
    }
}

impl Dispatcher {
    /// A dispatcher at rest. `keep_at_max` is the setting that holds the
    /// recording volume at its maximum.
    pub fn new(keep_at_max: bool) -> (dispatcher: Dispatcher)
        ensures
            dispatcher@ == (DispatcherView {
                phase: Phase::Idle,
                queue: Seq::<Event>::empty(),
                keep_at_max,
            }),
    {
        Dispatcher { keep_at_max, phase: Phase::Idle, queue: Vec::new() }
    }

    /// Where the dispatcher stands.
    pub fn phase(&self) -> (phase: Phase)
        ensures
            phase == self@.phase,
    {
        self.phase
    }

    /// The number of events that wait.
    pub fn pending(&self) -> (n: usize)
        ensures
            n == self@.queue.len(),
    {
        self.queue.len()
    }

    /// Whether the recording volume is held at its maximum.
    pub fn keeps_at_max(&self) -> (keep: bool)
        ensures
            keep == self@.keep_at_max,
    {
        self.keep_at_max
    }

    /// Takes an event in; `rows` is the number of device rows in the menu.
    /// At rest the event is taken up at once and its steps are returned; the
    /// request to exit starts the shutdown. While another event is being
    /// dispatched the event joins the queue behind those that wait, and
    /// there are no steps yet. During shutdown the event is dropped.
    pub fn on_event(&mut self, event: Event, rows: usize) -> (steps: Vec<Step>)
        ensures
            final(self)@ == taken_in(old(self)@, event),
            steps@ == steps_on_event(old(self)@, event, rows as nat),
    {
        match self.phase {
            Phase::Idle => {
                self.phase = match event {
                    Event::UserExit => Phase::ShuttingDown,
                    _ => Phase::Dispatching,
                };
                steps(event, self.keep_at_max, rows)
            },
            Phase::Dispatching => {
                self.queue.push(event);
                Vec::new()
            },
            Phase::ShuttingDown => Vec::new(),
        }
    }

    /// Reports that the steps of the current event are taken; `rows` is the
    /// number of device rows in the menu. The oldest event that waits is
    /// taken up next and its steps are returned; if it is the request to
    /// exit, the shutdown starts and the events behind it are dropped. With
    /// no event waiting the dispatcher comes to rest. Where no event was
    /// being dispatched nothing changes.
    pub fn complete(&mut self, rows: usize) -> (steps: Vec<Step>)
        ensures
            final(self)@ == completed(old(self)@),
            steps@ == steps_on_complete(old(self)@, rows as nat),
    {
        match self.phase {
            Phase::Dispatching => {
                if self.queue.len() == 0 {
                    self.phase = Phase::Idle;
                    Vec::new()
                } else {
                    let ghost waiting = self.queue@;
                    let event = self.queue.remove(0);
                    assert(self.queue@ =~= waiting.skip(1));
                    match event {
                        Event::UserExit => {
                            self.phase = Phase::ShuttingDown;
                            self.queue.clear();
                        },
                        _ => {},
                    }
                    steps(event, self.keep_at_max, rows)
                }
            },
            _ => Vec::new(),
        }
    }
}

/// The application's state in one place: the session, the menu, the
/// scheduler and the status as last projected.
pub struct Indicator {
    pub session: Session,
    pub menu: Menu,
    pub dispatcher: Dispatcher,
    pub status: Status,
}

impl Indicator {
    /// An indicator at rest, with nothing bound, an empty menu and the status
    /// of a session without device.
    pub fn new(keep_at_max: bool) -> (indicator: Indicator)
        ensures
            indicator.session@ == unbound(),
            indicator.session.wf(),
            indicator.menu@ == Seq::<Row>::empty(),
            indicator.dispatcher@ == (DispatcherView {
                phase: Phase::Idle,
                queue: Seq::<Event>::empty(),
                keep_at_max,
            }),
            indicator.status@ == projection(SessionStateView::NoDevice, false),
    {
        Indicator {
            session: Session::new(),
            menu: Menu::new(),
            dispatcher: Dispatcher::new(keep_at_max),
            status: project(&SessionState::NoDevice, false),
        }
    }

    /// Takes an event in and returns the steps to take now, if any.
    pub fn on_event(&mut self, event: Event) -> (steps: Vec<Step>)
        ensures
            final(self).dispatcher@ == taken_in(old(self).dispatcher@, event),
            steps@ == steps_on_event(old(self).dispatcher@, event, old(self).menu@.len()),
            final(self).session == old(self).session,
            final(self).menu == old(self).menu,
            final(self).status == old(self).status,
    {
        let rows = self.menu.len();
        self.dispatcher.on_event(event, rows)
    }

    /// Reports that the steps of the current event are taken and returns the
    /// steps of the event taken up next, if any.
    pub fn complete(&mut self) -> (steps: Vec<Step>)
        ensures
            final(self).dispatcher@ == completed(old(self).dispatcher@),
            steps@ == steps_on_complete(old(self).dispatcher@, old(self).menu@.len()),
            final(self).session == old(self).session,
            final(self).menu == old(self).menu,
            final(self).status == old(self).status,
    {
        let rows = self.menu.len();
        self.dispatcher.complete(rows)
    }

    /// Projects the status from the session and from what the shell has just
    /// read, keeps it as the current status and returns it.
    pub fn refresh_status(&mut self, reading: Reading, inverted: bool) -> (status: Status)
        ensures
            status@ == projection(state_of(old(self).session@, reading), inverted),
            final(self).status@ == status@,
            final(self).session == old(self).session,
            final(self).menu == old(self).menu,
            final(self).dispatcher == old(self).dispatcher,
    {
        let status = self.session.status(reading, inverted);
        self.status = status.clone();
        status
    }

    /// The status as last projected.
    pub fn current_status(&self) -> (status: Status)
        ensures
            status@ == self.status@,
    {
        self.status.clone()
    }

    /// Reconciles the menu with the devices just enumerated, marking the
    /// session's device, and returns the edits for the rendered menu.
    pub fn refresh_menu(&mut self, devices: &Vec<Device>) -> (edits: Vec<Edit>)
        ensures
            final(self).menu@ == reconciled(
                old(self).menu@,
                device_views(devices@),
                current_of(old(self).session@),
            ),
            edit_views(edits@) == plan(
                old(self).menu@,
                device_views(devices@),
                current_of(old(self).session@),
            ),
            final(self).session == old(self).session,
            final(self).dispatcher == old(self).dispatcher,
            final(self).status == old(self).status,
    {
        self.menu.reconcile(devices, self.session.device_id())
    }

    /// The menu's device section as it is to be shown.
    pub fn current_menu(&self) -> (rows: Vec<MenuRow>)
        ensures
            menu_row_views(rows@) == shown(self.menu@),
    {
        self.menu.current_menu()
    }
}

/// The identifier of the session's device, if one is bound.
pub open spec fn current_of(s: SessionView) -> Option<Seq<u16>> {
    match s.device {
        Some(device) => Some(device.id),
        None => None,
    }
}

} // verus!
