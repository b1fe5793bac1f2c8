//! The binding to the default communications capture device and to its volume
//! control.
//!
//! The session makes no platform call. The shell asks the platform, hands the
//! outcome in, and carries out what the session hands back. A binding is
//! replaced in three steps: `unbind`, whose teardown the shell performs at
//! once; `bind_default_device` with the outcome of the query; and, where a
//! device was bound, `bind_volume_control` with the outcome of activating the
//! control and subscribing to it.

use crate::device::{Device, DeviceId, DeviceView};
use crate::status::{project, projection, SessionState, SessionStateView, Status};
use vstd::prelude::*;

pub mod laws;

verus! {

/// The platform's code for "the element is not there": no default device.
pub const NOT_FOUND: u32 = 0x8007_0490;

/// The platform's code for "no such interface": a device without a volume
/// control.
pub const NO_INTERFACE: u32 = 0x8000_4002;

/// A platform call that failed, by its result code.
#[derive(Clone, Copy, PartialEq, Eq, Structural, Debug)]
pub struct PlatformError {
    pub code: u32,
}

/// How activating the volume control and subscribing to its changes went.
#[derive(Clone, Copy, PartialEq, Eq, Structural, Debug)]
pub enum Acquisition {
    /// The control is active and the subscription stands.
    Subscribed,
    /// The control could not be activated; nothing is held.
    ActivationFailed(PlatformError),
    /// The control was activated, subscribing failed, and the control was let
    /// go again; nothing is held.
    SubscriptionFailed(PlatformError),
}

/// What the shell has to undo, in this order: the subscription to volume
/// changes, then the control, then the device.
#[derive(Clone, Copy, PartialEq, Eq, Structural, Debug)]
pub struct Teardown {
    pub unsubscribe: bool,
    pub release_control: bool,
    pub release_device: bool,
}

/// The volume as the shell read it: in percent, rounded, and whether it lies
/// strictly below the maximum.
#[derive(Clone, Copy, PartialEq, Eq, Structural, Debug)]
pub struct Level {
    pub percent: u32,
    pub below_max: bool,
}

/// Mute state and volume as the shell read them from the control.
#[derive(Clone, Copy, PartialEq, Eq, Structural, Debug)]
pub struct Reading {
    pub muted: bool,
    pub level: Level,
}

/// What a [`Session`] stands for in contracts: the device bound, and whether
/// a volume control is held. A control that is held is subscribed.
pub ghost struct SessionView {
    pub device: Option<DeviceView>,
    pub control: bool,
}

/// The session with nothing bound.
pub open spec fn unbound() -> SessionView {
    SessionView { device: None, control: false }
}

/// The teardown that lets go of everything `s` holds.
pub open spec fn teardown_of(s: SessionView) -> Teardown {
    Teardown {
        unsubscribe: s.control,
        release_control: s.control,
        release_device: s.device is Some,
    }
}

/// The outcome of the query for the default device, by view.
pub open spec fn lookup_view(lookup: Result<Device, PlatformError>) -> Result<
    DeviceView,
    PlatformError,
> {
    match lookup {
        Ok(device) => Ok(device@),
        Err(error) => Err(error),
    }
}

/// The session after the query for the default device.
pub open spec fn after_lookup(lookup: Result<DeviceView, PlatformError>) -> SessionView {
    match lookup {
        Ok(device) => SessionView { device: Some(device), control: false },
        Err(_) => unbound(),
    }
}

/// What the query for the default device amounts to: a device bound, an
/// absence, or a failure to report.
pub open spec fn lookup_result(lookup: Result<DeviceView, PlatformError>) -> Result<
    bool,
    PlatformError,
> {
    match lookup {
        Ok(_) => Ok(true),
        Err(error) => if error.code == NOT_FOUND {
            Ok(false)
        } else {
            Err(error)
        },
    }
}

/// The session after an attempt to acquire the volume control.
pub open spec fn after_acquisition(s: SessionView, acquisition: Acquisition) -> SessionView {
    SessionView { device: s.device, control: acquisition is Subscribed }
}

/// What an attempt to acquire the volume control amounts to: a control held,
/// an absence, or a failure to report.
pub open spec fn acquisition_result(acquisition: Acquisition) -> Result<bool, PlatformError> {
    match acquisition {
        Acquisition::Subscribed => Ok(true),
        Acquisition::ActivationFailed(error) => if error.code == NO_INTERFACE {
            Ok(false)
        } else {
            Err(error)
        },
        Acquisition::SubscriptionFailed(error) => Err(error),
    }
}

/// The state that the status shows for a session and for what the shell has
/// just read from its control. What was read counts only where a control is
/// held.
pub open spec fn state_of(s: SessionView, reading: Reading) -> SessionStateView {
    match s.device {
        None => SessionStateView::NoDevice,
        Some(device) => if s.control {
            SessionStateView::Bound {
                name: device.name,
                muted: reading.muted,
                percent: reading.level.percent,
            }
        } else {
            SessionStateView::NoControl { name: device.name }
        },
    }
}

/// The single binding to the default communications capture device.
pub struct Session {
    device: Option<Device>,
    control: bool,
}

impl View for Session {
    type V = SessionView;

    closed spec fn view(&self) -> SessionView {
        SessionView {
            device: match self.device {
                Some(device) => Some(device@),
                None => None,
            },
            control: self.control,
        }
    }
}

impl Session {
    /// A control is only ever held on a bound device.
    pub open spec fn wf(&self) -> bool {
        self@.control ==> self@.device is Some
    }

    /// A session with nothing bound.
    pub fn new() -> (session: Session)
        ensures
            session@ == unbound(),
            session.wf(),
    {
        Session { device: None, control: false }
    }

    /// Whether a device is bound.
    pub fn has_device(&self) -> (bound: bool)
        ensures
            bound == (self@.device is Some),
    {
        self.device.is_some()
    }

    /// Whether a volume control is held.
    pub fn has_control(&self) -> (held: bool)
        ensures
            held == self@.control,
    {
        self.control
    }

    /// The identifier of the bound device.
    pub fn device_id(&self) -> (id: Option<&DeviceId>)
        ensures
            match id {
                Some(id) => self@.device is Some && id@ == self@.device->0.id,
                None => self@.device is None,
            },
    {
        match &self.device {
            Some(device) => Some(&device.id),
            None => None,
        }
    }

    /// The name of the bound device.
    pub fn device_name(&self) -> (name: Option<&String>)
        ensures
            match name {
                Some(name) => self@.device is Some && name@ == self@.device->0.name,
                None => self@.device is None,
            },
    {
        match &self.device {
            Some(device) => Some(&device.name),
            None => None,
        }
    }

    /// Lets go of everything and says what the shell has to undo. On a
    /// session with nothing bound there is nothing to undo.
    pub fn unbind(&mut self) -> (teardown: Teardown)
        ensures
            final(self)@ == unbound(),
            final(self).wf(),
            teardown == teardown_of(old(self)@),
    {
        let teardown = Teardown {
            unsubscribe: self.control,
            release_control: self.control,
            release_device: self.device.is_some(),
        };
        self.device = None;
        self.control = false;
        teardown
    }

    /// Lets go of the volume control alone and says what the shell has to
    /// undo. The device stays bound.
    pub fn release_volume_control(&mut self) -> (teardown: Teardown)
        ensures
            final(self)@ == (SessionView { device: old(self)@.device, control: false }),
            final(self).wf(),
            teardown == (Teardown {
                unsubscribe: old(self)@.control,
                release_control: old(self)@.control,
                release_device: false,
            }),
    {
        let teardown = Teardown {
            unsubscribe: self.control,
            release_control: self.control,
            release_device: false,
        };
        self.control = false;
        teardown
    }

    /// Takes the outcome of the query for the default device. A device is
    /// bound and `Ok(true)` returned, upon which the shell acquires its
    /// volume control. That there is no default device is no failure: nothing
    /// is bound and `Ok(false)` returned. Any other failure is handed on, and
    /// nothing is bound.
    pub fn bind_default_device(&mut self, lookup: Result<Device, PlatformError>) -> (result: Result<
        bool,
        PlatformError,
    >)
        requires
            old(self)@ == unbound(),
        ensures
            final(self)@ == after_lookup(lookup_view(lookup)),
            final(self).wf(),
            result == lookup_result(lookup_view(lookup)),
    {
        match lookup {
            Ok(device) => {
                self.device = Some(device);
                Ok(true)
            },
            Err(error) => {
                if error.code == NOT_FOUND {
                    Ok(false)
                } else {
                    Err(error)
                }
            },
        }
    }

    /// Takes the outcome of acquiring the volume control of the bound device.
    /// A control that is subscribed is held and `Ok(true)` returned. That the
    /// device has no such control is no failure: none is held and `Ok(false)`
    /// returned. Any other failure is handed on, and no control is held.
    pub fn bind_volume_control(&mut self, acquisition: Acquisition) -> (result: Result<
        bool,
        PlatformError,
    >)
        requires
            old(self)@.device is Some,
            !old(self)@.control,
        ensures
            final(self)@ == after_acquisition(old(self)@, acquisition),
            final(self).wf(),
            result == acquisition_result(acquisition),
    {
        match acquisition {
            Acquisition::Subscribed => {
                self.control = true;
                Ok(true)
            },
            Acquisition::ActivationFailed(error) => {
                if error.code == NO_INTERFACE {
                    Ok(false)
                } else {
                    Err(error)
                }
            },
            Acquisition::SubscriptionFailed(error) => Err(error),
        }
    }

    /// The mute state to set so as to toggle it, given the state the shell
    /// has just read. Without a control nothing is to be set.
    pub fn toggle_mute(&self, muted: bool) -> (target: Option<bool>)
        ensures
            target == (if self@.control {
                Some(!muted)
            } else {
                None
            }),
    {
        if self.control {
            Some(!muted)
        } else {
            None
        }
    }

    /// The mute state to set so as to make it `muted`. Without a control
    /// nothing is to be set.
    pub fn set_mute(&self, muted: bool) -> (target: Option<bool>)
        ensures
            target == (if self@.control {
                Some(muted)
            } else {
                None
            }),
    {
        if self.control {
            Some(muted)
        } else {
            None
        }
    }

    /// Whether the volume is to be written to its maximum, given the level
    /// the shell has just read, or none where reading failed. It is written
    /// only where a control is held and the level lies strictly below the
    /// maximum.
    pub fn set_volume_to_max(&self, level: Option<Level>) -> (write: bool)
        ensures
            write == (self@.control && level is Some && level->0.below_max),
    {
        match level {
            Some(level) => self.control && level.below_max,
            None => false,
        }
    }

    /// Mute state and volume as read, or nothing where no control is held.
    pub fn read_state(&self, reading: Reading) -> (state: Option<Reading>)
        ensures
            state == (if self@.control {
                Some(reading)
            } else {
                None
            }),
    {
        if self.control {
            Some(reading)
        } else {
            None
        }
    }

    /// The state that the status shows, given what the shell has just read
    /// from the control.
    pub fn state(&self, reading: Reading) -> (state: SessionState)
        ensures
            state@ == state_of(self@, reading),
    {
        match &self.device {
            None => SessionState::NoDevice,
            Some(device) => {
                if self.control {
                    SessionState::Bound {
                        name: device.name.clone(),
                        muted: reading.muted,
                        percent: reading.level.percent,
                    }
                } else {
                    SessionState::NoControl { name: device.name.clone() }
                }
            },
        }
    }

    /// Icon and text for the session as it is, given what the shell has just
    /// read from the control and whether the theme asks for inverted icons.
    pub fn status(&self, reading: Reading, inverted: bool) -> (status: Status)
        ensures
            status@ == projection(state_of(self@, reading), inverted),
    {
        let state = self.state(reading);
        project(&state, inverted)
    }
}

} // verus!
