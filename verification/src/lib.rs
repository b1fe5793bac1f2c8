//! Event-driven core of a microphone mute indicator.
//!
//! The indicator sits in the notification area, shows whether the default
//! communications microphone is muted, and lets the user mute it or pick
//! another microphone. This crate is its core: everything that is decided,
//! and nothing that touches the platform. A shell around it asks the platform,
//! hands the answers in, and carries out what comes back.
//!
//! - [`dispatch`]: events, the steps they call for, and the scheduler that
//!   takes them one at a time in arrival order.
//! - [`session`]: the binding to the default device and its volume control.
//! - [`menu`]: the device section of the menu and its reconciliation against
//!   the devices enumerated.
//! - [`status`]: icon and text of the indicator.
//! - [`policy`]: making a device the default for every role.
//! - [`theme`], [`icon`]: icon themes and the inverted rendering.
//! - [`device`], [`wide`], [`launch`]: identifiers, UTF-16 text, and the
//!   command that opens the system's sound settings.

pub mod device;
pub mod dispatch;
pub mod icon;
pub mod launch;
pub mod menu;
pub mod policy;
pub mod session;
pub mod status;
pub mod theme;
pub mod wide;
