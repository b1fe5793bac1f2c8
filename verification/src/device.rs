//! Capture devices and their identifiers.

use crate::wide::{units_until_nul, until_nul};
use vstd::prelude::*;

verus! {

/// The platform's stable identifier of a capture endpoint: UTF-16 code units,
/// without a terminator. Two identifiers name the same device exactly when
/// their units are equal; no case folding takes place.
pub struct DeviceId {
    pub units: Vec<u16>,
}

impl View for DeviceId {
    type V = Seq<u16>;

    open spec fn view(&self) -> Seq<u16> {
        self.units@
    }
}

impl DeviceId {
    /// Reads an identifier out of a buffer that may carry a zero terminator:
    /// the identifier ends in front of the first zero unit.
    pub fn from_wide(buffer: &[u16]) -> (id: DeviceId)
        ensures
            id@ == until_nul(buffer@),
    {
        let units = units_until_nul(buffer);
        DeviceId { units }
    }

    /// The identifier followed by a zero terminator, as the platform takes it.
    pub fn to_wide(&self) -> (buffer: Vec<u16>)
        ensures
            buffer@ == self@.push(0u16),
    {
        let mut buffer = self.units.clone();
        assert(buffer@ == self.units@);
        buffer.push(0);
        buffer
    }

    /// Whether both identifiers name the same device.
    pub fn same_as(&self, other: &DeviceId) -> (same: bool)
        ensures
            same == (self@ == other@),
    {
        if self.units.len() != other.units.len() {
            return false;
        }
        let mut i: usize = 0;
        while i < self.units.len()
            invariant
                i <= self.units@.len(),
                self.units@.len() == other.units@.len(),
                self.units@.take(i as int) == other.units@.take(i as int),
            decreases self.units@.len() - i,
        {
            if self.units[i] != other.units[i] {
                return false;
            }
            assert(self.units@.take(i + 1) == self.units@.take(i as int).push(self.units@[i as int]));
            assert(other.units@.take(i + 1) == other.units@.take(i as int).push(other.units@[i as int]));
            i = i + 1;
        }
        assert(self.units@.take(i as int) == self.units@);
        assert(other.units@.take(i as int) == other.units@);
        true
    }
}

impl Clone for DeviceId {
    fn clone(&self) -> (copy: Self)
        ensures
            copy@ == self@,
    {
        let units = self.units.clone();
        assert(units@ == self.units@);
        DeviceId { units }
    }
}

/// One capture endpoint as the platform enumerates it.
pub struct Device {
    pub id: DeviceId,
    pub name: String,
}

/// What a [`Device`] stands for in contracts.
pub ghost struct DeviceView {
    pub id: Seq<u16>,
    pub name: Seq<char>,
}

impl View for Device {
    type V = DeviceView;

    open spec fn view(&self) -> DeviceView {
        DeviceView { id: self.id@, name: self.name@ }
    }
}

impl Clone for Device {
    fn clone(&self) -> (copy: Self)
        ensures
            copy@ == self@,
    {
        Device { id: self.id.clone(), name: self.name.clone() }
    }
}

/// The devices of a list, each by its view.
pub open spec fn device_views(devices: Seq<Device>) -> Seq<DeviceView> {
    devices.map_values(|d: Device| d@)
}

/// The identifiers of a device list, in order.
pub open spec fn device_ids(devices: Seq<DeviceView>) -> Seq<Seq<u16>> {
    devices.map_values(|d: DeviceView| d.id)
}

} // verus!
