//! Resolving the references of a rebind: a device and a one-based channel on it.
//!
//! Nothing here changes any state. A lookup gives the value read, or the place
//! to write to, or says why the reference does not resolve.

use vstd::prelude::*;
use crate::device::{ButtonState, HatState, PhysicalDevice, PhysicalDeviceView, VirtualDevice, VirtualDeviceView, physical_views, virtual_views};
use crate::error::Error;

verus! {

/// Outcome of resolving a reference.
pub enum Lookup<T> {
    /// The reference resolves.
    Found(T),
    /// The reference is not filled in: channel zero, empty GUID or slot zero.
    Empty,
    /// No such device, or no such channel on it.
    Missing,
}

/// Why a rebind was not evaluated: the reference that does not resolve.
pub enum Failure {
    /// A reference is not filled in.
    Empty,
    /// No such button on the physical device with this GUID.
    PhysicalButton(Seq<char>, u32),
    /// No such hat on the physical device with this GUID.
    PhysicalHat(Seq<char>, u32),
    /// No such axis on the physical device with this GUID.
    PhysicalAxis(Seq<char>, u32),
    /// No such button on the virtual device in this slot.
    VirtualButton(u32, u32),
    /// No such hat on the virtual device in this slot.
    VirtualHat(u32, u32),
    /// No such axis on the virtual device in this slot.
    VirtualAxis(u32, u32),
}

/// The failure that an error reports, where it reports one of a reference.
pub open spec fn failure_of(error: Error) -> Option<Failure> {
    match error {
        Error::EmptyRebindOrInvalidID => Some(Failure::Empty),
        Error::RebindValidatePhysicalButtonFailed(device, channel) => Some(Failure::PhysicalButton(device@, channel)),
        Error::RebindValidatePhysicalHatFailed(device, channel) => Some(Failure::PhysicalHat(device@, channel)),
        Error::RebindValidatePhysicalAxisFailed(device, channel) => Some(Failure::PhysicalAxis(device@, channel)),
        Error::RebindValidateVirtualButtonFailed(device, channel) => Some(Failure::VirtualButton(device, channel)),
        Error::RebindValidateVirtualHatFailed(device, channel) => Some(Failure::VirtualHat(device, channel)),
        Error::RebindValidateVirtualAxisFailed(device, channel) => Some(Failure::VirtualAxis(device, channel)),
        _ => None,
    }
}

/// The failure of a lookup, if it failed; `missing` is what is reported
/// where the device or the channel is not there.
pub open spec fn lookup_failure<T>(lookup: Lookup<T>, missing: Failure) -> Option<Failure> {
    match lookup {
        Lookup::Found(_) => None,
        Lookup::Empty => Some(Failure::Empty),
        Lookup::Missing => Some(missing),
    }
}

/// The first of two failures.
pub open spec fn first_failure(first: Option<Failure>, second: Option<Failure>) -> Option<Failure> {
    if first.is_some() {
        first
    } else {
        second
    }
}

/// Index of the first physical device at or after `start` with the given GUID.
pub open spec fn find_physical_from(devices: Seq<PhysicalDeviceView>, guid: Seq<char>, start: int) -> Option<int>
    decreases devices.len() - start,
{
    if start < 0 || start >= devices.len() {
        None
    } else if devices[start].guid == guid {
        Some(start)
    } else {
        find_physical_from(devices, guid, start + 1)
    }
}

/// Index of the first physical device with the given GUID.
pub open spec fn find_physical(devices: Seq<PhysicalDeviceView>, guid: Seq<char>) -> Option<int> {
    find_physical_from(devices, guid, 0)
}

/// Index of the first virtual device at or after `start` with the given slot number.
pub open spec fn find_virtual_from(devices: Seq<VirtualDeviceView>, id: u32, start: int) -> Option<int>
    decreases devices.len() - start,
{
    if start < 0 || start >= devices.len() {
        None
    } else if devices[start].id == id {
        Some(start)
    } else {
        find_virtual_from(devices, id, start + 1)
    }
}

/// Index of the first virtual device with the given slot number.
pub open spec fn find_virtual(devices: Seq<VirtualDeviceView>, id: u32) -> Option<int> {
    find_virtual_from(devices, id, 0)
}

/// The one-based channel `channel` of `channels`, if there is one.
pub open spec fn channel_value<T>(channels: Seq<T>, channel: u32) -> Option<T> {
    if 1 <= channel <= channels.len() {
        Some(channels[channel - 1])
    } else {
        None
    }
}

/// A button of a physical device.
pub open spec fn physical_button(devices: Seq<PhysicalDeviceView>, guid: Seq<char>, channel: u32) -> Lookup<bool> {
    if channel == 0 || guid.len() == 0 {
        Lookup::Empty
    } else {
        match find_physical(devices, guid) {
            Some(d) => match channel_value(devices[d].buttons, channel) {
                Some(value) => Lookup::Found(value),
                None => Lookup::Missing,
            },
            None => Lookup::Missing,
        }
    }
}

/// A hat of a physical device, in degrees or -1.
pub open spec fn physical_hat(devices: Seq<PhysicalDeviceView>, guid: Seq<char>, channel: u32) -> Lookup<i32> {
    if channel == 0 || guid.len() == 0 {
        Lookup::Empty
    } else {
        match find_physical(devices, guid) {
            Some(d) => match channel_value(devices[d].hats, channel) {
                Some(value) => Lookup::Found(value),
                None => Lookup::Missing,
            },
            None => Lookup::Missing,
        }
    }
}

/// An axis of a physical device.
pub open spec fn physical_axis(devices: Seq<PhysicalDeviceView>, guid: Seq<char>, channel: u32) -> Lookup<i32> {
    if channel == 0 || guid.len() == 0 {
        Lookup::Empty
    } else {
        match find_physical(devices, guid) {
            Some(d) => match channel_value(devices[d].axes, channel) {
                Some(value) => Lookup::Found(value),
                None => Lookup::Missing,
            },
            None => Lookup::Missing,
        }
    }
}

/// Where a button of a virtual device is: device index and zero-based channel index.
pub open spec fn virtual_button_slot(devices: Seq<VirtualDeviceView>, id: u32, channel: u32) -> Lookup<(int, int)> {
    if channel == 0 || id == 0 {
        Lookup::Empty
    } else {
        match find_virtual(devices, id) {
            Some(d) => if channel <= devices[d].buttons.len() {
                Lookup::Found((d, channel - 1))
            } else {
                Lookup::Missing
            },
            None => Lookup::Missing,
        }
    }
}

/// Where a hat of a virtual device is: device index and zero-based channel index.
pub open spec fn virtual_hat_slot(devices: Seq<VirtualDeviceView>, id: u32, channel: u32) -> Lookup<(int, int)> {
    if channel == 0 || id == 0 {
        Lookup::Empty
    } else {
        match find_virtual(devices, id) {
            Some(d) => if channel <= devices[d].hats.len() {
                Lookup::Found((d, channel - 1))
            } else {
                Lookup::Missing
            },
            None => Lookup::Missing,
        }
    }
}

/// Where an axis of a virtual device is: device index and zero-based channel index.
pub open spec fn virtual_axis_slot(devices: Seq<VirtualDeviceView>, id: u32, channel: u32) -> Lookup<(int, int)> {
    if channel == 0 || id == 0 {
        Lookup::Empty
    } else {
        match find_virtual(devices, id) {
            Some(d) => if channel <= devices[d].axes.len() {
                Lookup::Found((d, channel - 1))
            } else {
                Lookup::Missing
            },
            None => Lookup::Missing,
        }
    }
}

/// A button of a virtual device: whether it is pressed.
pub open spec fn virtual_button(devices: Seq<VirtualDeviceView>, id: u32, channel: u32) -> Lookup<bool> {
    match virtual_button_slot(devices, id, channel) {
        Lookup::Found((d, c)) => Lookup::Found(devices[d].buttons[c] == ButtonState::Pressed),
        Lookup::Empty => Lookup::Empty,
        Lookup::Missing => Lookup::Missing,
    }
}

/// A hat of a virtual device.
pub open spec fn virtual_hat(devices: Seq<VirtualDeviceView>, id: u32, channel: u32) -> Lookup<HatState> {
    match virtual_hat_slot(devices, id, channel) {
        Lookup::Found((d, c)) => Lookup::Found(devices[d].hats[c]),
        Lookup::Empty => Lookup::Empty,
        Lookup::Missing => Lookup::Missing,
    }
}

/// An axis of a virtual device.
pub open spec fn virtual_axis(devices: Seq<VirtualDeviceView>, id: u32, channel: u32) -> Lookup<i32> {
    match virtual_axis_slot(devices, id, channel) {
        Lookup::Found((d, c)) => Lookup::Found(devices[d].axes[c]),
        Lookup::Empty => Lookup::Empty,
        Lookup::Missing => Lookup::Missing,
    }
}

/// Position of the first physical device with the given GUID.
pub fn find_physical_device(physical_devices: &Vec<PhysicalDevice>, guid: &String) -> (found: Option<usize>)
    ensures
        match find_physical(physical_views(physical_devices@), guid@) {
            Some(d) => found == Some(d as usize) && 0 <= d < physical_devices.len(),
            None => found.is_none(),
        },
{
    let ghost views = physical_views(physical_devices@);
    let mut i: usize = 0;
    while i < physical_devices.len()
        invariant
            i <= physical_devices.len(),
            views == physical_views(physical_devices@),
            find_physical(views, guid@) == find_physical_from(views, guid@, i as int),
        decreases physical_devices.len() - i,
    {
        if physical_devices[i].guid == *guid {
            return Some(i);
        }
        i += 1;
    }
    None
}

/// Position of the first virtual device with the given slot number.
pub fn find_virtual_device(virtual_devices: &Vec<VirtualDevice>, id: u32) -> (found: Option<usize>)
    ensures
        match find_virtual(virtual_views(virtual_devices@), id) {
            Some(d) => found == Some(d as usize) && 0 <= d < virtual_devices.len(),
            None => found.is_none(),
        },
{
    let ghost views = virtual_views(virtual_devices@);
    let mut i: usize = 0;
    while i < virtual_devices.len()
        invariant
            i <= virtual_devices.len(),
            views == virtual_views(virtual_devices@),
            find_virtual(views, id) == find_virtual_from(views, id, i as int),
        decreases virtual_devices.len() - i,
    {
        if virtual_devices[i].id == id {
            return Some(i);
        }
        i += 1;
    }
    None
}

/// Reads a button of a physical device.
pub fn validate_value_physical_button(physical_devices: &Vec<PhysicalDevice>, src_device: &String, src_button: u32) -> (result: Result<bool, Error>)
    ensures
        match physical_button(physical_views(physical_devices@), src_device@, src_button) {
            Lookup::Found(value) => result matches Ok(v) && v == value,
            Lookup::Empty => result matches Err(Error::EmptyRebindOrInvalidID),
            Lookup::Missing => result matches Err(Error::RebindValidatePhysicalButtonFailed(d, c))
                && d@ == src_device@ && c == src_button,
        },
        result matches Err(error) ==> failure_of(error) == lookup_failure(
            physical_button(physical_views(physical_devices@), src_device@, src_button),
            Failure::PhysicalButton(src_device@, src_button),
        ),
{
    if src_button == 0 || src_device.as_str().is_empty() {
        return Err(Error::EmptyRebindOrInvalidID);
    }
    match find_physical_device(physical_devices, src_device) {
        Some(d) => {
            let buttons = physical_devices[d].input_state.buttons();
            let index = src_button as usize - 1;
            if index < buttons.len() {
                Ok(buttons[index])
            } else {
                Err(Error::RebindValidatePhysicalButtonFailed(src_device.clone(), src_button))
            }
        },
        None => Err(Error::RebindValidatePhysicalButtonFailed(src_device.clone(), src_button)),
    }
}

/// Reads a hat of a physical device.
pub fn validate_value_physical_hat(physical_devices: &Vec<PhysicalDevice>, src_device: &String, src_hat: u32) -> (result: Result<i32, Error>)
    ensures
        match physical_hat(physical_views(physical_devices@), src_device@, src_hat) {
            Lookup::Found(value) => result matches Ok(v) && v == value,
            Lookup::Empty => result matches Err(Error::EmptyRebindOrInvalidID),
            Lookup::Missing => result matches Err(Error::RebindValidatePhysicalHatFailed(d, c))
                && d@ == src_device@ && c == src_hat,
        },
        result matches Err(error) ==> failure_of(error) == lookup_failure(
            physical_hat(physical_views(physical_devices@), src_device@, src_hat),
            Failure::PhysicalHat(src_device@, src_hat),
        ),
{
    if src_hat == 0 || src_device.as_str().is_empty() {
        return Err(Error::EmptyRebindOrInvalidID);
    }
    match find_physical_device(physical_devices, src_device) {
        Some(d) => {
            let hats = physical_devices[d].input_state.hats();
            let index = src_hat as usize - 1;
            if index < hats.len() {
                Ok(hats[index])
            } else {
                Err(Error::RebindValidatePhysicalHatFailed(src_device.clone(), src_hat))
            }
        },
        None => Err(Error::RebindValidatePhysicalHatFailed(src_device.clone(), src_hat)),
    }
}

/// Reads an axis of a physical device.
pub fn validate_value_physical_axis(physical_devices: &Vec<PhysicalDevice>, src_device: &String, src_axis: u32) -> (result: Result<i32, Error>)
    ensures
        match physical_axis(physical_views(physical_devices@), src_device@, src_axis) {
            Lookup::Found(value) => result matches Ok(v) && v == value,
            Lookup::Empty => result matches Err(Error::EmptyRebindOrInvalidID),
            Lookup::Missing => result matches Err(Error::RebindValidatePhysicalAxisFailed(d, c))
                && d@ == src_device@ && c == src_axis,
        },
        result matches Err(error) ==> failure_of(error) == lookup_failure(
            physical_axis(physical_views(physical_devices@), src_device@, src_axis),
            Failure::PhysicalAxis(src_device@, src_axis),
        ),
{
    if src_axis == 0 || src_device.as_str().is_empty() {
        return Err(Error::EmptyRebindOrInvalidID);
    }
    match find_physical_device(physical_devices, src_device) {
        Some(d) => {
            let axes = physical_devices[d].input_state.axes();
            let index = src_axis as usize - 1;
            if index < axes.len() {
                Ok(axes[index])
            } else {
                Err(Error::RebindValidatePhysicalAxisFailed(src_device.clone(), src_axis))
            }
        },
        None => Err(Error::RebindValidatePhysicalAxisFailed(src_device.clone(), src_axis)),
    }
}

/// Finds a button of a virtual device to write to: device index and channel index.
pub fn validate_handle_virtual_button(virtual_devices: &Vec<VirtualDevice>, dst_device: u32, dst_button: u32) -> (result: Result<(usize, usize), Error>)
    ensures
        match virtual_button_slot(virtual_views(virtual_devices@), dst_device, dst_button) {
            Lookup::Found((d, c)) => result == Ok::<(usize, usize), Error>((d as usize, c as usize))
                && 0 <= d < virtual_devices.len() && 0 <= c < virtual_devices[d].buttons.len(),
            Lookup::Empty => result matches Err(Error::EmptyRebindOrInvalidID),
            Lookup::Missing => result matches Err(Error::RebindValidateVirtualButtonFailed(d, c))
                && d == dst_device && c == dst_button,
        },
        result matches Err(error) ==> failure_of(error) == lookup_failure(
            virtual_button_slot(virtual_views(virtual_devices@), dst_device, dst_button),
            Failure::VirtualButton(dst_device, dst_button),
        ),
{
    if dst_button == 0 || dst_device == 0 {
        return Err(Error::EmptyRebindOrInvalidID);
    }
    match find_virtual_device(virtual_devices, dst_device) {
        Some(d) => {
            let index = dst_button as usize - 1;
            if index < virtual_devices[d].buttons.len() {
                Ok((d, index))
            } else {
                Err(Error::RebindValidateVirtualButtonFailed(dst_device, dst_button))
            }
        },
        None => Err(Error::RebindValidateVirtualButtonFailed(dst_device, dst_button)),
    }
}

/// Finds a hat of a virtual device to write to: device index and channel index.
pub fn validate_handle_virtual_hat(virtual_devices: &Vec<VirtualDevice>, dst_device: u32, dst_hat: u32) -> (result: Result<(usize, usize), Error>)
    ensures
        match virtual_hat_slot(virtual_views(virtual_devices@), dst_device, dst_hat) {
            Lookup::Found((d, c)) => result == Ok::<(usize, usize), Error>((d as usize, c as usize))
                && 0 <= d < virtual_devices.len() && 0 <= c < virtual_devices[d].hats.len(),
            Lookup::Empty => result matches Err(Error::EmptyRebindOrInvalidID),
            Lookup::Missing => result matches Err(Error::RebindValidateVirtualHatFailed(d, c))
                && d == dst_device && c == dst_hat,
        },
        result matches Err(error) ==> failure_of(error) == lookup_failure(
            virtual_hat_slot(virtual_views(virtual_devices@), dst_device, dst_hat),
            Failure::VirtualHat(dst_device, dst_hat),
        ),
{
    if dst_hat == 0 || dst_device == 0 {
        return Err(Error::EmptyRebindOrInvalidID);
    }
    match find_virtual_device(virtual_devices, dst_device) {
        Some(d) => {
            let index = dst_hat as usize - 1;
            if index < virtual_devices[d].hats.len() {
                Ok((d, index))
            } else {
                Err(Error::RebindValidateVirtualHatFailed(dst_device, dst_hat))
            }
        },
        None => Err(Error::RebindValidateVirtualHatFailed(dst_device, dst_hat)),
    }
}

/// Finds an axis of a virtual device to write to: device index and channel index.
pub fn validate_handle_virtual_axis(virtual_devices: &Vec<VirtualDevice>, dst_device: u32, dst_axis: u32) -> (result: Result<(usize, usize), Error>)
    ensures
        match virtual_axis_slot(virtual_views(virtual_devices@), dst_device, dst_axis) {
            Lookup::Found((d, c)) => result == Ok::<(usize, usize), Error>((d as usize, c as usize))
                && 0 <= d < virtual_devices.len() && 0 <= c < virtual_devices[d].axes.len(),
            Lookup::Empty => result matches Err(Error::EmptyRebindOrInvalidID),
            Lookup::Missing => result matches Err(Error::RebindValidateVirtualAxisFailed(d, c))
                && d == dst_device && c == dst_axis,
        },
        result matches Err(error) ==> failure_of(error) == lookup_failure(
            virtual_axis_slot(virtual_views(virtual_devices@), dst_device, dst_axis),
            Failure::VirtualAxis(dst_device, dst_axis),
        ),
{
    if dst_axis == 0 || dst_device == 0 {
        return Err(Error::EmptyRebindOrInvalidID);
    }
    match find_virtual_device(virtual_devices, dst_device) {
        Some(d) => {
            let index = dst_axis as usize - 1;
            if index < virtual_devices[d].axes.len() {
                Ok((d, index))
            } else {
                Err(Error::RebindValidateVirtualAxisFailed(dst_device, dst_axis))
            }
        },
        None => Err(Error::RebindValidateVirtualAxisFailed(dst_device, dst_axis)),
    }
}

/// Reads a button of a virtual device: whether it is pressed.
pub fn validate_value_virtual_button(virtual_devices: &Vec<VirtualDevice>, src_device: u32, src_button: u32) -> (result: Result<bool, Error>)
    ensures
        match virtual_button(virtual_views(virtual_devices@), src_device, src_button) {
            Lookup::Found(value) => result matches Ok(v) && v == value,
            Lookup::Empty => result matches Err(Error::EmptyRebindOrInvalidID),
            Lookup::Missing => result matches Err(Error::RebindValidateVirtualButtonFailed(d, c))
                && d == src_device && c == src_button,
        },
        result matches Err(error) ==> failure_of(error) == lookup_failure(
            virtual_button(virtual_views(virtual_devices@), src_device, src_button),
            Failure::VirtualButton(src_device, src_button),
        ),
{
    match validate_handle_virtual_button(virtual_devices, src_device, src_button) {
        Ok((d, c)) => Ok(virtual_devices[d].buttons[c].is_pressed()),
        Err(e) => Err(e),
    }
}

/// Reads a hat of a virtual device.
pub fn validate_value_virtual_hat(virtual_devices: &Vec<VirtualDevice>, src_device: u32, src_hat: u32) -> (result: Result<HatState, Error>)
    ensures
        match virtual_hat(virtual_views(virtual_devices@), src_device, src_hat) {
            Lookup::Found(value) => result matches Ok(v) && v == value,
            Lookup::Empty => result matches Err(Error::EmptyRebindOrInvalidID),
            Lookup::Missing => result matches Err(Error::RebindValidateVirtualHatFailed(d, c))
                && d == src_device && c == src_hat,
        },
        result matches Err(error) ==> failure_of(error) == lookup_failure(
            virtual_hat(virtual_views(virtual_devices@), src_device, src_hat),
            Failure::VirtualHat(src_device, src_hat),
        ),
{
    match validate_handle_virtual_hat(virtual_devices, src_device, src_hat) {
        Ok((d, c)) => Ok(virtual_devices[d].hats[c]),
        Err(e) => Err(e),
    }
}

/// Reads an axis of a virtual device.
pub fn validate_value_virtual_axis(virtual_devices: &Vec<VirtualDevice>, src_device: u32, src_axis: u32) -> (result: Result<i32, Error>)
    ensures
        match virtual_axis(virtual_views(virtual_devices@), src_device, src_axis) {
            Lookup::Found(value) => result matches Ok(v) && v == value,
            Lookup::Empty => result matches Err(Error::EmptyRebindOrInvalidID),
            Lookup::Missing => result matches Err(Error::RebindValidateVirtualAxisFailed(d, c))
                && d == src_device && c == src_axis,
        },
        result matches Err(error) ==> failure_of(error) == lookup_failure(
            virtual_axis(virtual_views(virtual_devices@), src_device, src_axis),
            Failure::VirtualAxis(src_device, src_axis),
        ),
{
    match validate_handle_virtual_axis(virtual_devices, src_device, src_axis) {
        Ok((d, c)) => Ok(virtual_devices[d].axes[c]),
        Err(e) => Err(e),
    }
}

} // verus!
