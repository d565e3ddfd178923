//! What is shown of a device: its name and its channel counts, kept in the
//! order in which the devices were found.

use vstd::prelude::*;
use indexmap::IndexMap;
use crate::device::{DeviceIdentifier, DeviceIdentifierView, PhysicalDevice, PhysicalDeviceView, VirtualDevice, VirtualDeviceView, physical_views, virtual_device_name, virtual_views};

verus! {

/// Name and channel counts of a device.
#[derive(Debug, Clone, PartialEq, Eq)]
pub struct DeviceInfo {
    pub name: String,
    pub num_buttons: usize,
    pub num_axes: usize,
    pub num_hats: usize,
}

/// What a [`DeviceInfo`] holds.
pub struct DeviceInfoView {
    pub name: Seq<char>,
    pub num_buttons: usize,
    pub num_axes: usize,
    pub num_hats: usize,
}

impl View for DeviceInfo {
    type V = DeviceInfoView;

    open spec fn view(&self) -> DeviceInfoView {
        DeviceInfoView {
            name: self.name@,
            num_buttons: self.num_buttons,
            num_axes: self.num_axes,
            num_hats: self.num_hats,
        }
    }
}

/// What is shown of a physical device.
pub open spec fn physical_info(device: PhysicalDeviceView) -> DeviceInfoView {
    DeviceInfoView {
        name: device.name,
        num_buttons: device.buttons.len() as usize,
        num_axes: device.axes.len() as usize,
        num_hats: device.hats.len() as usize,
    }
}

/// What is shown of a virtual device.
pub open spec fn virtual_info(device: VirtualDeviceView) -> DeviceInfoView {
    DeviceInfoView {
        name: virtual_device_name(device.id),
        num_buttons: device.buttons.len() as usize,
        num_axes: device.axes.len() as usize,
        num_hats: device.hats.len() as usize,
    }
}

impl DeviceInfo {
    /// What is shown of a physical device.
    pub fn from_physical(device: &PhysicalDevice) -> (info: DeviceInfo)
        ensures
            info@ == physical_info(device@),
    {
        DeviceInfo {
            name: device.name(),
            num_buttons: device.num_buttons(),
            num_axes: device.num_axes(),
            num_hats: device.num_hats(),
        }
    }

    /// What is shown of a virtual device.
    pub fn from_virtual(device: &VirtualDevice) -> (info: DeviceInfo)
        ensures
            info@ == virtual_info(device@),
    {
        DeviceInfo {
            name: device.name(),
            num_buttons: device.num_buttons(),
            num_axes: device.num_axes(),
            num_hats: device.num_hats(),
        }
    }
}

/// The map type of the `indexmap` crate: a hash map that keeps its entries
/// in the order in which their keys were first inserted.
#[verifier::external_type_specification]
#[verifier::external_body]
#[verifier::reject_recursive_types(K)]
#[verifier::reject_recursive_types(V)]
#[verifier::reject_recursive_types(S)]
pub struct ExIndexMap<K, V, S>(IndexMap<K, V, S>);

/// The entries of a map of device information, in the map's order.
pub uninterp spec fn info_entries(map: IndexMap<DeviceIdentifier, DeviceInfo>) -> Seq<(DeviceIdentifierView, DeviceInfoView)>;

/// Place of the entry with the given key among the first `n` entries.
pub open spec fn entry_place(entries: Seq<(DeviceIdentifierView, DeviceInfoView)>, key: DeviceIdentifierView, n: int) -> Option<int>
    decreases n,
{
    if n <= 0 {
        None
    } else if entry_place(entries, key, n - 1).is_some() {
        entry_place(entries, key, n - 1)
    } else if entries[n - 1].0 == key {
        Some(n - 1)
    } else {
        None
    }
}

/// The value under `key`, if there is an entry with that key.
pub open spec fn entry_value(entries: Seq<(DeviceIdentifierView, DeviceInfoView)>, key: DeviceIdentifierView) -> Option<DeviceInfoView> {
    match entry_place(entries, key, entries.len() as int) {
        Some(place) => Some(entries[place].1),
        None => None,
    }
}

/// The entries after `value` was inserted under `key`: the value replaced
/// in its place where the key was there, and a new entry at the end where not.
pub open spec fn entries_with(
    entries: Seq<(DeviceIdentifierView, DeviceInfoView)>,
    key: DeviceIdentifierView,
    value: DeviceInfoView,
) -> Seq<(DeviceIdentifierView, DeviceInfoView)> {
    match entry_place(entries, key, entries.len() as int) {
        Some(place) => entries.update(place, (key, value)),
        None => entries.push((key, value)),
    }
}

/// `IndexMap::new`: a map without entries.
#[verifier::external_body]
fn info_map_new() -> (map: IndexMap<DeviceIdentifier, DeviceInfo>)
    ensures
        info_entries(map) == Seq::<(DeviceIdentifierView, DeviceInfoView)>::empty(),
{
    IndexMap::new()
}

/// `IndexMap::insert`: where an equal key is in the map its value is
/// replaced and the entry keeps its place; where not, the entry is added after
/// all others.
#[verifier::external_body]
fn info_map_insert(map: &mut IndexMap<DeviceIdentifier, DeviceInfo>, key: DeviceIdentifier, value: DeviceInfo)
    ensures
        info_entries(*final(map)) == entries_with(info_entries(*old(map)), key@, value@),
{
    map.insert(key, value);
}

/// `IndexMap::get`: the value stored under an equal key, if there is one.
#[verifier::external_body]
fn info_map_get<'a>(map: &'a IndexMap<DeviceIdentifier, DeviceInfo>, key: &DeviceIdentifier) -> (found: Option<&'a DeviceInfo>)
    ensures
        match entry_value(info_entries(*map), key@) {
            Some(value) => found matches Some(info) && info@ == value,
            None => found.is_none(),
        },
{
    map.get(key)
}

/// `IndexMap::len`: the number of entries.
#[verifier::external_body]
fn info_map_len(map: &IndexMap<DeviceIdentifier, DeviceInfo>) -> (count: usize)
    ensures
        count == info_entries(*map).len(),
{
    map.len()
}

/// The entries for the first `n` physical devices, each under its GUID; of
/// two devices with one GUID the later one's information stands, in the
/// earlier one's place.
pub open spec fn physical_entries(devices: Seq<PhysicalDeviceView>, n: int) -> Seq<(DeviceIdentifierView, DeviceInfoView)>
    decreases n,
{
    if n <= 0 {
        Seq::empty()
    } else {
        entries_with(
            physical_entries(devices, n - 1),
            DeviceIdentifierView::SDL2(devices[n - 1].guid),
            physical_info(devices[n - 1]),
        )
    }
}

/// The information on the physical devices, each under its GUID, in the
/// order of the devices.
pub fn physical_device_info_map(devices: &Vec<PhysicalDevice>) -> (map: IndexMap<DeviceIdentifier, DeviceInfo>)
    ensures
        info_entries(map) == physical_entries(physical_views(devices@), devices@.len() as int),
{
    let mut map = info_map_new();
    let mut i: usize = 0;
    while i < devices.len()
        invariant
            i <= devices.len(),
            info_entries(map) == physical_entries(physical_views(devices@), i as int),
        decreases devices.len() - i,
    {
        let device = &devices[i];
        assert(physical_views(devices@)[i as int] == device@);
        info_map_insert(&mut map, DeviceIdentifier::SDL2(device.guid.clone()), DeviceInfo::from_physical(device));
        i += 1;
    }
    map
}

/// The entries for the first `n` virtual devices, each under its slot
/// number; of two devices with one number the later one's information stands,
/// in the earlier one's place.
pub open spec fn virtual_entries(devices: Seq<VirtualDeviceView>, n: int) -> Seq<(DeviceIdentifierView, DeviceInfoView)>
    decreases n,
{
    if n <= 0 {
        Seq::empty()
    } else {
        entries_with(
            virtual_entries(devices, n - 1),
            DeviceIdentifierView::VJoy(devices[n - 1].id),
            virtual_info(devices[n - 1]),
        )
    }
}

/// The information on the virtual devices, each under its slot number, in
/// the order of the devices.
pub fn virtual_device_info_map(devices: &Vec<VirtualDevice>) -> (map: IndexMap<DeviceIdentifier, DeviceInfo>)
    ensures
        info_entries(map) == virtual_entries(virtual_views(devices@), devices@.len() as int),
{
    let mut map = info_map_new();
    let mut i: usize = 0;
    while i < devices.len()
        invariant
            i <= devices.len(),
            info_entries(map) == virtual_entries(virtual_views(devices@), i as int),
        decreases devices.len() - i,
    {
        let device = &devices[i];
        assert(virtual_views(devices@)[i as int] == device@);
        info_map_insert(&mut map, DeviceIdentifier::VJoy(device.id), DeviceInfo::from_virtual(device));
        i += 1;
    }
    map
}

/// The information on the devices that rebinds can name.
pub struct DevicesInfoMap {
    pub physical_devices: IndexMap<DeviceIdentifier, DeviceInfo>,
    pub virtual_devices: IndexMap<DeviceIdentifier, DeviceInfo>,
}

/// The channel counts in `info`, as far as 32 bits hold them.
pub open spec fn info_limits(info: DeviceInfoView) -> (u32, u32, u32) {
    (count_limit(info.num_buttons), count_limit(info.num_axes), count_limit(info.num_hats))
}

/// A count as far as 32 bits hold it.
pub open spec fn count_limit(count: usize) -> u32 {
    if count > u32::MAX {
        u32::MAX
    } else {
        count as u32
    }
}

/// A count as far as 32 bits hold it.
fn limit_of(count: usize) -> (limit: u32)
    ensures
        limit == count_limit(count),
{
    if count > u32::MAX as usize {
        u32::MAX
    } else {
        count as u32
    }
}

impl DevicesInfoMap {
    /// The information on the given devices.
    pub fn new(physical_devices: &Vec<PhysicalDevice>, virtual_devices: &Vec<VirtualDevice>) -> (map: DevicesInfoMap)
        ensures
            info_entries(map.physical_devices) == physical_entries(
                physical_views(physical_devices@),
                physical_devices@.len() as int,
            ),
            info_entries(map.virtual_devices) == virtual_entries(
                virtual_views(virtual_devices@),
                virtual_devices@.len() as int,
            ),
    {
        DevicesInfoMap {
            physical_devices: physical_device_info_map(physical_devices),
            virtual_devices: virtual_device_info_map(virtual_devices),
        }
    }

    /// Number of physical devices known.
    pub fn physical_count(&self) -> (count: usize)
        ensures
            count == info_entries(self.physical_devices).len(),
    {
        info_map_len(&self.physical_devices)
    }

    /// Number of virtual devices known.
    pub fn virtual_count(&self) -> (count: usize)
        ensures
            count == info_entries(self.virtual_devices).len(),
    {
        info_map_len(&self.virtual_devices)
    }

    /// The name of the physical device with the given GUID, or "Unset" where
    /// no such device is known.
    pub fn get_physical_name(&self, guid: &String) -> (name: String)
        ensures
            name@ == match entry_value(info_entries(self.physical_devices), DeviceIdentifierView::SDL2(guid@)) {
                Some(info) => info.name,
                None => "Unset"@,
            },
    {
        let key = DeviceIdentifier::SDL2(guid.clone());
        match info_map_get(&self.physical_devices, &key) {
            Some(found) => found.name.clone(),
            None => "Unset".to_owned(),
        }
    }

    /// The name of the virtual device in the given slot, or "Unset" where no
    /// such device is known.
    pub fn get_virtual_name(&self, id: u32) -> (name: String)
        ensures
            name@ == match entry_value(info_entries(self.virtual_devices), DeviceIdentifierView::VJoy(id)) {
                Some(info) => info.name,
                None => "Unset"@,
            },
    {
        let key = DeviceIdentifier::VJoy(id);
        match info_map_get(&self.virtual_devices, &key) {
            Some(found) => found.name.clone(),
            None => "Unset".to_owned(),
        }
    }

    /// The numbers of buttons, axes and hats of the physical device with the
    /// given GUID; all zero where no such device is known.
    pub fn get_physical_limits(&self, guid: &String) -> (limits: (u32, u32, u32))
        ensures
            limits == match entry_value(info_entries(self.physical_devices), DeviceIdentifierView::SDL2(guid@)) {
                Some(info) => info_limits(info),
                None => (0u32, 0u32, 0u32),
            },
    {
        let key = DeviceIdentifier::SDL2(guid.clone());
        match info_map_get(&self.physical_devices, &key) {
            Some(found) => (limit_of(found.num_buttons), limit_of(found.num_axes), limit_of(found.num_hats)),
            None => (0, 0, 0),
        }
    }

    /// The numbers of buttons, axes and hats of the virtual device in the
    /// given slot; all zero where no such device is known.
    pub fn get_virtual_limits(&self, id: u32) -> (limits: (u32, u32, u32))
        ensures
            limits == match entry_value(info_entries(self.virtual_devices), DeviceIdentifierView::VJoy(id)) {
                Some(info) => info_limits(info),
                None => (0u32, 0u32, 0u32),
            },
    {
        let key = DeviceIdentifier::VJoy(id);
        match info_map_get(&self.virtual_devices, &key) {
            Some(found) => (limit_of(found.num_buttons), limit_of(found.num_axes), limit_of(found.num_hats)),
            None => (0, 0, 0),
        }
    }
}

} // verus!
