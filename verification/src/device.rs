//! Devices as the engine sees them: immutable snapshots of physical devices and
//! the mutable state of virtual devices, one-based channels on both.

use vstd::prelude::*;
use crate::text::{decimal, decimal_text};

verus! {

/// Names a device: a virtual slot by its number, a physical device by its GUID.
#[derive(Debug, Clone, PartialEq, Eq, Hash)]
pub enum DeviceIdentifier {
    VJoy(u32),
    SDL2(String),
}

/// What a [`DeviceIdentifier`] denotes.
pub enum DeviceIdentifierView {
    VJoy(u32),
    SDL2(Seq<char>),
}

impl View for DeviceIdentifier {
    type V = DeviceIdentifierView;

    open spec fn view(&self) -> DeviceIdentifierView {
        match self {
            DeviceIdentifier::VJoy(id) => DeviceIdentifierView::VJoy(*id),
            DeviceIdentifier::SDL2(guid) => DeviceIdentifierView::SDL2(guid@),
        }
    }
}

/// An identifier as text: the GUID, or the slot number in decimal.
pub open spec fn identifier_text(identifier: DeviceIdentifierView) -> Seq<char> {
    match identifier {
        DeviceIdentifierView::VJoy(id) => decimal_text(id as nat),
        DeviceIdentifierView::SDL2(guid) => guid,
    }
}

impl DeviceIdentifier {
    /// The identifier as text: the GUID, or the slot number in decimal.
    pub fn to_text(&self) -> (text: String)
        ensures
            text@ == identifier_text(self@),
    {
        match self {
            DeviceIdentifier::VJoy(id) => decimal(*id),
            DeviceIdentifier::SDL2(guid) => guid.clone(),
        }
    }

    /// Whether two identifiers name the same device.
    pub fn same_device(&self, other: &DeviceIdentifier) -> (same: bool)
        ensures
            same == (self@ == other@),
    {
        match (self, other) {
            (DeviceIdentifier::VJoy(a), DeviceIdentifier::VJoy(b)) => *a == *b,
            (DeviceIdentifier::SDL2(a), DeviceIdentifier::SDL2(b)) => *a == *b,
            _ => false,
        }
    }
}

/// State of a virtual button.
#[derive(Debug, Clone, Copy, PartialEq, Eq, Structural, Hash)]
pub enum ButtonState {
    Released,
    Pressed,
}

impl ButtonState {
    /// `Pressed` for `true`, `Released` for `false`.
    pub fn from_bool(pressed: bool) -> (state: ButtonState)
        ensures
            state == button_of(pressed),
    {
        if pressed {
            ButtonState::Pressed
        } else {
            ButtonState::Released
        }
    }

    /// Whether the button is pressed.
    pub fn is_pressed(&self) -> (pressed: bool)
        ensures
            pressed == (*self == ButtonState::Pressed),
    {
        match self {
            ButtonState::Pressed => true,
            ButtonState::Released => false,
        }
    }

    /// The other state.
    pub fn toggled(&self) -> (state: ButtonState)
        ensures
            state == button_flip(*self),
    {
        match self {
            ButtonState::Pressed => ButtonState::Released,
            ButtonState::Released => ButtonState::Pressed,
        }
    }
}

/// The button state that shows a boolean input.
pub open spec fn button_of(pressed: bool) -> ButtonState {
    if pressed {
        ButtonState::Pressed
    } else {
        ButtonState::Released
    }
}

/// The opposite button state.
pub open spec fn button_flip(state: ButtonState) -> ButtonState {
    match state {
        ButtonState::Pressed => ButtonState::Released,
        ButtonState::Released => ButtonState::Pressed,
    }
}

/// Position of a hat that knows four directions only.
#[derive(Debug, Clone, Copy, PartialEq, Eq, Structural, Hash)]
pub enum FourWayHat {
    Centered,
    North,
    East,
    South,
    West,
}

/// State of a virtual hat; the variant is the hat's mode.
#[derive(Debug, Clone, Copy, PartialEq, Eq, Structural, Hash)]
pub enum HatState {
    /// One of four directions, or centered.
    Discrete(FourWayHat),
    /// Hundredths of a degree; `u32::MAX` when centered.
    Continuous(u32),
}

/// Position of a physical hat as sampled: eight directions, or centered.
#[derive(Debug, Clone, Copy, PartialEq, Eq, Structural, Hash)]
pub enum HatPosition {
    Centered,
    Up,
    RightUp,
    Right,
    RightDown,
    Down,
    LeftDown,
    Left,
    LeftUp,
}

/// Degrees clockwise from up, or -1 when centered.
pub open spec fn hat_degrees(position: HatPosition) -> i32 {
    match position {
        HatPosition::Centered => -1i32,
        HatPosition::Up => 0i32,
        HatPosition::RightUp => 45i32,
        HatPosition::Right => 90i32,
        HatPosition::RightDown => 135i32,
        HatPosition::Down => 180i32,
        HatPosition::LeftDown => 225i32,
        HatPosition::Left => 270i32,
        HatPosition::LeftUp => 315i32,
    }
}

impl HatPosition {
    /// Degrees clockwise from up, or -1 when centered.
    pub fn to_degrees(&self) -> (degrees: i32)
        ensures
            degrees == hat_degrees(*self),
    {
        match self {
            HatPosition::Centered => -1,
            HatPosition::Up => 0,
            HatPosition::RightUp => 45,
            HatPosition::Right => 90,
            HatPosition::RightDown => 135,
            HatPosition::Down => 180,
            HatPosition::LeftDown => 225,
            HatPosition::Left => 270,
            HatPosition::LeftUp => 315,
        }
    }
}

/// Snapshot of the channels of one physical device.
#[derive(Debug, Clone, PartialEq, Eq)]
pub struct InputState {
    buttons: Vec<bool>,
    axes: Vec<i32>,
    hats: Vec<i32>,
}

/// What an [`InputState`] holds.
pub struct InputStateView {
    pub buttons: Seq<bool>,
    pub axes: Seq<i32>,
    pub hats: Seq<i32>,
}

impl View for InputState {
    type V = InputStateView;

    closed spec fn view(&self) -> InputStateView {
        InputStateView { buttons: self.buttons@, axes: self.axes@, hats: self.hats@ }
    }
}

/// The axis samples widened.
pub open spec fn widen_axes(samples: Seq<i16>) -> Seq<i32> {
    Seq::new(samples.len(), |i: int| samples[i] as i32)
}

/// The hat samples in degrees.
pub open spec fn hats_in_degrees(samples: Seq<HatPosition>) -> Seq<i32> {
    Seq::new(samples.len(), |i: int| hat_degrees(samples[i]))
}

impl InputState {
    /// A snapshot with the given channel counts: buttons released, axes at 0, hats centered.
    pub fn new(num_buttons: usize, num_axes: usize, num_hats: usize) -> (state: InputState)
        ensures
            state@.buttons == Seq::new(num_buttons as nat, |i: int| false),
            state@.axes == Seq::new(num_axes as nat, |i: int| 0i32),
            state@.hats == Seq::new(num_hats as nat, |i: int| -1i32),
    {
        let mut buttons: Vec<bool> = Vec::new();
        buttons.resize(num_buttons, false);
        let mut axes: Vec<i32> = Vec::new();
        axes.resize(num_axes, 0);
        let mut hats: Vec<i32> = Vec::new();
        hats.resize(num_hats, -1);
        InputState { buttons, axes, hats }
    }

    /// A snapshot with the given contents.
    pub fn from_channels(buttons: Vec<bool>, axes: Vec<i32>, hats: Vec<i32>) -> (state: InputState)
        ensures
            state@.buttons == buttons@,
            state@.axes == axes@,
            state@.hats == hats@,
    {
        InputState { buttons, axes, hats }
    }

    /// The buttons, first channel first.
    pub fn buttons(&self) -> (buttons: &Vec<bool>)
        ensures
            buttons@ == self@.buttons,
    {
        &self.buttons
    }

    /// The axes, first channel first.
    pub fn axes(&self) -> (axes: &Vec<i32>)
        ensures
            axes@ == self@.axes,
    {
        &self.axes
    }

    /// The hats, first channel first.
    pub fn hats(&self) -> (hats: &Vec<i32>)
        ensures
            hats@ == self@.hats,
    {
        &self.hats
    }

    /// Number of buttons.
    pub fn num_buttons(&self) -> (count: usize)
        ensures
            count == self@.buttons.len(),
    {
        self.buttons.len()
    }

    /// Number of axes.
    pub fn num_axes(&self) -> (count: usize)
        ensures
            count == self@.axes.len(),
    {
        self.axes.len()
    }

    /// Number of hats.
    pub fn num_hats(&self) -> (count: usize)
        ensures
            count == self@.hats.len(),
    {
        self.hats.len()
    }

    /// Takes over a fresh sample of the device: the buttons as they are, the
    /// axes widened, the hats in degrees.
    pub fn update(&mut self, buttons: &Vec<bool>, axes: &Vec<i16>, hats: &Vec<HatPosition>)
        ensures
            final(self)@.buttons == buttons@,
            final(self)@.axes == widen_axes(axes@),
            final(self)@.hats == hats_in_degrees(hats@),
    {
        let mut new_buttons: Vec<bool> = Vec::new();
        let mut i: usize = 0;
        while i < buttons.len()
            invariant
                i <= buttons.len(),
                new_buttons@ == buttons@.take(i as int),
            decreases buttons.len() - i,
        {
            new_buttons.push(buttons[i]);
            i += 1;
        }
        let mut new_axes: Vec<i32> = Vec::new();
        let mut j: usize = 0;
        while j < axes.len()
            invariant
                j <= axes.len(),
                new_axes@ == widen_axes(axes@.take(j as int)),
            decreases axes.len() - j,
        {
            new_axes.push(axes[j] as i32);
            j += 1;
        }
        let mut new_hats: Vec<i32> = Vec::new();
        let mut k: usize = 0;
        while k < hats.len()
            invariant
                k <= hats.len(),
                new_hats@ == hats_in_degrees(hats@.take(k as int)),
            decreases hats.len() - k,
        {
            new_hats.push(hats[k].to_degrees());
            k += 1;
        }
        assert(buttons@.take(buttons.len() as int) == buttons@);
        assert(axes@.take(axes.len() as int) == axes@);
        assert(hats@.take(hats.len() as int) == hats@);
        self.buttons = new_buttons;
        self.axes = new_axes;
        self.hats = new_hats;
    }
}

/// A physical device: its identity and its latest snapshot.
#[derive(Debug, Clone, PartialEq, Eq)]
pub struct PhysicalDevice {
    pub guid: String,
    pub name: String,
    pub input_state: InputState,
    pub selected: bool,
}

/// What the engine reads of a physical device.
pub struct PhysicalDeviceView {
    pub guid: Seq<char>,
    pub name: Seq<char>,
    pub buttons: Seq<bool>,
    pub axes: Seq<i32>,
    pub hats: Seq<i32>,
}

impl View for PhysicalDevice {
    type V = PhysicalDeviceView;

    open spec fn view(&self) -> PhysicalDeviceView {
        PhysicalDeviceView {
            guid: self.guid@,
            name: self.name@,
            buttons: self.input_state@.buttons,
            axes: self.input_state@.axes,
            hats: self.input_state@.hats,
        }
    }
}

impl PhysicalDevice {
    /// A device with the given identity and channel counts, at rest.
    pub fn new(guid: String, name: String, num_buttons: usize, num_axes: usize, num_hats: usize) -> (device: PhysicalDevice)
        ensures
            device@.guid == guid@,
            device@.name == name@,
            !device.selected,
            device@.buttons == Seq::new(num_buttons as nat, |i: int| false),
            device@.axes == Seq::new(num_axes as nat, |i: int| 0i32),
            device@.hats == Seq::new(num_hats as nat, |i: int| -1i32),
    {
        PhysicalDevice {
            guid,
            name,
            input_state: InputState::new(num_buttons, num_axes, num_hats),
            selected: false,
        }
    }

    /// The device's display name.
    pub fn name(&self) -> (name: String)
        ensures
            name@ == self@.name,
    {
        self.name.clone()
    }

    /// Number of buttons.
    pub fn num_buttons(&self) -> (count: usize)
        ensures
            count == self@.buttons.len(),
    {
        self.input_state.num_buttons()
    }

    /// Number of axes.
    pub fn num_axes(&self) -> (count: usize)
        ensures
            count == self@.axes.len(),
    {
        self.input_state.num_axes()
    }

    /// Number of hats.
    pub fn num_hats(&self) -> (count: usize)
        ensures
            count == self@.hats.len(),
    {
        self.input_state.num_hats()
    }

    /// Takes over a fresh sample; identity and selection stay.
    pub fn update(&mut self, buttons: &Vec<bool>, axes: &Vec<i16>, hats: &Vec<HatPosition>)
        ensures
            final(self)@.guid == old(self)@.guid,
            final(self)@.name == old(self)@.name,
            final(self).selected == old(self).selected,
            final(self)@.buttons == buttons@,
            final(self)@.axes == widen_axes(axes@),
            final(self)@.hats == hats_in_degrees(hats@),
    {
        self.input_state.update(buttons, axes, hats);
    }
}

/// The display name of the virtual device in a slot.
pub open spec fn virtual_device_name(id: u32) -> Seq<char> {
    "vJoy device "@ + decimal_text(id as nat)
}

/// A virtual device: its slot number and the state that will be published.
#[derive(Debug, Clone, PartialEq, Eq)]
pub struct VirtualDevice {
    pub id: u32,
    pub buttons: Vec<ButtonState>,
    pub axes: Vec<i32>,
    pub hats: Vec<HatState>,
    pub selected: bool,
}

/// What a [`VirtualDevice`] holds.
pub struct VirtualDeviceView {
    pub id: u32,
    pub buttons: Seq<ButtonState>,
    pub axes: Seq<i32>,
    pub hats: Seq<HatState>,
    pub selected: bool,
}

impl View for VirtualDevice {
    type V = VirtualDeviceView;

    open spec fn view(&self) -> VirtualDeviceView {
        VirtualDeviceView {
            id: self.id,
            buttons: self.buttons@,
            axes: self.axes@,
            hats: self.hats@,
            selected: self.selected,
        }
    }
}

impl VirtualDevice {
    /// The device's display name: the words "vJoy device" and the slot number in decimal.
    pub fn name(&self) -> (name: String)
        ensures
            name@ == virtual_device_name(self.id),
    {
        let digits: String = decimal(self.id);
        "vJoy device ".to_owned().concat(digits.as_str())
    }

    /// Number of buttons.
    pub fn num_buttons(&self) -> (count: usize)
        ensures
            count == self@.buttons.len(),
    {
        self.buttons.len()
    }

    /// Number of axes.
    pub fn num_axes(&self) -> (count: usize)
        ensures
            count == self@.axes.len(),
    {
        self.axes.len()
    }

    /// Number of hats.
    pub fn num_hats(&self) -> (count: usize)
        ensures
            count == self@.hats.len(),
    {
        self.hats.len()
    }
}

/// The physical devices as the engine reads them.
pub open spec fn physical_views(devices: Seq<PhysicalDevice>) -> Seq<PhysicalDeviceView> {
    Seq::new(devices.len(), |i: int| devices[i]@)
}

/// The virtual devices as the engine reads and writes them.
pub open spec fn virtual_views(devices: Seq<VirtualDevice>) -> Seq<VirtualDeviceView> {
    Seq::new(devices.len(), |i: int| devices[i]@)
}

/// The virtual devices with one button set.
pub open spec fn with_button(devices: Seq<VirtualDeviceView>, device: int, channel: int, state: ButtonState) -> Seq<VirtualDeviceView> {
    devices.update(device, VirtualDeviceView { buttons: devices[device].buttons.update(channel, state), ..devices[device] })
}

/// The virtual devices with one axis set.
pub open spec fn with_axis(devices: Seq<VirtualDeviceView>, device: int, channel: int, value: i32) -> Seq<VirtualDeviceView> {
    devices.update(device, VirtualDeviceView { axes: devices[device].axes.update(channel, value), ..devices[device] })
}

/// The virtual devices with one hat set.
pub open spec fn with_hat(devices: Seq<VirtualDeviceView>, device: int, channel: int, state: HatState) -> Seq<VirtualDeviceView> {
    devices.update(device, VirtualDeviceView { hats: devices[device].hats.update(channel, state), ..devices[device] })
}

/// Sets one button of one virtual device; `channel` counts from zero.
pub fn write_button(virtual_devices: &mut Vec<VirtualDevice>, device: usize, channel: usize, state: ButtonState)
    requires
        device < old(virtual_devices).len(),
        channel < old(virtual_devices)[device as int].buttons.len(),
    ensures
        virtual_views(final(virtual_devices)@) == with_button(
            virtual_views(old(virtual_devices)@),
            device as int,
            channel as int,
            state,
        ),
{
    virtual_devices[device].buttons[channel] = state;
    assert(virtual_views(virtual_devices@) =~= with_button(
        virtual_views(old(virtual_devices)@),
        device as int,
        channel as int,
        state,
    ));
}

/// Sets one axis of one virtual device; `channel` counts from zero.
pub fn write_axis(virtual_devices: &mut Vec<VirtualDevice>, device: usize, channel: usize, value: i32)
    requires
        device < old(virtual_devices).len(),
        channel < old(virtual_devices)[device as int].axes.len(),
    ensures
        virtual_views(final(virtual_devices)@) == with_axis(
            virtual_views(old(virtual_devices)@),
            device as int,
            channel as int,
            value,
        ),
{
    virtual_devices[device].axes[channel] = value;
    assert(virtual_views(virtual_devices@) =~= with_axis(
        virtual_views(old(virtual_devices)@),
        device as int,
        channel as int,
        value,
    ));
}

/// Sets one hat of one virtual device; `channel` counts from zero.
pub fn write_hat(virtual_devices: &mut Vec<VirtualDevice>, device: usize, channel: usize, state: HatState)
    requires
        device < old(virtual_devices).len(),
        channel < old(virtual_devices)[device as int].hats.len(),
    ensures
        virtual_views(final(virtual_devices)@) == with_hat(
            virtual_views(old(virtual_devices)@),
            device as int,
            channel as int,
            state,
        ),
{
    virtual_devices[device].hats[channel] = state;
    assert(virtual_views(virtual_devices@) =~= with_hat(
        virtual_views(old(virtual_devices)@),
        device as int,
        channel as int,
        state,
    ));
}

} // verus!
