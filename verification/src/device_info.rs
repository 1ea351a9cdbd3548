use vstd::prelude::*;

verus! {

/// Clone device used when the caller does not name one.
pub const DEFAULTDEVICE: &'static str = "/dev/net/tun";

/// Interface name used when the caller does not name one.
pub const DEFAULTINTERFACE: &'static str = "tap0";

/// The clone device to open: either the well-known default path or one the
/// caller supplied.
pub enum CloneDevice {
    DefaultDevice,
    UserDefinedDevice(String),
}

/// The interface name to request: either the well-known default or one the
/// caller supplied.
pub enum InterfaceName {
    DefaultInterface,
    UserDefinedName(String),
}

/// Immutable configuration for one open attempt: which clone device to open
/// and which interface name to ask the kernel for.
pub struct DeviceInfo {
    pub clone_device: CloneDevice,
    pub interface: InterfaceName,
}

/// The clone-device path that a `CloneDevice` stands for.
pub open spec fn spec_clone_device_name(d: CloneDevice) -> Seq<char> {
    match d {
        CloneDevice::DefaultDevice => DEFAULTDEVICE@,
        CloneDevice::UserDefinedDevice(s) => s@,
    }
}

/// The interface name that an `InterfaceName` stands for.
pub open spec fn spec_interface_name(i: InterfaceName) -> Seq<char> {
    match i {
        InterfaceName::DefaultInterface => DEFAULTINTERFACE@,
        InterfaceName::UserDefinedName(s) => s@,
    }
}

impl DeviceInfo {
    pub fn new(d: CloneDevice, i: InterfaceName) -> (r: DeviceInfo)
        ensures
            r.clone_device == d,
            r.interface == i,
    {
        DeviceInfo { clone_device: d, interface: i }
    }

    /// The path of the clone device to open, with the default filled in.
    pub fn get_clone_device_name(&self) -> (r: String)
        ensures
            r@ == spec_clone_device_name(self.clone_device),
    {
        match &self.clone_device {
            CloneDevice::DefaultDevice => DEFAULTDEVICE.to_owned(),
            CloneDevice::UserDefinedDevice(s) => s.as_str().to_owned(),
        }
    }

    /// The interface name to request, with the default filled in.
    pub fn get_interface_name(&self) -> (r: String)
        ensures
            r@ == spec_interface_name(self.interface),
    {
        match &self.interface {
            InterfaceName::DefaultInterface => DEFAULTINTERFACE.to_owned(),
            InterfaceName::UserDefinedName(s) => s.as_str().to_owned(),
        }
    }
}

} // verus!
