//! The identity under which the simulated device shows itself on the bus.

use vstd::prelude::*;
use usb_device::device::UsbVidPid;

verus! {

/// Makes `usb_device::device::UsbVidPid` known to the verifier: a tuple
/// struct of two public `u16` fields, the vendor id and then the product id.
/// Nothing is claimed of it beyond the fields its own definition has.
#[verifier::external_type_specification]
pub struct ExUsbVidPid(UsbVidPid);

/// The device class every device of this kind reports: a human interface
/// device, whichever protocol families it carries.
pub const DEVICE_CLASS: u8 = 0x03;

/// The device sub-class every device of this kind reports.
pub const DEVICE_SUB_CLASS: u8 = 0x00;

/// The identity of a device, as its owner configures it.
pub struct Options {
    pub manufacturer: Option<String>,
    pub product: Option<String>,
    pub serial_number: Option<String>,
    pub vid: u16,
    pub pid: u16,
}

/// What the device reports about itself when the host enumerates it.
pub struct DeviceDescription<'a> {
    pub vid: u16,
    pub pid: u16,
    pub manufacturer: Option<&'a str>,
    pub product: Option<&'a str>,
    pub serial_number: Option<&'a str>,
    pub device_class: u8,
    pub device_sub_class: u8,
}

/// The characters of a configured string.
pub open spec fn owned_text(text: Option<String>) -> Option<Seq<char>> {
    match text {
        Some(s) => Some(s@),
        None => None,
    }
}

/// The characters of a reported string.
pub open spec fn reported_text(text: Option<&str>) -> Option<Seq<char>> {
    match text {
        Some(s) => Some(s@),
        None => None,
    }
}

fn report<'a>(text: &'a Option<String>) -> (reported: Option<&'a str>)
    ensures
        reported_text(reported) == owned_text(*text),
{
    match text {
        Some(s) => Some(s.as_str()),
        None => None,
    }
}

impl Options {
    /// The vendor and product id, as the USB stack takes them.
    pub fn vid_pid(&self) -> (id: UsbVidPid)
        ensures
            id.0 == self.vid,
            id.1 == self.pid,
    {
        UsbVidPid(self.vid, self.pid)
    }
}

/// Describes the device that `options` configure. The strings that are not
/// configured are left out; the class and sub-class are fixed.
pub fn build_device<'a>(options: &'a Options) -> (device: DeviceDescription<'a>)
    ensures
        device.vid == options.vid,
        device.pid == options.pid,
        reported_text(device.manufacturer) == owned_text(options.manufacturer),
        reported_text(device.product) == owned_text(options.product),
        reported_text(device.serial_number) == owned_text(options.serial_number),
        device.device_class == DEVICE_CLASS,
        device.device_sub_class == DEVICE_SUB_CLASS,
{
    let id = options.vid_pid();
    DeviceDescription {
        vid: id.0,
        pid: id.1,
        manufacturer: report(&options.manufacturer),
        product: report(&options.product),
        serial_number: report(&options.serial_number),
        device_class: DEVICE_CLASS,
        device_sub_class: DEVICE_SUB_CLASS,
    }
}

} // verus!
