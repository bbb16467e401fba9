//! What a device says of itself in its class-specific descriptor.

use crate::text::decimal;
use vstd::prelude::*;

verus! {

/// A version of three numbers.
#[derive(Clone, Copy, Debug, PartialEq, Eq, Structural)]
pub struct Version {
    pub major: u64,
    pub minor: u64,
    pub patch: u64,
}

/// The text of a version: its three numbers in decimal, with dots between
/// them.
pub open spec fn version_text(major: u64, minor: u64, patch: u64) -> Seq<char> {
    decimal(major as nat) + "."@ + decimal(minor as nat) + "."@ + decimal(patch as nat)
}

/// Calls `semver::Version::new` and formats the version with its `Display`.
/// A version made by `new` has neither pre-release nor build metadata, so that
/// `Display` writes the three numbers with dots between them and nothing else.
#[verifier::external_body]
fn semver_text(major: u64, minor: u64, patch: u64) -> (text: String)
    ensures
        text@ == version_text(major, minor, patch),
{
    semver::Version::new(major, minor, patch).to_string()
}

impl Version {
    /// Construct a version.
    pub fn new(major: u64, minor: u64, patch: u64) -> (version: Self)
        ensures
            version == (Version { major, minor, patch }),
    {
        Self { major, minor, patch }
    }

    /// The version as text.
    pub fn to_string(&self) -> (text: String)
        ensures
            text@ == version_text(self.major, self.minor, self.patch),
    {
        semver_text(self.major, self.minor, self.patch)
    }
}

/// Bus speed supported by each USB device.
#[derive(Clone, Copy, Debug, PartialEq, Eq, Structural)]
pub enum BusSpeed {
    /// USB 1.0/Low-Speed: 1.5 Mbps
    LowSpeed,
    /// USB 1.1/Full-Speed: 12 Mbps
    FullSpeed,
    /// USB 2.0/Hi-Speed: 480 Mbps
    HighSpeed,
    /// USB 3.0/SuperSpeed: 5 Gbps
    SuperSpeed,
    /// USB 3.1/SuperSpeedPlus: 10 Gbps
    SuperSpeedPlus,
}

impl BusSpeed {
    /// The name of the speed.
    pub open spec fn spec_name(self) -> &'static str {
        match self {
            BusSpeed::LowSpeed => "LowSpeed",
            BusSpeed::FullSpeed => "FullSpeed",
            BusSpeed::HighSpeed => "HighSpeed",
            BusSpeed::SuperSpeed => "SuperSpeed",
            BusSpeed::SuperSpeedPlus => "SuperSpeedPlus",
        }
    }

    /// The name of the speed, as it stands in the text of a device.
    pub fn name(&self) -> (name: &'static str)
        ensures
            name == self.spec_name(),
    {
        match self {
            BusSpeed::LowSpeed => "LowSpeed",
            BusSpeed::FullSpeed => "FullSpeed",
            BusSpeed::HighSpeed => "HighSpeed",
            BusSpeed::SuperSpeed => "SuperSpeed",
            BusSpeed::SuperSpeedPlus => "SuperSpeedPlus",
        }
    }
}

/// Device information in class-specific device descriptor.
#[derive(Clone, Debug, PartialEq, Eq)]
pub struct DeviceInfo {
    /// GenCP version the device provides.
    pub gencp_version: Version,
    /// Version of the vision standard the device provides.
    pub gev_version: Version,
    /// Device GUID consists of 12 characters.
    /// First 4 characters are vendor ID and last 8 characters are unique id assigned by a vendor.
    pub guid: String,
    /// Manufacturer name of the device.
    pub vendor_name: String,
    /// Model name of the device.
    pub model_name: String,
    /// A human readable name referring to multiple models of a single manufacturer.
    pub family_name: Option<String>,
    /// Manufacturer specific device version.
    /// An application can't make any assumptions of this version.
    pub device_version: String,
    /// Manufacturer specific information.
    /// This field is optional.
    pub manufacturer_info: String,
    /// Serial number of the device.
    pub serial_number: String,
    /// User defined name.
    /// This field is optional.
    pub user_defined_name: Option<String>,
    /// Bus speed supported by the device.
    pub supported_speed: BusSpeed,
}

/// A name that may be missing, as it stands in the text of a device.
pub open spec fn name_or_na(name: Option<String>) -> Seq<char> {
    match name {
        Some(name) => name@,
        None => "N/A"@,
    }
}

/// One line of the text of a device.
pub open spec fn line(label: &str, value: Seq<char>) -> Seq<char> {
    label@ + value + "\n"@
}

impl DeviceInfo {
    /// The text of the device information: a heading and one line for each
    /// field but the device version; the last line is not ended.
    pub open spec fn spec_to_string(&self) -> Seq<char> {
        "### Device Information ###\n"@ + line(
            "GenCP Version: ",
            version_text(
                self.gencp_version.major,
                self.gencp_version.minor,
                self.gencp_version.patch,
            ),
        ) + line(
            "GEV Version: ",
            version_text(self.gev_version.major, self.gev_version.minor, self.gev_version.patch),
        ) + line("GUID: ", self.guid@) + line("Vendor Name: ", self.vendor_name@) + line(
            "Model Name: ",
            self.model_name@,
        ) + line("Family Name: ", name_or_na(self.family_name)) + line(
            "Manufacturer Information: ",
            self.manufacturer_info@,
        ) + line("Serial Number: ", self.serial_number@) + line(
            "User Defined Name: ",
            name_or_na(self.user_defined_name),
        ) + "Supported Speed: "@ + self.supported_speed.spec_name()@
    }

    /// Writes the device information as text.
    pub fn to_string(&self) -> (text: String)
        ensures
            text@ == self.spec_to_string(),
    {
        let mut text = String::from_str("### Device Information ###\n");
        write_line(&mut text, "GenCP Version: ", self.gencp_version.to_string().as_str());
        write_line(&mut text, "GEV Version: ", self.gev_version.to_string().as_str());
        write_line(&mut text, "GUID: ", self.guid.as_str());
        write_line(&mut text, "Vendor Name: ", self.vendor_name.as_str());
        write_line(&mut text, "Model Name: ", self.model_name.as_str());
        match &self.family_name {
            Some(family_name) => write_line(&mut text, "Family Name: ", family_name.as_str()),
            None => write_line(&mut text, "Family Name: ", "N/A"),
        }
        write_line(&mut text, "Manufacturer Information: ", self.manufacturer_info.as_str());
        write_line(&mut text, "Serial Number: ", self.serial_number.as_str());
        match &self.user_defined_name {
            Some(user_defined_name) => write_line(
                &mut text,
                "User Defined Name: ",
                user_defined_name.as_str(),
            ),
            None => write_line(&mut text, "User Defined Name: ", "N/A"),
        }
        text.append("Supported Speed: ");
        text.append(self.supported_speed.name());
        text
    }
}

/// Appends one line to `text`.
fn write_line(text: &mut String, label: &str, value: &str)
    ensures
        final(text)@ == old(text)@ + line(label, value@),
{
    text.append(label);
    text.append(value);
    text.append("\n");
    assert(text@ =~= old(text)@ + line(label, value@));
}

} // verus!
