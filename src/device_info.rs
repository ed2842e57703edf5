//! The identity and firmware of a camera, as its device-information document
//! reports it.

use crate::text::owned;
use crate::xml::{child_text, parse_xml, xml_document, XmlElement};
use vstd::prelude::*;

verus! {

#[derive(Debug, PartialEq, Eq, Clone)]
pub struct DeviceInfo {
    pub device_name: String,
    pub device_id: String,
    pub model: String,
    pub serial_number: String,
    pub mac_address: String,
    pub firmware_version: String,
    pub firmware_release_date: String,
    pub device_type: String,
}

#[derive(Debug, PartialEq, Eq, Clone)]
pub enum DeviceInfoParseError {
    XmlInvalid(String),
    RootNodeIncorrect(String),
    FieldMissing(String),
}

pub open spec fn field_missing(r: Result<DeviceInfo, DeviceInfoParseError>, f: Seq<char>) -> bool {
    r matches Err(DeviceInfoParseError::FieldMissing(x)) && x@ == f
}

/// What decoding the element `root` yields: the root must be `DeviceInfo`,
/// and each field is the text of the first child of its name; the first
/// missing one is reported.
pub open spec fn device_info_result(root: XmlElement, r: Result<DeviceInfo, DeviceInfoParseError>) -> bool {
    if root.name@ != "DeviceInfo"@ {
        r matches Err(DeviceInfoParseError::RootNodeIncorrect(n)) && n@ == root.name@
    } else if child_text(root, "deviceName"@) is None {
        field_missing(r, "deviceName"@)
    } else if child_text(root, "deviceID"@) is None {
        field_missing(r, "deviceID"@)
    } else if child_text(root, "model"@) is None {
        field_missing(r, "model"@)
    } else if child_text(root, "serialNumber"@) is None {
        field_missing(r, "serialNumber"@)
    } else if child_text(root, "macAddress"@) is None {
        field_missing(r, "macAddress"@)
    } else if child_text(root, "firmwareVersion"@) is None {
        field_missing(r, "firmwareVersion"@)
    } else if child_text(root, "firmwareReleasedDate"@) is None {
        field_missing(r, "firmwareReleasedDate"@)
    } else if child_text(root, "deviceType"@) is None {
        field_missing(r, "deviceType"@)
    } else {
        r matches Ok(i) && {
            i.device_name@ == child_text(root, "deviceName"@)->Some_0 &&
            i.device_id@ == child_text(root, "deviceID"@)->Some_0 &&
            i.model@ == child_text(root, "model"@)->Some_0 &&
            i.serial_number@ == child_text(root, "serialNumber"@)->Some_0 &&
            i.mac_address@ == child_text(root, "macAddress"@)->Some_0 &&
            i.firmware_version@ == child_text(root, "firmwareVersion"@)->Some_0 &&
            i.firmware_release_date@ == child_text(root, "firmwareReleasedDate"@)->Some_0 &&
            i.device_type@ == child_text(root, "deviceType"@)->Some_0
        }
    }
}

fn required(root: &XmlElement, name: &str) -> (r: Result<String, DeviceInfoParseError>)
    ensures
        match child_text(*root, name@) {
            Some(t) => r matches Ok(x) && x@ == t,
            None => r matches Err(DeviceInfoParseError::FieldMissing(x)) && x@ == name@,
        },
{
    match root.child_text(name) {
        Some(t) => Ok(t),
        None => Err(DeviceInfoParseError::FieldMissing(owned(name))),
    }
}

impl DeviceInfo {
    /// Decodes a device-information element.
    pub fn from_xml(root: &XmlElement) -> (r: Result<DeviceInfo, DeviceInfoParseError>)
        ensures
            device_info_result(*root, r),
    {
        if !crate::text::same_text(root.name.as_str(), "DeviceInfo") {
            return Err(DeviceInfoParseError::RootNodeIncorrect(owned(root.name.as_str())));
        }
        let device_name = required(root, "deviceName")?;
        let device_id = required(root, "deviceID")?;
        let model = required(root, "model")?;
        let serial_number = required(root, "serialNumber")?;
        let mac_address = required(root, "macAddress")?;
        let firmware_version = required(root, "firmwareVersion")?;
        let firmware_release_date = required(root, "firmwareReleasedDate")?;
        let device_type = required(root, "deviceType")?;
        Ok(DeviceInfo {
            device_name,
            device_id,
            model,
            serial_number,
            mac_address,
            firmware_version,
            firmware_release_date,
            device_type,
        })
    }

    /// Decodes a device-information document.
    pub fn parse(s: &str) -> (r: Result<DeviceInfo, DeviceInfoParseError>)
        ensures
            match xml_document(s@) {
                None => r is Err && r->Err_0 is XmlInvalid,
                Some(root) => device_info_result(root, r),
            },
    {
        match parse_xml(s) {
            Ok(root) => DeviceInfo::from_xml(&root),
            Err(e) => Err(DeviceInfoParseError::XmlInvalid(e)),
        }
    }
}

} // verus!
