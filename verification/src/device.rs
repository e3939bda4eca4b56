use vstd::prelude::*;
use vstd::string::StringExecFns;
use crate::density::{DensityScale, BASE_DPI};
use crate::parse::{number_after, spec_number_after};
use crate::text::{spec_trim, trim};

verus! {

/// The USB vendor number of Android devices.
pub const VENDOR_ANDROID: u16 = 0x18D1;

/// The USB vendor number of Apple devices.
pub const VENDOR_APPLE: u16 = 0x05AC;

/// Dots per inch assumed of an Android device whose density cannot be read.
pub const FALLBACK_ANDROID_DPI: u32 = 480;

/// What precedes the density in the report of an Android device.
pub const DENSITY_MARKER: &'static str = "Physical density:";

/// Dots per inch of the displays of iOS devices, which show two physical
/// pixels to the logical one.
pub const IOS_DPI: u32 = 320;

/// The system a connected device runs.
#[derive(Clone, Copy, Debug, PartialEq, Eq, Structural)]
pub enum DeviceOs {
    Android,
    Ios,
    Unknown,
}

/// Why a property of the device is not known.
#[derive(Clone, Copy, Debug, PartialEq, Eq, Structural)]
pub enum DeviceError {
    /// The device reported no identifier.
    NoUdid,
}

/// What is known of the connected device.
#[derive(Debug)]
pub struct DeviceInfo {
    pub os: DeviceOs,
    pub density: Option<DensityScale>,
    pub ios_version: Option<String>,
    pub udid: Option<String>,
}

/// The system of the device with the given USB vendor number; unknown for
/// any other vendor, and where no device is connected.
pub open spec fn os_of_vendor(vendor_id: Option<u16>) -> DeviceOs {
    match vendor_id {
        Some(vendor) => if vendor == VENDOR_ANDROID {
            DeviceOs::Android
        } else if vendor == VENDOR_APPLE {
            DeviceOs::Ios
        } else {
            DeviceOs::Unknown
        },
        None => DeviceOs::Unknown,
    }
}

/// The dots per inch that the density of a device is taken from, and whether
/// they were measured (`true`) or are only a fallback.
pub open spec fn density_dpi(os: DeviceOs, android_dpi: Option<u32>) -> (u32, bool) {
    match os {
        DeviceOs::Android => match android_dpi {
            Some(dpi) => if dpi > 0 {
                (dpi, true)
            } else {
                (FALLBACK_ANDROID_DPI, false)
            },
            None => (FALLBACK_ANDROID_DPI, false),
        },
        DeviceOs::Ios => (IOS_DPI, true),
        DeviceOs::Unknown => (BASE_DPI, false),
    }
}

impl DeviceOs {
    /// The system's name.
    pub fn name(self) -> (name: &'static str)
        ensures
            name@ == match self {
                DeviceOs::Android => "Android"@,
                DeviceOs::Ios => "iOS"@,
                DeviceOs::Unknown => "Unknown"@,
            },
    {
        match self {
            DeviceOs::Android => "Android",
            DeviceOs::Ios => "iOS",
            DeviceOs::Unknown => "Unknown",
        }
    }
}

/// Tells the system of the first USB device by its vendor number.
pub fn detect_device_os(vendor_id: Option<u16>) -> (os: DeviceOs)
    ensures
        os == os_of_vendor(vendor_id),
{
    match vendor_id {
        Some(vendor) => if vendor == VENDOR_ANDROID {
            DeviceOs::Android
        } else if vendor == VENDOR_APPLE {
            DeviceOs::Ios
        } else {
            DeviceOs::Unknown
        },
        None => DeviceOs::Unknown,
    }
}

/// Whether an executable density is the scale of `dpi` dots per inch, given
/// as measured or as a fallback.
pub open spec fn density_is(result: Result<DensityScale, DensityScale>, expected: (u32, bool)) -> bool {
    let scale = match result {
        Ok(scale) => scale,
        Err(scale) => scale,
    };
    &&& result is Ok == expected.1
    &&& scale.spec_numer() == expected.0
    &&& scale.spec_denom() == BASE_DPI
}

/// The dots per inch that an Android device reports: the number at the end
/// of the first line of its report that holds the marker. There is none
/// where the report is missing, has no such line, or the line ends in no
/// whole number.
pub open spec fn reported_dpi(report: Option<Seq<char>>) -> Option<u32> {
    match report {
        Some(text) => spec_number_after(text, DENSITY_MARKER@),
        None => None,
    }
}

/// The view of a report that may be missing.
pub open spec fn report_view(report: Option<&str>) -> Option<Seq<char>> {
    match report {
        Some(text) => Some(text@),
        None => None,
    }
}

fn scale_of(dpi: u32, measured: bool) -> (result: Result<DensityScale, DensityScale>)
    requires
        dpi > 0,
    ensures
        density_is(result, (dpi, measured)),
{
    match DensityScale::from_dpi(dpi) {
        Some(scale) => if measured {
            Ok(scale)
        } else {
            Err(scale)
        },
        None => Err(DensityScale::identity()),
    }
}

/// The pixel density of an Android device, read from what the device
/// reported on its display: the dots per inch it names over the baseline of
/// 160. Where the report names none, the error holds the density to fall
/// back on, 480 over 160.
pub fn get_android_density(report: Option<&str>) -> (result: Result<DensityScale, DensityScale>)
    ensures
        density_is(result, density_dpi(DeviceOs::Android, reported_dpi(report_view(report)))),
{
    let dpi: Option<u32> = match report {
        Some(text) => number_after(text, DENSITY_MARKER),
        None => None,
    };
    match dpi {
        Some(value) => if value > 0 {
            scale_of(value, true)
        } else {
            scale_of(FALLBACK_ANDROID_DPI, false)
        },
        None => scale_of(FALLBACK_ANDROID_DPI, false),
    }
}

/// The pixel density of a device of the system `os`. For Android it is read
/// from the device's report; for iOS it is two. Where it is not known, the
/// error holds the density to fall back on: three for Android, one for an
/// unknown system.
pub fn get_physical_density(os: DeviceOs, android_report: Option<&str>) -> (result: Result<
    DensityScale,
    DensityScale,
>)
    ensures
        density_is(result, density_dpi(os, reported_dpi(report_view(android_report)))),
{
    match os {
        DeviceOs::Android => get_android_density(android_report),
        DeviceOs::Ios => scale_of(IOS_DPI, true),
        DeviceOs::Unknown => scale_of(BASE_DPI, false),
    }
}

/// Reads the version of iOS from what the device tool printed: the text
/// without the white space around it.
pub fn ios_version(output: &str) -> (version: String)
    ensures
        version@ == spec_trim(output@),
{
    String::from_str(trim(output))
}

/// Reads the device identifier from what the device tool printed: the text
/// without the white space around it, which must not be empty.
pub fn get_udid(output: &str) -> (result: Result<String, DeviceError>)
    ensures
        match result {
            Ok(udid) => udid@ == spec_trim(output@) && udid@.len() > 0,
            Err(error) => error == DeviceError::NoUdid && spec_trim(output@).len() == 0,
        },
{
    let udid = trim(output);
    if udid.unicode_len() == 0 {
        Err(DeviceError::NoUdid)
    } else {
        Ok(String::from_str(udid))
    }
}

/// What is known of a device, put together from what was probed.
pub open spec fn device_known(
    info: DeviceInfo,
    vendor_id: Option<u16>,
    android_report: Option<Seq<char>>,
    version_output: Option<Seq<char>>,
    udid_output: Option<Seq<char>>,
) -> bool {
    let os = os_of_vendor(vendor_id);
    let (dpi, measured) = density_dpi(os, reported_dpi(android_report));
    &&& info.os == os
    &&& info.density is Some == measured
    &&& info.density matches Some(scale) ==> scale.spec_numer() == dpi && scale.spec_denom()
        == BASE_DPI
    &&& match info.ios_version {
        Some(version) => os == DeviceOs::Ios && version_output == Some(version@),
        None => os != DeviceOs::Ios || version_output is None,
    }
    &&& match info.udid {
        Some(udid) => os == DeviceOs::Ios && udid_output == Some(udid@),
        None => os != DeviceOs::Ios || udid_output is None,
    }
}

/// Puts together what is known of the connected device: its system by the
/// vendor number, its density where that was measured, and for an iOS device
/// the version and the identifier that were read.
pub fn detect_device(
    vendor_id: Option<u16>,
    android_report: Option<&str>,
    version: Option<String>,
    udid: Option<String>,
) -> (info: DeviceInfo)
    ensures
        device_known(
            info,
            vendor_id,
            report_view(android_report),
            match version {
                Some(text) => Some(text@),
                None => None,
            },
            match udid {
                Some(text) => Some(text@),
                None => None,
            },
        ),
{
    let os = detect_device_os(vendor_id);
    let density = match get_physical_density(os, android_report) {
        Ok(scale) => Some(scale),
        Err(_) => None,
    };
    match os {
        DeviceOs::Ios => DeviceInfo { os, density, ios_version: version, udid },
        _ => DeviceInfo { os, density, ios_version: None, udid: None },
    }
}

/// The density to capture at: the device's where it is known, else one
/// physical pixel to the logical one.
pub fn capture_density(info: &DeviceInfo) -> (scale: DensityScale)
    ensures
        match info.density {
            Some(known) => scale == known,
            None => scale.spec_numer() == 1 && scale.spec_denom() == 1,
        },
{
    match info.density {
        Some(known) => known,
        None => DensityScale::identity(),
    }
}

} // verus!
