use vstd::prelude::*;
use vstd::string::StringExecFns;
use crate::device::DeviceOs;
use crate::text::{replace_all, spec_replace_all, spec_starts_with, starts_with};

verus! {

/// The name under which the composite is stored.
pub const SCREENSHOT_FILE: &'static str = "screenshot.png";

/// The application that drives an iOS device and is ended after a capture.
pub const AGENT_BUNDLE: &'static str = "com.facebook.WebDriverAgentRunner";

/// What taking a full-page screenshot of an address involves.
#[derive(Debug)]
pub struct ScreenshotPlan {
    /// The address to go to.
    pub address: String,
    /// Whether a first session has to open the address, wait for the page and
    /// quit before the capturing session starts: an iOS device needs that.
    pub open_first: bool,
}

/// The address that the browser on the device is sent to. An address with a
/// web scheme has every such scheme turned into the browser's own; any other
/// gets `http://` put before it.
pub open spec fn device_address(url: Seq<char>) -> Seq<char> {
    if spec_starts_with(url, "http://"@) || spec_starts_with(url, "https://"@) {
        spec_replace_all(
            spec_replace_all(url, "https://"@, "googlechrome://"@),
            "http://"@,
            "googlechrome://"@,
        )
    } else {
        "http://"@ + url
    }
}

/// Writes the address that the browser on the device is sent to.
pub fn format_url(url: &str) -> (address: String)
    ensures
        address@ == device_address(url@),
{
    proof {
        reveal_strlit("http://");
        reveal_strlit("https://");
    }
    if starts_with(url, "http://") || starts_with(url, "https://") {
        let secure = replace_all(url, "https://", "googlechrome://");
        replace_all(secure.as_str(), "http://", "googlechrome://")
    } else {
        let mut address = String::from_str("http://");
        address.append(url);
        address
    }
}

/// Plans the screenshot of `url` on a device that runs `os`.
pub fn take_screenshot(url: &str, os: DeviceOs) -> (plan: ScreenshotPlan)
    ensures
        plan.address@ == device_address(url@),
        plan.open_first == (os == DeviceOs::Ios),
{
    let open_first = match os {
        DeviceOs::Ios => true,
        _ => false,
    };
    ScreenshotPlan { address: format_url(url), open_first }
}

} // verus!
