use vstd::prelude::*;
use crate::capabilities::{
    held, new_capabilities, optional_view, put_flag, put_member, put_optional, put_text, put_three,
    text_or_null, CapView,
};
use crate::text::text_eq;
use crate::webdriver::{host_platform, DriverError};

verus! {

/// The capabilities of a session with `browser` on an Android device, or the
/// reason there are none.
pub open spec fn android_caps(
    browser: Seq<char>,
    device_os: Option<Seq<char>>,
    chromedriver_path: Option<Seq<char>>,
    host_os: Seq<char>,
) -> Result<Map<Seq<char>, CapView>, DriverError> {
    let named = Map::<Seq<char>, CapView>::empty().insert("browserName"@, CapView::Text(browser));
    if browser == "chrome"@ {
        match chromedriver_path {
            Some(path) => Ok(
                named.insert("platformName"@, text_or_null(device_os)).insert(
                    "appium:automationName"@,
                    CapView::Text("UiAutomator2"@),
                ).insert("appium:chromedriverExecutable"@, CapView::Text(path)),
            ),
            None => Err(DriverError::InvalidDriverPath),
        }
    } else if browser == "firefox"@ {
        Ok(
            named.insert("platformName"@, CapView::Text(host_platform(host_os))).insert(
                "appium:automationName"@,
                CapView::Text("Gecko"@),
            ).insert(
                "moz:firefoxOptions"@,
                CapView::Member("androidPackage"@, "org.mozilla.firefox"@),
            ),
        )
    } else {
        Err(DriverError::UnsupportedBrowser)
    }
}

/// Puts together the capabilities of a session with `browser`, which is
/// `chrome` or `firefox`, on an Android device.
pub fn capabilities(
    browser: &str,
    device_os: Option<&str>,
    chromedriver_path: Option<&str>,
    host_os: &str,
) -> (result: Result<thirtyfour::Capabilities, DriverError>)
    ensures
        match result {
            Ok(caps) => android_caps(
                browser@,
                optional_view(device_os),
                optional_view(chromedriver_path),
                host_os@,
            ) == Ok::<Map<Seq<char>, CapView>, DriverError>(held(caps)),
            Err(error) => android_caps(
                browser@,
                optional_view(device_os),
                optional_view(chromedriver_path),
                host_os@,
            ) == Err::<Map<Seq<char>, CapView>, DriverError>(error),
        },
{
    let mut caps = new_capabilities();
    put_text(&mut caps, "browserName", browser);
    if text_eq(browser, "chrome") {
        match chromedriver_path {
            Some(path) => {
                put_optional(&mut caps, "platformName", device_os);
                put_text(&mut caps, "appium:automationName", "UiAutomator2");
                put_text(&mut caps, "appium:chromedriverExecutable", path);
                Ok(caps)
            },
            None => Err(DriverError::InvalidDriverPath),
        }
    } else if text_eq(browser, "firefox") {
        let platform = if text_eq(host_os, "macos") {
            "mac"
        } else {
            host_os
        };
        put_text(&mut caps, "platformName", platform);
        put_text(&mut caps, "appium:automationName", "Gecko");
        put_member(&mut caps, "moz:firefoxOptions", "androidPackage", "org.mozilla.firefox");
        Ok(caps)
    } else {
        Err(DriverError::UnsupportedBrowser)
    }
}

} // verus!
