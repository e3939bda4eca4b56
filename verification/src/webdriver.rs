use vstd::prelude::*;
use vstd::string::StringExecFns;
use crate::capabilities::{
    held, new_capabilities, optional_view, put_flag, put_member, put_optional, put_text, put_three,
    text_or_null, CapView,
};
use crate::device::DeviceOs;
use crate::text::text_eq;

verus! {

/// The port on which the automation server listens.
pub const APPIUM_PORT: &'static str = "4723";

/// Why no session can be asked for.
#[derive(Clone, Copy, Debug, PartialEq, Eq, Structural)]
pub enum DriverError {
    /// The device runs neither iOS nor Android.
    UnsupportedDeviceOs,
    /// The browser is none of chrome, firefox and safari.
    UnsupportedBrowser,
    /// The path of the browser driver cannot be written as text.
    InvalidDriverPath,
}

impl DriverError {
    /// The text shown to the user for this error.
    pub fn message(self) -> (text: String)
        ensures
            text@ == match self {
                DriverError::UnsupportedDeviceOs => "Unsupported device OS"@,
                DriverError::UnsupportedBrowser => "Unsupported browser"@,
                DriverError::InvalidDriverPath => "Invalid chromedriver path"@,
            },
    {
        match self {
            DriverError::UnsupportedDeviceOs => String::from_str("Unsupported device OS"),
            DriverError::UnsupportedBrowser => String::from_str("Unsupported browser"),
            DriverError::InvalidDriverPath => String::from_str("Invalid chromedriver path"),
        }
    }
}

/// What is known when a session is asked for.
pub struct DriverRequest<'a> {
    /// The browser to drive: `chrome`, `firefox` or `safari`.
    pub browser: &'a str,
    /// The system of the device.
    pub device_os: DeviceOs,
    /// The identifier of the device, where known.
    pub device_udid: Option<&'a str>,
    /// The version of iOS on the device, where known.
    pub ios_version: Option<&'a str>,
    /// The team that signs the agent on an iOS device.
    pub development_team: &'a str,
    /// The path of ChromeDriver; none where it cannot be written as text.
    pub chromedriver_path: Option<&'a str>,
    /// The system of the host.
    pub host_os: &'a str,
}

/// The capabilities that every session on an iOS device asks for.
pub open spec fn ios_caps(
    base: Map<Seq<char>, CapView>,
    udid: Option<Seq<char>>,
    version: Option<Seq<char>>,
    team: Seq<char>,
) -> Map<Seq<char>, CapView> {
    base.insert("platformName"@, CapView::Text("iOS"@)).insert(
        "port"@,
        CapView::Text(APPIUM_PORT@),
    ).insert("appium:udid"@, text_or_null(udid)).insert(
        "appium:deviceName"@,
        CapView::Text("iPhone"@),
    ).insert("appium:platformVersion"@, text_or_null(version)).insert(
        "appium:noReset"@,
        CapView::Flag(true),
    ).insert("appium:xcodeOrgId"@, CapView::Text(team)).insert(
        "appium:xcodeSigningId"@,
        CapView::Text("Developer ID Application"@),
    ).insert("appium:updatedWDABundleId"@, CapView::Text("com.facebook.WebDriverAgentRunner"@))
        .insert(
        "appium:additionalWebviewBundleIds"@,
        CapView::List(
            seq![
                "com.facebook.WebDriverAgentRunner"@,
                "com.google.chrome.ios"@,
                "com.apple.mobilesafari"@,
            ],
        ),
    ).insert("appium:autoWebview"@, CapView::Flag(true))
}

/// The name that the automation server knows the host's system by.
pub open spec fn host_platform(host_os: Seq<char>) -> Seq<char> {
    if host_os == "macos"@ {
        "mac"@
    } else {
        host_os
    }
}

/// The capabilities that a browser adds.
pub open spec fn browser_caps(
    base: Map<Seq<char>, CapView>,
    browser: Seq<char>,
    automation: Seq<char>,
    chromedriver_path: Option<Seq<char>>,
    host_os: Seq<char>,
) -> Result<Map<Seq<char>, CapView>, DriverError> {
    if browser == "chrome"@ {
        match chromedriver_path {
            Some(path) => Ok(
                base.insert("appium:automationName"@, CapView::Text(automation)).insert(
                    "appium:chromedriverExecutable"@,
                    CapView::Text(path),
                ),
            ),
            None => Err(DriverError::InvalidDriverPath),
        }
    } else if browser == "firefox"@ {
        Ok(
            base.insert("platformName"@, CapView::Text(host_platform(host_os))).insert(
                "appium:automationName"@,
                CapView::Text("Gecko"@),
            ).insert(
                "moz:firefoxOptions"@,
                CapView::Member("androidPackage"@, "org.mozilla.firefox"@),
            ),
        )
    } else if browser == "safari"@ {
        Ok(base.insert("appium:bundleId"@, CapView::Text("com.apple.mobilesafari"@)))
    } else {
        Err(DriverError::UnsupportedBrowser)
    }
}

/// The capabilities asked for a session, or the reason none can be asked
/// for. The device's system is looked at first, the browser after it.
pub open spec fn session_caps(
    browser: Seq<char>,
    device_os: DeviceOs,
    udid: Option<Seq<char>>,
    version: Option<Seq<char>>,
    team: Seq<char>,
    chromedriver_path: Option<Seq<char>>,
    host_os: Seq<char>,
) -> Result<Map<Seq<char>, CapView>, DriverError> {
    let named = Map::<Seq<char>, CapView>::empty().insert("browserName"@, CapView::Text(browser));
    match device_os {
        DeviceOs::Ios => browser_caps(
            ios_caps(named, udid, version, team),
            browser,
            "XCUITest"@,
            chromedriver_path,
            host_os,
        ),
        DeviceOs::Android => browser_caps(
            named,
            browser,
            "UiAutomator2"@,
            chromedriver_path,
            host_os,
        ),
        DeviceOs::Unknown => Err(DriverError::UnsupportedDeviceOs),
    }
}

fn add_ios(
    caps: &mut thirtyfour::Capabilities,
    udid: Option<&str>,
    version: Option<&str>,
    team: &str,
)
    ensures
        held(*final(caps)) == ios_caps(
            held(*old(caps)),
            optional_view(udid),
            optional_view(version),
            team@,
        ),
{
    put_text(caps, "platformName", "iOS");
    put_text(caps, "port", APPIUM_PORT);
    put_optional(caps, "appium:udid", udid);
    put_text(caps, "appium:deviceName", "iPhone");
    put_optional(caps, "appium:platformVersion", version);
    put_flag(caps, "appium:noReset", true);
    put_text(caps, "appium:xcodeOrgId", team);
    put_text(caps, "appium:xcodeSigningId", "Developer ID Application");
    put_text(caps, "appium:updatedWDABundleId", "com.facebook.WebDriverAgentRunner");
    put_three(
        caps,
        "appium:additionalWebviewBundleIds",
        "com.facebook.WebDriverAgentRunner",
        "com.google.chrome.ios",
        "com.apple.mobilesafari",
    );
    put_flag(caps, "appium:autoWebview", true);
}

fn add_browser(
    caps: &mut thirtyfour::Capabilities,
    browser: &str,
    automation: &str,
    chromedriver_path: Option<&str>,
    host_os: &str,
) -> (result: Result<(), DriverError>)
    ensures
        match result {
            Ok(()) => browser_caps(
                held(*old(caps)),
                browser@,
                automation@,
                optional_view(chromedriver_path),
                host_os@,
            ) == Ok::<Map<Seq<char>, CapView>, DriverError>(held(*final(caps))),
            Err(error) => browser_caps(
                held(*old(caps)),
                browser@,
                automation@,
                optional_view(chromedriver_path),
                host_os@,
            ) == Err::<Map<Seq<char>, CapView>, DriverError>(error),
        },
{
    if text_eq(browser, "chrome") {
        match chromedriver_path {
            Some(path) => {
                put_text(caps, "appium:automationName", automation);
                put_text(caps, "appium:chromedriverExecutable", path);
                Ok(())
            },
            None => Err(DriverError::InvalidDriverPath),
        }
    } else if text_eq(browser, "firefox") {
        let platform = if text_eq(host_os, "macos") {
            "mac"
        } else {
            host_os
        };
        put_text(caps, "platformName", platform);
        put_text(caps, "appium:automationName", "Gecko");
        put_member(caps, "moz:firefoxOptions", "androidPackage", "org.mozilla.firefox");
        Ok(())
    } else if text_eq(browser, "safari") {
        put_text(caps, "appium:bundleId", "com.apple.mobilesafari");
        Ok(())
    } else {
        Err(DriverError::UnsupportedBrowser)
    }
}

/// Puts together the capabilities to ask of the automation server for a
/// session with the given browser on the given device.
pub fn create_webdriver(request: &DriverRequest<'_>) -> (result: Result<
    thirtyfour::Capabilities,
    DriverError,
>)
    ensures
        match result {
            Ok(caps) => session_caps(
                request.browser@,
                request.device_os,
                optional_view(request.device_udid),
                optional_view(request.ios_version),
                request.development_team@,
                optional_view(request.chromedriver_path),
                request.host_os@,
            ) == Ok::<Map<Seq<char>, CapView>, DriverError>(held(caps)),
            Err(error) => session_caps(
                request.browser@,
                request.device_os,
                optional_view(request.device_udid),
                optional_view(request.ios_version),
                request.development_team@,
                optional_view(request.chromedriver_path),
                request.host_os@,
            ) == Err::<Map<Seq<char>, CapView>, DriverError>(error),
        },
{
    let mut caps = new_capabilities();
    put_text(&mut caps, "browserName", request.browser);
    let automation = match request.device_os {
        DeviceOs::Ios => {
            add_ios(
                &mut caps,
                request.device_udid,
                request.ios_version,
                request.development_team,
            );
            "XCUITest"
        },
        DeviceOs::Android => "UiAutomator2",
        DeviceOs::Unknown => {
            return Err(DriverError::UnsupportedDeviceOs);
        },
    };
    match add_browser(
        &mut caps,
        request.browser,
        automation,
        request.chromedriver_path,
        request.host_os,
    ) {
        Ok(()) => Ok(caps),
        Err(error) => Err(error),
    }
}

} // verus!
