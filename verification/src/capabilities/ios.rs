use vstd::prelude::*;
use crate::capabilities::{
    held, new_capabilities, optional_view, put_flag, put_member, put_optional, put_text, put_three,
    text_or_null, CapView,
};
use crate::webdriver::APPIUM_PORT;

verus! {

/// The capabilities of a session on an iOS device.
pub open spec fn ios_session_caps(
    device_os: Option<Seq<char>>,
    udid: Option<Seq<char>>,
    version: Option<Seq<char>>,
    team: Seq<char>,
) -> Map<Seq<char>, CapView> {
    Map::<Seq<char>, CapView>::empty().insert(
        "appium:automationName"@,
        CapView::Text("XCUITest"@),
    ).insert("platformName"@, text_or_null(device_os)).insert(
        "port"@,
        CapView::Text(APPIUM_PORT@),
    ).insert("appium:udid"@, text_or_null(udid)).insert(
        "appium:deviceName"@,
        CapView::Text("iPhone"@),
    ).insert("appium:platformVersion"@, text_or_null(version)).insert(
        "appium:noReset"@,
        CapView::Flag(true),
    ).insert("appium:xcodeOrgId"@, CapView::Text(team)).insert(
        "appium:xcodeSigningId"@,
        CapView::Text("Developer ID Application"@),
    ).insert("appium:useNewWDA"@, CapView::Flag(true)).insert(
        "appium:updatedWDABundleId"@,
        CapView::Text("com.facebook.WebDriverAgentRunner"@),
    ).insert(
        "appium:additionalWebviewBundleIds"@,
        CapView::List(
            seq![
                "com.apple.mobilesafari"@,
                "com.google.chrome.ios"@,
                "org.mozilla.ios.Firefox"@,
            ],
        ),
    ).insert("appium:autoWebview"@, CapView::Flag(true))
}

/// Puts together the capabilities of a session on an iOS device.
pub fn capabilities(
    device_os: Option<&str>,
    device_udid: Option<&str>,
    ios_version: Option<&str>,
    development_team: &str,
) -> (caps: thirtyfour::Capabilities)
    ensures
        held(caps) == ios_session_caps(
            optional_view(device_os),
            optional_view(device_udid),
            optional_view(ios_version),
            development_team@,
        ),
{
    let mut caps = new_capabilities();
    put_text(&mut caps, "appium:automationName", "XCUITest");
    put_optional(&mut caps, "platformName", device_os);
    put_text(&mut caps, "port", APPIUM_PORT);
    put_optional(&mut caps, "appium:udid", device_udid);
    put_text(&mut caps, "appium:deviceName", "iPhone");
    put_optional(&mut caps, "appium:platformVersion", ios_version);
    put_flag(&mut caps, "appium:noReset", true);
    put_text(&mut caps, "appium:xcodeOrgId", development_team);
    put_text(&mut caps, "appium:xcodeSigningId", "Developer ID Application");
    put_flag(&mut caps, "appium:useNewWDA", true);
    put_text(&mut caps, "appium:updatedWDABundleId", "com.facebook.WebDriverAgentRunner");
    put_three(
        &mut caps,
        "appium:additionalWebviewBundleIds",
        "com.apple.mobilesafari",
        "com.google.chrome.ios",
        "org.mozilla.ios.Firefox",
    );
    put_flag(&mut caps, "appium:autoWebview", true);
    caps
}

} // verus!
