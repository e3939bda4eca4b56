use fullpage_capture::appium::{ensure_appium, AppiumError, AppiumState};
use fullpage_capture::density::DensityScale;
use fullpage_capture::device::{
    capture_density, detect_device, detect_device_os, get_android_density, get_physical_density,
    get_udid, ios_version, DeviceError, DeviceOs,
};
use fullpage_capture::json::{read_text, JsonError};
use fullpage_capture::parse::{find, number_after};
use fullpage_capture::provision::{
    add_to_path, download_and_extract, ensure_chromedriver, ensure_geckodriver, ensure_node,
    extract, extract_tar_gz, extract_zip, file_name, get_chromedriver_url, get_geckodriver_url,
    get_latest_chromedriver_version, get_latest_geckodriver_version, get_nodejs_url,
    has_chromedriver, plan_install, rename_extracted_node, version_from, ArchiveKind, DirEntry,
    InstallPlan, SetupError,
};

fn parts(scale: &DensityScale) -> (u32, u32) {
    (scale.numer(), scale.denom())
}

#[test]
fn nodejs_url_by_platform() {
    assert_eq!(
        get_nodejs_url("macos", "aarch64").unwrap(),
        "https://nodejs.org/dist/v22.14.0/node-v22.14.0-darwin-arm64.tar.gz"
    );
    assert_eq!(
        get_nodejs_url("macos", "x86_64").unwrap(),
        "https://nodejs.org/dist/v22.14.0/node-v22.14.0-darwin-x64.tar.gz"
    );
    assert_eq!(
        get_nodejs_url("windows", "x86_64").unwrap(),
        "https://nodejs.org/dist/v22.14.0/node-v22.14.0-win-x64.zip"
    );
    assert_eq!(get_nodejs_url("linux", "x86_64").err(), Some(SetupError::UnsupportedPlatform));
    assert_eq!(get_nodejs_url("windows", "aarch64").err(), Some(SetupError::UnsupportedPlatform));
}

#[test]
fn chromedriver_url_by_platform() {
    assert_eq!(
        get_chromedriver_url("134.0.6998.88", "macos", "aarch64"),
        "https://storage.googleapis.com/chrome-for-testing-public/134.0.6998.88/mac-arm64/chromedriver-mac-arm64.zip"
    );
    assert_eq!(
        get_chromedriver_url("1.2", "macos", "x86_64"),
        "https://storage.googleapis.com/chrome-for-testing-public/1.2/mac-x64/chromedriver-mac-x64.zip"
    );
    assert_eq!(
        get_chromedriver_url("1.2", "windows", "x86"),
        "https://storage.googleapis.com/chrome-for-testing-public/1.2/win32/chromedriver-win32.zip"
    );
    assert_eq!(
        get_chromedriver_url("1.2", "windows", "x86_64"),
        "https://storage.googleapis.com/chrome-for-testing-public/1.2/win64/chromedriver-win64.zip"
    );
    assert!(has_chromedriver("macos", "aarch64"));
    assert!(!has_chromedriver("macos", "x86"));
    assert!(!has_chromedriver("linux", "x86_64"));
}

#[test]
fn geckodriver_url_by_platform() {
    assert_eq!(
        get_geckodriver_url("v0.36.0", "macos", "aarch64").unwrap(),
        "https://github.com/mozilla/geckodriver/releases/download/v0.36.0/geckodriver-v0.36.0-macos-aarch64.tar.gz"
    );
    assert_eq!(
        get_geckodriver_url("v0.36.0", "macos", "x86_64").unwrap(),
        "https://github.com/mozilla/geckodriver/releases/download/v0.36.0/geckodriver-v0.36.0-macos.tar.gz"
    );
    assert_eq!(
        get_geckodriver_url("v0.36.0", "windows", "x86_64").unwrap(),
        "https://github.com/mozilla/geckodriver/releases/download/v0.36.0/geckodriver-v0.36.0-win64.zip"
    );
    assert_eq!(
        get_geckodriver_url("v0.36.0", "windows", "x86").err(),
        Some(SetupError::UnsupportedPlatform)
    );
}

#[test]
fn extract_goes_by_the_extension() {
    assert_eq!(extract("/home/u/.fullpage-capture/bin/chromedriver-mac-arm64.zip"), Ok(ArchiveKind::Zip));
    assert_eq!(extract("node-v22.14.0-darwin-arm64.tar.gz"), Ok(ArchiveKind::TarGz));
    assert_eq!(extract("a.gz"), Ok(ArchiveKind::TarGz));
    assert_eq!(extract("archive.tar"), Err(SetupError::UnsupportedArchive));
    assert_eq!(extract("archive"), Err(SetupError::UnsupportedArchive));
    assert_eq!(extract(".zip"), Err(SetupError::UnsupportedArchive));
    assert_eq!(extract("dir.zip/file"), Err(SetupError::UnsupportedArchive));
    assert_eq!(extract("a.ZIP"), Err(SetupError::UnsupportedArchive));
    assert_eq!(extract(""), Err(SetupError::UnsupportedArchive));
    assert_eq!(extract("a."), Err(SetupError::UnsupportedArchive));
    assert_eq!(extract("x.zip/"), Ok(ArchiveKind::Zip));
    assert_eq!(extract("dir/x.tar.gz//./"), Ok(ArchiveKind::TarGz));
    assert_eq!(extract("x.zip/.."), Err(SetupError::UnsupportedArchive));
}

fn install(plan: InstallPlan) -> (String, String, ArchiveKind, bool) {
    match plan {
        InstallPlan::Install { url, archive_name, format, make_executable } => {
            (url, archive_name, format, make_executable)
        }
        InstallPlan::AlreadyInstalled => panic!("nothing to install"),
    }
}

#[test]
fn ensure_node_plans_the_download() {
    assert!(matches!(ensure_node(true, "linux", "riscv"), Ok(InstallPlan::AlreadyInstalled)));
    let (url, name, format, executable) = install(ensure_node(false, "macos", "aarch64").unwrap());
    assert_eq!(url, "https://nodejs.org/dist/v22.14.0/node-v22.14.0-darwin-arm64.tar.gz");
    assert_eq!(name, "node-v22.14.0-darwin-arm64.tar.gz");
    assert_eq!(format, ArchiveKind::TarGz);
    assert!(executable);
    let (_, name, format, executable) = install(ensure_node(false, "windows", "x86_64").unwrap());
    assert_eq!(name, "node-v22.14.0-win-x64.zip");
    assert_eq!(format, ArchiveKind::Zip);
    assert!(!executable);
    assert_eq!(ensure_node(false, "linux", "x86_64").err(), Some(SetupError::UnsupportedPlatform));
}

#[test]
fn ensure_chromedriver_plans_the_download() {
    assert!(matches!(
        ensure_chromedriver(true, None, "linux", "x86_64"),
        Ok(InstallPlan::AlreadyInstalled)
    ));
    let (url, name, format, executable) =
        install(ensure_chromedriver(false, Some("134.0.1"), "macos", "x86_64").unwrap());
    assert_eq!(
        url,
        "https://storage.googleapis.com/chrome-for-testing-public/134.0.1/mac-x64/chromedriver-mac-x64.zip"
    );
    assert_eq!(name, "chromedriver-mac-x64.zip");
    assert_eq!(format, ArchiveKind::Zip);
    assert!(executable);
    assert_eq!(
        ensure_chromedriver(false, None, "macos", "x86_64").err(),
        Some(SetupError::VersionUnavailable)
    );
    assert_eq!(
        ensure_chromedriver(false, Some("1"), "linux", "x86_64").err(),
        Some(SetupError::UnsupportedPlatform)
    );
}

#[test]
fn ensure_geckodriver_plans_the_download() {
    assert!(matches!(
        ensure_geckodriver(true, Some("v1"), "macos", "x86_64"),
        Ok(InstallPlan::AlreadyInstalled)
    ));
    let (url, name, format, executable) =
        install(ensure_geckodriver(false, Some("v0.36.0"), "windows", "x86_64").unwrap());
    assert_eq!(
        url,
        "https://github.com/mozilla/geckodriver/releases/download/v0.36.0/geckodriver-v0.36.0-win64.zip"
    );
    assert_eq!(name, "geckodriver-v0.36.0-win64.zip");
    assert_eq!(format, ArchiveKind::Zip);
    assert!(!executable);
    assert_eq!(
        ensure_geckodriver(false, None, "windows", "x86_64").err(),
        Some(SetupError::VersionUnavailable)
    );
    assert_eq!(
        ensure_geckodriver(false, Some("v1"), "linux", "x86_64").err(),
        Some(SetupError::UnsupportedPlatform)
    );
}

#[test]
fn a_plan_needs_a_known_archive() {
    assert_eq!(
        plan_install("https://example.org/tool.rar".to_string(), "macos").err(),
        Some(SetupError::UnsupportedArchive)
    );
    assert_eq!(SetupError::UnsupportedArchive.message(), "Unsupported archive format");
    assert_eq!(SetupError::UnsupportedPlatform.message(), "Unsupported platform");
    assert_eq!(SetupError::VersionUnavailable.message(), "Failed to fetch the latest version");
}

#[test]
fn the_vendor_tells_the_system() {
    assert_eq!(detect_device_os(Some(0x18D1)), DeviceOs::Android);
    assert_eq!(detect_device_os(Some(0x05AC)), DeviceOs::Ios);
    assert_eq!(detect_device_os(Some(0x1234)), DeviceOs::Unknown);
    assert_eq!(detect_device_os(None), DeviceOs::Unknown);
    assert_eq!(DeviceOs::Android.name(), "Android");
    assert_eq!(DeviceOs::Ios.name(), "iOS");
    assert_eq!(DeviceOs::Unknown.name(), "Unknown");
}

#[test]
fn the_density_goes_by_the_system() {
    let measured =
        get_physical_density(DeviceOs::Android, Some("Physical density: 420\n")).unwrap();
    assert_eq!(parts(&measured), (420, 160));
    assert_eq!(measured.to_physical(800), 2100);
    let fallback = get_physical_density(DeviceOs::Android, None).unwrap_err();
    assert_eq!(parts(&fallback), (480, 160));
    let fallback =
        get_physical_density(DeviceOs::Android, Some("Physical density: 0")).unwrap_err();
    assert_eq!(parts(&fallback), (480, 160));
    let apple = get_physical_density(DeviceOs::Ios, Some("Physical density: 7")).unwrap();
    assert_eq!(parts(&apple), (320, 160));
    assert_eq!(apple.to_physical(400), 800);
    let unknown =
        get_physical_density(DeviceOs::Unknown, Some("Physical density: 420")).unwrap_err();
    assert_eq!(parts(&unknown), (160, 160));
}

#[test]
fn the_identifier_is_trimmed() {
    assert_eq!(get_udid("00008030-001C\n").unwrap(), "00008030-001C");
    assert_eq!(get_udid("").err(), Some(DeviceError::NoUdid));
    assert_eq!(get_udid(" \n").err(), Some(DeviceError::NoUdid));
    assert_eq!(ios_version(" 17.4.1\n"), "17.4.1");
    assert_eq!(ios_version(""), "");
}

#[test]
fn detect_device_puts_the_probes_together() {
    let phone = detect_device(
        Some(0x05AC),
        None,
        Some("17.4".to_string()),
        Some("0000-1".to_string()),
    );
    assert_eq!(phone.os, DeviceOs::Ios);
    assert_eq!(parts(&phone.density.unwrap()), (320, 160));
    assert_eq!(phone.ios_version.as_deref(), Some("17.4"));
    assert_eq!(phone.udid.as_deref(), Some("0000-1"));
    assert_eq!(parts(&capture_density(&phone)), (320, 160));

    let droid = detect_device(
        Some(0x18D1),
        Some("Physical density: 480"),
        Some("x".to_string()),
        Some("y".to_string()),
    );
    assert_eq!(droid.os, DeviceOs::Android);
    assert_eq!(parts(&droid.density.unwrap()), (480, 160));
    assert_eq!(droid.ios_version, None);
    assert_eq!(droid.udid, None);

    let unread = detect_device(Some(0x18D1), None, None, None);
    assert!(unread.density.is_none());
    assert_eq!(parts(&capture_density(&unread)), (1, 1));

    let none = detect_device(None, Some("Physical density: 480"), None, None);
    assert_eq!(none.os, DeviceOs::Unknown);
    assert!(none.density.is_none());
}

#[test]
fn the_android_density_is_read_from_the_report() {
    let report = "Physical density: 420\nOverride density: 360\n";
    assert_eq!(parts(&get_android_density(Some(report)).unwrap()), (420, 160));
    let windows = "Physical density: 560\r\n";
    assert_eq!(parts(&get_android_density(Some(windows)).unwrap()), (560, 160));
    let later = "wm size\n  Physical density:   320  \nPhysical density: 1";
    assert_eq!(parts(&get_android_density(Some(later)).unwrap()), (320, 160));
    for unreadable in [
        "",
        "density: 420",
        "Physical density:",
        "Physical density: high",
        "Physical density: 420dpi",
        "Physical density: -420",
        "Physical density: 99999999999",
        "Physical density:\n420",
        "Physical density: 0",
    ] {
        let fallback = get_android_density(Some(unreadable)).unwrap_err();
        assert_eq!(parts(&fallback), (480, 160));
    }
    assert_eq!(parts(&get_android_density(None).unwrap_err()), (480, 160));
}

#[test]
fn numbers_are_read_after_a_marker() {
    assert_eq!(number_after("a: 12", "a:"), Some(12));
    assert_eq!(number_after("a: 12 13", "a:"), Some(13));
    assert_eq!(number_after("x a:7", "a:"), None);
    assert_eq!(number_after("x a:\t7", "a:"), Some(7));
    assert_eq!(number_after("a: 4294967295", "a:"), Some(4_294_967_295));
    assert_eq!(number_after("a: 4294967296", "a:"), None);
    assert_eq!(number_after("a: 0042", "a:"), Some(42));
    assert_eq!(number_after("a: 1\na: 2", "a:"), Some(1));
    assert_eq!(number_after("a: x\na: 2", "a:"), None);
    assert_eq!(number_after("b: 2", "a:"), None);
    assert_eq!(number_after("a: 12", ""), Some(12));
    assert_eq!(number_after("12", ""), Some(12));
    assert_eq!(find("abcabc", "bc"), Some(1));
    assert_eq!(find("abcabc", "abcabc"), Some(0));
    assert_eq!(find("abcabc", "cb"), None);
    assert_eq!(find("ab", "abc"), None);
    assert_eq!(find("", ""), Some(0));
    assert_eq!(find("éa", "a"), Some(1));
}

#[test]
fn the_download_is_named_by_the_address() {
    let (name, format) =
        download_and_extract("https://nodejs.org/dist/v22.14.0/node-v22.14.0-darwin-arm64.tar.gz")
            .unwrap();
    assert_eq!(name, "node-v22.14.0-darwin-arm64.tar.gz");
    assert_eq!(format, ArchiveKind::TarGz);
    let (name, format) = download_and_extract("https://example.org/a/b.zip").unwrap();
    assert_eq!(name, "b.zip");
    assert_eq!(format, ArchiveKind::Zip);
    assert_eq!(
        download_and_extract("https://example.org/a/b.gz").err(),
        Some(SetupError::UnsupportedArchive)
    );
    assert_eq!(download_and_extract("").err(), Some(SetupError::UnsupportedArchive));
}

#[test]
fn the_search_path_grows_at_the_front() {
    assert_eq!(add_to_path("/home/u/.fullpage-capture/bin", "/usr/bin:/bin"), "/home/u/.fullpage-capture/bin:/usr/bin:/bin");
    assert_eq!(add_to_path("/x", ""), "/x:");
}

fn entry(name: &str, is_dir: bool) -> DirEntry {
    DirEntry { name: name.to_string(), is_dir }
}

#[test]
fn the_node_directory_is_the_first_of_its_name() {
    let entries = vec![
        entry("node-readme.txt", false),
        entry("chromedriver", true),
        entry("node-v22.14.0-darwin-arm64", true),
        entry("node-v20", true),
    ];
    assert_eq!(rename_extracted_node(&entries), Some(2));
    assert_eq!(extract_tar_gz(&entries), Ok(Some(2)));
    let others = vec![entry("node", true), entry("nodes-", true)];
    assert_eq!(rename_extracted_node(&others), None);
    assert_eq!(extract_tar_gz(&others), Ok(None));
    let files = vec![entry("node-x", false)];
    assert_eq!(extract_tar_gz(&files), Err(SetupError::NothingExtracted));
    assert_eq!(extract_tar_gz(&vec![]), Err(SetupError::NothingExtracted));
    assert_eq!(rename_extracted_node(&vec![]), None);
}

#[test]
fn zip_entries_are_unpacked_flat() {
    let file = extract_zip("chromedriver-mac-arm64/chromedriver");
    assert_eq!(file.name, "chromedriver");
    assert!(!file.is_dir);
    let dir = extract_zip("chromedriver-mac-arm64/");
    assert_eq!(dir.name, "chromedriver-mac-arm64");
    assert!(dir.is_dir);
    let plain = extract_zip("LICENSE");
    assert_eq!(plain.name, "LICENSE");
    assert!(!plain.is_dir);
    assert_eq!(extract_zip("a/b/c/").name, "c");
    assert_eq!(extract_zip("foo/.").name, "foo");
    assert_eq!(extract_zip("foo/./").name, "foo");
    assert!(extract_zip("foo/./").is_dir);
    assert_eq!(extract_zip("a/..").name, "a/..");
    assert_eq!(extract_zip("/").name, "/");
    assert_eq!(extract_zip("").name, "");
}

#[test]
fn the_latest_versions_are_read_from_the_answers() {
    let chrome = "{\"timestamp\":\"x\",\"channels\":{\"Stable\":{\"channel\":\"Stable\",\"version\":\"134.0.6998.88\"},\"Beta\":{\"version\":\"135.0\"}}}";
    assert_eq!(get_latest_chromedriver_version(chrome).unwrap(), "134.0.6998.88");
    let gecko = "{\"url\": \"u\", \"tag_name\": \"v0.36.0\", \"id\": 5}";
    assert_eq!(get_latest_geckodriver_version(gecko).unwrap(), "v0.36.0");
    assert_eq!(
        get_latest_geckodriver_version(chrome).err(),
        Some(SetupError::VersionUnavailable)
    );
    assert_eq!(
        get_latest_chromedriver_version("{\"channels\":{\"Stable\":{\"version\":134}}}").err(),
        Some(SetupError::VersionUnavailable)
    );
    assert_eq!(
        get_latest_chromedriver_version("<html>busy</html>").err(),
        Some(SetupError::InvalidAnswer)
    );
    assert_eq!(get_latest_geckodriver_version("").err(), Some(SetupError::InvalidAnswer));
    assert_eq!(SetupError::InvalidAnswer.message(), "Failed to parse JSON");
    assert_eq!(
        SetupError::NothingExtracted.message(),
        "No directories found after extraction. Extraction might have failed."
    );
}

#[test]
fn texts_are_read_by_pointer() {
    let body = "{\"a\": {\"b\": [\"x\", \"y\"]}, \"c\": \"\", \"d\": null}";
    assert_eq!(read_text(body, "/a/b/1"), Ok("y".to_string()));
    assert_eq!(read_text(body, "/c"), Ok(String::new()));
    assert_eq!(read_text(body, "/d"), Err(JsonError::Missing));
    assert_eq!(read_text(body, "/a"), Err(JsonError::Missing));
    assert_eq!(read_text(body, "c"), Err(JsonError::Missing));
    assert_eq!(read_text("\"whole\"", ""), Ok("whole".to_string()));
    assert_eq!(read_text("{", "/a"), Err(JsonError::Syntax));
    assert_eq!(version_from(Ok("1.2".to_string())), Ok("1.2".to_string()));
    assert_eq!(version_from(Err(JsonError::Syntax)), Err(SetupError::InvalidAnswer));
    assert_eq!(version_from(Err(JsonError::Missing)), Err(SetupError::VersionUnavailable));
}

#[test]
fn the_server_is_started_once() {
    let mut state = AppiumState::new();
    assert!(!state.running());
    assert_eq!(
        state.start_appium(),
        Ok(vec![
            "exec".to_string(),
            "appium".to_string(),
            "--allow-insecure".to_string(),
            "--session-override".to_string()
        ])
    );
    assert!(!state.running());
    state.started();
    assert!(state.running());
    assert_eq!(state.start_appium(), Err(AppiumError::AlreadyRunning));
    assert!(state.stop_appium());
    assert!(!state.running());
    assert!(!state.stop_appium());
    assert!(state.start_appium().is_ok());
}

#[test]
fn the_server_is_installed_before_its_drivers() {
    assert!(ensure_appium(true).is_empty());
    let runs = ensure_appium(false);
    assert_eq!(runs.len(), 5);
    assert_eq!(runs[0], vec!["install", "appium@2.17.1"]);
    assert_eq!(runs[1], vec!["exec", "appium", "driver", "install", "uiautomator2@4.1.5"]);
    assert_eq!(runs[2], vec!["exec", "appium", "driver", "install", "gecko@1.4.3"]);
    assert_eq!(runs[3], vec!["exec", "appium", "driver", "install", "xcuitest@9.1.2"]);
    assert_eq!(runs[4], vec!["exec", "appium", "driver", "install", "safari@3.5.23"]);
}

#[test]
fn file_names_and_extensions_agree_with_std() {
    let paths = [
        "", ".", "..", "/", "//", "a", "a/", "a//", "a/.", "a/./", "a/./.", "a/..", "a/../",
        "./a", "./", "./.", "/.", "/a", "/a/b.zip", "x.zip/", "x.zip/.", "x.tar.gz", ".zip",
        "a/.zip", "a.", "a..", "a.b.", "...", "a/...", "..a", "a/.b.c", "a b/c d.gz", "é/ü.zip",
        "a/.b", ".a/", "a/./b", "a/.hidden/.", "zip", "a.zip.", "/..", "a/b/../c.zip",
    ];
    for path in paths {
        let std_path = std::path::Path::new(path);
        assert_eq!(file_name(path), std_path.file_name().and_then(|name| name.to_str()), "{:?}", path);
        let extension = std_path.extension().and_then(|extension| extension.to_str());
        let expected = match extension {
            Some("zip") => Ok(ArchiveKind::Zip),
            Some("gz") => Ok(ArchiveKind::TarGz),
            _ => Err(SetupError::UnsupportedArchive),
        };
        assert_eq!(extract(path), expected, "{:?}", path);
        let target = extract_zip(path);
        let flat = match std_path.file_name() {
            Some(name) => std::path::Path::new("").join(name),
            None => std::path::Path::new("").join(std_path),
        };
        assert_eq!(Some(target.name.as_str()), flat.to_str(), "{:?}", path);
    }
}
