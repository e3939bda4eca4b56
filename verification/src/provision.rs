use vstd::prelude::*;
use vstd::string::StringExecFns;
use crate::json::{document_text, json_document, read_text, JsonError};
use crate::text::{
    after_last, ends_with, last_index_of, lemma_last_index_of, spec_after_last, spec_ends_with,
    spec_last_index_of, spec_starts_with, starts_with, text_eq,
};

verus! {

/// The release of Node.js that is installed.
pub const NODE_VER: &'static str = "v22.14.0";

/// Why a tool cannot be installed.
#[derive(Clone, Copy, Debug, PartialEq, Eq, Structural)]
pub enum SetupError {
    /// No build of the tool exists for the host.
    UnsupportedPlatform,
    /// The archive is neither a zip file nor a gzipped tar file.
    UnsupportedArchive,
    /// The tool's latest version could not be learned.
    VersionUnavailable,
    /// Unpacking an archive left no directory behind.
    NothingExtracted,
    /// The answer of the release service is not JSON.
    InvalidAnswer,
}

/// The formats of archive that can be unpacked.
#[derive(Clone, Copy, Debug, PartialEq, Eq, Structural)]
pub enum ArchiveKind {
    Zip,
    TarGz,
}

/// What is to be done to have a tool installed.
#[derive(Debug)]
pub enum InstallPlan {
    /// The tool is there; nothing is to be done.
    AlreadyInstalled,
    /// Download `url` into a file named `archive_name`, unpack it as
    /// `format`, remove the file, and mark the tool executable where
    /// `make_executable` says so.
    Install { url: String, archive_name: String, format: ArchiveKind, make_executable: bool },
}

/// An install plan as plain values.
pub enum PlanView {
    AlreadyInstalled,
    Install { url: Seq<char>, archive_name: Seq<char>, format: ArchiveKind, make_executable: bool },
}

impl View for InstallPlan {
    type V = PlanView;

    open spec fn view(&self) -> PlanView {
        match self {
            InstallPlan::AlreadyInstalled => PlanView::AlreadyInstalled,
            InstallPlan::Install { url, archive_name, format, make_executable } => {
                PlanView::Install {
                    url: url@,
                    archive_name: archive_name@,
                    format: *format,
                    make_executable: *make_executable,
                }
            },
        }
    }
}

impl SetupError {
    /// The text shown to the user for this error.
    pub fn message(self) -> (text: String)
        ensures
            text@ == match self {
                SetupError::UnsupportedPlatform => "Unsupported platform"@,
                SetupError::UnsupportedArchive => "Unsupported archive format"@,
                SetupError::VersionUnavailable => "Failed to fetch the latest version"@,
                SetupError::NothingExtracted =>
                    "No directories found after extraction. Extraction might have failed."@,
                SetupError::InvalidAnswer => "Failed to parse JSON"@,
            },
    {
        match self {
            SetupError::UnsupportedPlatform => String::from_str("Unsupported platform"),
            SetupError::UnsupportedArchive => String::from_str("Unsupported archive format"),
            SetupError::VersionUnavailable => String::from_str(
                "Failed to fetch the latest version",
            ),
            SetupError::NothingExtracted => String::from_str(
                "No directories found after extraction. Extraction might have failed.",
            ),
            SetupError::InvalidAnswer => String::from_str("Failed to parse JSON"),
        }
    }
}

/// The names under which Node.js is published for a host: system,
/// processor and archive suffix.
pub open spec fn node_platform(os: Seq<char>, arch: Seq<char>) -> Option<
    (Seq<char>, Seq<char>, Seq<char>),
> {
    if os == "windows"@ && arch == "x86_64"@ {
        Some(("win"@, "x64"@, "zip"@))
    } else if os == "macos"@ && arch == "x86_64"@ {
        Some(("darwin"@, "x64"@, "tar.gz"@))
    } else if os == "macos"@ && arch == "aarch64"@ {
        Some(("darwin"@, "arm64"@, "tar.gz"@))
    } else {
        None
    }
}

/// The name under which ChromeDriver is published for a host.
pub open spec fn chromedriver_platform(os: Seq<char>, arch: Seq<char>) -> Option<Seq<char>> {
    if os == "windows"@ && arch == "x86"@ {
        Some("win32"@)
    } else if os == "windows"@ && arch == "x86_64"@ {
        Some("win64"@)
    } else if os == "macos"@ && arch == "x86_64"@ {
        Some("mac-x64"@)
    } else if os == "macos"@ && arch == "aarch64"@ {
        Some("mac-arm64"@)
    } else {
        None
    }
}

/// The names under which GeckoDriver is published for a host: platform and
/// archive suffix.
pub open spec fn geckodriver_platform(os: Seq<char>, arch: Seq<char>) -> Option<
    (Seq<char>, Seq<char>),
> {
    if os == "windows"@ && arch == "x86_64"@ {
        Some(("win64"@, "zip"@))
    } else if os == "macos"@ && arch == "x86_64"@ {
        Some(("macos"@, "tar.gz"@))
    } else if os == "macos"@ && arch == "aarch64"@ {
        Some(("macos-aarch64"@, "tar.gz"@))
    } else {
        None
    }
}

/// Where Node.js is downloaded from for a host.
pub open spec fn nodejs_url(os: Seq<char>, arch: Seq<char>) -> Option<Seq<char>> {
    match node_platform(os, arch) {
        Some((system, processor, suffix)) => Some(
            "https://nodejs.org/dist/"@ + NODE_VER@ + "/node-"@ + NODE_VER@ + "-"@ + system + "-"@
                + processor + "."@ + suffix,
        ),
        None => None,
    }
}

/// Where the given version of ChromeDriver is downloaded from for a host.
pub open spec fn chromedriver_url(version: Seq<char>, os: Seq<char>, arch: Seq<char>) -> Option<
    Seq<char>,
> {
    match chromedriver_platform(os, arch) {
        Some(platform) => Some(
            "https://storage.googleapis.com/chrome-for-testing-public/"@ + version + "/"@
                + platform + "/chromedriver-"@ + platform + ".zip"@,
        ),
        None => None,
    }
}

/// Where the given version of GeckoDriver is downloaded from for a host.
pub open spec fn geckodriver_url(version: Seq<char>, os: Seq<char>, arch: Seq<char>) -> Option<
    Seq<char>,
> {
    match geckodriver_platform(os, arch) {
        Some((platform, suffix)) => Some(
            "https://github.com/mozilla/geckodriver/releases/download/"@ + version
                + "/geckodriver-"@ + version + "-"@ + platform + "."@ + suffix,
        ),
        None => None,
    }
}

/// Whether a result holds the address, or the error, that is expected of it.
pub open spec fn url_is(result: Result<String, SetupError>, expected: Option<Seq<char>>) -> bool {
    match result {
        Ok(url) => expected == Some(url@),
        Err(error) => error == SetupError::UnsupportedPlatform && expected is None,
    }
}

/// The address of the Node.js archive for the host `os` on `arch`.
pub fn get_nodejs_url(os: &str, arch: &str) -> (result: Result<String, SetupError>)
    ensures
        url_is(result, nodejs_url(os@, arch@)),
{
    let windows = text_eq(os, "windows");
    let macos = text_eq(os, "macos");
    let intel = text_eq(arch, "x86_64");
    let arm = text_eq(arch, "aarch64");
    let (system, processor, suffix) = if windows && intel {
        ("win", "x64", "zip")
    } else if macos && intel {
        ("darwin", "x64", "tar.gz")
    } else if macos && arm {
        ("darwin", "arm64", "tar.gz")
    } else {
        return Err(SetupError::UnsupportedPlatform);
    };
    let mut url = String::from_str("https://nodejs.org/dist/");
    url.append(NODE_VER);
    url.append("/node-");
    url.append(NODE_VER);
    url.append("-");
    url.append(system);
    url.append("-");
    url.append(processor);
    url.append(".");
    url.append(suffix);
    Ok(url)
}

/// The address of the ChromeDriver archive of `latest_version` for the host
/// `os` on `arch`. There is no ChromeDriver for any other host than the four
/// that `chromedriver_platform` names.
pub fn get_chromedriver_url(latest_version: &str, os: &str, arch: &str) -> (url: String)
    requires
        chromedriver_platform(os@, arch@) is Some,
    ensures
        chromedriver_url(latest_version@, os@, arch@) == Some(url@),
{
    let windows = text_eq(os, "windows");
    let intel = text_eq(arch, "x86_64");
    let platform = if windows && text_eq(arch, "x86") {
        "win32"
    } else if windows && intel {
        "win64"
    } else if intel {
        "mac-x64"
    } else {
        "mac-arm64"
    };
    let mut url = String::from_str("https://storage.googleapis.com/chrome-for-testing-public/");
    url.append(latest_version);
    url.append("/");
    url.append(platform);
    url.append("/chromedriver-");
    url.append(platform);
    url.append(".zip");
    url
}

/// Whether there is a ChromeDriver for the host `os` on `arch`.
pub fn has_chromedriver(os: &str, arch: &str) -> (known: bool)
    ensures
        known == chromedriver_platform(os@, arch@) is Some,
{
    let windows = text_eq(os, "windows");
    let macos = text_eq(os, "macos");
    let intel = text_eq(arch, "x86_64");
    (windows && (text_eq(arch, "x86") || intel)) || (macos && (intel || text_eq(
        arch,
        "aarch64",
    )))
}

/// The address of the GeckoDriver archive of `latest_version` for the host
/// `os` on `arch`.
pub fn get_geckodriver_url(latest_version: &str, os: &str, arch: &str) -> (result: Result<
    String,
    SetupError,
>)
    ensures
        url_is(result, geckodriver_url(latest_version@, os@, arch@)),
{
    let windows = text_eq(os, "windows");
    let macos = text_eq(os, "macos");
    let intel = text_eq(arch, "x86_64");
    let arm = text_eq(arch, "aarch64");
    let (platform, suffix) = if windows && intel {
        ("win64", "zip")
    } else if macos && intel {
        ("macos", "tar.gz")
    } else if macos && arm {
        ("macos-aarch64", "tar.gz")
    } else {
        return Err(SetupError::UnsupportedPlatform);
    };
    let mut url = String::from_str("https://github.com/mozilla/geckodriver/releases/download/");
    url.append(latest_version);
    url.append("/geckodriver-");
    url.append(latest_version);
    url.append("-");
    url.append(platform);
    url.append(".");
    url.append(suffix);
    Ok(url)
}

/// A path without what adds nothing at its end: separators, and segments
/// that are a single dot.
pub open spec fn without_tail(path: Seq<char>) -> Seq<char>
    decreases path.len(),
{
    if path.len() > 0 && path.last() == '/' {
        without_tail(path.drop_last())
    } else if path.len() >= 2 && path.last() == '.' && path[path.len() - 2] == '/' {
        without_tail(path.drop_last())
    } else {
        path
    }
}

/// The file name of a path: its last segment, not counting separators and
/// single-dot segments at its end. There is none where nothing is left, or
/// where what is left is a single dot or ends in two dots.
pub open spec fn file_name_of(path: Seq<char>) -> Option<Seq<char>> {
    let last = spec_after_last(without_tail(path), '/');
    if last.len() == 0 || last == ".."@ || last == "."@ {
        None
    } else {
        Some(last)
    }
}

/// The extension of a path: what follows the last dot of its file name,
/// where that dot is not the name's first character.
pub open spec fn extension_of(path: Seq<char>) -> Option<Seq<char>> {
    match file_name_of(path) {
        Some(name) => match spec_last_index_of(name, '.') {
            Some(at) => if at > 0 {
                Some(name.subrange(at + 1, name.len() as int))
            } else {
                None
            },
            None => None,
        },
        None => None,
    }
}

/// Finds the file name of a path.
pub fn file_name<'a>(path: &'a str) -> (found: Option<&'a str>)
    ensures
        match found {
            Some(name) => file_name_of(path@) == Some(name@),
            None => file_name_of(path@) is None,
        },
{
    let len: usize = path.unicode_len();
    let mut end: usize = len;
    assert(path@.subrange(0, len as int) =~= path@);
    while end > 0 && (path.get_char(end - 1) == '/' || (end >= 2 && path.get_char(end - 1) == '.'
        && path.get_char(end - 2) == '/'))
        invariant
            0 <= end <= len,
            len == path@.len(),
            without_tail(path@) == without_tail(path@.subrange(0, end as int)),
        decreases end,
    {
        assert(path@.subrange(0, end as int).drop_last() =~= path@.subrange(0, end - 1));
        end -= 1;
    }
    assert(without_tail(path@) == path@.subrange(0, end as int));
    let last = after_last(path.substring_char(0, end), '/');
    if last.unicode_len() == 0 || text_eq(last, "..") || text_eq(last, ".") {
        None
    } else {
        Some(last)
    }
}

/// The format of an archive, told by its extension.
pub open spec fn archive_kind(path: Seq<char>) -> Result<ArchiveKind, SetupError> {
    if extension_of(path) == Some("zip"@) {
        Ok(ArchiveKind::Zip)
    } else if extension_of(path) == Some("gz"@) {
        Ok(ArchiveKind::TarGz)
    } else {
        Err(SetupError::UnsupportedArchive)
    }
}

/// Tells how the archive at `archive_path` is to be unpacked: a zip file by
/// the extension `zip`, a gzipped tar file by `gz`, nothing else.
pub fn extract(archive_path: &str) -> (result: Result<ArchiveKind, SetupError>)
    ensures
        result == archive_kind(archive_path@),
{
    let name = match file_name(archive_path) {
        Some(name) => name,
        None => {
            return Err(SetupError::UnsupportedArchive);
        },
    };
    let len: usize = name.unicode_len();
    proof {
        lemma_last_index_of(name@, '.');
    }
    match last_index_of(name, '.') {
        Some(at) => {
            if at == 0 {
                return Err(SetupError::UnsupportedArchive);
            }
            let extension = name.substring_char(at + 1, len);
            if text_eq(extension, "zip") {
                Ok(ArchiveKind::Zip)
            } else if text_eq(extension, "gz") {
                Ok(ArchiveKind::TarGz)
            } else {
                Err(SetupError::UnsupportedArchive)
            }
        },
        None => Err(SetupError::UnsupportedArchive),
    }
}

/// The plan to install a tool from `url` on the host `os`: the archive is
/// named by the last segment of `url` and unpacked by its extension, and the
/// tool is marked executable on every host but Windows.
pub open spec fn install_plan(url: Seq<char>, os: Seq<char>) -> Result<PlanView, SetupError> {
    match archive_kind(spec_after_last(url, '/')) {
        Ok(format) => Ok(
            PlanView::Install {
                url,
                archive_name: spec_after_last(url, '/'),
                format,
                make_executable: os != "windows"@,
            },
        ),
        Err(error) => Err(error),
    }
}

/// Whether a result holds the plan, or the error, that is expected of it.
pub open spec fn plan_is(
    result: Result<InstallPlan, SetupError>,
    expected: Result<PlanView, SetupError>,
) -> bool {
    match result {
        Ok(plan) => expected == Ok::<PlanView, SetupError>(plan@),
        Err(error) => expected == Err::<PlanView, SetupError>(error),
    }
}

/// Plans the installation of a tool from `url` on the host `os`.
pub fn plan_install(url: String, os: &str) -> (result: Result<InstallPlan, SetupError>)
    ensures
        plan_is(result, install_plan(url@, os@)),
{
    let name = after_last(url.as_str(), '/');
    match extract(name) {
        Ok(format) => {
            let archive_name = String::from_str(name);
            let make_executable = !text_eq(os, "windows");
            Ok(InstallPlan::Install { url, archive_name, format, make_executable })
        },
        Err(error) => Err(error),
    }
}

/// What is to be done to have Node.js: nothing where it is installed, else
/// the plan for the host's archive.
pub open spec fn node_plan(installed: bool, os: Seq<char>, arch: Seq<char>) -> Result<
    PlanView,
    SetupError,
> {
    if installed {
        Ok(PlanView::AlreadyInstalled)
    } else {
        match nodejs_url(os, arch) {
            Some(url) => install_plan(url, os),
            None => Err(SetupError::UnsupportedPlatform),
        }
    }
}

/// Says what is to be done to have Node.js on the host `os` on `arch`,
/// given whether it is installed already.
pub fn ensure_node(installed: bool, os: &str, arch: &str) -> (result: Result<
    InstallPlan,
    SetupError,
>)
    ensures
        plan_is(result, node_plan(installed, os@, arch@)),
{
    if installed {
        return Ok(InstallPlan::AlreadyInstalled);
    }
    match get_nodejs_url(os, arch) {
        Ok(url) => plan_install(url, os),
        Err(error) => Err(error),
    }
}

/// What is to be done to have ChromeDriver: nothing where it is installed;
/// else the plan for the host's archive of the latest version, which has to
/// be known.
pub open spec fn chromedriver_plan(
    installed: bool,
    latest_version: Option<Seq<char>>,
    os: Seq<char>,
    arch: Seq<char>,
) -> Result<PlanView, SetupError> {
    if installed {
        Ok(PlanView::AlreadyInstalled)
    } else {
        match latest_version {
            Some(version) => match chromedriver_url(version, os, arch) {
                Some(url) => install_plan(url, os),
                None => Err(SetupError::UnsupportedPlatform),
            },
            None => Err(SetupError::VersionUnavailable),
        }
    }
}

/// Says what is to be done to have ChromeDriver on the host `os` on `arch`,
/// given whether it is installed already and, if not, its latest version.
pub fn ensure_chromedriver(
    installed: bool,
    latest_version: Option<&str>,
    os: &str,
    arch: &str,
) -> (result: Result<InstallPlan, SetupError>)
    ensures
        plan_is(
            result,
            chromedriver_plan(
                installed,
                match latest_version {
                    Some(version) => Some(version@),
                    None => None,
                },
                os@,
                arch@,
            ),
        ),
{
    if installed {
        return Ok(InstallPlan::AlreadyInstalled);
    }
    match latest_version {
        Some(version) => {
            if has_chromedriver(os, arch) {
                plan_install(get_chromedriver_url(version, os, arch), os)
            } else {
                Err(SetupError::UnsupportedPlatform)
            }
        },
        None => Err(SetupError::VersionUnavailable),
    }
}

/// What is to be done to have GeckoDriver: nothing where it is installed;
/// else the plan for the host's archive of the latest version, which has to
/// be known.
pub open spec fn geckodriver_plan(
    installed: bool,
    latest_version: Option<Seq<char>>,
    os: Seq<char>,
    arch: Seq<char>,
) -> Result<PlanView, SetupError> {
    if installed {
        Ok(PlanView::AlreadyInstalled)
    } else {
        match latest_version {
            Some(version) => match geckodriver_url(version, os, arch) {
                Some(url) => install_plan(url, os),
                None => Err(SetupError::UnsupportedPlatform),
            },
            None => Err(SetupError::VersionUnavailable),
        }
    }
}

/// Says what is to be done to have GeckoDriver on the host `os` on `arch`,
/// given whether it is installed already and, if not, its latest version.
pub fn ensure_geckodriver(
    installed: bool,
    latest_version: Option<&str>,
    os: &str,
    arch: &str,
) -> (result: Result<InstallPlan, SetupError>)
    ensures
        plan_is(
            result,
            geckodriver_plan(
                installed,
                match latest_version {
                    Some(version) => Some(version@),
                    None => None,
                },
                os@,
                arch@,
            ),
        ),
{
    if installed {
        return Ok(InstallPlan::AlreadyInstalled);
    }
    match latest_version {
        Some(version) => match get_geckodriver_url(version, os, arch) {
            Ok(url) => plan_install(url, os),
            Err(error) => Err(error),
        },
        None => Err(SetupError::VersionUnavailable),
    }
}

/// The format of the archive behind an address, told by the address's end.
pub open spec fn download_kind(url: Seq<char>) -> Result<ArchiveKind, SetupError> {
    if spec_ends_with(url, ".zip"@) {
        Ok(ArchiveKind::Zip)
    } else if spec_ends_with(url, ".tar.gz"@) {
        Ok(ArchiveKind::TarGz)
    } else {
        Err(SetupError::UnsupportedArchive)
    }
}

/// Says under which name the archive behind `url` is stored, and how it is
/// unpacked once it is there: the name is the last segment of `url`, the
/// format goes by the end of `url`.
pub fn download_and_extract(url: &str) -> (result: Result<(String, ArchiveKind), SetupError>)
    ensures
        match result {
            Ok((name, format)) => name@ == spec_after_last(url@, '/') && download_kind(url@) == Ok::<
                ArchiveKind,
                SetupError,
            >(format),
            Err(error) => download_kind(url@) == Err::<ArchiveKind, SetupError>(error),
        },
{
    let format = if ends_with(url, ".zip") {
        ArchiveKind::Zip
    } else if ends_with(url, ".tar.gz") {
        ArchiveKind::TarGz
    } else {
        return Err(SetupError::UnsupportedArchive);
    };
    Ok((String::from_str(after_last(url, '/')), format))
}

/// The search path with the directory `dir` put first.
pub fn add_to_path(dir: &str, old_path: &str) -> (new_path: String)
    ensures
        new_path@ == dir@ + ":"@ + old_path@,
{
    let mut new_path = String::from_str(dir);
    new_path.append(":");
    new_path.append(old_path);
    new_path
}

/// What was found in a directory: an entry's name, and whether it is a
/// directory itself.
#[derive(Debug)]
pub struct DirEntry {
    pub name: String,
    pub is_dir: bool,
}

/// Whether an entry is the directory that a Node.js archive unpacks to.
pub open spec fn is_node_dir(entry: DirEntry) -> bool {
    entry.is_dir && spec_starts_with(entry.name@, "node-"@)
}

/// Picks the directory that is to be renamed to `node`: the first entry that
/// is a directory and whose name begins with `node-`.
pub fn rename_extracted_node(entries: &Vec<DirEntry>) -> (found: Option<usize>)
    ensures
        match found {
            Some(at) => {
                &&& at < entries@.len()
                &&& is_node_dir(entries@[at as int])
                &&& forall|k: int| 0 <= k < at ==> !is_node_dir(#[trigger] entries@[k])
            },
            None => forall|k: int| 0 <= k < entries@.len() ==> !is_node_dir(#[trigger] entries@[k]),
        },
{
    let mut i: usize = 0;
    while i < entries.len()
        invariant
            0 <= i <= entries@.len(),
            forall|k: int| 0 <= k < i ==> !is_node_dir(#[trigger] entries@[k]),
        decreases entries@.len() - i,
    {
        if entries[i].is_dir && starts_with(entries[i].name.as_str(), "node-") {
            return Some(i);
        }
        i += 1;
    }
    None
}

/// Whether any entry is a directory.
pub open spec fn has_directory(entries: Seq<DirEntry>) -> bool {
    exists|k: int| 0 <= k < entries.len() && (#[trigger] entries[k]).is_dir
}

/// Looks at what unpacking a gzipped tar file left in the target directory.
/// Without any directory the unpacking counts as failed; else the result is
/// the entry to rename to `node`, if there is one.
pub fn extract_tar_gz(entries: &Vec<DirEntry>) -> (result: Result<Option<usize>, SetupError>)
    ensures
        result is Ok <==> has_directory(entries@),
        result matches Err(error) ==> error == SetupError::NothingExtracted,
        result matches Ok(found) ==> match found {
            Some(at) => {
                &&& at < entries@.len()
                &&& is_node_dir(entries@[at as int])
                &&& forall|k: int| 0 <= k < at ==> !is_node_dir(#[trigger] entries@[k])
            },
            None => forall|k: int| 0 <= k < entries@.len() ==> !is_node_dir(#[trigger] entries@[k]),
        },
{
    let mut i: usize = 0;
    let mut any = false;
    while i < entries.len() && !any
        invariant
            0 <= i <= entries@.len(),
            any ==> has_directory(entries@),
            !any ==> forall|k: int| 0 <= k < i ==> !(#[trigger] entries@[k]).is_dir,
        decreases entries@.len() - i + (if any { 0int } else { 1int }),
    {
        if entries[i].is_dir {
            any = true;
        } else {
            i += 1;
        }
    }
    if any {
        Ok(rename_extracted_node(entries))
    } else {
        Err(SetupError::NothingExtracted)
    }
}

/// Where an entry of a zip file is unpacked to, within the target directory.
#[derive(Debug)]
pub struct ZipTarget {
    /// The name to unpack to.
    pub name: String,
    /// Whether the entry is a directory to create, not a file to write.
    pub is_dir: bool,
}

/// The name that an entry of a zip file is unpacked to: its file name,
/// whatever directories the archive puts it under. An entry without a file
/// name keeps its whole name.
pub open spec fn zip_target_name(entry_name: Seq<char>) -> Seq<char> {
    match file_name_of(entry_name) {
        Some(name) => name,
        None => entry_name,
    }
}

/// Says where an entry of a zip file goes: entries are unpacked flat, by
/// their file name, and an entry whose name ends in a slash is a directory.
pub fn extract_zip(entry_name: &str) -> (target: ZipTarget)
    ensures
        target.name@ == zip_target_name(entry_name@),
        target.is_dir == spec_ends_with(entry_name@, "/"@),
{
    let name = match file_name(entry_name) {
        Some(name) => String::from_str(name),
        None => String::from_str(entry_name),
    };
    ZipTarget { name, is_dir: ends_with(entry_name, "/") }
}

/// Where the release service of ChromeDriver names the latest stable
/// version in its answer.
pub const CHROMEDRIVER_VERSION_AT: &'static str = "/channels/Stable/version";

/// Where the release service of GeckoDriver names the latest version in its
/// answer.
pub const GECKODRIVER_VERSION_AT: &'static str = "/tag_name";

/// The version that a release service's answer names at a given place: the
/// string there, an error where the answer is no JSON or holds no string
/// there.
pub open spec fn version_named(found: Result<Seq<char>, JsonError>) -> Result<
    Seq<char>,
    SetupError,
> {
    match found {
        Ok(version) => Ok(version),
        Err(JsonError::Syntax) => Err(SetupError::InvalidAnswer),
        Err(JsonError::Missing) => Err(SetupError::VersionUnavailable),
    }
}

/// Whether a result holds the version, or the error, that is expected of it.
pub open spec fn version_is(
    result: Result<String, SetupError>,
    expected: Result<Seq<char>, SetupError>,
) -> bool {
    match result {
        Ok(version) => expected == Ok::<Seq<char>, SetupError>(version@),
        Err(error) => expected == Err::<Seq<char>, SetupError>(error),
    }
}

/// Says what a text read from a release service's answer means: the version,
/// or why there is none.
pub fn version_from(found: Result<String, JsonError>) -> (result: Result<String, SetupError>)
    ensures
        match (found, result) {
            (Ok(text), Ok(version)) => version == text,
            (Err(JsonError::Syntax), Err(error)) => error == SetupError::InvalidAnswer,
            (Err(JsonError::Missing), Err(error)) => error == SetupError::VersionUnavailable,
            _ => false,
        },
{
    match found {
        Ok(version) => Ok(version),
        Err(JsonError::Syntax) => Err(SetupError::InvalidAnswer),
        Err(JsonError::Missing) => Err(SetupError::VersionUnavailable),
    }
}

/// Reads the latest stable version of ChromeDriver from the answer of its
/// release service.
pub fn get_latest_chromedriver_version(answer: &str) -> (result: Result<String, SetupError>)
    ensures
        version_is(
            result,
            version_named(document_text(json_document(answer@), CHROMEDRIVER_VERSION_AT@)),
        ),
{
    version_from(read_text(answer, CHROMEDRIVER_VERSION_AT))
}

/// Reads the latest version of GeckoDriver from the answer of its release
/// service.
pub fn get_latest_geckodriver_version(answer: &str) -> (result: Result<String, SetupError>)
    ensures
        version_is(
            result,
            version_named(document_text(json_document(answer@), GECKODRIVER_VERSION_AT@)),
        ),
{
    version_from(read_text(answer, GECKODRIVER_VERSION_AT))
}

} // verus!
