use vstd::prelude::*;
use vstd::string::StringExecFns;

verus! {

/// The version of the automation server that is installed.
pub const APPIUM_PACKAGE: &'static str = "appium@2.17.1";

/// Why the automation server cannot be started.
#[derive(Clone, Copy, Debug, PartialEq, Eq, Structural)]
pub enum AppiumError {
    /// The server runs already.
    AlreadyRunning,
}

/// Whether the automation server's process is held.
#[derive(Debug)]
pub struct AppiumState {
    running: bool,
}

/// The arguments with which the package manager starts the server.
pub open spec fn start_arguments() -> Seq<Seq<char>> {
    seq!["exec"@, "appium"@, "--allow-insecure"@, "--session-override"@]
}

/// The arguments with which the package manager installs a driver of the
/// server.
pub open spec fn driver_arguments(driver: Seq<char>) -> Seq<Seq<char>> {
    seq!["exec"@, "appium"@, "driver"@, "install"@, driver]
}

/// The drivers of the server that are installed, in the order in which they
/// are.
pub open spec fn driver_list() -> Seq<Seq<char>> {
    seq!["uiautomator2@4.1.5"@, "gecko@1.4.3"@, "xcuitest@9.1.2"@, "safari@3.5.23"@]
}

/// The runs of the package manager that install the server and its drivers:
/// none where the server is installed, else the server first and each driver
/// after it.
pub open spec fn install_runs(installed: bool) -> Seq<Seq<Seq<char>>> {
    if installed {
        Seq::empty()
    } else {
        seq![
            seq!["install"@, APPIUM_PACKAGE@],
            driver_arguments(driver_list()[0]),
            driver_arguments(driver_list()[1]),
            driver_arguments(driver_list()[2]),
            driver_arguments(driver_list()[3]),
        ]
    }
}

/// The texts of a list of arguments.
pub open spec fn arguments_view(arguments: Seq<String>) -> Seq<Seq<char>> {
    Seq::new(arguments.len(), |i: int| arguments[i]@)
}

/// The texts of a list of runs.
pub open spec fn runs_view(runs: Seq<Vec<String>>) -> Seq<Seq<Seq<char>>> {
    Seq::new(runs.len(), |i: int| arguments_view(runs[i]@))
}

fn driver_run(driver: &str) -> (arguments: Vec<String>)
    ensures
        arguments_view(arguments@) == driver_arguments(driver@),
{
    let mut arguments: Vec<String> = Vec::new();
    arguments.push(String::from_str("exec"));
    arguments.push(String::from_str("appium"));
    arguments.push(String::from_str("driver"));
    arguments.push(String::from_str("install"));
    arguments.push(String::from_str(driver));
    assert(arguments_view(arguments@) =~= driver_arguments(driver@));
    arguments
}

/// Says which runs of the package manager install the automation server and
/// its drivers, given whether the server is installed already. The runs are
/// made in their order, and the first that fails ends the installation.
pub fn ensure_appium(installed: bool) -> (runs: Vec<Vec<String>>)
    ensures
        runs_view(runs@) == install_runs(installed),
{
    let mut runs: Vec<Vec<String>> = Vec::new();
    if installed {
        assert(runs_view(runs@) =~= install_runs(installed));
        return runs;
    }
    let mut server: Vec<String> = Vec::new();
    server.push(String::from_str("install"));
    server.push(String::from_str(APPIUM_PACKAGE));
    assert(arguments_view(server@) =~= seq!["install"@, APPIUM_PACKAGE@]);
    runs.push(server);
    runs.push(driver_run("uiautomator2@4.1.5"));
    runs.push(driver_run("gecko@1.4.3"));
    runs.push(driver_run("xcuitest@9.1.2"));
    runs.push(driver_run("safari@3.5.23"));
    assert(runs_view(runs@) =~= install_runs(installed));
    runs
}

impl AppiumState {
    pub closed spec fn is_running(&self) -> bool {
        self.running
    }

    /// The state in which no server runs.
    pub fn new() -> (state: AppiumState)
        ensures
            !state.is_running(),
    {
        AppiumState { running: false }
    }

    pub fn running(&self) -> (running: bool)
        ensures
            running == self.is_running(),
    {
        self.running
    }

    /// Says how to start the server: with which arguments to run the package
    /// manager. A server that runs is not started again.
    pub fn start_appium(&self) -> (result: Result<Vec<String>, AppiumError>)
        ensures
            match result {
                Ok(arguments) => !self.is_running() && arguments_view(arguments@)
                    == start_arguments(),
                Err(error) => self.is_running() && error == AppiumError::AlreadyRunning,
            },
    {
        if self.running {
            return Err(AppiumError::AlreadyRunning);
        }
        let mut arguments: Vec<String> = Vec::new();
        arguments.push(String::from_str("exec"));
        arguments.push(String::from_str("appium"));
        arguments.push(String::from_str("--allow-insecure"));
        arguments.push(String::from_str("--session-override"));
        assert(arguments_view(arguments@) =~= start_arguments());
        Ok(arguments)
    }

    /// Records that the server's process was started.
    pub fn started(&mut self)
        ensures
            final(self).is_running(),
    {
        self.running = true;
    }

    /// Lets go of the server's process, and says whether there is one to
    /// end. Whether ending it goes well or not, the state holds it no more.
    pub fn stop_appium(&mut self) -> (end_process: bool)
        ensures
            end_process == old(self).is_running(),
            !final(self).is_running(),
    {
        let end_process = self.running;
        self.running = false;
        end_process
    }
}

} // verus!
