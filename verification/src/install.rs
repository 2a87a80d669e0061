//! Installing the sidecar binary into the user's home directory: the
//! decision sequence behind one installation attempt.  The surrounding
//! I/O — probing files, writing the script, running it — reports each
//! step's outcome and is told how to go on.

use vstd::prelude::*;
use vstd::string::StringExecFns;

use crate::paths::cli_install_path;
use crate::paths::spec_cli_install_path;

verus! {

/// The steps of an installation, in the order their observations
/// arrive.
#[derive(Clone, Copy, Debug, PartialEq, Eq, Structural)]
pub enum InstallPhase {
    /// Does this platform support installation (a Unix system)?
    Platform,
    /// Does the sidecar binary exist beside the running one?
    Sidecar,
    /// Writing the install script to the temporary directory.
    Script,
    /// Marking the script executable.
    Permissions,
    /// Running the script.
    Run,
    /// Locating the home directory for the final install path.
    Home,
    /// The attempt is decided.
    Done,
}

/// What running the install script gave.
#[derive(Clone, Debug, PartialEq)]
pub enum RunObs {
    /// It could not be launched; the failure's description.
    LaunchFailed(String),
    /// It ran and exited unsuccessfully; what it printed on stderr.
    Unsuccessful(String),
    /// It ran and succeeded.
    Success,
}

/// The observation for the current phase.  `Script` and `Permissions`
/// carry the failure's description, if the step failed.
#[derive(Clone, Debug, PartialEq)]
pub enum InstallObs {
    Platform(bool),
    Sidecar(bool),
    Script(Option<String>),
    Permissions(Option<String>),
    Run(RunObs),
    Home(Option<String>),
}

/// What the caller is told after each observation.
#[derive(Clone, Debug, PartialEq)]
pub enum InstallStep {
    /// Observe the next phase.
    Continue,
    /// The attempt failed with this message.
    Fail(String),
    /// The attempt succeeded; the path the binary was installed to.
    Finish(String),
}

/// An observation fits exactly one phase.
pub open spec fn install_phase_matches(phase: InstallPhase, obs: InstallObs) -> bool {
    match obs {
        InstallObs::Platform(_) => phase is Platform,
        InstallObs::Sidecar(_) => phase is Sidecar,
        InstallObs::Script(_) => phase is Script,
        InstallObs::Permissions(_) => phase is Permissions,
        InstallObs::Run(_) => phase is Run,
        InstallObs::Home(_) => phase is Home,
    }
}

/// The decision sequence of one installation attempt.
pub struct InstallFlow {
    pub phase: InstallPhase,
}

impl InstallFlow {
    pub fn new() -> (f: Self)
        ensures
            f.phase is Platform,
    {
        InstallFlow { phase: InstallPhase::Platform }
    }

    /// Advances the attempt by one observation.  Every failure decides
    /// the attempt with its message; only a full pass through all
    /// phases finishes with the install path.
    pub fn advance(&mut self, obs: InstallObs) -> (r: InstallStep)
        requires
            install_phase_matches(old(self).phase, obs),
        ensures
            obs matches InstallObs::Platform(unix) ==> {
                &&& unix ==> r == InstallStep::Continue && final(self).phase is Sidecar
                &&& !unix ==> (r matches InstallStep::Fail(m) && m@
                    == "CLI installation is only supported on macOS & Linux"@) && final(self).phase is Done
            },
            obs matches InstallObs::Sidecar(exists) ==> {
                &&& exists ==> r == InstallStep::Continue && final(self).phase is Script
                &&& !exists ==> (r matches InstallStep::Fail(m) && m@ == "Sidecar binary not found"@)
                    && final(self).phase is Done
            },
            obs matches InstallObs::Script(w) ==> match w {
                Some(e) => (r matches InstallStep::Fail(m) && m@
                    == "Failed to write install script: "@ + e@) && final(self).phase is Done,
                None => r == InstallStep::Continue && final(self).phase is Permissions,
            },
            obs matches InstallObs::Permissions(w) ==> match w {
                Some(e) => (r matches InstallStep::Fail(m) && m@
                    == "Failed to set script permissions: "@ + e@) && final(self).phase is Done,
                None => r == InstallStep::Continue && final(self).phase is Run,
            },
            obs matches InstallObs::Run(ro) ==> final(self).phase == (if ro is Success {
                InstallPhase::Home
            } else {
                InstallPhase::Done
            }) && match ro {
                RunObs::LaunchFailed(e) => r matches InstallStep::Fail(m) && m@
                    == "Failed to run install script: "@ + e@,
                RunObs::Unsuccessful(stderr) => r matches InstallStep::Fail(m) && m@
                    == "Install script failed: "@ + stderr@,
                RunObs::Success => r == InstallStep::Continue,
            },
            obs matches InstallObs::Home(h) ==> final(self).phase is Done && match h {
                Some(home) => r matches InstallStep::Finish(p) && p@ == spec_cli_install_path(
                    home@,
                ),
                None => r matches InstallStep::Fail(m) && m@ == "Could not determine install path"@,
            },
    {
        match obs {
            InstallObs::Platform(unix) => {
                if unix {
                    self.phase = InstallPhase::Sidecar;
                    InstallStep::Continue
                } else {
                    self.phase = InstallPhase::Done;
                    InstallStep::Fail(
                        String::from_str("CLI installation is only supported on macOS & Linux"),
                    )
                }
            },
            InstallObs::Sidecar(exists) => {
                if exists {
                    self.phase = InstallPhase::Script;
                    InstallStep::Continue
                } else {
                    self.phase = InstallPhase::Done;
                    InstallStep::Fail(String::from_str("Sidecar binary not found"))
                }
            },
            InstallObs::Script(w) => {
                match w {
                    Some(e) => {
                        self.phase = InstallPhase::Done;
                        let mut m = String::from_str("Failed to write install script: ");
                        m.append(e.as_str());
                        InstallStep::Fail(m)
                    },
                    None => {
                        self.phase = InstallPhase::Permissions;
                        InstallStep::Continue
                    },
                }
            },
            InstallObs::Permissions(w) => {
                match w {
                    Some(e) => {
                        self.phase = InstallPhase::Done;
                        let mut m = String::from_str("Failed to set script permissions: ");
                        m.append(e.as_str());
                        InstallStep::Fail(m)
                    },
                    None => {
                        self.phase = InstallPhase::Run;
                        InstallStep::Continue
                    },
                }
            },
            InstallObs::Run(ro) => {
                match ro {
                    RunObs::LaunchFailed(e) => {
                        self.phase = InstallPhase::Done;
                        let mut m = String::from_str("Failed to run install script: ");
                        m.append(e.as_str());
                        InstallStep::Fail(m)
                    },
                    RunObs::Unsuccessful(stderr) => {
                        self.phase = InstallPhase::Done;
                        let mut m = String::from_str("Install script failed: ");
                        m.append(stderr.as_str());
                        InstallStep::Fail(m)
                    },
                    RunObs::Success => {
                        self.phase = InstallPhase::Home;
                        InstallStep::Continue
                    },
                }
            },
            InstallObs::Home(h) => {
                self.phase = InstallPhase::Done;
                match h {
                    Some(home) => InstallStep::Finish(cli_install_path(home.as_str())),
                    None => InstallStep::Fail(String::from_str("Could not determine install path")),
                }
            },
        }
    }
}

} // verus!
