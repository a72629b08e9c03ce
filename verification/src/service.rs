//! The unit file under which a service manager runs the broker.

use crate::paths::{config_dir, home_dir, join_path};
use vstd::prelude::*;
use vstd::string::StringExecFns;

verus! {

/// The unit file up to the path of the binary.
pub open spec fn service_file_head() -> Seq<char> {
    "[Unit]\nDescription=Androidoscopy Server\nAfter=network.target\n\n[Service]\nType=simple\nExecStart="@
}

/// The unit file after the path of the binary.
pub open spec fn service_file_tail() -> Seq<char> {
    " run\nRestart=on-failure\nRestartSec=5\n\n[Install]\nWantedBy=default.target\n"@
}

/// The unit file that starts the binary at `binary_path` with `run`.
pub fn generate_service_file(binary_path: &str) -> (unit: String)
    ensures
        unit@ == service_file_head() + binary_path@ + service_file_tail(),
{
    let mut unit = String::from_str(
        "[Unit]\nDescription=Androidoscopy Server\nAfter=network.target\n\n[Service]\nType=simple\nExecStart=",
    );
    unit.append(binary_path);
    unit.append(" run\nRestart=on-failure\nRestartSec=5\n\n[Install]\nWantedBy=default.target\n");
    unit
}

/// Why the service could not be installed.
#[derive(Debug, Clone, Copy, PartialEq, Eq, Structural)]
pub enum ServiceError {
    NoHomeDirectory,
    NoConfigDirectory,
    ReloadFailed,
}

impl ServiceError {
    /// Renders the error for the user.
    pub fn message(&self) -> (rendered: String)
        ensures
            *self == ServiceError::NoHomeDirectory ==> rendered@ == "Could not find home directory"@,
            *self == ServiceError::NoConfigDirectory ==> rendered@
                == "Could not find config directory"@,
            *self == ServiceError::ReloadFailed ==> rendered@ == "Failed to reload systemd"@,
    {
        match self {
            ServiceError::NoHomeDirectory => "Could not find home directory".to_owned(),
            ServiceError::NoConfigDirectory => "Could not find config directory".to_owned(),
            ServiceError::ReloadFailed => "Failed to reload systemd".to_owned(),
        }
    }
}

/// The directory for the user's binaries, given the home directory:
/// `.local/bin` under it.
pub fn bin_dir_under(home: Option<String>) -> (dir: Result<String, ServiceError>)
    ensures
        home is Some <==> dir is Ok,
        dir matches Err(error) ==> error == ServiceError::NoHomeDirectory,
{
    match home {
        Some(home) => {
            let local = join_path(home.as_str(), ".local");
            Ok(join_path(local.as_str(), "bin"))
        },
        None => Err(ServiceError::NoHomeDirectory),
    }
}

/// The directory for the user's units, given the configuration directory:
/// `systemd/user` under it.
pub fn service_dir_under(config: Option<String>) -> (dir: Result<String, ServiceError>)
    ensures
        config is Some <==> dir is Ok,
        dir matches Err(error) ==> error == ServiceError::NoConfigDirectory,
{
    match config {
        Some(config) => {
            let systemd = join_path(config.as_str(), "systemd");
            Ok(join_path(systemd.as_str(), "user"))
        },
        None => Err(ServiceError::NoConfigDirectory),
    }
}

/// The directory the binary is installed to.
pub fn get_bin_dir() -> (dir: Result<String, ServiceError>)
    ensures
        dir matches Err(error) ==> error == ServiceError::NoHomeDirectory,
{
    bin_dir_under(home_dir())
}

/// The directory the unit file is installed to.
pub fn get_service_dir() -> (dir: Result<String, ServiceError>)
    ensures
        dir matches Err(error) ==> error == ServiceError::NoConfigDirectory,
{
    service_dir_under(config_dir())
}

/// Where the binary goes, below the directory for binaries.
pub fn installed_binary_path(bin_dir: &str) -> String {
    join_path(bin_dir, "androidoscopy-server")
}

/// Where the unit file goes, below the directory for units.
pub fn service_file_path(service_dir: &str) -> String {
    join_path(service_dir, "androidoscopy.service")
}

/// What a reload of the service manager comes to.
pub fn reload_outcome(succeeded: bool) -> (outcome: Result<(), ServiceError>)
    ensures
        outcome == if succeeded {
            Ok::<(), ServiceError>(())
        } else {
            Err::<(), ServiceError>(ServiceError::ReloadFailed)
        },
{
    if succeeded {
        Ok(())
    } else {
        Err(ServiceError::ReloadFailed)
    }
}

/// The exit code that reports the service manager's: its own, or 1 where it
/// gave none.
pub fn status_exit_code(code: Option<i32>) -> (exit: i32)
    ensures
        exit == match code {
            Some(code) => code,
            None => 1,
        },
{
    match code {
        Some(code) => code,
        None => 1,
    }
}

} // verus!
