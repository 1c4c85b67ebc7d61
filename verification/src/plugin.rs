//! The plugin scaffold's data model and its safety rules. The scaffold
//! has no wired execution path; only its plain types and checks live
//! here, the registry of trait objects stays with the host program.

use vstd::prelude::*;
use crate::text;

verus! {

/// Why a plugin was rejected or failed.
#[derive(Debug, Clone)]
pub enum PluginError {
    LoadFailed(String),
    InvalidConfig(String),
    RuntimeError(String),
    PermissionDenied(String),
}

impl PluginError {
    /// A human-readable description of the failure.
    pub fn message(&self) -> (r: String)
        ensures
            self matches PluginError::LoadFailed(m) ==> r@ == "Plugin load failed: "@ + m@,
            self matches PluginError::InvalidConfig(m) ==> r@ == "Invalid configuration: "@ + m@,
            self matches PluginError::RuntimeError(m) ==> r@ == "Runtime error: "@ + m@,
            self matches PluginError::PermissionDenied(m) ==> r@ == "Permission denied: "@ + m@,
    {
        match self {
            PluginError::LoadFailed(m) => {
                let head: String = "Plugin load failed: ".to_owned();
                head.concat(m.as_str())
            },
            PluginError::InvalidConfig(m) => {
                let head: String = "Invalid configuration: ".to_owned();
                head.concat(m.as_str())
            },
            PluginError::RuntimeError(m) => {
                let head: String = "Runtime error: ".to_owned();
                head.concat(m.as_str())
            },
            PluginError::PermissionDenied(m) => {
                let head: String = "Permission denied: ".to_owned();
                head.concat(m.as_str())
            },
        }
    }
}

/// What a plugin extends.
#[derive(Debug, Clone, Copy, PartialEq, Eq, Structural)]
pub enum PluginType {
    Widget,
    DataProcessor,
    MonitoringSource,
    Exporter,
    Theme,
}

/// A capability a plugin may request.
#[derive(Debug, Clone, Copy, PartialEq, Eq, Structural)]
pub enum Permission {
    ReadSystemMetrics,
    ReadProcessList,
    WriteFiles,
    NetworkAccess,
    ExecuteCommands,
}

/// A plugin's metadata and requested capabilities.
#[derive(Debug, Clone)]
pub struct PluginInfo {
    pub name: String,
    pub version: String,
    pub description: String,
    pub author: String,
    pub plugin_type: PluginType,
    pub permissions: Vec<Permission>,
}

/// A plugin is safe to load unless it asks to execute commands without
/// coming from an author marked trusted.
pub open spec fn plugin_is_safe(info: PluginInfo) -> bool {
    !info.permissions@.contains(Permission::ExecuteCommands) || text::contains_sub(
        info.author@,
        "trusted"@,
    )
}

pub fn validate_plugin_safety(info: &PluginInfo) -> (r: bool)
    ensures
        r == plugin_is_safe(*info),
{
    let mut wants_exec = false;
    let mut i: usize = 0;
    while i < info.permissions.len()
        invariant
            i <= info.permissions@.len(),
            wants_exec <==> (exists|j: int|
                0 <= j < i && info.permissions@[j] == Permission::ExecuteCommands),
        decreases info.permissions@.len() - i,
    {
        if info.permissions[i] == Permission::ExecuteCommands {
            wants_exec = true;
        }
        i += 1;
    }
    assert(wants_exec == info.permissions@.contains(Permission::ExecuteCommands));
    if !wants_exec {
        return true;
    }
    let author = text::chars_of(info.author.as_str());
    let needle = text::chars_of("trusted");
    proof {
        reveal_strlit("trusted");
    }
    text::contains_sub_exec(&author, &needle)
}

/// The default configuration every plugin starts from: enabled, with a
/// one-second update interval.
pub fn create_basic_config() -> (r: Vec<(String, String)>)
    ensures
        r@.len() == 2,
        r@[0].0@ == "enabled"@ && r@[0].1@ == "true"@,
        r@[1].0@ == "update_interval"@ && r@[1].1@ == "1000"@,
{
    let mut config: Vec<(String, String)> = Vec::new();
    config.push(("enabled".to_owned(), "true".to_owned()));
    config.push(("update_interval".to_owned(), "1000".to_owned()));
    config
}

} // verus!
