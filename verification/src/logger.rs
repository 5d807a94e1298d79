//! The logger facade's state and decisions: the mutable target name, the
//! resolution of the configuration path, and the exact text of every line
//! the initializer and the leveled entry points emit.
//!
//! The facade's outward half — the filesystem existence check, the hand-off
//! to the external logging engine, and process termination on a bad
//! configuration — is input/output and lives with the caller; it is driven
//! entirely by the strings these functions compute.

use vstd::prelude::*;
use vstd::string::StringExecFns;

verus! {

/// The target name every record is routed through until an initializer
/// supplies a service name.
pub open spec fn default_target() -> Seq<char> {
    "log4you"@
}

/// The configuration path used when the initializer is given none.
pub open spec fn default_config_path() -> Seq<char> {
    "../config/log4you.yaml"@
}

/// The shape of every emitted record's message: the log_id prefix, a
/// separator, then the message itself.
pub open spec fn log_line(log_id: Seq<char>, message: Seq<char>) -> Seq<char> {
    "log_id="@ + log_id + ", "@ + message
}

/// The logger's state: the mutable target name that routes every record.
///
/// Exactly one instance is meant to exist per process, created at start
/// with the default target and shared behind a reader/writer lock by the
/// caller; every method here is a short local computation on that state.
pub struct Logger {
    target: String,
}

impl Logger {
    /// The current target name, as the contracts speak of it.
    pub closed spec fn target_seq(&self) -> Seq<char> {
        self.target@
    }

    /// A fresh logger routes through the default target.
    pub fn new() -> (r: Logger)
        ensures
            r.target_seq() == default_target(),
    {
        Logger { target: String::from_str("log4you") }
    }

    /// A snapshot copy of the current target name.
    pub fn target(&self) -> (r: String)
        ensures
            r@ == self.target_seq(),
    {
        self.target.clone()
    }

    /// The initializer's first step: a supplied service name overwrites the
    /// target, and no service name leaves it untouched.
    pub fn set_service_name(&mut self, service_name: Option<&str>)
        ensures
            (match service_name {
                Some(name) => final(self).target_seq() == name@,
                None => final(self).target_seq() == old(self).target_seq(),
            }),
    {
        if let Some(name) = service_name {
            self.target = String::from_str(name);
        }
    }
}

/// The configuration path the initializer resolves: the supplied one, or
/// the default relative path when none is supplied.
pub fn resolve_config_path(config_path: Option<&str>) -> (r: String)
    ensures
        (match config_path {
            Some(path) => r@ == path@,
            None => r@ == default_config_path(),
        }),
{
    match config_path {
        Some(path) => String::from_str(path),
        None => String::from_str("../config/log4you.yaml"),
    }
}

/// The message of one emitted record: the caller's log_id, then the text.
pub fn compose_log_line(log_id: &str, message: &str) -> (r: String)
    ensures
        r@ == log_line(log_id@, message@),
{
    let mut r = String::from_str("log_id=");
    r.append(log_id);
    r.append(", ");
    r.append(message);
    r
}

/// The line printed to standard error when the resolved configuration path
/// does not exist, before the process terminates.
pub fn missing_config_message(log_id: &str, path: &str) -> (r: String)
    ensures
        r@ == log_line(log_id@, "Warning: Config file "@ + path@ + " not found. Exiting."@),
{
    let mut text = String::from_str("Warning: Config file ");
    text.append(path);
    text.append(" not found. Exiting.");
    compose_log_line(log_id, text.as_str())
}

/// The line printed to standard error when the external engine rejects the
/// configuration, before the process terminates.
pub fn init_error_message(log_id: &str, error: &str) -> (r: String)
    ensures
        r@ == log_line(log_id@, "Logger init error: "@ + error@ + ". Exiting."@),
{
    let mut text = String::from_str("Logger init error: ");
    text.append(error);
    text.append(". Exiting.");
    compose_log_line(log_id, text.as_str())
}

/// The one confirmation record emitted after the external engine accepts
/// the configuration.
pub fn init_success_message(log_id: &str, path: &str) -> (r: String)
    ensures
        r@ == log_line(log_id@, "Logger initialized from "@ + path@),
{
    let mut text = String::from_str("Logger initialized from ");
    text.append(path);
    compose_log_line(log_id, text.as_str())
}

} // verus!
