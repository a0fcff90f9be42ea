//! Registering the agent to start with the session.
//!
//! The registration itself is the operating system's business. What is
//! decided here is the name under which the agent is registered and whether
//! a registration took hold.

use vstd::prelude::*;
use vstd::string::*;

verus! {

/// The name under which the agent is registered where its executable has no
/// usable name.
pub open spec fn fallback_name() -> Seq<char> {
    "aw-watcher-win-vdesktop"@
}

/// The name under which the agent is registered: the name of its executable
/// without the extension, where that is known.
pub open spec fn registered_name(stem: Option<Seq<char>>) -> Seq<char> {
    match stem {
        Some(name) => name,
        None => fallback_name(),
    }
}

/// The text that opens the account of a registration that did not take hold.
pub open spec fn failure_prefix() -> Seq<char> {
    "Failed to enable auto-launch for "@
}

/// The text that opens the account of a registration that took hold.
pub open spec fn success_prefix() -> Seq<char> {
    "Auto-launch enabled for "@
}

/// A registration was made and is not in force afterwards.
#[derive(Debug, PartialEq, Eq)]
pub struct AutostartError {
    app_name: String,
}

impl View for AutostartError {
    type V = Seq<char>;

    /// The name under which the registration was tried.
    closed spec fn view(&self) -> Seq<char> {
        self.app_name@
    }
}

impl AutostartError {
    /// The name under which the registration was tried.
    pub fn app_name(&self) -> (name: &str)
        ensures
            name@ == self@,
    {
        self.app_name.as_str()
    }

    /// An account of the failure for the log.
    pub fn message(&self) -> (text: String)
        ensures
            text@ == failure_prefix() + self@,
    {
        let mut text = "Failed to enable auto-launch for ".to_owned();
        text.append(self.app_name.as_str());
        text
    }
}

/// The name under which the agent is registered.
pub fn app_name(stem: Option<String>) -> (name: String)
    ensures
        name@ == registered_name(
            match stem {
                Some(s) => Some(s@),
                None => None,
            },
        ),
{
    match stem {
        Some(name) => name,
        None => "aw-watcher-win-vdesktop".to_owned(),
    }
}

/// Settles a registration under `app_name` from whether it is in force
/// afterwards. Where it is, the result is an account of the success for the
/// log.
pub fn confirm(app_name: &str, enabled: bool) -> (outcome: Result<String, AutostartError>)
    ensures
        match outcome {
            Ok(text) => enabled && text@ == success_prefix() + app_name@,
            Err(error) => !enabled && error@ == app_name@,
        },
{
    if enabled {
        let mut text = "Auto-launch enabled for ".to_owned();
        text.append(app_name);
        Ok(text)
    } else {
        Err(AutostartError { app_name: app_name.to_owned() })
    }
}

} // verus!
