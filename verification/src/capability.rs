//! The capabilities that are attached to an application at startup, and what
//! is fixed about each of them.

use vstd::prelude::*;
use crate::platform::Platform;

verus! {

/// A unit of functionality that is attached to an application at startup.
#[derive(Clone, Copy, Debug, PartialEq, Eq, Structural)]
pub enum Capability {
    /// Starts the application when the user logs in.
    Autostart,
    /// Opens URLs and files with the handler the system has for them.
    Opener,
    /// A persistent key-value store.
    Store,
    /// Delivers notifications.
    Notification,
}

/// What becomes of a capability's failure to register.
#[derive(Clone, Copy, Debug, PartialEq, Eq, Structural)]
pub enum FailurePolicy {
    /// The failure is dropped: the application works without the capability.
    Ignore,
    /// The failure makes the setup fail as a whole.
    Propagate,
}

/// The mechanism by which the system starts the application at login.
#[derive(Clone, Copy, Debug, PartialEq, Eq, Structural)]
pub enum Launcher {
    /// A launch agent of the system.
    LaunchAgent,
    /// A login item set up by script.
    AppleScript,
}

/// How the autostart capability is configured.
#[derive(Debug)]
pub struct AutostartConfig {
    /// The mechanism that starts the application.
    pub launcher: Launcher,
    /// The arguments the application is started with.
    pub args: Vec<&'static str>,
}

/// The argument that asks for a minimized launch.
pub open spec fn minimized_arg() -> Seq<char> {
    "--minimized"@
}

impl AutostartConfig {
    /// The arguments, each as a sequence of characters.
    pub open spec fn args_view(self) -> Seq<Seq<char>> {
        self.args@.map_values(|a: &'static str| a@)
    }

    /// Whether this is the configuration the sequencer attaches autostart
    /// with: a launch agent that starts the application minimized.
    pub open spec fn is_standard(self) -> bool {
        &&& self.launcher == Launcher::LaunchAgent
        &&& self.args_view() == seq![minimized_arg()]
    }

    /// The configuration the sequencer attaches autostart with.
    pub fn standard() -> (config: AutostartConfig)
        ensures
            config.is_standard(),
    {
        let mut args: Vec<&'static str> = Vec::new();
        args.push("--minimized");
        let config = AutostartConfig { launcher: Launcher::LaunchAgent, args };
        assert(config.args_view() =~= seq![minimized_arg()]);
        config
    }
}

impl Capability {
    /// The policy on a failure to register this capability.
    pub open spec fn spec_failure_policy(self) -> FailurePolicy {
        match self {
            Capability::Autostart => FailurePolicy::Ignore,
            _ => FailurePolicy::Propagate,
        }
    }

    /// The policy on a failure to register this capability: autostart is
    /// attached on a best-effort basis, every other failure counts.
    #[verifier::when_used_as_spec(spec_failure_policy)]
    pub fn failure_policy(self) -> (policy: FailurePolicy)
        ensures
            policy == self.spec_failure_policy(),
    {
        match self {
            Capability::Autostart => FailurePolicy::Ignore,
            Capability::Opener => FailurePolicy::Propagate,
            Capability::Store => FailurePolicy::Propagate,
            Capability::Notification => FailurePolicy::Propagate,
        }
    }

    /// Whether this capability is attached on the given platform.
    pub open spec fn spec_is_available_on(self, platform: Platform) -> bool {
        self == Capability::Autostart ==> platform == Platform::Desktop
    }

    /// Whether this capability is attached on the given platform: autostart
    /// on the desktop only, the others everywhere.
    #[verifier::when_used_as_spec(spec_is_available_on)]
    pub fn is_available_on(self, platform: Platform) -> (available: bool)
        ensures
            available == self.spec_is_available_on(platform),
    {
        match self {
            Capability::Autostart => platform.is_desktop(),
            _ => true,
        }
    }
}

} // verus!
