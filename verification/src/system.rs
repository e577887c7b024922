//! Goals of a deployment and types of systems.

use vstd::prelude::*;

verus! {

/// The goal of a deployment.
#[derive(Debug, Clone, Copy, PartialEq, Eq, Structural)]
pub enum Goal {
    /// Build the configurations only.
    Build,
    /// Push the closures only.
    Push,
    /// Make the configuration the boot default and activate now.
    Switch,
    /// Make the configuration the boot default.
    Boot,
    /// Activate the configuration, but don't make it the boot default.
    Test,
    /// Show what would be done if this configuration were activated.
    DryActivate,
    /// Only upload keys.
    UploadKeys,
}

impl Goal {
    /// The action a goal passes to `switch-to-configuration`.
    pub open spec fn action(self) -> Option<Seq<char>> {
        match self {
            Goal::Switch => Some("switch"@),
            Goal::Boot => Some("boot"@),
            Goal::Test => Some("test"@),
            Goal::DryActivate => Some("dry-activate"@),
            _ => None,
        }
    }

    /// Whether a goal activates a profile.
    pub open spec fn activates(self) -> bool {
        self.action() is Some
    }

    /// Whether a goal changes the system profile.
    pub open spec fn switches_profile(self) -> bool {
        self == Goal::Switch || self == Goal::Boot
    }

    /// The name of a goal on the command line.
    pub open spec fn name_text(self) -> Seq<char> {
        match self {
            Goal::Build => "build"@,
            Goal::Push => "push"@,
            Goal::Switch => "switch"@,
            Goal::Boot => "boot"@,
            Goal::Test => "test"@,
            Goal::DryActivate => "dry-activate"@,
            Goal::UploadKeys => "keys"@,
        }
    }

    /// Returns the action to pass to `switch-to-configuration`, if any.
    pub fn as_str(&self) -> (r: Option<&'static str>)
        ensures
            r is Some == self.action() is Some,
            r matches Some(s) ==> self.action() == Some(s@),
    {
        match self {
            Goal::Build => None,
            Goal::Push => None,
            Goal::Switch => Some("switch"),
            Goal::Boot => Some("boot"),
            Goal::Test => Some("test"),
            Goal::DryActivate => Some("dry-activate"),
            Goal::UploadKeys => None,
        }
    }

    /// Returns whether the goal changes the system profile.
    pub fn should_switch_profile(&self) -> (r: bool)
        ensures
            r == self.switches_profile(),
    {
        matches!(self, Goal::Boot | Goal::Switch)
    }

    /// Returns whether the goal activates the profile.
    pub fn requires_activation(&self) -> (r: bool)
        ensures
            r == self.activates(),
    {
        !matches!(self, Goal::Build | Goal::UploadKeys | Goal::Push)
    }

    /// Returns the name of the goal on the command line.
    pub fn name(&self) -> (r: &'static str)
        ensures
            r@ == self.name_text(),
    {
        match self {
            Goal::Build => "build",
            Goal::Push => "push",
            Goal::Switch => "switch",
            Goal::Boot => "boot",
            Goal::Test => "test",
            Goal::DryActivate => "dry-activate",
            Goal::UploadKeys => "keys",
        }
    }
}

/// The type of system running on a host.
#[derive(Debug, Clone, Copy, PartialEq, Eq, Structural)]
pub enum SystemType {
    NixOS,
    Darwin,
}

/// The directory of the Nix executables on nix-darwin.
pub const DARWIN_BIN_DIR: &'static str = "/run/current-system/sw/bin";

impl SystemType {
    /// Whether a goal can be deployed to a system of this type.
    ///
    /// nix-darwin cannot activate at the next boot only, cannot undo a test
    /// at a reboot, and has no dry run.
    pub open spec fn can(self, goal: Goal) -> bool {
        match self {
            SystemType::NixOS => true,
            SystemType::Darwin => goal != Goal::Boot && goal != Goal::Test && goal
                != Goal::DryActivate,
        }
    }

    /// The directory to run Nix from, for a system whose root lacks it in PATH.
    pub open spec fn bin_dir(self) -> Option<Seq<char>> {
        match self {
            SystemType::NixOS => None,
            SystemType::Darwin => Some(DARWIN_BIN_DIR@),
        }
    }

    /// The name of a system type.
    pub open spec fn name_text(self) -> Seq<char> {
        match self {
            SystemType::NixOS => "NixOS"@,
            SystemType::Darwin => "darwin"@,
        }
    }

    /// Returns whether the goal can be deployed to a system of this type.
    pub fn supports(&self, goal: Goal) -> (r: bool)
        ensures
            r == self.can(goal),
    {
        match self {
            SystemType::NixOS => true,
            SystemType::Darwin => !matches!(goal, Goal::Boot | Goal::Test | Goal::DryActivate),
        }
    }

    /// Returns the directory to run Nix from, or `None` to find it through
    /// PATH.
    pub fn nix_bin_dir(&self) -> (r: Option<&'static str>)
        ensures
            r is Some == self.bin_dir() is Some,
            r matches Some(s) ==> self.bin_dir() == Some(s@),
    {
        match self {
            SystemType::NixOS => None,
            SystemType::Darwin => Some(DARWIN_BIN_DIR),
        }
    }

    /// Returns the name of the system type.
    pub fn name(&self) -> (r: &'static str)
        ensures
            r@ == self.name_text(),
    {
        match self {
            SystemType::NixOS => "NixOS",
            SystemType::Darwin => "darwin",
        }
    }
}

impl Default for SystemType {
    fn default() -> (r: Self)
        ensures
            r == SystemType::NixOS,
    {
        SystemType::NixOS
    }
}

/// Switch is the only activation goal of a darwin node.
pub proof fn law_darwin_activates_only_switch(goal: Goal)
    ensures
        goal.activates() && SystemType::Darwin.can(goal) <==> goal == Goal::Switch,
{
}

/// What each goal does: which of them activate, with which word for
/// `switch-to-configuration`, and which change the system profile.
pub proof fn law_goals_do_what_they_say(goal: Goal)
    ensures
        goal.activates() <==> goal == Goal::Switch || goal == Goal::Boot || goal == Goal::Test
            || goal == Goal::DryActivate,
        goal.activates() ==> goal.action() == Some(goal.name_text()),
        goal.switches_profile() <==> goal == Goal::Switch || goal == Goal::Boot,
        goal.switches_profile() ==> goal.activates(),
        Goal::Build.name_text() == "build"@,
        Goal::Push.name_text() == "push"@,
        Goal::UploadKeys.name_text() == "keys"@,
        Goal::Switch.name_text() == "switch"@,
        Goal::Boot.name_text() == "boot"@,
        Goal::Test.name_text() == "test"@,
        Goal::DryActivate.name_text() == "dry-activate"@,
{
}

/// A NixOS host can be deployed with every goal, and a darwin host with every
/// one but to boot, to test and to dry-activate. Only a darwin host has its
/// Nix outside PATH.
pub proof fn law_systems_support_their_goals(goal: Goal)
    ensures
        SystemType::NixOS.can(goal),
        !SystemType::Darwin.can(goal) <==> goal == Goal::Boot || goal == Goal::Test || goal
            == Goal::DryActivate,
        SystemType::NixOS.bin_dir() is None,
        SystemType::Darwin.bin_dir() == Some("/run/current-system/sw/bin"@),
{
}

} // verus!
