//! System profiles.

use vstd::prelude::*;

use crate::command::{Command, CommandModel, ExeModel, InvocationModel, NixCommand};
use crate::error::{ColmenaError, ColmenaResult, ErrorModel};
use crate::flags::NixFlags;
use crate::list;
use crate::path;
use crate::store::{BuildResult, StorePath};
use crate::system::{Goal, SystemType};
use crate::text;

verus! {

broadcast use list::lemma_texts_push;

/// The system profile.
pub const SYSTEM_PROFILE: &'static str = "/nix/var/nix/profiles/system";

/// The profile that runs now.
pub const CURRENT_PROFILE: &'static str = "/run/current-system";

/// A NixOS or nix-darwin system profile.
#[derive(Debug)]
pub struct Profile(StorePath);

impl View for Profile {
    type V = Seq<char>;

    closed spec fn view(&self) -> Seq<char> {
        self.0@
    }
}

/// The command that activates a profile for a goal, if there is one.
pub open spec fn activation(profile: Seq<char>, goal: Goal, system_type: SystemType) -> Option<
    Seq<Seq<char>>,
> {
    match goal.action() {
        Some(action) => if system_type.can(goal) {
            Some(
                match system_type {
                    SystemType::NixOS => seq![
                        path::below(profile, "bin/switch-to-configuration"@),
                        action,
                    ],
                    SystemType::Darwin => seq![path::below(profile, "activate"@)],
                },
            )
        } else {
            None
        },
        None => None,
    }
}

impl Profile {
    /// Returns the `nix-env --set` command that makes this the system profile.
    pub fn switch_profile_command(&self, flags: &NixFlags) -> (r: NixCommand)
        ensures
            r@ == InvocationModel::new(ExeModel::NixEnv, flags@).with_args(
                seq!["--profile"@, SYSTEM_PROFILE@, "--set"@, self@],
            ),
    {
        let r = NixCommand::nix_env(flags.clone()).args(
            &["--profile", SYSTEM_PROFILE, "--set"],
        ).arg(self.as_path());
        assert(r@.args =~= seq!["--profile"@, SYSTEM_PROFILE@, "--set"@, self@]);
        r
    }

    /// Returns the command to activate this profile.
    ///
    /// Fails for a goal that does not activate, and for one the system type
    /// does not support, see [`SystemType::supports`].
    pub fn activation_command(&self, goal: Goal, system_type: SystemType) -> (r: ColmenaResult<
        Vec<String>,
    >)
        ensures
            match r {
                Ok(argv) => activation(self@, goal, system_type) == Some(list::texts(argv@)),
                Err(e) => activation(self@, goal, system_type) is None && e@
                    == (ErrorModel::UnsupportedGoal { goal, system_type }),
            },
    {
        let action: &str = match goal.as_str() {
            Some(action) if goal.requires_activation() && system_type.supports(goal) => action,
            _ => {
                return Err(ColmenaError::UnsupportedGoal { goal, system_type });
            },
        };
        let mut argv: Vec<String> = Vec::new();
        match system_type {
            SystemType::NixOS => {
                argv.push(self.entry("bin/switch-to-configuration"));
                argv.push(action.to_string());
            },
            SystemType::Darwin => {
                argv.push(self.entry("activate"));
            },
        }
        assert(list::texts(argv@) =~= activation(self@, goal, system_type)->0);
        Ok(argv)
    }

    /// Returns the path of an entry in the profile.
    pub fn entry(&self, name: &str) -> (r: String)
        ensures
            r@ == path::below(self@, name@),
    {
        path::join(self.as_path(), name)
    }

    /// Returns the store path.
    pub fn as_store_path(&self) -> (r: &StorePath)
        ensures
            r@ == self@,
    {
        &self.0
    }

    /// Returns the raw store path.
    pub fn as_path(&self) -> (r: &str)
        ensures
            r@ == self@,
            crate::store::is_store_path(r@),
    {
        self.0.as_path()
    }

    /// Returns the command that creates a GC root for this profile.
    pub fn create_gc_root(&self, path: &str, flags: &NixFlags) -> (r: Command)
        ensures
            ({
                let command = InvocationModel::new(ExeModel::NixStore, flags@).with_args(
                    seq![
                        "--no-build-output"@,
                        "--indirect"@,
                        "--add-root"@,
                        path@,
                        "--realise"@,
                        self@,
                    ],
                );
                r@ == (CommandModel {
                    program: "nix-store"@,
                    args: command.all_args(),
                    env: Seq::empty(),
                })
            }),
    {
        let command = NixCommand::nix_store(flags.clone()).args(
            &["--no-build-output", "--indirect", "--add-root"],
        ).arg(path).arg("--realise").arg(self.as_path());
        assert(command@.args =~= seq![
            "--no-build-output"@,
            "--indirect"@,
            "--add-root"@,
            path@,
            "--realise"@,
            self@,
        ]);
        command.build()
    }

    /// Takes a store path for a profile.
    pub fn from_store_path_unchecked(path: StorePath) -> (r: Self)
        ensures
            r@ == path@,
    {
        Profile(path)
    }

    /// Reads the profile that a link resolves to from the output of a command.
    ///
    /// The path is on the first line.
    pub fn parse(output: &str) -> (r: ColmenaResult<Self>)
        ensures
            ({
                let lines = text::lines_of(output@);
                match r {
                    Ok(profile) => lines.len() > 0 && crate::store::is_store_path(lines[0])
                        && profile@ == lines[0],
                    Err(e) => if lines.len() == 0 {
                        e@ == ErrorModel::FailedToGetCurrentProfile
                    } else {
                        !crate::store::is_store_path(lines[0]) && e@
                            == ErrorModel::InvalidStorePath
                    },
                }
            }),
    {
        let lines: Vec<String> = text::lines(output);
        if lines.len() == 0 {
            return Err(ColmenaError::FailedToGetCurrentProfile);
        }
        assert(text::lines_of(output@)[0] == lines@[0]@);
        match StorePath::try_from(lines[0].clone()) {
            Ok(path) => Ok(Self::from_store_path_unchecked(path)),
            Err(e) => Err(e),
        }
    }
}

impl Clone for Profile {
    fn clone(&self) -> (r: Self)
        ensures
            r == *self,
    {
        Profile(self.0.clone())
    }
}

impl PartialEq for Profile {
    fn eq(&self, other: &Self) -> (r: bool) {
        self.0 == other.0
    }
}

impl vstd::std_specs::cmp::PartialEqSpecImpl for Profile {
    open spec fn obeys_eq_spec() -> bool {
        true
    }

    open spec fn eq_spec(&self, other: &Self) -> bool {
        path::components(self@) == path::components(other@)
    }
}

impl Eq for Profile {

}

impl TryFrom<BuildResult> for Profile {
    type Error = ColmenaError;

    fn try_from(result: BuildResult) -> (r: Result<Self, ColmenaError>)
        ensures
            match r {
                Ok(profile) => result@ == seq![profile@],
                Err(e) => if result@.len() == 0 {
                    e@ == (ErrorModel::BadOutput { output: "There is no store path"@ })
                } else {
                    result@.len() > 1 && e@ == (ErrorModel::BadOutput {
                        output: "Build resulted in more than 1 store path"@,
                    })
                },
            },
    {
        let paths = result.paths();

        if paths.len() == 0 {
            return Err(
                ColmenaError::BadOutput { output: "There is no store path".to_string() },
            );
        }
        if paths.len() > 1 {
            return Err(
                ColmenaError::BadOutput {
                    output: "Build resulted in more than 1 store path".to_string(),
                },
            );
        }
        let path = paths[0].clone();
        let r = Self::from_store_path_unchecked(path);
        assert(result@[0] == r@);
        assert(result@ =~= seq![r@]);
        Ok(r)
    }
}

// Two equal messages need not be one and the same string, so the clauses of
// `try_from` speak of the texts in place of an equation.
impl vstd::std_specs::convert::TryFromSpecImpl<BuildResult> for Profile {
    open spec fn obeys_try_from_spec() -> bool {
        false
    }

    open spec fn try_from_spec(result: BuildResult) -> Result<Self, ColmenaError> {
        arbitrary()
    }
}

/// A profile is activated with its own script: on NixOS with the word of the
/// goal, and on darwin with the only goal that activates there. No other goal
/// has a command.
pub proof fn law_profiles_activate_with_their_script(profile: Seq<char>, goal: Goal)
    requires
        profile.len() > 0,
        profile.last() != '/',
    ensures
        activation(profile, goal, SystemType::NixOS) == match goal {
            Goal::Switch => Some(
                seq![profile + "/bin/switch-to-configuration"@, "switch"@],
            ),
            Goal::Boot => Some(seq![profile + "/bin/switch-to-configuration"@, "boot"@]),
            Goal::Test => Some(seq![profile + "/bin/switch-to-configuration"@, "test"@]),
            Goal::DryActivate => Some(
                seq![profile + "/bin/switch-to-configuration"@, "dry-activate"@],
            ),
            Goal::Build | Goal::Push | Goal::UploadKeys => None::<Seq<Seq<char>>>,
        },
        activation(profile, goal, SystemType::Darwin) == if goal == Goal::Switch {
            Some(seq![profile + "/activate"@])
        } else {
            None
        },
{
    reveal_strlit("/bin/switch-to-configuration");
    reveal_strlit("bin/switch-to-configuration");
    reveal_strlit("/activate");
    reveal_strlit("activate");
    path::law_relative_paths_go_below(profile, "bin/switch-to-configuration"@);
    path::law_relative_paths_go_below(profile, "activate"@);
    assert(profile + seq!['/'] + "bin/switch-to-configuration"@ =~= profile
        + "/bin/switch-to-configuration"@);
    assert(profile + seq!['/'] + "activate"@ =~= profile + "/activate"@);
}

} // verus!
