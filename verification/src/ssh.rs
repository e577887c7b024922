//! A remote machine connected over SSH.

use vstd::prelude::*;

use crate::command;
use crate::command::{Command, CommandModel, ExeModel, InvocationModel, NixCommand};
use crate::detached;
use crate::error::{ColmenaError, ColmenaResult, ErrorModel};
use crate::flags::{FlagsModel, NixFlags};
use crate::key_uploader;
use crate::key_uploader::Key;
use crate::list;
use crate::number;
use crate::path;
use crate::profile;
use crate::profile::{Profile, CURRENT_PROFILE, SYSTEM_PROFILE};
use crate::shell;
use crate::store::StorePath;
use crate::system::{Goal, SystemType, DARWIN_BIN_DIR};
use crate::text;

verus! {

broadcast use list::lemma_texts_push;

/// Prints the system profile, or the profile that runs now if there is none.
pub const MAIN_PROFILE_SCRIPT: &'static str =
    "p=/nix/var/nix/profiles/system; [ -e \"$p\" ] || p=/run/current-system; readlink -f \"$p\"";

/// A remote machine connected over SSH.
#[derive(Debug)]
pub struct Ssh {
    /// The username to use to connect.
    user: Option<String>,
    /// The hostname or IP address to connect to.
    host: String,
    /// The port to connect to.
    port: Option<u16>,
    /// Local path to a ssh_config file.
    ssh_config: Option<String>,
    /// Command to elevate privileges with.
    privilege_escalation_command: Vec<String>,
    /// extra SSH options
    extra_ssh_options: Vec<String>,
    /// Whether to use the experimental `nix copy` command.
    use_nix3_copy: bool,
    /// Flags to pass to Nix invocations, local and remote.
    nix_flags: NixFlags,
    /// The type of system running on the host.
    system_type: SystemType,
    /// Whether NixOS switch and test activations run in a transient unit.
    detached_activation: bool,
}

/// What is known about a remote machine.
#[verifier::ext_equal]
pub struct SshModel {
    pub user: Option<Seq<char>>,
    pub host: Seq<char>,
    pub port: Option<u16>,
    pub ssh_config: Option<Seq<char>>,
    pub privilege_escalation_command: Seq<Seq<char>>,
    pub extra_ssh_options: Seq<Seq<char>>,
    pub use_nix3_copy: bool,
    pub nix_flags: FlagsModel,
    pub system_type: SystemType,
    pub detached_activation: bool,
}

impl View for Ssh {
    type V = SshModel;

    closed spec fn view(&self) -> SshModel {
        SshModel {
            user: list::opt_text(self.user),
            host: self.host@,
            port: self.port,
            ssh_config: list::opt_text(self.ssh_config),
            privilege_escalation_command: list::texts(self.privilege_escalation_command@),
            extra_ssh_options: list::texts(self.extra_ssh_options@),
            use_nix3_copy: self.use_nix3_copy,
            nix_flags: self.nix_flags@,
            system_type: self.system_type,
            detached_activation: self.detached_activation,
        }
    }
}

/// Which way a closure is copied.
#[derive(Debug, Clone, Copy, PartialEq, Eq, Structural)]
pub enum CopyDirection {
    ToRemote,
    FromRemote,
}

/// How a closure is copied.
#[derive(Debug, Clone, Copy, PartialEq, Eq, Structural)]
pub struct CopyOptions {
    /// Whether to copy the outputs of derivations too.
    pub include_outputs: bool,
    /// Whether the destination may fetch paths from its substituters.
    pub use_substitutes: bool,
    /// Whether to compress what is sent.
    pub gzip: bool,
}

impl Default for CopyOptions {
    fn default() -> (r: Self)
        ensures
            r == (CopyOptions { include_outputs: true, use_substitutes: true, gzip: true }),
    {
        CopyOptions { include_outputs: true, use_substitutes: true, gzip: true }
    }
}

/// How a profile is activated.
#[derive(Debug)]
pub enum Activation {
    /// By a command in the SSH session.
    Direct(Command),
    /// By a command in a transient unit, see [`crate::detached`].
    Detached(Vec<String>),
}

/// How a profile is activated.
pub enum ActivationModel {
    Direct(CommandModel),
    Detached(Seq<Seq<char>>),
}

impl View for Activation {
    type V = ActivationModel;

    open spec fn view(&self) -> ActivationModel {
        match self {
            Activation::Direct(command) => ActivationModel::Direct(command@),
            Activation::Detached(argv) => ActivationModel::Detached(list::texts(argv@)),
        }
    }
}

/// What to run to deploy a profile.
#[derive(Debug)]
pub struct Plan {
    /// The command that makes the profile the system profile, to run first.
    pub set_profile: Option<Command>,
    pub activation: Activation,
}

/// What to run to deploy a profile.
pub struct PlanModel {
    pub set_profile: Option<CommandModel>,
    pub activation: ActivationModel,
}

impl View for Plan {
    type V = PlanModel;

    open spec fn view(&self) -> PlanModel {
        PlanModel {
            set_profile: match self.set_profile {
                Some(command) => Some(command@),
                None => None,
            },
            activation: self.activation@,
        }
    }
}

/// The flag for a direction.
pub open spec fn direction_flag(direction: CopyDirection) -> Seq<char> {
    match direction {
        CopyDirection::ToRemote => "--to"@,
        CopyDirection::FromRemote => "--from"@,
    }
}

impl SshModel {
    /// What to connect to.
    pub open spec fn target(self) -> Seq<char> {
        match self.user {
            Some(user) => user + "@"@ + self.host,
            None => self.host,
        }
    }

    /// The options of ssh. ssh takes the first value of each, so the extra
    /// options override the rest.
    pub open spec fn options(self) -> Seq<Seq<char>> {
        self.extra_ssh_options + seq![
            "-o"@,
            "StrictHostKeyChecking=accept-new"@,
            "-o"@,
            "BatchMode=yes"@,
            "-T"@,
        ] + match self.port {
            Some(port) => seq!["-p"@, number::decimal(port as int)],
            None => Seq::empty(),
        } + match self.ssh_config {
            Some(ssh_config) => seq!["-F"@, ssh_config],
            None => Seq::empty(),
        }
    }

    /// The environment of a command that connects to the host.
    pub open spec fn env(self) -> Seq<(Seq<char>, Seq<char>)> {
        seq![("NIX_SSHOPTS"@, text::joined(self.options(), " "@))]
    }

    /// What comes before a command on the host to elevate privileges.
    pub open spec fn escalation(self) -> Seq<Seq<char>> {
        if self.user == Some("root"@) {
            Seq::empty()
        } else {
            self.privilege_escalation_command
        }
    }

    /// The words that the remote shell gets.
    pub open spec fn remote_words(self, command: Seq<Seq<char>>) -> Seq<Seq<char>> {
        self.escalation() + command
    }

    /// The local command that runs a command on the host.
    pub open spec fn ssh(self, command: Seq<Seq<char>>) -> CommandModel {
        CommandModel {
            program: "ssh"@,
            args: seq![self.target()] + self.options() + seq!["--"@] + self.remote_words(command),
            env: self.env(),
        }
    }

    /// The local command that runs a generated command on the host.
    pub open spec fn ssh_argv(self, argv: Seq<Seq<char>>) -> CommandModel {
        self.ssh(shell::escaped_all(argv))
    }

    /// A Nix command that runs on the host.
    pub open spec fn remote_nix(self, command: InvocationModel) -> CommandModel {
        self.ssh_argv(
            InvocationModel {
                bin_dir: match self.system_type.bin_dir() {
                    Some(dir) => Some(dir),
                    None => command.bin_dir,
                },
                ..command
            }.argv(),
        )
    }

    /// Whether closures are copied with `nix copy`: if wanted, and for a host
    /// whose Nix is not in PATH. `nix copy` can name the remote nix-daemon,
    /// while `nix-copy-closure` finds the remote nix-store through PATH.
    pub open spec fn copies_with_nix3(self) -> bool {
        self.use_nix3_copy || self.system_type.bin_dir() is Some
    }

    /// The parameters of the remote store.
    pub open spec fn store_params(self, gzip: bool) -> Seq<Seq<char>> {
        let program = match self.system_type.bin_dir() {
            Some(dir) => seq!["remote-program="@ + dir + "/nix-daemon"@],
            None => Seq::empty(),
        };
        program + command::when(gzip, "compress=true"@)
    }

    /// The URI of the remote store.
    pub open spec fn store_uri(self, gzip: bool) -> Seq<char> {
        let params = self.store_params(gzip);
        if params.len() == 0 {
            "ssh-ng://"@ + self.target()
        } else {
            "ssh-ng://"@ + self.target() + "?"@ + text::joined(params, "&"@)
        }
    }

    /// The `nix copy` command that copies a closure.
    pub open spec fn nix3_copy(
        self,
        path: Seq<char>,
        direction: CopyDirection,
        options: CopyOptions,
    ) -> InvocationModel {
        InvocationModel::new(ExeModel::Nix, self.nix_flags).with_args(
            seq!["copy"@, "--no-check-sigs"@] + command::when(
                options.use_substitutes,
                "--substitute-on-destination"@,
            ) + command::when(options.use_substitutes, "--builders-use-substitutes"@)
                + command::when(path::is_drv(path), "--derivation"@) + seq![
                direction_flag(direction),
                self.store_uri(options.gzip),
                path,
            ],
        )
    }

    /// The `nix-copy-closure` command that copies a closure.
    pub open spec fn legacy_copy(
        self,
        path: Seq<char>,
        direction: CopyDirection,
        options: CopyOptions,
    ) -> InvocationModel {
        InvocationModel::new(ExeModel::NixCopyClosure, self.nix_flags).with_args(
            seq![direction_flag(direction)] + command::when(
                options.include_outputs,
                "--include-outputs"@,
            ) + command::when(options.use_substitutes, "--use-substitutes"@) + command::when(
                options.gzip,
                "--gzip"@,
            ) + seq![self.target(), path],
        )
    }

    /// The Nix command that copies a closure.
    pub open spec fn copy_invocation(
        self,
        path: Seq<char>,
        direction: CopyDirection,
        options: CopyOptions,
    ) -> InvocationModel {
        if self.copies_with_nix3() {
            self.nix3_copy(path, direction, options)
        } else {
            self.legacy_copy(path, direction, options)
        }
    }

    /// The local command that copies a closure.
    pub open spec fn copy(
        self,
        path: Seq<char>,
        direction: CopyDirection,
        options: CopyOptions,
    ) -> CommandModel {
        let invocation = self.copy_invocation(path, direction, options);
        CommandModel {
            program: invocation.executable(),
            args: invocation.all_args(),
            env: self.env(),
        }
    }

    /// Whether an activation runs in a transient unit. A switch and a test
    /// may restart the network and drop the session. nix-darwin has no
    /// systemd to detach into.
    pub open spec fn detaches(self, goal: Goal) -> bool {
        self.detached_activation && self.system_type == SystemType::NixOS && (goal == Goal::Switch
            || goal == Goal::Test)
    }

    /// What to run to deploy a profile, or why it cannot be deployed.
    pub open spec fn plan(self, profile: Seq<char>, goal: Goal) -> Result<PlanModel, ErrorModel> {
        let system_type = self.system_type;
        if !goal.activates() {
            Err(ErrorModel::Unsupported)
        } else {
            match profile::activation(profile, goal, system_type) {
                Some(argv) => Ok(
                    PlanModel {
                        set_profile: if goal.switches_profile() {
                            Some(
                                self.remote_nix(
                                    InvocationModel::new(
                                        ExeModel::NixEnv,
                                        self.nix_flags,
                                    ).with_args(
                                        seq!["--profile"@, SYSTEM_PROFILE@, "--set"@, profile],
                                    ),
                                ),
                            )
                        } else {
                            None
                        },
                        activation: if self.detaches(goal) {
                            ActivationModel::Detached(argv)
                        } else {
                            ActivationModel::Direct(self.ssh(argv))
                        },
                    },
                ),
                None => Err(ErrorModel::UnsupportedGoal { goal, system_type }),
            }
        }
    }
}

/// Returns the flag for a direction.
fn flag_of(direction: CopyDirection) -> (r: &'static str)
    ensures
        r@ == direction_flag(direction),
{
    match direction {
        CopyDirection::ToRemote => "--to",
        CopyDirection::FromRemote => "--from",
    }
}

/// Adds an argument to a command if the condition holds.
fn with(command: NixCommand, condition: bool, arg: &str) -> (r: NixCommand)
    ensures
        r@ == command@.with_args(command::when(condition, arg@)),
{
    let r = if condition {
        command.arg(arg)
    } else {
        command
    };
    assert(r@ =~= command@.with_args(command::when(condition, arg@)));
    r
}

impl Ssh {
    /// Creates a host with default options.
    pub fn new(user: Option<String>, host: String, nix_flags: NixFlags) -> (r: Self)
        ensures
            r@ == (SshModel {
                user: list::opt_text(user),
                host: host@,
                port: None,
                ssh_config: None,
                privilege_escalation_command: Seq::empty(),
                extra_ssh_options: Seq::empty(),
                use_nix3_copy: false,
                nix_flags: nix_flags@,
                system_type: SystemType::NixOS,
                detached_activation: true,
            }),
    {
        let r = Ssh {
            user,
            host,
            port: None,
            ssh_config: None,
            privilege_escalation_command: Vec::new(),
            extra_ssh_options: Vec::new(),
            use_nix3_copy: false,
            nix_flags,
            system_type: SystemType::default(),
            detached_activation: true,
        };
        assert(r@.privilege_escalation_command =~= Seq::empty());
        assert(r@.extra_ssh_options =~= Seq::empty());
        r
    }

    pub fn set_port(&mut self, port: u16)
        ensures
            final(self)@ == (SshModel { port: Some(port), ..old(self)@ }),
    {
        self.port = Some(port);
    }

    pub fn set_ssh_config(&mut self, ssh_config: String)
        ensures
            final(self)@ == (SshModel { ssh_config: Some(ssh_config@), ..old(self)@ }),
    {
        self.ssh_config = Some(ssh_config);
    }

    pub fn set_privilege_escalation_command(&mut self, command: Vec<String>)
        ensures
            final(self)@ == (SshModel {
                privilege_escalation_command: list::texts(command@),
                ..old(self)@
            }),
    {
        self.privilege_escalation_command = command;
    }

    pub fn set_extra_ssh_options(&mut self, options: Vec<String>)
        ensures
            final(self)@ == (SshModel {
                extra_ssh_options: list::texts(options@),
                ..old(self)@
            }),
    {
        self.extra_ssh_options = options;
    }

    pub fn set_use_nix3_copy(&mut self, enable: bool)
        ensures
            final(self)@ == (SshModel { use_nix3_copy: enable, ..old(self)@ }),
    {
        self.use_nix3_copy = enable;
    }

    pub fn set_system_type(&mut self, system_type: SystemType)
        ensures
            final(self)@ == (SshModel { system_type, ..old(self)@ }),
    {
        self.system_type = system_type;
    }

    pub fn set_detached_activation(&mut self, enable: bool)
        ensures
            final(self)@ == (SshModel { detached_activation: enable, ..old(self)@ }),
    {
        self.detached_activation = enable;
    }

    /// Returns the hostname or IP address to connect to.
    pub fn host(&self) -> (r: &str)
        ensures
            r@ == self@.host,
    {
        self.host.as_str()
    }

    /// Returns the flags to pass to Nix invocations.
    pub fn nix_flags(&self) -> (r: &NixFlags)
        ensures
            r@ == self@.nix_flags,
    {
        &self.nix_flags
    }

    /// Returns the type of system running on the host.
    pub fn system_type(&self) -> (r: SystemType)
        ensures
            r == self@.system_type,
    {
        self.system_type
    }

    /// Returns a command to run a generated command on the host.
    ///
    /// ssh(1) concatenates its arguments with spaces and lets the remote
    /// shell re-split them, so each argument is escaped first. This
    /// matters for Nix flag values that may contain spaces (e.g.,
    /// `--option substituters "https://a https://b"`).
    pub fn ssh_argv(&self, argv: Vec<String>) -> (r: Command)
        ensures
            r@ == self@.ssh_argv(list::texts(argv@)),
    {
        let escaped: Vec<String> = shell::escape_all(&argv);
        self.ssh_words(&escaped)
    }

    /// Returns a command to run an arbitrary command on the host.
    pub fn ssh(&self, command: &[&str]) -> (r: Command)
        ensures
            r@ == self@.ssh(list::strs(command@)),
    {
        self.ssh_words(&list::owned(command))
    }

    fn ssh_words(&self, words: &Vec<String>) -> (r: Command)
        ensures
            r@ == self@.ssh(list::texts(words@)),
    {
        let options: Vec<String> = self.ssh_options();
        let options_str: String = text::join(&options, " ");
        let root: bool = match &self.user {
            Some(user) => text::same_text(user.as_str(), "root"),
            None => false,
        };
        assert(root == (self@.user == Some("root"@)));

        let mut args: Vec<String> = Vec::new();
        args.push(self.ssh_target());
        list::extend(&mut args, &options);
        args.push("--".to_string());
        if !root {
            list::extend(&mut args, &self.privilege_escalation_command);
        }
        list::extend(&mut args, words);
        let mut command = Command { program: "ssh".to_string(), args, env: Vec::new() };
        assert(list::texts(args@) =~= self@.ssh(list::texts(words@)).args);
        command.env("NIX_SSHOPTS", options_str.as_str());
        assert(command@ =~= self@.ssh(list::texts(words@)));
        command
    }

    /// Returns what to connect to.
    pub fn ssh_target(&self) -> (r: String)
        ensures
            r@ == self@.target(),
    {
        match &self.user {
            Some(user) => user.clone().concat("@").concat(self.host.as_str()),
            None => self.host.clone(),
        }
    }

    /// Returns the local command that copies the closure of a store path.
    pub fn nix_copy_closure(
        &self,
        path: &StorePath,
        direction: CopyDirection,
        options: CopyOptions,
    ) -> (r: Command)
        ensures
            r@ == self@.copy(path@, direction, options),
    {
        let ssh_options: Vec<String> = self.ssh_options();
        let ssh_options_str: String = text::join(&ssh_options, " ");

        // nix-copy-closure finds the remote nix-store through PATH
        // root's PATH on macOS lacks it
        // nix copy can name the remote nix-daemon instead
        let use_nix3_copy: bool = self.use_nix3_copy || self.system_type.nix_bin_dir().is_some();

        let command: NixCommand = if use_nix3_copy {
            self.nix3_copy(path, direction, options)
        } else {
            self.legacy_copy(path, direction, options)
        };
        let mut command: Command = command.build();
        command.env("NIX_SSHOPTS", ssh_options_str.as_str());
        assert(command@ =~= self@.copy(path@, direction, options));
        command
    }

    /// Returns the experimental `nix copy` command with ssh-ng://
    fn nix3_copy(
        &self,
        path: &StorePath,
        direction: CopyDirection,
        options: CopyOptions,
    ) -> (r: NixCommand)
        ensures
            r@ == self@.nix3_copy(path@, direction, options),
    {
        let command = NixCommand::nix(self.nix_flags.clone()).args(&["copy", "--no-check-sigs"]);
        let command = with(command, options.use_substitutes, "--substitute-on-destination");
        // needed due to UX bug in ssh-ng://
        let command = with(command, options.use_substitutes, "--builders-use-substitutes");
        let command = with(command, path.is_derivation(), "--derivation");
        let uri: String = self.store_uri(options.gzip);
        let r = command.args(&[flag_of(direction), uri.as_str(), path.as_path()]);
        assert(r@.args =~= self@.nix3_copy(path@, direction, options).args);
        r
    }

    /// Returns the URI of the remote store.
    fn store_uri(&self, gzip: bool) -> (r: String)
        ensures
            r@ == self@.store_uri(gzip),
    {
        let mut params: Vec<String> = Vec::new();
        if let Some(dir) = self.system_type.nix_bin_dir() {
            params.push("remote-program=".to_string().concat(dir).concat("/nix-daemon"));
        }
        if gzip {
            params.push("compress=true".to_string());
        }
        assert(list::texts(params@) =~= self@.store_params(gzip));

        let store_uri: String = "ssh-ng://".to_string().concat(self.ssh_target().as_str());
        if params.len() > 0 {
            store_uri.concat("?").concat(text::join(&params, "&").as_str())
        } else {
            store_uri
        }
    }

    /// Returns the `nix-copy-closure` command (ssh://)
    fn legacy_copy(
        &self,
        path: &StorePath,
        direction: CopyDirection,
        options: CopyOptions,
    ) -> (r: NixCommand)
        ensures
            r@ == self@.legacy_copy(path@, direction, options),
    {
        let command = NixCommand::nix_copy_closure(self.nix_flags.clone()).arg(flag_of(direction));
        let command = with(command, options.include_outputs, "--include-outputs");
        let command = with(command, options.use_substitutes, "--use-substitutes");
        let command = with(command, options.gzip, "--gzip");
        let r = command.arg(self.ssh_target().as_str()).arg(path.as_path());
        assert(r@.args =~= self@.legacy_copy(path@, direction, options).args);
        r
    }

    /// Returns the options of ssh.
    pub fn ssh_options(&self) -> (r: Vec<String>)
        ensures
            list::texts(r@) == self@.options(),
    {
        // NOTE: extra_ssh_options needs to come first so that
        // deployment.sshOptions can override our settings.
        //
        // From ssh_config(5):
        // > Unless noted otherwise, for each parameter, the first obtained
        // > value will be used.
        let mut options: Vec<String> = list::copied(&self.extra_ssh_options);
        let ours: Vec<String> = list::owned(
            &["-o", "StrictHostKeyChecking=accept-new", "-o", "BatchMode=yes", "-T"],
        );
        list::extend(&mut options, &ours);

        if let Some(port) = self.port {
            options.push("-p".to_string());
            options.push(number::render(port as u64));
        }
        if let Some(ssh_config) = &self.ssh_config {
            options.push("-F".to_string());
            options.push(ssh_config.clone());
        }
        assert(list::texts(options@) =~= self@.options());
        options
    }

    /// Returns a command to run a Nix command on the host.
    fn remote_nix(&self, command: NixCommand) -> (r: Command)
        ensures
            r@ == self@.remote_nix(command@),
    {
        let command: NixCommand = match self.system_type.nix_bin_dir() {
            Some(dir) => command.bin_dir(dir),
            None => command,
        };
        self.ssh_argv(command.into_argv())
    }

    /// Returns the command that realises a derivation on the host. It prints
    /// the store paths, see [`crate::store::parse_paths`].
    pub fn realize_remote(&self, derivation: &StorePath) -> (r: Command)
        ensures
            r@ == self@.remote_nix(
                InvocationModel::new(ExeModel::NixStore, self@.nix_flags).with_args(
                    seq!["--no-gc-warning"@, "--realise"@, derivation@],
                ),
            ),
    {
        self.remote_nix(derivation.realise_command(&self.nix_flags))
    }

    /// Returns what to run to deploy a profile.
    ///
    /// Fails for a goal that does not activate, and for one the system type
    /// does not support, before anything runs.
    pub fn activate(&self, profile: &Profile, goal: Goal) -> (r: ColmenaResult<Plan>)
        ensures
            match r {
                Ok(plan) => self@.plan(profile@, goal) == Ok::<PlanModel, ErrorModel>(plan@),
                Err(e) => self@.plan(profile@, goal) == Err::<PlanModel, ErrorModel>(e@),
            },
    {
        if !goal.requires_activation() {
            return Err(ColmenaError::Unsupported);
        }
        let activation_command: Vec<String> = match profile.activation_command(
            goal,
            self.system_type,
        ) {
            Ok(argv) => argv,
            Err(e) => {
                return Err(e);
            },
        };

        let set_profile: Option<Command> = if goal.should_switch_profile() {
            Some(self.remote_nix(profile.switch_profile_command(&self.nix_flags)))
        } else {
            None
        };

        // switch and test may restart the network and drop the session
        // nix-darwin has no systemd to detach into
        let activation: Activation = if self.detached_activation && matches!(
            self.system_type,
            SystemType::NixOS
        ) && matches!(goal, Goal::Switch | Goal::Test) {
            Activation::Detached(activation_command)
        } else {
            Activation::Direct(self.ssh_words(&activation_command))
        };
        Ok(Plan { set_profile, activation })
    }

    /// Returns the command that prints the profile that runs now, see
    /// [`Profile::parse`].
    pub fn get_current_system_profile(&self) -> (r: Command)
        ensures
            r@ == self@.ssh(seq!["readlink"@, "-f"@, CURRENT_PROFILE@]),
    {
        let command = self.ssh(&["readlink", "-f", CURRENT_PROFILE]);
        assert(list::strs(["readlink", "-f", CURRENT_PROFILE]@) =~= seq![
            "readlink"@,
            "-f"@,
            CURRENT_PROFILE@,
        ]);
        command
    }

    /// Returns the command that prints the system profile, see
    /// [`Profile::parse`].
    pub fn get_main_system_profile(&self) -> (r: Command)
        ensures
            r@ == self@.ssh_argv(seq!["sh"@, "-c"@, MAIN_PROFILE_SCRIPT@]),
    {
        let argv: Vec<String> = list::owned(&["sh", "-c", MAIN_PROFILE_SCRIPT]);
        assert(list::texts(argv@) =~= seq!["sh"@, "-c"@, MAIN_PROFILE_SCRIPT@]);
        self.ssh_argv(argv)
    }

    /// Returns the command that uploads a key, whose contents it reads from
    /// stdin.
    pub fn upload_key(&self, key: &Key, require_ownership: bool) -> (r: Command)
        ensures
            r@ == self@.ssh_argv(
                seq![
                    "sh"@,
                    "-c"@,
                    key_uploader::script(
                        key.path@,
                        key.user@,
                        key.group@,
                        key.permissions@,
                        require_ownership,
                    ),
                ],
            ),
    {
        let key_script: String = key_uploader::generate_script(key, key.path(), require_ownership);
        let argv: Vec<String> = list::owned(&["sh", "-c", key_script.as_str()]);
        assert(list::texts(argv@) =~= seq!["sh"@, "-c"@, key_script@]);
        self.ssh_argv(argv)
    }

    /// Returns the command that stops a unit.
    pub fn stop_unit(&self, unit: &str) -> (r: Command)
        ensures
            r@ == self@.ssh(seq!["systemctl"@, "stop"@, unit@]),
    {
        let command = self.ssh(&["systemctl", "stop", unit]);
        assert(list::strs(["systemctl", "stop", unit]@) =~= seq!["systemctl"@, "stop"@, unit@]);
        command
    }

    /// Returns the command that prints the current boot ID.
    pub fn get_boot_id(&self) -> (r: Command)
        ensures
            r@ == self@.ssh(
                match self@.system_type {
                    SystemType::NixOS => seq!["cat"@, "/proc/sys/kernel/random/boot_id"@],
                    SystemType::Darwin => seq!["sysctl"@, "-n"@, "kern.bootsessionuuid"@],
                },
            ),
    {
        let command: Vec<String> = match self.system_type {
            SystemType::NixOS => list::owned(&["cat", "/proc/sys/kernel/random/boot_id"]),
            SystemType::Darwin => list::owned(&["sysctl", "-n", "kern.bootsessionuuid"]),
        };
        assert(list::texts(command@) =~= match self@.system_type {
            SystemType::NixOS => seq!["cat"@, "/proc/sys/kernel/random/boot_id"@],
            SystemType::Darwin => seq!["sysctl"@, "-n"@, "kern.bootsessionuuid"@],
        });
        self.ssh_words(&command)
    }

    /// Returns the command that reboots the host.
    pub fn initate_reboot(&self) -> (r: Command)
        ensures
            r@ == self@.ssh(seq!["reboot"@]),
    {
        let command = self.ssh(&["reboot"]);
        assert(list::strs(["reboot"]@) =~= seq!["reboot"@]);
        command
    }
}

/// The remote shell reads exactly the arguments of a generated command, after
/// the words of the command to elevate privileges with.
pub proof fn law_remote_shell_reads_the_arguments(host: SshModel, argv: Seq<Seq<char>>)
    requires
        shell::shell_words(text::joined(host.escalation(), seq![' '])) is Some,
    ensures
        host.ssh_argv(argv).args == seq![host.target()] + host.options() + seq!["--"@]
            + host.remote_words(shell::escaped_all(argv)),
        shell::shell_words(
            text::joined(host.remote_words(shell::escaped_all(argv)), seq![' ']),
        ) == Some(
            shell::shell_words(text::joined(host.escalation(), seq![' ']))->0 + argv,
        ),
{
    shell::law_words_in_front_keep_arguments(host.escalation(), argv);
}

/// Whether a shell takes each text as one word as it stands.
pub open spec fn all_plain(words: Seq<Seq<char>>) -> bool {
    forall|i: int| 0 <= i < words.len() ==> shell::is_plain_word(#[trigger] words[i])
}

/// A command of plain words can be run as it stands: escaping its words
/// changes nothing.
pub proof fn law_plain_words_need_no_escaping(host: SshModel, words: Seq<Seq<char>>)
    requires
        all_plain(words),
    ensures
        host.ssh(words) == host.ssh_argv(words),
{
    assert forall|i: int| 0 <= i < words.len() implies #[trigger] words[i] == shell::escaped_all(
        words,
    )[i] by {
        assert(shell::is_plain_word(words[i]));
    }
    assert(shell::escaped_all(words) =~= words);
}

/// The commands that run on a host as they stand consist of plain words: to
/// reboot, to read the profile that runs and the boot ID, and to stop a unit.
pub proof fn law_fixed_commands_are_plain(id: Seq<char>)
    requires
        detached::is_random_uuid(id),
    ensures
        all_plain(seq!["reboot"@]),
        all_plain(seq!["readlink"@, "-f"@, CURRENT_PROFILE@]),
        all_plain(seq!["cat"@, "/proc/sys/kernel/random/boot_id"@]),
        all_plain(seq!["sysctl"@, "-n"@, "kern.bootsessionuuid"@]),
        all_plain(seq!["systemctl"@, "stop"@, detached::unit_text(id)]),
{
    reveal_strlit("reboot");
    reveal_strlit("readlink");
    reveal_strlit("-f");
    reveal_strlit("/run/current-system");
    reveal_strlit("cat");
    reveal_strlit("/proc/sys/kernel/random/boot_id");
    reveal_strlit("sysctl");
    reveal_strlit("-n");
    reveal_strlit("kern.bootsessionuuid");
    reveal_strlit("systemctl");
    reveal_strlit("stop");
    detached::law_unit_name_is_plain(id);
}

/// The command that activates a profile consists of plain words if the path of
/// the profile does, and can then be run as it stands.
pub proof fn law_activation_is_plain(profile: Seq<char>, goal: Goal, system_type: SystemType)
    requires
        shell::is_plain_word(profile),
    ensures
        profile::activation(profile, goal, system_type) matches Some(words) ==> all_plain(words),
{
    reveal_strlit("/");
    reveal_strlit("bin/switch-to-configuration");
    reveal_strlit("activate");
    reveal_strlit("switch");
    reveal_strlit("boot");
    reveal_strlit("test");
    reveal_strlit("dry-activate");
    lemma_plain_below(profile, "bin/switch-to-configuration"@);
    lemma_plain_below(profile, "activate"@);
}

proof fn lemma_plain_below(dir: Seq<char>, name: Seq<char>)
    requires
        shell::is_plain_word(dir),
        shell::is_plain_word(name),
    ensures
        shell::is_plain_word(path::below(dir, name)),
{
    reveal_strlit("/");
    let all = path::below(dir, name);
    if all != name {
        assert forall|i: int| 0 <= i < all.len() implies shell::is_plain(#[trigger] all[i]) by {
            if i < dir.len() {
                assert(all[i] == dir[i]);
            } else if i >= all.len() - name.len() {
                assert(all[i] == name[i - (all.len() - name.len())]);
            }
        }
    }
}

/// A user who is root needs no elevated privileges: the remote shell gets the
/// command alone.
pub proof fn law_root_is_not_escalated(host: SshModel, command: Seq<Seq<char>>)
    requires
        host.user == Some("root"@),
    ensures
        host.remote_words(command) == command,
{
    assert(host.remote_words(command) =~= command);
}

/// The extra options of a host come before all others, so that they override
/// them, and Nix gets the same options as ssh.
pub proof fn law_extra_options_come_first(host: SshModel, command: Seq<Seq<char>>)
    ensures
        host.options().take(host.extra_ssh_options.len() as int) == host.extra_ssh_options,
        host.ssh(command).args.subrange(1, 1 + host.options().len() as int) == host.options(),
        host.ssh(command).env == seq![("NIX_SSHOPTS"@, text::joined(host.options(), " "@))],
{
    assert(host.options().take(host.extra_ssh_options.len() as int) =~= host.extra_ssh_options);
    assert(host.ssh(command).args.subrange(1, 1 + host.options().len() as int) =~= host.options());
}

/// Whether three arguments that stand together pass a setting.
pub open spec fn passes_setting(
    args: Seq<Seq<char>>,
    at: int,
    setting: (Seq<char>, Seq<char>),
) -> bool {
    0 <= at <= args.len() - 3 && args.subrange(at, at + 3) == seq![
        "--option"@,
        setting.0,
        setting.1,
    ]
}

/// A copy of a closure gets every setting of the Nix flags, whichever command
/// makes the copy.
pub proof fn law_copy_gets_every_setting(
    host: SshModel,
    path: Seq<char>,
    direction: CopyDirection,
    options: CopyOptions,
    i: int,
)
    requires
        0 <= i < host.nix_flags.options.len(),
    ensures
        exists|at: int|
            passes_setting(
                host.copy(path, direction, options).args,
                at,
                host.nix_flags.options[i],
            ),
{
    let invocation = host.copy_invocation(path, direction, options);
    command::law_settings_are_passed_in_order(invocation, i);
    let argv = invocation.argv();
    let args = host.copy(path, direction, options).args;
    let features = command::feature_args(invocation.exe.features() + invocation.extra_features);
    let first = argv.len() - features.len() - 3 * invocation.flags.options.len();
    let at = first + 3 * i;
    assert(args.subrange(at - 1, at + 2) =~= argv.subrange(at, at + 3));
    assert(passes_setting(args, at - 1, host.nix_flags.options[i]));
}

/// A copy to or from a darwin host uses `nix copy`. It goes to a store whose
/// URI names the nix-daemon of the directory that nix-darwin manages.
pub proof fn law_darwin_copies_with_nix_copy(
    host: SshModel,
    path: Seq<char>,
    direction: CopyDirection,
    options: CopyOptions,
)
    requires
        host.system_type == SystemType::Darwin,
    ensures
        ({
            let copy = host.copy(path, direction, options);
            let uri = host.store_uri(options.gzip);
            &&& copy.program == "nix"@
            &&& copy.args[0] == "copy"@
            &&& exists|at: int|
                0 <= at < copy.args.len() - 2 && #[trigger] copy.args[at] == direction_flag(
                    direction,
                ) && copy.args[at + 1] == uri && copy.args[at + 2] == path
            &&& text::begins_with(
                uri,
                "ssh-ng://"@ + host.target() + "?"@ + ("remote-program="@ + DARWIN_BIN_DIR@
                    + "/nix-daemon"@),
            )
        }),
{
    let args = host.copy(path, direction, options).args;
    let n: int = host.nix3_copy(path, direction, options).args.len() - 3;
    assert(args[n] == direction_flag(direction));
    assert(args[n + 1] == host.store_uri(options.gzip));
    assert(args[n + 2] == path);

    let params = host.store_params(options.gzip);
    let program = "remote-program="@ + DARWIN_BIN_DIR@ + "/nix-daemon"@;
    let front = "ssh-ng://"@ + host.target() + "?"@;
    let uri = host.store_uri(options.gzip);
    assert(params[0] == program);
    let joined = text::joined(params, "&"@);
    assert(joined.take(program.len() as int) =~= program) by {
        if params.len() > 1 {
            assert(joined =~= program + ("&"@ + text::joined(params.drop_first(), "&"@)));
        }
    }
    assert(uri.take((front + program).len() as int) =~= front + joined.take(program.len() as int));
}

/// A Nix command on a darwin host runs from the directory that nix-darwin
/// manages, and on a NixOS host from PATH.
pub proof fn law_remote_nix_runs_from_the_bin_dir(
    host: SshModel,
    exe: ExeModel,
    flags: FlagsModel,
    args: Seq<Seq<char>>,
)
    requires
        !(exe is NixEvalJobs),
    ensures
        ({
            let command = InvocationModel::new(exe, flags).with_args(args);
            let executable = match host.system_type {
                SystemType::NixOS => exe.name(),
                SystemType::Darwin => path::below(DARWIN_BIN_DIR@, exe.name()),
            };
            host.remote_nix(command) == host.ssh_argv(seq![executable] + command.all_args())
        }),
{
}

/// A goal is planned exactly if it activates and the system type supports it.
/// The profile is made the system profile exactly for a switch and a boot.
pub proof fn law_plan_follows_the_goal(host: SshModel, profile: Seq<char>, goal: Goal)
    ensures
        host.plan(profile, goal) is Ok <==> goal.activates() && host.system_type.can(goal),
        host.plan(profile, goal) matches Ok(plan) ==> (plan.set_profile is Some <==> goal
            == Goal::Switch || goal == Goal::Boot),
{
}

/// An activation runs in a transient unit exactly for a switch or a test of a
/// NixOS host that detaches. A darwin host activates in the session.
pub proof fn law_plan_detaches(host: SshModel, profile: Seq<char>, goal: Goal)
    ensures
        host.plan(profile, goal) matches Ok(plan) ==> {
            &&& plan.activation is Detached <==> host.detached_activation && (goal == Goal::Switch
                || goal == Goal::Test) && host.system_type == SystemType::NixOS
            &&& host.system_type == SystemType::Darwin ==> plan.activation is Direct
        },
{
}

/// A user stands before the host, with an `@` between them.
pub proof fn law_the_target_names_the_user(host: SshModel, user: Seq<char>)
    ensures
        (SshModel { user: None, ..host }).target() == host.host,
        (SshModel { user: Some(user), ..host }).target() == user + seq!['@'] + host.host,
{
    reveal_strlit("@");
    assert("@"@ =~= seq!['@']);
}

/// A port adds `-p` and its number to the options of ssh, and an ssh_config
/// adds `-F` and its path. Each does so whatever the other is, and changes
/// nothing else. Without both, the options are the extra ones and those that
/// every host gets.
pub proof fn law_each_ssh_option_adds_its_own_pair(
    host: SshModel,
    port: u16,
    ssh_config: Seq<char>,
)
    ensures
        ({
            let bare = SshModel { port: None, ssh_config: None, ..host };
            let every = seq![
                "-o"@,
                "StrictHostKeyChecking=accept-new"@,
                "-o"@,
                "BatchMode=yes"@,
                "-T"@,
            ];
            let at = (host.extra_ssh_options.len() + 5) as int;
            let ported = SshModel { port: Some(port), ..host }.options();
            let unported = SshModel { port: None, ..host }.options();
            let configured = SshModel { ssh_config: Some(ssh_config), ..host }.options();
            let unconfigured = SshModel { ssh_config: None, ..host }.options();
            &&& bare.options() == host.extra_ssh_options + every
            &&& ported == unported.take(at) + seq!["-p"@, number::decimal(port as int)]
                + unported.skip(at)
            &&& configured == unconfigured + seq!["-F"@, ssh_config]
        }),
{
    let bare = SshModel { port: None, ssh_config: None, ..host };
    let every = seq![
        "-o"@,
        "StrictHostKeyChecking=accept-new"@,
        "-o"@,
        "BatchMode=yes"@,
        "-T"@,
    ];
    let at = (host.extra_ssh_options.len() + 5) as int;
    let ported = SshModel { port: Some(port), ..host }.options();
    let unported = SshModel { port: None, ..host }.options();
    let configured = SshModel { ssh_config: Some(ssh_config), ..host }.options();
    let unconfigured = SshModel { ssh_config: None, ..host }.options();
    assert(bare.options() =~= host.extra_ssh_options + every);
    assert(ported =~= unported.take(at) + seq!["-p"@, number::decimal(port as int)]
        + unported.skip(at));
    assert(configured =~= unconfigured + seq!["-F"@, ssh_config]);
}

/// The options of ssh depend on the extra options, the port and the ssh_config
/// of a host, and on nothing else about it.
pub proof fn law_ssh_options_depend_on_the_connection_only(a: SshModel, b: SshModel)
    requires
        a.extra_ssh_options == b.extra_ssh_options,
        a.port == b.port,
        a.ssh_config == b.ssh_config,
    ensures
        a.options() == b.options(),
{
}

/// A command on a host is run by ssh, which gets the target, its options and
/// then the words. A user other than root gets the words to elevate privileges
/// in front. Nix gets the same options in its environment.
pub proof fn law_ssh_runs_the_words_on_the_target(host: SshModel, words: Seq<Seq<char>>)
    ensures
        ({
            let command = host.ssh(words);
            let before = seq![host.target()] + host.options() + seq!["--"@];
            &&& command.program == "ssh"@
            &&& host.user == Some("root"@) ==> command.args == before + words
            &&& host.user != Some("root"@) ==> command.args == before
                + host.privilege_escalation_command + words
            &&& command.env == seq![("NIX_SSHOPTS"@, text::joined(host.options(), " "@))]
        }),
{
    let before = seq![host.target()] + host.options() + seq!["--"@];
    let none = Seq::<Seq<char>>::empty();
    assert(none + words =~= words);
    assert(before + (host.privilege_escalation_command + words) =~= before
        + host.privilege_escalation_command + words);
}

/// A generated command is a command whose words are escaped one by one.
pub proof fn law_generated_commands_are_escaped(host: SshModel, argv: Seq<Seq<char>>)
    ensures
        ({
            let args = host.ssh_argv(argv).args;
            let plain = host.ssh(argv).args;
            let front = plain.len() - argv.len();
            &&& args.len() == plain.len()
            &&& args.take(front) == plain.take(front)
            &&& forall|i: int|
                0 <= i < argv.len() ==> #[trigger] args[front + i] == shell::escaped(argv[i])
            &&& host.ssh_argv(argv).program == "ssh"@
            &&& host.ssh_argv(argv).env == host.ssh(argv).env
        }),
{
    let args = host.ssh_argv(argv).args;
    let plain = host.ssh(argv).args;
    let front = plain.len() - argv.len();
    law_ssh_runs_the_words_on_the_target(host, argv);
    law_ssh_runs_the_words_on_the_target(host, shell::escaped_all(argv));
    assert(args.take(front) =~= plain.take(front));
}

/// What a plan runs to set the profile: `nix-env` from where the host has its
/// Nix, on the system profile, with the flags of the host. It does so for a
/// switch and a boot, and not for a test or a dry run.
pub proof fn law_a_plan_sets_the_profile(host: SshModel, profile: Seq<char>, goal: Goal)
    ensures
        host.plan(profile, goal) matches Ok(plan) ==> plan.set_profile == if goal == Goal::Switch
            || goal == Goal::Boot {
            let nix_env = match host.system_type {
                SystemType::NixOS => "nix-env"@,
                SystemType::Darwin => "/run/current-system/sw/bin/nix-env"@,
            };
            let bare = InvocationModel::new(ExeModel::NixEnv, host.nix_flags);
            Some(
                host.ssh(
                    shell::escaped_all(
                        seq![
                            nix_env,
                            "--profile"@,
                            "/nix/var/nix/profiles/system"@,
                            "--set"@,
                            profile,
                        ] + bare.argv().skip(1),
                    ),
                ),
            )
        } else {
            None
        },
{
    let args = seq!["--profile"@, "/nix/var/nix/profiles/system"@, "--set"@, profile];
    let bare = InvocationModel::new(ExeModel::NixEnv, host.nix_flags);
    let nix_env = match host.system_type {
        SystemType::NixOS => "nix-env"@,
        SystemType::Darwin => "/run/current-system/sw/bin/nix-env"@,
    };
    lemma_darwin_nix_env();
    let command = InvocationModel {
        bin_dir: host.system_type.bin_dir(),
        ..bare.with_args(args)
    };
    assert(command.executable() == nix_env);
    assert(bare.argv().skip(1) =~= bare.flag_args());
    assert(bare.flag_args() == command.flag_args());
    assert(command.args =~= args);
    assert(command.argv() =~= seq![
        nix_env,
        "--profile"@,
        "/nix/var/nix/profiles/system"@,
        "--set"@,
        profile,
    ] + bare.argv().skip(1));
}

proof fn lemma_darwin_nix_env()
    ensures
        ExeModel::NixEnv.executable(Some(DARWIN_BIN_DIR@)) == "/run/current-system/sw/bin/nix-env"@,
{
    reveal_strlit("/run/current-system/sw/bin");
    reveal_strlit("/run/current-system/sw/bin/nix-env");
    reveal_strlit("nix-env");
    command::law_executables_have_their_names(DARWIN_BIN_DIR@);
    assert(DARWIN_BIN_DIR@ + seq!['/'] + "nix-env"@ =~= "/run/current-system/sw/bin/nix-env"@);
}

/// Which goals are refused, and with which error: those that do not activate
/// on every host, and those that darwin does not have on a darwin host.
/// Everything else is planned.
pub proof fn law_plans_refuse_what_cannot_be_done(host: SshModel, profile: Seq<char>, goal: Goal)
    ensures
        host.plan(profile, goal) is Err <==> match goal {
            Goal::Build | Goal::Push | Goal::UploadKeys => true,
            Goal::Boot | Goal::Test | Goal::DryActivate => host.system_type == SystemType::Darwin,
            Goal::Switch => false,
        },
        host.plan(profile, goal) matches Err(e) ==> e == match goal {
            Goal::Build | Goal::Push | Goal::UploadKeys => ErrorModel::Unsupported,
            _ => ErrorModel::UnsupportedGoal { goal, system_type: SystemType::Darwin },
        },
{
}

/// What a plan activates a profile with: the script below the profile, as it
/// stands in the session or in a transient unit. It is in a unit exactly for a
/// switch or a test of a NixOS host that detaches.
pub proof fn law_a_plan_runs_the_activation(host: SshModel, profile: Seq<char>, goal: Goal)
    ensures
        host.plan(profile, goal) matches Ok(plan) ==> {
            let argv = match host.system_type {
                SystemType::NixOS => seq![
                    path::below(profile, "bin/switch-to-configuration"@),
                    match goal {
                        Goal::Switch => "switch"@,
                        Goal::Boot => "boot"@,
                        Goal::Test => "test"@,
                        _ => "dry-activate"@,
                    },
                ],
                SystemType::Darwin => seq![path::below(profile, "activate"@)],
            };
            plan.activation == if host.detached_activation && host.system_type == SystemType::NixOS
                && (goal == Goal::Switch || goal == Goal::Test) {
                ActivationModel::Detached(argv)
            } else {
                ActivationModel::Direct(host.ssh(argv))
            }
        },
{
}

/// How a closure is copied: with `nix copy` if that is wanted or the host is a
/// darwin one, and with `nix-copy-closure` otherwise, in the environment that
/// ssh gets.
pub proof fn law_the_host_decides_how_to_copy(
    host: SshModel,
    path: Seq<char>,
    direction: CopyDirection,
    options: CopyOptions,
)
    ensures
        host.copy(path, direction, options).program == if host.use_nix3_copy || host.system_type
            == SystemType::Darwin {
            "nix"@
        } else {
            "nix-copy-closure"@
        },
        host.copy(path, direction, options).env == host.ssh(Seq::empty()).env,
{
}

/// A number for a condition: one if it holds.
pub open spec fn count(condition: bool) -> int {
    if condition {
        1
    } else {
        0
    }
}

/// Each option of `nix-copy-closure` adds its own flag before the target,
/// whatever the others are. Without options, a copy consists of the direction,
/// the target, the path and the flags of the host.
pub proof fn law_legacy_copy_options_add_their_own_flag(
    host: SshModel,
    path: Seq<char>,
    direction: CopyDirection,
    options: CopyOptions,
)
    requires
        !host.use_nix3_copy,
        host.system_type == SystemType::NixOS,
    ensures
        ({
            let args = |options: CopyOptions| host.copy(path, direction, options).args;
            let flag = if direction == CopyDirection::ToRemote {
                "--to"@
            } else {
                "--from"@
            };
            let outputs = count(options.include_outputs);
            let substitute = count(options.use_substitutes);
            let bare = InvocationModel::new(ExeModel::NixCopyClosure, host.nix_flags);
            &&& args(
                CopyOptions { include_outputs: false, use_substitutes: false, gzip: false },
            ) == seq![flag, host.target(), path] + bare.argv().skip(1)
            &&& args(CopyOptions { include_outputs: true, ..options }) == args(
                CopyOptions { include_outputs: false, ..options },
            ).insert(1, "--include-outputs"@)
            &&& args(CopyOptions { use_substitutes: true, ..options }) == args(
                CopyOptions { use_substitutes: false, ..options },
            ).insert(1 + outputs, "--use-substitutes"@)
            &&& args(CopyOptions { gzip: true, ..options }) == args(
                CopyOptions { gzip: false, ..options },
            ).insert(1 + outputs + substitute, "--gzip"@)
        }),
{
    let bare = InvocationModel::new(ExeModel::NixCopyClosure, host.nix_flags);
    let none = CopyOptions { include_outputs: false, use_substitutes: false, gzip: false };
    assert(bare.argv().skip(1) =~= bare.flag_args());
    let first = direction_flag(direction);
    let tail = seq![host.target(), path] + bare.flag_args();
    lemma_legacy_args(host, path, direction, none);
    assert(legacy_args(first, none, tail) =~= seq![first, host.target(), path] + bare.flag_args());
    lemma_legacy_args(host, path, direction, CopyOptions { include_outputs: true, ..options });
    lemma_legacy_args(host, path, direction, CopyOptions { include_outputs: false, ..options });
    lemma_legacy_args(host, path, direction, CopyOptions { use_substitutes: true, ..options });
    lemma_legacy_args(host, path, direction, CopyOptions { use_substitutes: false, ..options });
    lemma_legacy_args(host, path, direction, CopyOptions { gzip: true, ..options });
    lemma_legacy_args(host, path, direction, CopyOptions { gzip: false, ..options });
    lemma_legacy_toggles(first, options, tail);
}

/// The arguments of `nix-copy-closure`, with `tail` after its options.
#[verifier::opaque]
spec fn legacy_args(first: Seq<char>, options: CopyOptions, tail: Seq<Seq<char>>) -> Seq<
    Seq<char>,
> {
    seq![first] + command::when(options.include_outputs, "--include-outputs"@) + command::when(
        options.use_substitutes,
        "--use-substitutes"@,
    ) + command::when(options.gzip, "--gzip"@) + tail
}

proof fn lemma_legacy_toggles(first: Seq<char>, options: CopyOptions, tail: Seq<Seq<char>>)
    ensures
        legacy_args(first, CopyOptions { include_outputs: true, ..options }, tail) == legacy_args(
            first,
            CopyOptions { include_outputs: false, ..options },
            tail,
        ).insert(1, "--include-outputs"@),
        legacy_args(first, CopyOptions { use_substitutes: true, ..options }, tail) == legacy_args(
            first,
            CopyOptions { use_substitutes: false, ..options },
            tail,
        ).insert(1 + count(options.include_outputs), "--use-substitutes"@),
        legacy_args(first, CopyOptions { gzip: true, ..options }, tail) == legacy_args(
            first,
            CopyOptions { gzip: false, ..options },
            tail,
        ).insert(
            1 + count(options.include_outputs) + count(options.use_substitutes),
            "--gzip"@,
        ),
{
    reveal(legacy_args);
    assert(legacy_args(first, CopyOptions { include_outputs: true, ..options }, tail)
        =~= legacy_args(first, CopyOptions { include_outputs: false, ..options }, tail).insert(
        1,
        "--include-outputs"@,
    ));
    assert(legacy_args(first, CopyOptions { use_substitutes: true, ..options }, tail)
        =~= legacy_args(first, CopyOptions { use_substitutes: false, ..options }, tail).insert(
        1 + count(options.include_outputs),
        "--use-substitutes"@,
    ));
    assert(legacy_args(first, CopyOptions { gzip: true, ..options }, tail) =~= legacy_args(
        first,
        CopyOptions { gzip: false, ..options },
        tail,
    ).insert(1 + count(options.include_outputs) + count(options.use_substitutes), "--gzip"@));
}

proof fn lemma_legacy_args(
    host: SshModel,
    path: Seq<char>,
    direction: CopyDirection,
    options: CopyOptions,
)
    requires
        !host.use_nix3_copy,
        host.system_type == SystemType::NixOS,
    ensures
        host.copy(path, direction, options).args == legacy_args(
            direction_flag(direction),
            options,
            seq![host.target(), path] + InvocationModel::new(
                ExeModel::NixCopyClosure,
                host.nix_flags,
            ).flag_args(),
        ),
{
    reveal(legacy_args);
    let none = Seq::<Seq<char>>::empty();
    let (outputs, substitutes) = ("--include-outputs"@, "--use-substitutes"@);
    let front = seq![direction_flag(direction)] + command::when(options.include_outputs, outputs)
        + command::when(options.use_substitutes, substitutes) + command::when(
        options.gzip,
        "--gzip"@,
    );
    let end = seq![host.target(), path];
    let flags = InvocationModel::new(ExeModel::NixCopyClosure, host.nix_flags).flag_args();
    assert(none + (front + end) =~= front + end);
    assert(front + end + flags =~= front + (end + flags));
}

/// Each option of `nix copy` has its own effect, whatever the others are:
/// substitutes add two flags, a derivation adds one, and compression adds a
/// parameter to the URI of the store. Outputs are always among the closure.
/// Without options, a copy consists of the direction, the store, the path and
/// the flags of the host.
pub proof fn law_nix3_copy_options_have_their_own_effect(
    host: SshModel,
    path: Seq<char>,
    direction: CopyDirection,
    options: CopyOptions,
)
    requires
        host.use_nix3_copy || host.system_type == SystemType::Darwin,
    ensures
        ({
            let args = |options: CopyOptions| host.copy(path, direction, options).args;
            let bare = InvocationModel::new(ExeModel::Nix, host.nix_flags);
            let flag = if direction == CopyDirection::ToRemote {
                "--to"@
            } else {
                "--from"@
            };
            let derivation = count(path::is_drv(path));
            let derivation_flag = if path::is_drv(path) {
                seq!["--derivation"@]
            } else {
                Seq::empty()
            };
            let uri = 3 + 2 * count(options.use_substitutes) + derivation;
            let plain = "ssh-ng://"@ + host.target();
            let (store, separator) = match host.system_type {
                SystemType::NixOS => (plain, "?"@),
                SystemType::Darwin => (
                    plain + "?remote-program=/run/current-system/sw/bin/nix-daemon"@,
                    "&"@,
                ),
            };
            &&& args(
                CopyOptions { include_outputs: false, use_substitutes: false, gzip: false },
            ) == seq!["copy"@, "--no-check-sigs"@] + derivation_flag + seq![
                flag,
                store,
                path,
            ] + bare.argv().skip(1)
            &&& args(CopyOptions { include_outputs: true, ..options }) == args(
                CopyOptions { include_outputs: false, ..options },
            )
            &&& args(CopyOptions { use_substitutes: true, ..options }) == args(
                CopyOptions { use_substitutes: false, ..options },
            ).insert(2, "--builders-use-substitutes"@).insert(2, "--substitute-on-destination"@)
            &&& args(CopyOptions { gzip: true, ..options }) == args(
                CopyOptions { gzip: false, ..options },
            ).update(uri, store + separator + "compress=true"@)
        }),
{
    let bare = InvocationModel::new(ExeModel::Nix, host.nix_flags);
    let none = CopyOptions { include_outputs: false, use_substitutes: false, gzip: false };
    assert(bare.argv().skip(1) =~= bare.flag_args());
    lemma_store_uris(host);
    let flag = direction_flag(direction);
    let drv = path::is_drv(path);
    let (off, on) = (host.store_uri(false), host.store_uri(true));
    let tail = seq![path] + bare.flag_args();
    lemma_nix3_args(host, path, direction, none);
    assert(nix3_args(false, drv, flag, off, tail) =~= seq!["copy"@, "--no-check-sigs"@]
        + command::when(drv, "--derivation"@) + seq![flag, off, path] + bare.flag_args()) by {
        reveal(nix3_args);
    }
    lemma_nix3_args(host, path, direction, CopyOptions { include_outputs: true, ..options });
    lemma_nix3_args(host, path, direction, CopyOptions { include_outputs: false, ..options });
    lemma_nix3_args(host, path, direction, CopyOptions { use_substitutes: true, ..options });
    lemma_nix3_args(host, path, direction, CopyOptions { use_substitutes: false, ..options });
    lemma_nix3_args(host, path, direction, CopyOptions { gzip: true, ..options });
    lemma_nix3_args(host, path, direction, CopyOptions { gzip: false, ..options });
    lemma_nix3_toggles(options.use_substitutes, drv, flag, off, on, tail);
    lemma_nix3_toggles(options.use_substitutes, drv, flag, on, on, tail);
}

/// The arguments of `nix copy`, with `tail` after the store.
#[verifier::opaque]
spec fn nix3_args(
    substitutes: bool,
    derivation: bool,
    flag: Seq<char>,
    store: Seq<char>,
    tail: Seq<Seq<char>>,
) -> Seq<Seq<char>> {
    seq!["copy"@, "--no-check-sigs"@] + command::when(substitutes, "--substitute-on-destination"@)
        + command::when(substitutes, "--builders-use-substitutes"@) + command::when(
        derivation,
        "--derivation"@,
    ) + seq![flag, store] + tail
}

proof fn lemma_nix3_toggles(
    substitutes: bool,
    derivation: bool,
    flag: Seq<char>,
    store: Seq<char>,
    other: Seq<char>,
    tail: Seq<Seq<char>>,
)
    ensures
        nix3_args(true, derivation, flag, store, tail) == nix3_args(
            false,
            derivation,
            flag,
            store,
            tail,
        ).insert(2, "--builders-use-substitutes"@).insert(2, "--substitute-on-destination"@),
        nix3_args(substitutes, derivation, flag, other, tail) == nix3_args(
            substitutes,
            derivation,
            flag,
            store,
            tail,
        ).update(3 + 2 * count(substitutes) + count(derivation), other),
{
    reveal(nix3_args);
    assert(nix3_args(true, derivation, flag, store, tail) =~= nix3_args(
        false,
        derivation,
        flag,
        store,
        tail,
    ).insert(2, "--builders-use-substitutes"@).insert(2, "--substitute-on-destination"@));
    assert(nix3_args(substitutes, derivation, flag, other, tail) =~= nix3_args(
        substitutes,
        derivation,
        flag,
        store,
        tail,
    ).update(3 + 2 * count(substitutes) + count(derivation), other));
}

proof fn lemma_nix3_args(
    host: SshModel,
    path: Seq<char>,
    direction: CopyDirection,
    options: CopyOptions,
)
    requires
        host.use_nix3_copy || host.system_type == SystemType::Darwin,
    ensures
        host.copy(path, direction, options).args == nix3_args(
            options.use_substitutes,
            path::is_drv(path),
            direction_flag(direction),
            host.store_uri(options.gzip),
            seq![path] + InvocationModel::new(ExeModel::Nix, host.nix_flags).flag_args(),
        ),
{
    reveal(nix3_args);
    let none = Seq::<Seq<char>>::empty();
    let front = seq!["copy"@, "--no-check-sigs"@] + command::when(
        options.use_substitutes,
        "--substitute-on-destination"@,
    ) + command::when(options.use_substitutes, "--builders-use-substitutes"@) + command::when(
        path::is_drv(path),
        "--derivation"@,
    );
    let store = host.store_uri(options.gzip);
    let flag = direction_flag(direction);
    let flags = InvocationModel::new(ExeModel::Nix, host.nix_flags).flag_args();
    assert(none + (front + seq![flag, store, path]) =~= front + seq![flag, store, path]);
    assert(front + seq![flag, store, path] + flags =~= front + seq![flag, store] + (seq![path]
        + flags));
}

proof fn lemma_store_uris(host: SshModel)
    ensures
        ({
            let plain = "ssh-ng://"@ + host.target();
            let daemon = "?remote-program=/run/current-system/sw/bin/nix-daemon"@;
            &&& host.system_type == SystemType::NixOS ==> host.store_uri(false) == plain
                && host.store_uri(true) == plain + "?"@ + "compress=true"@
            &&& host.system_type == SystemType::Darwin ==> host.store_uri(false) == plain + daemon
                && host.store_uri(true) == plain + daemon + "&"@ + "compress=true"@
        }),
{
    reveal_strlit("?");
    reveal_strlit("remote-program=");
    reveal_strlit("/run/current-system/sw/bin");
    reveal_strlit("/nix-daemon");
    reveal_strlit("?remote-program=/run/current-system/sw/bin/nix-daemon");
    let program = "remote-program="@ + DARWIN_BIN_DIR@ + "/nix-daemon"@;
    let daemon = "?remote-program=/run/current-system/sw/bin/nix-daemon"@;
    assert("?"@ + program =~= daemon);
    let plain = "ssh-ng://"@ + host.target();
    let none = Seq::<Seq<char>>::empty();
    let compress = "compress=true"@;
    match host.system_type {
        SystemType::NixOS => {
            assert(host.store_params(false) =~= none);
            assert(host.store_params(true) =~= seq![compress]);
            text::law_joined_single(compress, "&"@);
        },
        SystemType::Darwin => {
            assert(host.store_params(false) =~= seq![program]);
            assert(host.store_params(true) =~= seq![program] + seq![compress]);
            text::law_joined_single(program, "&"@);
            text::law_joined_single(compress, "&"@);
            text::law_joined_lists_join(seq![program], seq![compress], "&"@);
            assert(host.store_uri(false) =~= plain + daemon);
            assert(host.store_uri(true) =~= plain + daemon + "&"@ + compress);
        },
    }
}

} // verus!
